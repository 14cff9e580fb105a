//! The alert list of a symbol, the wizard that adds an alert, and the
//! engine that tells which alerts fire on the quotes at hand.

use super::{App, AppModel, InputMode, ViewMode};
use crate::api::StockQuoteModel;
use crate::config::{Alert, AlertModel, AlertType, ConfigModel};
use crate::number::{parse_amount, parsed_amount, push_signed, push_text, signed_text};
use crate::quotes::{quote_of, QuoteCache};
use crate::text::{join2, text_of, trimmed, uppercase_of};
use vstd::prelude::*;

verus! {

/// The message that tells of an alert that fired on a quote.
pub open spec fn alert_message(alert: AlertModel, quote: StockQuoteModel) -> Seq<char> {
    match alert.alert_type {
        AlertType::Above => alert.symbol + " crossed above "@ + signed_text(
            alert.target_value as int,
            0,
        ),
        AlertType::Below => alert.symbol + " crossed below "@ + signed_text(
            alert.target_value as int,
            0,
        ),
        AlertType::PercentGain => alert.symbol + " up "@ + signed_text(
            quote.change_percent as int,
            2,
        ) + "% (target +"@ + signed_text(alert.target_value as int, 2) + "%)"@,
        AlertType::PercentLoss => alert.symbol + " down "@ + signed_text(
            quote.change_percent as int,
            2,
        ) + "% (target -"@ + signed_text(alert.target_value as int, 2) + "%)"@,
    }
}

/// Whether an alert fires at time `now` on the quotes at hand: there is a
/// quote for its symbol and the alert fires on it.
pub open spec fn alert_fires(
    quotes: Map<Seq<char>, StockQuoteModel>,
    alert: AlertModel,
    now: u64,
) -> bool {
    match quote_of(quotes, alert.symbol) {
        Some(q) => alert.fires(q.price, q.change_percent, now),
        None => false,
    }
}

/// What one pass of the engine reports: for each alert that fires, in the
/// order of the alerts, its symbol and its message.
pub open spec fn triggered_of(
    quotes: Map<Seq<char>, StockQuoteModel>,
    alerts: Seq<AlertModel>,
    now: u64,
) -> Seq<(Seq<char>, Seq<char>)>
    decreases alerts.len(),
{
    if alerts.len() == 0 {
        Seq::empty()
    } else {
        let front = triggered_of(quotes, alerts.drop_last(), now);
        let last = alerts.last();
        if alert_fires(quotes, last, now) {
            front.push((last.symbol, alert_message(last, quotes[last.symbol])))
        } else {
            front
        }
    }
}

/// The alerts after one pass of the engine: each alert that fired is
/// stamped with the time of the pass, the others are as they were.
pub open spec fn stamped_of(
    quotes: Map<Seq<char>, StockQuoteModel>,
    alerts: Seq<AlertModel>,
    now: u64,
) -> Seq<AlertModel> {
    Seq::new(
        alerts.len(),
        |i: int|
            if alert_fires(quotes, alerts[i], now) {
                AlertModel { last_triggered: Some(now), ..alerts[i] }
            } else {
                alerts[i]
            },
    )
}

/// The message that tells of an alert that fired on a quote.
fn message_for(alert: &Alert, change_percent: i64) -> (r: String)
    ensures
        forall|quote: StockQuoteModel|
            quote.change_percent == change_percent ==> r@ == #[trigger] alert_message(
                alert@,
                quote,
            ),
{
    let mut out: Vec<char> = Vec::new();
    push_text(&mut out, alert.symbol.as_str());
    match alert.alert_type {
        AlertType::Above => {
            push_text(&mut out, " crossed above ");
            push_signed(&mut out, alert.target_value as i128, 0);
            assert(out@ =~= alert@.symbol + " crossed above "@ + signed_text(
                alert.target_value as int,
                0,
            ));
        },
        AlertType::Below => {
            push_text(&mut out, " crossed below ");
            push_signed(&mut out, alert.target_value as i128, 0);
            assert(out@ =~= alert@.symbol + " crossed below "@ + signed_text(
                alert.target_value as int,
                0,
            ));
        },
        AlertType::PercentGain => {
            push_text(&mut out, " up ");
            push_signed(&mut out, change_percent as i128, 2);
            push_text(&mut out, "% (target +");
            push_signed(&mut out, alert.target_value as i128, 2);
            push_text(&mut out, "%)");
            assert(out@ =~= alert@.symbol + " up "@ + signed_text(change_percent as int, 2)
                + "% (target +"@ + signed_text(alert.target_value as int, 2) + "%)"@);
        },
        AlertType::PercentLoss => {
            push_text(&mut out, " down ");
            push_signed(&mut out, change_percent as i128, 2);
            push_text(&mut out, "% (target -");
            push_signed(&mut out, alert.target_value as i128, 2);
            push_text(&mut out, "%)");
            assert(out@ =~= alert@.symbol + " down "@ + signed_text(change_percent as int, 2)
                + "% (target -"@ + signed_text(alert.target_value as int, 2) + "%)"@);
        },
    }
    text_of(&out)
}

/// One pass of the alert engine at time `now`: every alert that fires on
/// the quotes at hand is stamped with `now` and reported with its symbol and
/// a message.
pub fn evaluate_alerts(alerts: &mut Vec<Alert>, quotes: &QuoteCache, now: u64) -> (triggered: Vec<
    (String, String),
>)
    ensures
        triggered.deep_view() == triggered_of(quotes@, old(alerts).deep_view(), now),
        final(alerts).deep_view() == stamped_of(quotes@, old(alerts).deep_view(), now),
{
    let ghost before = alerts.deep_view();
    let mut triggered: Vec<(String, String)> = Vec::new();
    let n = alerts.len();
    let mut i: usize = 0;
    while i < n
        invariant
            i <= n,
            n == alerts.len(),
            before.len() == n,
            triggered.deep_view() == triggered_of(quotes@, before.take(i as int), now),
            forall|k: int| 0 <= k < i ==> (#[trigger] alerts.deep_view()[k]) == stamped_of(
                quotes@,
                before,
                now,
            )[k],
            forall|k: int| i <= k < n ==> (#[trigger] alerts.deep_view()[k]) == before[k],
        decreases n - i,
    {
        proof {
            assert(before.take(i + 1).drop_last() =~= before.take(i as int));
            assert(before.take(i + 1).last() == before[i as int]);
            assert(alerts.deep_view()[i as int] == before[i as int]);
        }
        let fired: Option<i64> = match quotes.get(alerts[i].symbol.as_str()) {
            Some(q) => if alerts[i].should_trigger_at(q.price, q.change_percent, now) {
                Some(q.change_percent)
            } else {
                None
            },
            None => None,
        };
        if let Some(change_percent) = fired {
            let message = message_for(&alerts[i], change_percent);
            let ghost shown = triggered.deep_view();
            let ghost row = (alerts[i as int].symbol@, message@);
            let ghost current = alerts.deep_view();
            triggered.push((alerts[i].symbol.clone(), message));
            assert(triggered.deep_view() =~= shown.push(row));
            alerts[i].last_triggered = Some(now);
            proof {
                assert forall|k: int| 0 <= k < n && k != i implies (
                #[trigger] alerts.deep_view()[k]) == current[k] by {}
            }
        }
        i += 1;
    }
    assert(before.take(n as int) =~= before);
    assert(alerts.deep_view() =~= stamped_of(quotes@, before, now));
    triggered
}

impl AppModel {
    /// The symbol that an alert list opened now would be for: that of the
    /// selected row of the watchlist or portfolio view.
    pub open spec fn alert_target(self) -> Option<Seq<char>> {
        match self.view_mode {
            ViewMode::Watchlist => self.selected_watchlist_symbol(),
            ViewMode::Portfolio => self.selected_portfolio_symbol(),
            ViewMode::News => None,
        }
    }

    /// The session after the alert key: the alert list of the selected
    /// symbol opens; a message says so where no symbol is selected; the news
    /// view has no alerts.
    pub open spec fn open_alert_modal(self) -> AppModel {
        if self.view_mode == ViewMode::News {
            self
        } else {
            match self.alert_target() {
                Some(symbol) => AppModel {
                    alert_symbol: Some(symbol),
                    alert_list_selected: 0,
                    input_mode: InputMode::AlertList,
                    ..self
                },
                None => AppModel { status_message: Some("No symbol selected"@), ..self },
            }
        }
    }

    /// The alerts that the open alert list shows.
    pub open spec fn listed_alerts(self) -> Seq<AlertModel> {
        match self.alert_symbol {
            Some(symbol) => self.config.alerts_for(uppercase_of(symbol)),
            None => Seq::empty(),
        }
    }

    /// The session after the confirm key in the alert list: on the row
    /// behind the last alert the add wizard starts, on an alert the first
    /// alert of its id is switched on or off and the store is due for
    /// saving. Nothing changes where no list is open.
    pub open spec fn alert_list_confirm(self) -> AppModel {
        if self.alert_symbol.is_none() {
            self
        } else if self.alert_list_selected == self.listed_alerts().len() {
            AppModel {
                pending_alert_type: AlertType::Above,
                input_buffer: Seq::empty(),
                input_mode: InputMode::AlertAddType,
                ..self
            }
        } else if self.alert_list_selected < self.listed_alerts().len() {
            AppModel {
                config: self.config.toggle_alert(
                    self.listed_alerts()[self.alert_list_selected as int].id,
                ),
                needs_save: true,
                ..self
            }
        } else {
            self
        }
    }

    /// The session after the delete key in the alert list: the selected
    /// alert is removed (with every alert of its id), the store is due for
    /// saving, and the selection moves up one row where it would point
    /// behind the alerts that are left.
    pub open spec fn alert_list_delete(self) -> AppModel {
        if self.alert_symbol.is_some() && self.alert_list_selected < self.listed_alerts().len() {
            let removed = AppModel {
                config: self.config.remove_alert(
                    self.listed_alerts()[self.alert_list_selected as int].id,
                ),
                needs_save: true,
                status_message: Some("Alert deleted"@),
                ..self
            };
            AppModel {
                alert_list_selected: if self.alert_list_selected > 0 && self.alert_list_selected
                    >= removed.listed_alerts().len() {
                    (self.alert_list_selected - 1) as usize
                } else {
                    self.alert_list_selected
                },
                ..removed
            }
        } else {
            self
        }
    }

    /// The target that was typed for a new alert, if it is an amount above
    /// 0 that fits.
    pub open spec fn typed_alert_value(self) -> Option<i64> {
        match parsed_amount(trimmed(self.input_buffer)) {
            Some(v) => if 0 < v <= i64::MAX {
                Some(v as i64)
            } else {
                None
            },
            None => None,
        }
    }

    /// The session after the value of a new alert was confirmed at time
    /// `now`. A value above 0 ends the wizard: the alert is added for the
    /// list's symbol, the store is due for saving, and the list shows with
    /// the new alert selected. Any other input is rejected with a message
    /// and the step stays.
    pub open spec fn alert_value_confirm(self, now: u64) -> AppModel {
        match self.typed_alert_value() {
            Some(value) => {
                let added = match self.alert_symbol {
                    Some(symbol) => {
                        let config = ConfigModel {
                            alerts: self.config.alerts.push(
                                AlertModel::created(symbol, self.pending_alert_type, value, now),
                            ),
                            ..self.config
                        };
                        AppModel {
                            config,
                            needs_save: true,
                            status_message: Some("Alert added for "@ + symbol),
                            alert_list_selected: if config.alerts_for(uppercase_of(symbol)).len()
                                > 0 {
                                (config.alerts_for(uppercase_of(symbol)).len() - 1) as usize
                            } else {
                                0
                            },
                            ..self
                        }
                    },
                    None => self,
                };
                AppModel {
                    input_buffer: Seq::empty(),
                    input_mode: InputMode::AlertList,
                    ..added
                }
            },
            None => self.input_rejected(
                if parsed_amount(trimmed(self.input_buffer)) == Some(0u64) {
                    "Value must be > 0"@
                } else {
                    "Invalid number"@
                },
            ),
        }
    }

    /// The session after one pass of the alert engine at time `now`: the
    /// alerts that fired are stamped, and the store is due for saving if
    /// any did.
    pub open spec fn check_alerts(self, now: u64) -> AppModel {
        AppModel {
            config: ConfigModel {
                alerts: stamped_of(self.quotes, self.config.alerts, now),
                ..self.config
            },
            needs_save: self.needs_save || triggered_of(self.quotes, self.config.alerts, now).len()
                > 0,
            ..self
        }
    }
}

impl App {
    /// Opens the alert list of the selected symbol.
    pub fn open_alert_modal(&mut self)
        requires
            old(self).wf(),
        ensures
            final(self)@ == old(self)@.open_alert_modal(),
    {
        let symbol = match self.current_view() {
            ViewMode::Watchlist => self.selected_watchlist_symbol(),
            ViewMode::Portfolio => self.selected_portfolio_symbol(),
            ViewMode::News => {
                return ;
            },
        };
        self.show_alert_list(symbol);
    }

    /// The view that is shown.
    pub(crate) fn current_view(&self) -> (r: ViewMode)
        ensures
            r == self@.view_mode,
    {
        proof {
            reveal(App::model);
        }
        self.view_mode
    }

    /// Opens the alert list of a symbol, or says that there is none.
    fn show_alert_list(&mut self, symbol: Option<String>)
        ensures
            final(self)@ == (match symbol.deep_view() {
                Some(s) => AppModel {
                    alert_symbol: Some(s),
                    alert_list_selected: 0,
                    input_mode: InputMode::AlertList,
                    ..old(self)@
                },
                None => AppModel { status_message: Some("No symbol selected"@), ..old(self)@ },
            }),
    {
        proof {
            reveal(App::model);
        }
        match symbol {
            Some(s) => {
                self.alert_symbol = Some(s);
                self.alert_list_selected = 0;
                self.input_mode = InputMode::AlertList;
            },
            None => {
                self.status_message = Some(String::from_str("No symbol selected"));
            },
        }
    }

    /// Closes the alert list.
    pub fn close_alert_modal(&mut self)
        ensures
            final(self)@ == (AppModel {
                alert_symbol: None,
                alert_list_selected: 0,
                input_mode: InputMode::Normal,
                input_buffer: Seq::empty(),
                ..old(self)@
            }),
    {
        proof {
            reveal(App::model);
        }
        self.alert_symbol = None;
        self.alert_list_selected = 0;
        self.input_mode = InputMode::Normal;
        self.input_buffer.clear();
    }

    /// Moves the selection of the alert list one row up.
    pub fn alert_list_up(&mut self)
        ensures
            final(self)@ == (AppModel {
                alert_list_selected: if old(self)@.alert_list_selected > 0 {
                    (old(self)@.alert_list_selected - 1) as usize
                } else {
                    0
                },
                ..old(self)@
            }),
    {
        proof {
            reveal(App::model);
        }
        if self.alert_list_selected > 0 {
            self.alert_list_selected -= 1;
        }
    }

    /// Number of alerts that the open alert list shows.
    fn listed_alert_count(&self) -> (r: usize)
        ensures
            r == self@.listed_alerts().len(),
    {
        proof {
            reveal(App::model);
        }
        match &self.alert_symbol {
            Some(symbol) => self.config.alerts_for_symbol(symbol.as_str()).len(),
            None => 0,
        }
    }

    /// The id of the alert at `index` of the open alert list.
    fn listed_alert_id(&self, index: usize) -> (r: Option<String>)
        ensures
            r.deep_view() == (if self@.alert_symbol.is_some() && index
                < self@.listed_alerts().len() {
                Some(self@.listed_alerts()[index as int].id)
            } else {
                None
            }),
    {
        proof {
            reveal(App::model);
        }
        match &self.alert_symbol {
            Some(symbol) => {
                let listed = self.config.alerts_for_symbol(symbol.as_str());
                if index < listed.len() {
                    Some(listed[index].id.clone())
                } else {
                    None
                }
            },
            None => None,
        }
    }

    /// Sets the selection of the alert list.
    fn select_alert(&mut self, index: usize)
        ensures
            final(self)@ == (AppModel { alert_list_selected: index, ..old(self)@ }),
    {
        proof {
            reveal(App::model);
        }
        self.alert_list_selected = index;
    }

    /// The selection of the alert list.
    fn selected_alert(&self) -> (r: usize)
        ensures
            r == self@.alert_list_selected,
    {
        proof {
            reveal(App::model);
        }
        self.alert_list_selected
    }

    /// Whether an alert list is open.
    fn has_alert_symbol(&self) -> (r: bool)
        ensures
            r == self@.alert_symbol.is_some(),
    {
        proof {
            reveal(App::model);
        }
        self.alert_symbol.is_some()
    }

    /// Moves the selection of the alert list one row down; the last row is
    /// the one behind the alerts, which adds a new one.
    pub fn alert_list_down(&mut self)
        ensures
            final(self)@ == (AppModel {
                alert_list_selected: if old(self)@.alert_list_selected
                    < old(self)@.listed_alerts().len() {
                    (old(self)@.alert_list_selected + 1) as usize
                } else {
                    old(self)@.alert_list_selected
                },
                ..old(self)@
            }),
    {
        let count = self.listed_alert_count();
        let selected = self.selected_alert();
        if selected < count {
            self.select_alert(selected + 1);
        } else {
            self.select_alert(selected);
        }
    }

    /// Starts the wizard that adds an alert.
    fn start_alert_add(&mut self)
        ensures
            final(self)@ == (AppModel {
                pending_alert_type: AlertType::Above,
                input_buffer: Seq::empty(),
                input_mode: InputMode::AlertAddType,
                ..old(self)@
            }),
    {
        proof {
            reveal(App::model);
        }
        self.pending_alert_type = AlertType::Above;
        self.input_buffer.clear();
        self.input_mode = InputMode::AlertAddType;
    }

    /// Switches the first alert with the id on or off.
    fn toggle_alert(&mut self, id: &str)
        ensures
            final(self)@ == (AppModel {
                config: old(self)@.config.toggle_alert(id@),
                needs_save: true,
                ..old(self)@
            }),
    {
        proof {
            reveal(App::model);
        }
        self.config.toggle_alert(id);
        self.needs_save = true;
    }

    /// Removes the alerts with the id.
    fn delete_alert(&mut self, id: &str)
        ensures
            final(self)@ == (AppModel {
                config: old(self)@.config.remove_alert(id@),
                needs_save: true,
                status_message: Some("Alert deleted"@),
                ..old(self)@
            }),
    {
        proof {
            reveal(App::model);
        }
        self.config.remove_alert(id);
        self.needs_save = true;
        self.status_message = Some(String::from_str("Alert deleted"));
    }

    /// Acts on the selected row of the alert list: starts the add wizard on
    /// the last row, switches an alert on or off on any other.
    pub fn alert_list_confirm(&mut self)
        ensures
            final(self)@ == old(self)@.alert_list_confirm(),
    {
        if !self.has_alert_symbol() {
            return ;
        }
        let count = self.listed_alert_count();
        let selected = self.selected_alert();
        if selected == count {
            self.start_alert_add();
        } else if let Some(id) = self.listed_alert_id(selected) {
            self.toggle_alert(id.as_str());
        }
    }

    /// Deletes the selected alert of the alert list.
    pub fn alert_list_delete(&mut self)
        ensures
            final(self)@ == old(self)@.alert_list_delete(),
    {
        let selected = self.selected_alert();
        if let Some(id) = self.listed_alert_id(selected) {
            self.delete_alert(id.as_str());
            let left = self.listed_alert_count();
            if selected > 0 && selected >= left {
                self.select_alert(selected - 1);
            } else {
                self.select_alert(selected);
            }
        }
    }

    /// Goes on to the next kind of alert in the first step of the wizard.
    pub fn alert_type_cycle(&mut self)
        ensures
            final(self)@ == (AppModel {
                pending_alert_type: old(self)@.pending_alert_type.following(),
                ..old(self)@
            }),
    {
        proof {
            reveal(App::model);
        }
        self.pending_alert_type = self.pending_alert_type.next();
    }

    /// Confirms the kind of alert and goes on to its value.
    pub fn alert_type_confirm(&mut self)
        ensures
            final(self)@ == (AppModel {
                input_buffer: Seq::empty(),
                input_mode: InputMode::AlertAddValue,
                ..old(self)@
            }),
    {
        proof {
            reveal(App::model);
        }
        self.input_buffer.clear();
        self.input_mode = InputMode::AlertAddValue;
    }

    /// Adds an alert for the symbol of the open list, if there is one.
    fn add_alert_for_list(&mut self, value: i64, now: u64)
        ensures
            final(self)@ == (match old(self)@.alert_symbol {
                Some(symbol) => {
                    let config = ConfigModel {
                        alerts: old(self)@.config.alerts.push(
                            AlertModel::created(symbol, old(self)@.pending_alert_type, value, now),
                        ),
                        ..old(self)@.config
                    };
                    AppModel {
                        config,
                        needs_save: true,
                        status_message: Some("Alert added for "@ + symbol),
                        ..old(self)@
                    }
                },
                None => old(self)@,
            }),
    {
        proof {
            reveal(App::model);
        }
        if let Some(symbol) = &self.alert_symbol {
            let alert = Alert::new_at(symbol.as_str(), self.pending_alert_type, value, now);
            self.status_message = Some(join2("Alert added for ", symbol.as_str()));
            self.config.add_alert(alert);
            self.needs_save = true;
        }
    }

    /// Shows the alert list again, the text field empty.
    fn back_to_alert_list(&mut self)
        ensures
            final(self)@ == (AppModel {
                input_buffer: Seq::empty(),
                input_mode: InputMode::AlertList,
                ..old(self)@
            }),
    {
        proof {
            reveal(App::model);
        }
        self.input_buffer.clear();
        self.input_mode = InputMode::AlertList;
    }

    /// Confirms the value of the new alert at time `now` (seconds since the
    /// epoch), which ends the wizard.
    pub fn alert_value_confirm_at(&mut self, now: u64)
        ensures
            final(self)@ == old(self)@.alert_value_confirm(now),
    {
        let typed = self.typed();
        match parse_amount(typed.as_str()) {
            Some(v) => {
                if v == 0 {
                    self.reject_input("Value must be > 0");
                } else if v > 0x7fff_ffff_ffff_ffff {
                    self.reject_input("Invalid number");
                } else {
                    let listed = self.has_alert_symbol();
                    self.add_alert_for_list(v as i64, now);
                    if listed {
                        let count = self.listed_alert_count();
                        self.select_alert(
                            if count > 0 {
                                count - 1
                            } else {
                                0
                            },
                        );
                    }
                    self.back_to_alert_list();
                }
            },
            None => {
                self.reject_input("Invalid number");
            },
        }
    }

    /// Confirms the value of the new alert now, by the system clock.
    pub fn alert_value_confirm(&mut self)
        ensures
            exists|now: u64| final(self)@ == old(self)@.alert_value_confirm(now),
    {
        let now = crate::clock::unix_now();
        self.alert_value_confirm_at(now);
    }

    /// Leaves the wizard that adds an alert and shows the alert list again;
    /// the kind that was picked is forgotten.
    pub fn cancel_alert_add(&mut self)
        ensures
            final(self)@ == (AppModel {
                input_buffer: Seq::empty(),
                input_mode: InputMode::AlertList,
                pending_alert_type: AlertType::Above,
                ..old(self)@
            }),
    {
        proof {
            reveal(App::model);
        }
        self.input_buffer.clear();
        self.input_mode = InputMode::AlertList;
        self.pending_alert_type = AlertType::Above;
    }

    /// One pass of the alert engine at time `now` (seconds since the
    /// epoch) over every alert whose symbol has a quote. Each alert that
    /// fires is stamped with `now` and reported with its symbol and a
    /// message; the store is marked as due for saving once if any fired.
    pub fn check_alerts_at(&mut self, now: u64) -> (triggered: Vec<(String, String)>)
        ensures
            triggered.deep_view() == triggered_of(old(self)@.quotes, old(self)@.config.alerts, now),
            final(self)@ == old(self)@.check_alerts(now),
    {
        proof {
            reveal(App::model);
        }
        let triggered = evaluate_alerts(&mut self.config.alerts, &self.quotes, now);
        if !triggered.is_empty() {
            self.needs_save = true;
        }
        triggered
    }

    /// One pass of the alert engine now, by the system clock.
    pub fn check_alerts(&mut self) -> (triggered: Vec<(String, String)>)
        ensures
            exists|now: u64|
                triggered.deep_view() == triggered_of(
                    old(self)@.quotes,
                    old(self)@.config.alerts,
                    now,
                ) && final(self)@ == old(self)@.check_alerts(now),
    {
        let now = crate::clock::unix_now();
        self.check_alerts_at(now)
    }

    /// Puts a message into the status line.
    fn show_status(&mut self, message: String)
        ensures
            final(self)@ == (AppModel { status_message: Some(message@), ..old(self)@ }),
    {
        proof {
            reveal(App::model);
        }
        self.status_message = Some(message);
    }

    /// Takes in the outcome of a quote fetch at time `now` (seconds since
    /// the epoch) and, where quotes came, runs one pass of the alert engine
    /// on them; the status line then shows the message of the last alert
    /// that fired. Returns what the engine reports; nothing after a failed
    /// fetch, which leaves quotes and alerts as they were.
    pub fn complete_refresh_at(&mut self, outcome: Result<QuoteCache, String>, now: u64) -> (triggered:
        Vec<(String, String)>)
        ensures
            (final(self)@, triggered.deep_view()) == old(self)@.complete_refresh(outcome, now),
    {
        let fetched = outcome.is_ok();
        self.execute_refresh(outcome);
        if fetched {
            let triggered = self.check_alerts_at(now);
            if triggered.len() > 0 {
                self.show_status(triggered[triggered.len() - 1].1.clone());
            }
            triggered
        } else {
            let nothing: Vec<(String, String)> = Vec::new();
            assert(nothing.deep_view() =~= Seq::<(Seq<char>, Seq<char>)>::empty());
            nothing
        }
    }

    /// Takes in the outcome of a quote fetch and runs the alert engine on
    /// fresh quotes, at the time of the system clock.
    pub fn complete_refresh(&mut self, outcome: Result<QuoteCache, String>) -> (triggered: Vec<
        (String, String),
    >)
        ensures
            exists|now: u64|
                (final(self)@, triggered.deep_view()) == old(self)@.complete_refresh(outcome, now),
    {
        let now = crate::clock::unix_now();
        self.complete_refresh_at(outcome, now)
    }
}

impl AppModel {
    /// The session after the outcome of a quote fetch was taken in at time
    /// `now`, and what the alert engine reports. Fetched quotes replace the
    /// cache and the engine runs one pass on the new quotes; the status line
    /// shows the message of the last alert that fired, or nothing where
    /// none did. A failure shows in the status line and leaves quotes and
    /// alerts as they were. Either way no fetch is under way any more.
    pub open spec fn complete_refresh(self, outcome: Result<QuoteCache, String>, now: u64) -> (
        AppModel,
        Seq<(Seq<char>, Seq<char>)>,
    ) {
        match outcome {
            Ok(quotes) => {
                let reports = triggered_of(quotes@, self.config.alerts, now);
                (
                    AppModel {
                        status_message: if reports.len() > 0 {
                            Some(reports.last().1)
                        } else {
                            None
                        },
                        ..AppModel { quotes: quotes@, loading: false, ..self }.check_alerts(now)
                    },
                    reports,
                )
            },
            Err(reason) => (
                AppModel { status_message: Some("Error: "@ + reason@), loading: false, ..self },
                Seq::empty(),
            ),
        }
    }
}

} // verus!
