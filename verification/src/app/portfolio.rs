//! The portfolio view: the wizards that add and edit holdings, the
//! portfolios themselves, and the allocation of the active one.

use super::keys::market_price;
use super::navigation::clamped_after_removal;
use super::{App, AppModel, InputMode, TableState};
use crate::config::{
    lemma_position_bounds, percent, percent_of, ConfigModel, HoldingModel, HoldingOf,
    PortfolioModel, MAX_POSITION,
};
use crate::number::{
    amount_string, amount_text, decimal, decimal_string, parse_amount, parse_u32, parsed_amount,
    parsed_u32, push_amount, push_decimal, push_text,
};
use crate::rows::{find_row, order_of, sort_rows, stable_sort, test_of, RowOrder};
use crate::text::{join3, join5, text_of, trim, trimmed, uppercase_of};
use vstd::prelude::*;

verus! {

/// The order of the allocation: the larger value first.
pub struct LargerValueFirst {}

impl RowOrder<(String, u128)> for LargerValueFirst {
    open spec fn le(&self, a: (Seq<char>, u128), b: (Seq<char>, u128)) -> bool {
        a.1 >= b.1
    }

    proof fn le_total(&self, a: (Seq<char>, u128), b: (Seq<char>, u128)) {
    }

    proof fn le_transitive(
        &self,
        a: (Seq<char>, u128),
        b: (Seq<char>, u128),
        c: (Seq<char>, u128),
    ) {
    }

    fn may_precede(&self, a: &(String, u128), b: &(String, u128)) -> (r: bool) {
        a.1 >= b.1
    }
}

/// The sum of the values, capped at the largest 128-bit number.
pub open spec fn total_value(values: Seq<(Seq<char>, u128)>) -> nat
    decreases values.len(),
{
    if values.len() == 0 {
        0
    } else {
        let sum = total_value(values.drop_last()) + values.last().1;
        if sum > u128::MAX {
            u128::MAX as nat
        } else {
            sum as nat
        }
    }
}

impl AppModel {
    /// The session with a message in the status line and the text field
    /// emptied, in the mode it was in: what a rejected input leaves.
    pub open spec fn input_rejected(self, message: Seq<char>) -> AppModel {
        AppModel { status_message: Some(message), input_buffer: Seq::empty(), ..self }
    }

    /// The session with the wizard that adds or edits a holding left:
    /// normal mode, the text field and every value it had collected gone.
    pub open spec fn holding_wizard_left(self) -> AppModel {
        AppModel {
            input_mode: InputMode::Normal,
            input_buffer: Seq::empty(),
            pending_symbol: None,
            pending_lots: None,
            pending_edit_symbol: None,
            ..self
        }
    }

    /// The first step of adding a holding, confirmed: a symbol, trimmed and
    /// in upper case, leads on to the lots; an empty field ends the wizard
    /// with a message.
    pub open spec fn confirm_portfolio_symbol(self) -> AppModel {
        let symbol = uppercase_of(trimmed(self.input_buffer));
        if symbol.len() == 0 {
            AppModel {
                status_message: Some("Symbol cannot be empty"@),
                input_mode: InputMode::Normal,
                input_buffer: Seq::empty(),
                ..self
            }
        } else {
            AppModel {
                pending_symbol: Some(symbol),
                input_mode: InputMode::PortfolioAddLots,
                input_buffer: Seq::empty(),
                ..self
            }
        }
    }

    /// A lots step, confirmed: a whole number above 0 is kept and leads on
    /// to `next`, with the field holding `prefill`; anything else is
    /// rejected with a message and the step stays.
    pub open spec fn confirm_lots(self, next: InputMode, prefill: Seq<char>) -> AppModel {
        match parsed_u32(trimmed(self.input_buffer)) {
            Some(lots) => if lots > 0 {
                AppModel {
                    pending_lots: Some(lots),
                    input_mode: next,
                    input_buffer: prefill,
                    ..self
                }
            } else {
                self.input_rejected("Lots must be greater than 0"@)
            },
            None => self.input_rejected("Invalid number for lots"@),
        }
    }

    /// What the price step of the edit wizard starts with: the price of the
    /// holding under edit, nothing where that holding is gone, and what the
    /// field held where no symbol is under edit.
    pub open spec fn edit_price_prefill(self) -> Seq<char> {
        match self.pending_edit_symbol {
            Some(symbol) => {
                let holdings = self.config.current_portfolio().holdings;
                let i = self.config.holding_index(symbol);
                if i < holdings.len() {
                    amount_text(holdings[i].avg_price)
                } else {
                    Seq::empty()
                }
            },
            None => self.input_buffer,
        }
    }

    /// What adding the holding that the wizard collected at `price` comes
    /// to: the record store afterwards, whether it changed, and the message
    /// for the status line. The store changes unless the merged lots would
    /// not fit (`add_holding` then leaves it as it is) or the wizard lacks a
    /// value.
    pub open spec fn pending_holding_outcome(self, price: u64) -> (ConfigModel, bool, Seq<char>) {
        match (self.pending_symbol, self.pending_lots) {
            (Some(symbol), Some(lots)) => if self.config.add_holding_accepted(
                uppercase_of(symbol),
                lots,
            ) {
                (
                    self.config.add_holding(uppercase_of(symbol), lots, price),
                    true,
                    "Added "@ + decimal(lots as nat) + " lots of "@ + symbol + " @ "@ + amount_text(
                        price,
                    ),
                )
            } else {
                (
                    self.config.add_holding(uppercase_of(symbol), lots, price),
                    false,
                    "Total lots would exceed maximum (4,294,967,295)"@,
                )
            },
            _ => (self.config, false, "Missing symbol or lots data"@),
        }
    }

    /// What giving the holding under edit the collected lots and `price`
    /// comes to: the record store afterwards, whether it changed, and the
    /// message for the status line.
    pub open spec fn pending_edit_outcome(self, price: u64) -> (ConfigModel, bool, Seq<char>) {
        match (self.pending_edit_symbol, self.pending_lots) {
            (Some(symbol), Some(lots)) => (
                self.config.update_holding(symbol, lots, price),
                true,
                "Updated "@ + symbol + " → "@ + decimal(lots as nat) + " lots @ "@ + amount_text(
                    price,
                ),
            ),
            _ => (self.config, false, "Missing edit data"@),
        }
    }

    /// The session after a wizard's last step came to `outcome`: the store
    /// as it is now, due for saving if it changed, the message shown, and
    /// the wizard left.
    pub open spec fn wizard_finished(self, outcome: (ConfigModel, bool, Seq<char>)) -> AppModel {
        AppModel {
            config: outcome.0,
            needs_save: self.needs_save || outcome.1,
            status_message: Some(outcome.2),
            ..self
        }.holding_wizard_left()
    }

    /// The last step of adding a holding, confirmed. A price above 0 ends
    /// the wizard with the holding added or merged; any other input is
    /// rejected with a message and the step stays.
    pub open spec fn confirm_portfolio_price(self) -> AppModel {
        match parsed_amount(trimmed(self.input_buffer)) {
            Some(price) => if price > 0 {
                self.wizard_finished(self.pending_holding_outcome(price))
            } else {
                self.input_rejected("Price must be greater than 0"@)
            },
            None => self.input_rejected("Invalid number for price"@),
        }
    }

    /// The last step of editing a holding, confirmed. A price above 0 ends
    /// the wizard with the holding changed; any other input is rejected
    /// with a message and the step stays.
    pub open spec fn confirm_portfolio_edit_price(self) -> AppModel {
        match parsed_amount(trimmed(self.input_buffer)) {
            Some(price) => if price > 0 {
                self.wizard_finished(self.pending_edit_outcome(price))
            } else {
                self.input_rejected("Price must be greater than 0"@)
            },
            None => self.input_rejected("Invalid number for price"@),
        }
    }

    /// The edit wizard, started on the selected holding: its symbol is
    /// under edit and the field holds its lots. Nothing changes where no
    /// row is selected.
    pub open spec fn start_portfolio_edit(self) -> AppModel {
        match self.selected_portfolio_symbol() {
            Some(symbol) => {
                let holdings = self.config.current_portfolio().holdings;
                let i = self.config.holding_index(symbol);
                if i < holdings.len() {
                    AppModel {
                        pending_edit_symbol: Some(symbol),
                        input_buffer: decimal(holdings[i].lots as nat),
                        input_mode: InputMode::PortfolioEditLots,
                        ..self
                    }
                } else {
                    self
                }
            },
            None => self,
        }
    }

    /// The session after the selected holding was removed: its symbol
    /// leaves the active portfolio and the quote cache, the store is due
    /// for saving, and the selection moves to the last row where it would point
    /// behind it. Nothing changes where no row is selected.
    pub open spec fn remove_selected_holding(self) -> AppModel {
        match self.selected_portfolio_symbol() {
            Some(symbol) => {
                let removed = AppModel {
                    config: self.config.remove_holding(symbol),
                    quotes: self.quotes.remove(symbol),
                    needs_save: true,
                    status_message: Some("Removed "@ + symbol),
                    ..self
                };
                AppModel {
                    portfolio_selected: clamped_after_removal(
                        self.portfolio_selected,
                        removed.filtered_portfolio().len(),
                    ),
                    ..removed
                }
            },
            None => self,
        }
    }

    /// What the header shows for the active portfolio: its name, and in
    /// brackets its number among the portfolios.
    pub open spec fn portfolio_indicator(self) -> Seq<char> {
        self.config.current_portfolio().name + " ("@ + decimal(
            (self.config.active_portfolio + 1) as nat,
        ) + "/"@ + decimal(self.config.portfolios.len()) + ")"@
    }

    /// The session on another portfolio, or with the portfolios changed:
    /// quotes dropped, selection at the first row, table at its start.
    pub open spec fn portfolio_view_reset(self) -> AppModel {
        AppModel {
            portfolio_selected: 0,
            portfolio_table_state: TableState {
                offset: 0,
                selected: self.portfolio_table_state.selected,
            },
            quotes: Map::empty(),
            ..self
        }
    }

    /// The holdings of the active portfolio, each with its market value.
    pub open spec fn position_values(self) -> Seq<(Seq<char>, u128)> {
        let holdings = self.config.current_portfolio().holdings;
        Seq::new(
            holdings.len(),
            |i: int|
                (
                    holdings[i].symbol,
                    holdings[i].value_at(market_price(self.quotes, holdings[i].symbol)) as u128,
                ),
        )
    }

    /// The allocation of the active portfolio: for each holding its symbol,
    /// its market value, and that value as a percentage of the total, the
    /// largest value first. Every percentage is 0 where the total is 0.
    pub open spec fn portfolio_allocation(self) -> Seq<(Seq<char>, u128, u128)> {
        let sorted = stable_sort(
            self.position_values(),
            |a: (Seq<char>, u128), b: (Seq<char>, u128)| a.1 >= b.1,
        );
        let total = total_value(self.position_values());
        Seq::new(
            sorted.len(),
            |i: int| (sorted[i].0, sorted[i].1, percent_of(sorted[i].1 as int, total as int) as u128),
        )
    }
}

/// The message that a holding was added.
fn added_message(lots: u32, symbol: &str, price: u64) -> (r: String)
    ensures
        r@ == "Added "@ + decimal(lots as nat) + " lots of "@ + symbol@ + " @ "@ + amount_text(price),
{
    let mut out: Vec<char> = Vec::new();
    push_text(&mut out, "Added ");
    push_decimal(&mut out, lots as u128);
    push_text(&mut out, " lots of ");
    push_text(&mut out, symbol);
    push_text(&mut out, " @ ");
    push_amount(&mut out, price);
    assert(out@ =~= "Added "@ + decimal(lots as nat) + " lots of "@ + symbol@ + " @ "@
        + amount_text(price));
    text_of(&out)
}

/// The message that a holding was changed.
fn updated_message(symbol: &str, lots: u32, price: u64) -> (r: String)
    ensures
        r@ == "Updated "@ + symbol@ + " → "@ + decimal(lots as nat) + " lots @ "@ + amount_text(
            price,
        ),
{
    let mut out: Vec<char> = Vec::new();
    push_text(&mut out, "Updated ");
    push_text(&mut out, symbol);
    push_text(&mut out, " → ");
    push_decimal(&mut out, lots as u128);
    push_text(&mut out, " lots @ ");
    push_amount(&mut out, price);
    assert(out@ =~= "Updated "@ + symbol@ + " → "@ + decimal(lots as nat) + " lots @ "@
        + amount_text(price));
    text_of(&out)
}

impl App {
    /// Starts the wizard that adds a holding.
    pub fn start_portfolio_add(&mut self)
        ensures
            final(self)@ == (AppModel {
                input_mode: InputMode::PortfolioAddSymbol,
                input_buffer: Seq::empty(),
                pending_symbol: None,
                pending_lots: None,
                ..old(self)@
            }),
    {
        proof {
            reveal(App::model);
        }
        self.input_mode = InputMode::PortfolioAddSymbol;
        self.input_buffer.clear();
        self.pending_symbol = None;
        self.pending_lots = None;
    }

    /// Confirms the symbol of the holding to add.
    pub fn confirm_portfolio_symbol(&mut self)
        ensures
            final(self)@ == old(self)@.confirm_portfolio_symbol(),
    {
        proof {
            reveal(App::model);
        }
        let typed = trim(self.input_buffer.as_str());
        let symbol = typed.as_str().to_uppercase();
        if symbol.as_str().is_empty() {
            self.status_message = Some(String::from_str("Symbol cannot be empty"));
            self.input_mode = InputMode::Normal;
        } else {
            self.pending_symbol = Some(symbol);
            self.input_mode = InputMode::PortfolioAddLots;
        }
        self.input_buffer.clear();
    }

    /// Shows a message and empties the text field; the mode stays.
    pub(crate) fn reject_input(&mut self, message: &str)
        ensures
            final(self)@ == old(self)@.input_rejected(message@),
    {
        proof {
            reveal(App::model);
        }
        self.status_message = Some(String::from_str(message));
        self.input_buffer.clear();
    }

    /// Keeps the lots and goes on to the next step with the field holding
    /// `prefill`.
    fn accept_lots(&mut self, lots: u32, next: InputMode, prefill: String)
        ensures
            final(self)@ == (AppModel {
                pending_lots: Some(lots),
                input_mode: next,
                input_buffer: prefill@,
                ..old(self)@
            }),
    {
        proof {
            reveal(App::model);
        }
        self.pending_lots = Some(lots);
        self.input_mode = next;
        self.input_buffer = prefill;
    }

    /// What was typed, without the white space around it.
    pub(crate) fn typed(&self) -> (r: String)
        ensures
            r@ == trimmed(self@.input_buffer),
    {
        proof {
            reveal(App::model);
        }
        trim(self.input_buffer.as_str())
    }

    /// Confirms the lots of the holding to add.
    pub fn confirm_portfolio_lots(&mut self)
        ensures
            final(self)@ == old(self)@.confirm_lots(InputMode::PortfolioAddPrice, Seq::empty()),
    {
        let typed = self.typed();
        match parse_u32(typed.as_str()) {
            Some(lots) => {
                if lots > 0 {
                    self.accept_lots(lots, InputMode::PortfolioAddPrice, String::new());
                } else {
                    self.reject_input("Lots must be greater than 0");
                }
            },
            None => {
                self.reject_input("Invalid number for lots");
            },
        }
    }

    /// Leaves the wizard with a message: normal mode, the text field and
    /// every value the wizard had collected gone.
    fn leave_holding_wizard(&mut self, message: String)
        ensures
            final(self)@ == (AppModel {
                status_message: Some(message@),
                ..old(self)@
            }).holding_wizard_left(),
    {
        proof {
            reveal(App::model);
        }
        self.status_message = Some(message);
        self.input_mode = InputMode::Normal;
        self.input_buffer.clear();
        self.pending_symbol = None;
        self.pending_lots = None;
        self.pending_edit_symbol = None;
    }

    /// The symbol and the lots that the add wizard has collected, if it
    /// has both.
    fn pending_add(&self) -> (r: Option<(String, u32)>)
        ensures
            r.deep_view() == (match (self@.pending_symbol, self@.pending_lots) {
                (Some(symbol), Some(lots)) => Some((symbol, lots)),
                _ => None,
            }),
    {
        proof {
            reveal(App::model);
        }
        match (&self.pending_symbol, self.pending_lots) {
            (Some(symbol), Some(lots)) => Some((symbol.clone(), lots)),
            _ => None,
        }
    }

    /// The symbol under edit and the lots that the edit wizard has
    /// collected, if it has both.
    fn pending_edit(&self) -> (r: Option<(String, u32)>)
        ensures
            r.deep_view() == (match (self@.pending_edit_symbol, self@.pending_lots) {
                (Some(symbol), Some(lots)) => Some((symbol, lots)),
                _ => None,
            }),
    {
        proof {
            reveal(App::model);
        }
        match (&self.pending_edit_symbol, self.pending_lots) {
            (Some(symbol), Some(lots)) => Some((symbol.clone(), lots)),
            _ => None,
        }
    }

    /// Adds a holding to the active portfolio, or merges it into the one
    /// that is there, and marks the store as due for saving if that was
    /// accepted.
    fn store_holding(&mut self, symbol: &str, lots: u32, price: u64) -> (ok: bool)
        requires
            old(self).wf(),
        ensures
            ok == old(self)@.config.add_holding_accepted(uppercase_of(symbol@), lots),
            final(self)@ == (AppModel {
                config: old(self)@.config.add_holding(uppercase_of(symbol@), lots, price),
                needs_save: old(self)@.needs_save || ok,
                ..old(self)@
            }),
            final(self).wf(),
    {
        proof {
            reveal(App::model);
        }
        let ok = self.config.add_holding(symbol, lots, price);
        self.needs_save = self.needs_save || ok;
        ok
    }

    /// Gives a holding of the active portfolio new lots and a new price and
    /// marks the store as due for saving.
    fn store_edit(&mut self, symbol: &str, lots: u32, price: u64)
        requires
            old(self).wf(),
        ensures
            final(self)@ == (AppModel {
                config: old(self)@.config.update_holding(symbol@, lots, price),
                needs_save: true,
                ..old(self)@
            }),
            final(self).wf(),
    {
        proof {
            reveal(App::model);
        }
        self.config.update_holding(symbol, lots, price);
        self.needs_save = true;
    }

    /// Adds the holding that the wizard collected at the given price, and
    /// says in its result what the status line should show.
    fn add_pending_holding(&mut self, price: u64) -> (message: String)
        requires
            old(self).wf(),
        ensures
            final(self)@ == (AppModel {
                config: old(self)@.pending_holding_outcome(price).0,
                needs_save: old(self)@.needs_save || old(self)@.pending_holding_outcome(price).1,
                ..old(self)@
            }),
            message@ == old(self)@.pending_holding_outcome(price).2,
            final(self).wf(),
    {
        match self.pending_add() {
            Some((symbol, lots)) => {
                if self.store_holding(symbol.as_str(), lots, price) {
                    added_message(lots, symbol.as_str(), price)
                } else {
                    String::from_str("Total lots would exceed maximum (4,294,967,295)")
                }
            },
            None => String::from_str("Missing symbol or lots data"),
        }
    }

    /// Confirms the price of the holding to add, which ends the wizard.
    pub fn confirm_portfolio_price(&mut self)
        requires
            old(self).wf(),
        ensures
            final(self)@ == old(self)@.confirm_portfolio_price(),
            final(self).wf(),
    {
        let typed = self.typed();
        match parse_amount(typed.as_str()) {
            Some(price) => {
                if price > 0 {
                    let message = self.add_pending_holding(price);
                    self.leave_holding_wizard(message);
                } else {
                    self.reject_input("Price must be greater than 0");
                }
            },
            None => {
                self.reject_input("Invalid number for price");
            },
        }
    }

    /// Leaves the wizard that adds a holding.
    pub fn cancel_portfolio_add(&mut self)
        ensures
            final(self)@ == old(self)@.holding_wizard_left(),
    {
        proof {
            reveal(App::model);
        }
        self.input_mode = InputMode::Normal;
        self.input_buffer.clear();
        self.pending_symbol = None;
        self.pending_lots = None;
        self.pending_edit_symbol = None;
    }

    /// Starts the wizard that edits the selected holding.
    pub fn start_portfolio_edit(&mut self)
        requires
            old(self).wf(),
        ensures
            final(self)@ == old(self)@.start_portfolio_edit(),
    {
        if let Some(symbol) = self.selected_portfolio_symbol() {
            self.begin_edit(symbol);
        }
    }

    /// Puts a symbol of the active portfolio under edit.
    fn begin_edit(&mut self, symbol: String)
        requires
            old(self).wf(),
        ensures
            final(self)@ == ({
                let holdings = old(self)@.config.current_portfolio().holdings;
                let i = old(self)@.config.holding_index(symbol@);
                if i < holdings.len() {
                    AppModel {
                        pending_edit_symbol: Some(symbol@),
                        input_buffer: decimal(holdings[i].lots as nat),
                        input_mode: InputMode::PortfolioEditLots,
                        ..old(self)@
                    }
                } else {
                    old(self)@
                }
            }),
    {
        proof {
            reveal(App::model);
        }
        let filter = HoldingOf { symbol: symbol.as_str() };
        let holdings = &self.config.current_portfolio().holdings;
        let found = find_row(holdings, &filter);
        assert(test_of::<crate::config::Holding, HoldingOf>(&filter) =~= (|h: HoldingModel|
            h.symbol == symbol@));
        if let Some(i) = found {
            let lots = holdings[i].lots;
            self.input_buffer = decimal_string(lots as u128);
            self.pending_edit_symbol = Some(symbol);
            self.input_mode = InputMode::PortfolioEditLots;
        }
    }

    /// What the price step of the edit wizard starts with.
    fn edit_price_prefill(&self) -> (r: String)
        requires
            self.wf(),
        ensures
            r@ == self@.edit_price_prefill(),
    {
        proof {
            reveal(App::model);
        }
        match &self.pending_edit_symbol {
            Some(symbol) => {
                let filter = HoldingOf { symbol: symbol.as_str() };
                let holdings = &self.config.current_portfolio().holdings;
                let found = find_row(holdings, &filter);
                assert(test_of::<crate::config::Holding, HoldingOf>(&filter) =~= (|
                    h: HoldingModel,
                | h.symbol == symbol@));
                match found {
                    Some(i) => amount_string(holdings[i].avg_price),
                    None => String::new(),
                }
            },
            None => self.input_buffer.clone(),
        }
    }

    /// Confirms the new lots of the holding under edit.
    pub fn confirm_portfolio_edit_lots(&mut self)
        requires
            old(self).wf(),
        ensures
            final(self)@ == old(self)@.confirm_lots(
                InputMode::PortfolioEditPrice,
                old(self)@.edit_price_prefill(),
            ),
    {
        let typed = self.typed();
        match parse_u32(typed.as_str()) {
            Some(lots) => {
                if lots > 0 {
                    let prefill = self.edit_price_prefill();
                    self.accept_lots(lots, InputMode::PortfolioEditPrice, prefill);
                } else {
                    self.reject_input("Lots must be greater than 0");
                }
            },
            None => {
                self.reject_input("Invalid number for lots");
            },
        }
    }

    /// Gives the holding under edit the lots that the wizard collected and
    /// the given price, and says in its result what the status line should
    /// show.
    fn update_pending_holding(&mut self, price: u64) -> (message: String)
        requires
            old(self).wf(),
        ensures
            final(self)@ == (AppModel {
                config: old(self)@.pending_edit_outcome(price).0,
                needs_save: old(self)@.needs_save || old(self)@.pending_edit_outcome(price).1,
                ..old(self)@
            }),
            message@ == old(self)@.pending_edit_outcome(price).2,
            final(self).wf(),
    {
        match self.pending_edit() {
            Some((symbol, lots)) => {
                self.store_edit(symbol.as_str(), lots, price);
                updated_message(symbol.as_str(), lots, price)
            },
            None => String::from_str("Missing edit data"),
        }
    }

    /// Confirms the new price of the holding under edit, which ends the
    /// wizard.
    pub fn confirm_portfolio_edit_price(&mut self)
        requires
            old(self).wf(),
        ensures
            final(self)@ == old(self)@.confirm_portfolio_edit_price(),
            final(self).wf(),
    {
        let typed = self.typed();
        match parse_amount(typed.as_str()) {
            Some(price) => {
                if price > 0 {
                    let message = self.update_pending_holding(price);
                    self.leave_holding_wizard(message);
                } else {
                    self.reject_input("Price must be greater than 0");
                }
            },
            None => {
                self.reject_input("Invalid number for price");
            },
        }
    }

    /// Leaves the wizard that edits a holding.
    pub fn cancel_portfolio_edit(&mut self)
        ensures
            final(self)@ == old(self)@.holding_wizard_left(),
    {
        self.cancel_portfolio_add();
    }

    /// Removes the selected holding from the active portfolio.
    pub fn remove_selected_holding(&mut self)
        requires
            old(self).wf(),
        ensures
            final(self)@ == old(self)@.remove_selected_holding(),
            final(self).wf(),
    {
        if let Some(symbol) = self.selected_portfolio_symbol() {
            self.drop_holding(symbol.as_str());
            let len = self.get_filtered_portfolio().len();
            self.clamp_portfolio_selection(len);
        }
    }

    /// Takes a symbol out of the active portfolio and the quote cache.
    fn drop_holding(&mut self, symbol: &str)
        requires
            old(self).wf(),
        ensures
            final(self)@ == (AppModel {
                config: old(self)@.config.remove_holding(symbol@),
                quotes: old(self)@.quotes.remove(symbol@),
                needs_save: true,
                status_message: Some("Removed "@ + symbol@),
                ..old(self)@
            }),
            final(self).wf(),
    {
        proof {
            reveal(App::model);
        }
        self.config.remove_holdings_of(symbol);
        self.needs_save = true;
        self.quotes.remove(symbol);
        self.status_message = Some(crate::text::join2("Removed ", symbol));
    }

    /// Brings the portfolio selection back onto one of `len` rows.
    fn clamp_portfolio_selection(&mut self, len: usize)
        ensures
            final(self)@ == (AppModel {
                portfolio_selected: clamped_after_removal(
                    old(self)@.portfolio_selected,
                    len as nat,
                ),
                ..old(self)@
            }),
    {
        proof {
            reveal(App::model);
        }
        self.portfolio_selected = super::navigation::clamp_selection(self.portfolio_selected, len);
    }

    /// What the header shows for the active portfolio: its name, and in
    /// brackets its number among the portfolios.
    pub fn portfolio_indicator(&self) -> (r: String)
        requires
            self.wf(),
        ensures
            r@ == self@.portfolio_indicator(),
    {
        proof {
            reveal(App::model);
        }
        let mut out: Vec<char> = Vec::new();
        push_text(&mut out, self.config.current_portfolio().name.as_str());
        push_text(&mut out, " (");
        let count = self.config.portfolios.len();
        assert(self.config.active_portfolio < count);
        push_decimal(&mut out, (self.config.active_portfolio + 1) as u128);
        push_text(&mut out, "/");
        push_decimal(&mut out, count as u128);
        push_text(&mut out, ")");
        assert(out@ =~= self@.portfolio_indicator());
        text_of(&out)
    }

    /// Shows the next portfolio.
    pub fn next_portfolio(&mut self)
        requires
            old(self).wf(),
        ensures
            final(self)@ == (AppModel {
                config: ConfigModel {
                    active_portfolio: crate::config::ring_next(
                        old(self)@.config.active_portfolio,
                        old(self)@.config.portfolios.len(),
                    ) as usize,
                    ..old(self)@.config
                },
                portfolio_sort_column: None,
                ..old(self)@
            }).portfolio_view_reset(),
            final(self).wf(),
    {
        proof {
            reveal(App::model);
        }
        self.config.next_portfolio();
        self.portfolio_selected = 0;
        self.portfolio_table_state.offset = 0;
        self.quotes.clear();
        self.portfolio_sort_column = None;
    }

    /// Shows the previous portfolio.
    pub fn prev_portfolio(&mut self)
        requires
            old(self).wf(),
        ensures
            final(self)@ == (AppModel {
                config: ConfigModel {
                    active_portfolio: crate::config::ring_prev(
                        old(self)@.config.active_portfolio,
                        old(self)@.config.portfolios.len(),
                    ) as usize,
                    ..old(self)@.config
                },
                portfolio_sort_column: None,
                ..old(self)@
            }).portfolio_view_reset(),
            final(self).wf(),
    {
        proof {
            reveal(App::model);
        }
        self.config.prev_portfolio();
        self.portfolio_selected = 0;
        self.portfolio_table_state.offset = 0;
        self.quotes.clear();
        self.portfolio_sort_column = None;
    }

    /// Opens the field for the name of a new portfolio.
    pub fn start_portfolio_new(&mut self)
        ensures
            final(self)@ == (AppModel {
                input_mode: InputMode::PortfolioNew,
                input_buffer: Seq::empty(),
                ..old(self)@
            }),
    {
        proof {
            reveal(App::model);
        }
        self.input_mode = InputMode::PortfolioNew;
        self.input_buffer.clear();
    }

    /// Opens the field for a new name of the active portfolio, filled with
    /// the name it has.
    pub fn start_portfolio_rename(&mut self)
        requires
            old(self).wf(),
        ensures
            final(self)@ == (AppModel {
                input_mode: InputMode::PortfolioRename,
                input_buffer: old(self)@.config.current_portfolio().name,
                ..old(self)@
            }),
    {
        proof {
            reveal(App::model);
        }
        self.input_mode = InputMode::PortfolioRename;
        self.input_buffer = self.config.current_portfolio().name.clone();
    }

    /// Creates the portfolio whose name was typed, shows it, and returns to
    /// normal mode; an empty field creates nothing.
    pub fn confirm_portfolio_new(&mut self)
        requires
            old(self).wf(),
        ensures
            old(self)@.input_buffer.len() > 0 ==> final(self)@ == (AppModel {
                config: ConfigModel {
                    portfolios: old(self)@.config.portfolios.push(
                        PortfolioModel {
                            name: trimmed(old(self)@.input_buffer),
                            holdings: Seq::empty(),
                        },
                    ),
                    active_portfolio: old(self)@.config.portfolios.len() as usize,
                    ..old(self)@.config
                },
                needs_save: true,
                status_message: Some(
                    "Created portfolio '"@ + trimmed(old(self)@.input_buffer) + "'"@,
                ),
                ..old(self)@
            }).portfolio_view_reset().back_to_normal(),
            old(self)@.input_buffer.len() == 0 ==> final(self)@ == old(self)@.back_to_normal(),
            final(self).wf(),
    {
        proof {
            reveal(App::model);
        }
        if !self.input_buffer.as_str().is_empty() {
            let name = trim(self.input_buffer.as_str());
            self.config.add_portfolio(name.as_str());
            self.needs_save = true;
            self.quotes.clear();
            self.portfolio_selected = 0;
            self.portfolio_table_state.offset = 0;
            self.status_message = Some(join3("Created portfolio '", name.as_str(), "'"));
        }
        self.input_mode = InputMode::Normal;
        self.input_buffer.clear();
    }

    /// Gives the active portfolio the name that was typed and returns to
    /// normal mode; an empty field renames nothing.
    pub fn confirm_portfolio_rename(&mut self)
        requires
            old(self).wf(),
        ensures
            old(self)@.input_buffer.len() > 0 ==> final(self)@ == (AppModel {
                config: ConfigModel {
                    portfolios: old(self)@.config.portfolios.update(
                        old(self)@.config.active_portfolio as int,
                        PortfolioModel {
                            name: trimmed(old(self)@.input_buffer),
                            ..old(self)@.config.current_portfolio()
                        },
                    ),
                    ..old(self)@.config
                },
                needs_save: true,
                status_message: Some(
                    "Renamed '"@ + old(self)@.config.current_portfolio().name + "' to '"@ + trimmed(
                        old(self)@.input_buffer,
                    ) + "'"@,
                ),
                ..old(self)@
            }).back_to_normal(),
            old(self)@.input_buffer.len() == 0 ==> final(self)@ == old(self)@.back_to_normal(),
            final(self).wf(),
    {
        proof {
            reveal(App::model);
        }
        if !self.input_buffer.as_str().is_empty() {
            let new_name = trim(self.input_buffer.as_str());
            let old_name = self.config.current_portfolio().name.clone();
            self.config.rename_portfolio(new_name.as_str());
            self.needs_save = true;
            self.status_message = Some(
                join5("Renamed '", old_name.as_str(), "' to '", new_name.as_str(), "'"),
            );
        }
        self.input_mode = InputMode::Normal;
        self.input_buffer.clear();
    }

    /// Removes the active portfolio, unless it is the only one, which is
    /// refused with a message.
    pub fn remove_current_portfolio(&mut self)
        requires
            old(self).wf(),
        ensures
            old(self)@.config.portfolios.len() > 1 ==> final(self)@ == (AppModel {
                config: ConfigModel {
                    portfolios: old(self)@.config.portfolios.remove(
                        old(self)@.config.active_portfolio as int,
                    ),
                    active_portfolio: crate::config::index_after_removal(
                        old(self)@.config.active_portfolio,
                        old(self)@.config.portfolios.len(),
                    ) as usize,
                    ..old(self)@.config
                },
                needs_save: true,
                status_message: Some(
                    "Removed portfolio '"@ + old(self)@.config.current_portfolio().name + "'"@,
                ),
                ..old(self)@
            }).portfolio_view_reset(),
            old(self)@.config.portfolios.len() <= 1 ==> final(self)@ == (AppModel {
                status_message: Some("Cannot remove the last portfolio"@),
                ..old(self)@
            }),
            final(self).wf(),
            final(self)@.config.portfolios.len() >= 1,
    {
        proof {
            reveal(App::model);
        }
        if self.config.portfolios.len() > 1 {
            let name = self.config.current_portfolio().name.clone();
            self.config.remove_portfolio();
            self.needs_save = true;
            self.quotes.clear();
            self.portfolio_selected = 0;
            self.portfolio_table_state.offset = 0;
            self.status_message = Some(join3("Removed portfolio '", name.as_str(), "'"));
        } else {
            self.status_message = Some(String::from_str("Cannot remove the last portfolio"));
        }
    }

    /// Opens the allocation chart, unless the active portfolio is empty.
    pub fn show_portfolio_chart(&mut self)
        requires
            old(self).wf(),
        ensures
            final(self)@ == (AppModel {
                input_mode: if old(self)@.config.current_portfolio().holdings.len() > 0 {
                    InputMode::PortfolioChart
                } else {
                    old(self)@.input_mode
                },
                ..old(self)@
            }),
    {
        proof {
            reveal(App::model);
        }
        if !self.config.current_portfolio().holdings.is_empty() {
            self.input_mode = InputMode::PortfolioChart;
        }
    }

    /// Closes the allocation chart.
    pub fn close_portfolio_chart(&mut self)
        ensures
            final(self)@ == (AppModel { input_mode: InputMode::Normal, ..old(self)@ }),
    {
        proof {
            reveal(App::model);
        }
        self.input_mode = InputMode::Normal;
    }

    /// The allocation of the active portfolio: for each holding its symbol,
    /// its market value, and that value as a percentage of the total (in
    /// fixed-point units), the largest value first.
    pub fn portfolio_allocation(&self) -> (r: Vec<(String, u128, u128)>)
        requires
            self.wf(),
        ensures
            r.deep_view() == self@.portfolio_allocation(),
    {
        proof {
            reveal(App::model);
        }
        let holdings = &self.config.current_portfolio().holdings;
        let mut items: Vec<(String, u128)> = Vec::new();
        let mut total: u128 = 0;
        let mut i: usize = 0;
        while i < holdings.len()
            invariant
                i <= holdings.len(),
                self.wf(),
                holdings.deep_view() == self@.config.current_portfolio().holdings,
                items.deep_view() == self@.position_values().take(i as int),
                total == total_value(self@.position_values().take(i as int)),
                forall|k: int| 0 <= k < i ==> (#[trigger] items.deep_view()[k]).1 <= MAX_POSITION,
            decreases holdings.len() - i,
        {
            proof {
                reveal(App::model);
            }
            let price: u64 = match self.quotes.get(holdings[i].symbol.as_str()) {
                Some(q) => q.price,
                None => 0,
            };
            let value = holdings[i].pl_metrics(price).0;
            proof {
                lemma_position_bounds(holdings[i as int].lots, price);
                assert(self@.position_values().take(i + 1).drop_last()
                    =~= self@.position_values().take(i as int));
            }
            let ghost before = items.deep_view();
            items.push((holdings[i].symbol.clone(), value));
            assert(items.deep_view() =~= before.push((holdings[i as int].symbol@, value)));
            assert(items.deep_view() =~= self@.position_values().take(i + 1));
            total = if value > u128::MAX - total {
                u128::MAX
            } else {
                total + value
            };
            i += 1;
        }
        assert(self@.position_values().take(holdings.len() as int) =~= self@.position_values());
        let order = LargerValueFirst {  };
        let ghost values = items.deep_view();
        sort_rows(&mut items, &order);
        let ghost le = |a: (Seq<char>, u128), b: (Seq<char>, u128)| a.1 >= b.1;
        assert(order_of::<(String, u128), LargerValueFirst>(&order) =~= le);
        let ghost sorted = items.deep_view();
        proof {
            broadcast use vstd::seq_lib::group_to_multiset_ensures;

            crate::rows::lemma_stable_sort_permutes(values, le);
            assert forall|k: int| 0 <= k < sorted.len() implies (#[trigger] sorted[k]).1
                <= MAX_POSITION by {
                assert(sorted.to_multiset().count(sorted[k]) > 0);
                assert(values.to_multiset().count(sorted[k]) > 0);
                assert(values.contains(sorted[k]));
            }
        }
        let mut r: Vec<(String, u128, u128)> = Vec::new();
        for item in it: items
            invariant
                it.seq().len() == sorted.len(),
                forall|k: int|
                    0 <= k < sorted.len() ==> (#[trigger] it.seq()[k]).deep_view() == sorted[k],
                forall|k: int| 0 <= k < sorted.len() ==> (#[trigger] sorted[k]).1 <= MAX_POSITION,
                r.deep_view() == Seq::new(
                    it.index() as nat,
                    |k: int|
                        (sorted[k].0, sorted[k].1, percent_of(sorted[k].1 as int, total as int) as u128),
                ),
        {
            let ghost before = r.deep_view();
            let ghost model = item.deep_view();
            assert(model == sorted[it.index() as int]);
            let share = percent(item.1 as i128, total);
            proof {
                let part = item.1 as int;
                if total > 0 {
                    assert(0 <= part * 100 * crate::number::SCALE / (total as int)) by (nonlinear_arith)
                        requires
                            part >= 0,
                            total > 0,
                            crate::number::SCALE == 10_000,
                    ;
                }
            }
            r.push((item.0, item.1, share as u128));
            assert(r.deep_view() =~= before.push((model.0, model.1, share as u128)));
        }
        assert(r.deep_view() =~= self@.portfolio_allocation());
        r
    }
}

} // verus!
