//! The export menu, and the CSV text of an export.

use super::keys::market_price;
use super::{App, AppModel, ExportFormat, ExportScope, InputMode, ViewMode};
use crate::api::{StockQuote, StockQuoteModel};
use crate::config::{Holding, HoldingModel};
use crate::number::{decimal, push_decimal, push_signed, push_text, signed_text};
use crate::quotes::QuoteCache;
use crate::text::{chars_of, join2, text_of};
use vstd::prelude::*;

verus! {

/// The row of the export menu that starts the export.
pub const EXPORT_MENU_CONFIRM_ROW: usize = 2;

/// The name of a scope in file names.
pub open spec fn scope_name(scope: ExportScope) -> Seq<char> {
    match scope {
        ExportScope::Watchlist => "watchlist"@,
        ExportScope::Portfolio => "portfolio"@,
    }
}

/// The file extension of a format.
pub open spec fn format_extension(format: ExportFormat) -> Seq<char> {
    match format {
        ExportFormat::Csv => "csv"@,
        ExportFormat::Json => "json"@,
    }
}

/// A text with every comma replaced by a semicolon, so that it can stand in
/// a CSV field.
pub open spec fn without_commas(text: Seq<char>) -> Seq<char> {
    Seq::new(
        text.len(),
        |i: int|
            if text[i] == ',' {
                ';'
            } else {
                text[i]
            },
    )
}

/// The first line of a watchlist export.
pub open spec fn watchlist_csv_header() -> Seq<char> {
    "Symbol,Name,Price,Change,Change%,Open,High,Low,Volume\n"@
}

/// The first line of a portfolio export.
pub open spec fn portfolio_csv_header() -> Seq<char> {
    "Symbol,Lots,Shares,AvgPrice,CurrentPrice,Value,Cost,PL,PL%\n"@
}

/// The line of a watchlist export for one row: the fields of the quote with
/// two decimal places, or a line that says that the quote is loading.
pub open spec fn watchlist_csv_line(row: (Seq<char>, Option<StockQuoteModel>)) -> Seq<char> {
    match row.1 {
        Some(q) => q.symbol + seq![','] + without_commas(q.short_name) + seq![','] + signed_text(
            q.price as int,
            2,
        ) + seq![','] + signed_text(q.change as int, 2) + seq![','] + signed_text(
            q.change_percent as int,
            2,
        ) + seq![','] + signed_text(q.open as int, 2) + seq![','] + signed_text(q.high as int, 2)
            + seq![','] + signed_text(q.low as int, 2) + seq![','] + decimal(q.volume as nat)
            + seq!['\n'],
        None => row.0 + ",Loading...,,,,,,,\n"@,
    }
}

/// The line of a portfolio export for one holding at a market price.
pub open spec fn portfolio_csv_line(h: HoldingModel, price: u64) -> Seq<char> {
    h.symbol + seq![','] + decimal(h.lots as nat) + seq![','] + decimal(h.shares() as nat)
        + seq![','] + signed_text(h.avg_price as int, 2) + seq![','] + signed_text(price as int, 2)
        + seq![','] + signed_text(h.value_at(price), 2) + seq![','] + signed_text(
        h.cost_basis(),
        2,
    ) + seq![','] + signed_text(h.pl_at(price), 2) + seq![','] + signed_text(
        h.pl_percent_at(price),
        2,
    ) + seq!['\n']
}

/// The lines of a watchlist export behind the header.
pub open spec fn watchlist_csv_lines(rows: Seq<(Seq<char>, Option<StockQuoteModel>)>) -> Seq<char>
    decreases rows.len(),
{
    if rows.len() == 0 {
        Seq::empty()
    } else {
        watchlist_csv_lines(rows.drop_last()) + watchlist_csv_line(rows.last())
    }
}

/// The lines of a portfolio export behind the header.
pub open spec fn portfolio_csv_lines(
    holdings: Seq<HoldingModel>,
    quotes: Map<Seq<char>, StockQuoteModel>,
) -> Seq<char>
    decreases holdings.len(),
{
    if holdings.len() == 0 {
        Seq::empty()
    } else {
        portfolio_csv_lines(holdings.drop_last(), quotes) + portfolio_csv_line(
            holdings.last(),
            market_price(quotes, holdings.last().symbol),
        )
    }
}

/// Appends a text with every comma replaced by a semicolon.
fn push_without_commas(out: &mut Vec<char>, text: &str)
    ensures
        final(out)@ == old(out)@ + without_commas(text@),
{
    let chars = chars_of(text);
    let mut i: usize = 0;
    while i < chars.len()
        invariant
            i <= chars.len(),
            chars@ == text@,
            out@ == old(out)@ + without_commas(text@).take(i as int),
        decreases chars.len() - i,
    {
        let c = chars[i];
        out.push(
            if c == ',' {
                ';'
            } else {
                c
            },
        );
        assert(out@ =~= old(out)@ + without_commas(text@).take(i + 1));
        i += 1;
    }
    assert(without_commas(text@).take(chars.len() as int) =~= without_commas(text@));
}

/// Appends the line of a watchlist export for one row.
fn push_watchlist_line(out: &mut Vec<char>, symbol: &str, quote: Option<&StockQuote>)
    ensures
        final(out)@ == old(out)@ + watchlist_csv_line((symbol@, quote.deep_view())),
{
    match quote {
        Some(q) => {
            push_text(out, q.symbol.as_str());
            out.push(',');
            push_without_commas(out, q.short_name.as_str());
            out.push(',');
            push_signed(out, q.price as i128, 2);
            out.push(',');
            push_signed(out, q.change as i128, 2);
            out.push(',');
            push_signed(out, q.change_percent as i128, 2);
            out.push(',');
            push_signed(out, q.open as i128, 2);
            out.push(',');
            push_signed(out, q.high as i128, 2);
            out.push(',');
            push_signed(out, q.low as i128, 2);
            out.push(',');
            push_decimal(out, q.volume as u128);
            out.push('\n');
            assert(out@ =~= old(out)@ + watchlist_csv_line((symbol@, quote.deep_view())));
        },
        None => {
            push_text(out, symbol);
            push_text(out, ",Loading...,,,,,,,\n");
            assert(out@ =~= old(out)@ + watchlist_csv_line((symbol@, quote.deep_view())));
        },
    }
}

/// Appends the line of a portfolio export for one holding.
fn push_portfolio_line(out: &mut Vec<char>, holding: &Holding, price: u64)
    ensures
        final(out)@ == old(out)@ + portfolio_csv_line(holding@, price),
{
    let metrics = holding.pl_metrics(price);
    proof {
        crate::config::lemma_position_bounds(holding.lots, price);
        crate::config::lemma_position_bounds(holding.lots, holding.avg_price);
    }
    push_text(out, holding.symbol.as_str());
    out.push(',');
    push_decimal(out, holding.lots as u128);
    out.push(',');
    push_decimal(out, holding.shares() as u128);
    out.push(',');
    push_signed(out, holding.avg_price as i128, 2);
    out.push(',');
    push_signed(out, price as i128, 2);
    out.push(',');
    push_signed(out, metrics.0 as i128, 2);
    out.push(',');
    push_signed(out, metrics.1 as i128, 2);
    out.push(',');
    push_signed(out, metrics.2, 2);
    out.push(',');
    assert(metrics.3 > -0x8000_0000_0000_0000_0000_0000_0000_0000);
    push_signed(out, metrics.3, 2);
    out.push('\n');
    assert(out@ =~= old(out)@ + portfolio_csv_line(holding@, price));
}

/// The CSV text of a portfolio export: a header, then one line for each
/// holding with its figures at the market price of the quotes at hand (0
/// where no quote is loaded).
pub fn portfolio_csv(holdings: &Vec<Holding>, quotes: &QuoteCache) -> (r: String)
    ensures
        r@ == portfolio_csv_header() + portfolio_csv_lines(holdings.deep_view(), quotes@),
{
    let mut out: Vec<char> = Vec::new();
    push_text(&mut out, "Symbol,Lots,Shares,AvgPrice,CurrentPrice,Value,Cost,PL,PL%\n");
    let mut i: usize = 0;
    while i < holdings.len()
        invariant
            i <= holdings.len(),
            out@ == portfolio_csv_header() + portfolio_csv_lines(
                holdings.deep_view().take(i as int),
                quotes@,
            ),
        decreases holdings.len() - i,
    {
        proof {
            assert(holdings.deep_view().take(i + 1).drop_last() =~= holdings.deep_view().take(
                i as int,
            ));
        }
        let price: u64 = match quotes.get(holdings[i].symbol.as_str()) {
            Some(q) => q.price,
            None => 0,
        };
        push_portfolio_line(&mut out, &holdings[i], price);
        assert(out@ =~= portfolio_csv_header() + portfolio_csv_lines(
            holdings.deep_view().take(i + 1),
            quotes@,
        ));
        i += 1;
    }
    assert(holdings.deep_view().take(holdings.len() as int) =~= holdings.deep_view());
    text_of(&out)
}

/// The CSV text of a watchlist export: a header, then one line for each
/// row.
pub fn watchlist_csv(rows: &Vec<(&String, Option<&StockQuote>)>) -> (r: String)
    ensures
        r@ == watchlist_csv_header() + watchlist_csv_lines(rows.deep_view()),
{
    let mut out: Vec<char> = Vec::new();
    push_text(&mut out, "Symbol,Name,Price,Change,Change%,Open,High,Low,Volume\n");
    let mut i: usize = 0;
    while i < rows.len()
        invariant
            i <= rows.len(),
            out@ == watchlist_csv_header() + watchlist_csv_lines(rows.deep_view().take(i as int)),
        decreases rows.len() - i,
    {
        proof {
            assert(rows.deep_view().take(i + 1).drop_last() =~= rows.deep_view().take(i as int));
        }
        push_watchlist_line(&mut out, rows[i].0.as_str(), rows[i].1);
        assert(out@ =~= watchlist_csv_header() + watchlist_csv_lines(rows.deep_view().take(i + 1)));
        i += 1;
    }
    assert(rows.deep_view().take(rows.len() as int) =~= rows.deep_view());
    text_of(&out)
}

impl AppModel {
    /// The name of the file that an export made at the time `timestamp`
    /// goes to.
    pub open spec fn export_file_name(self, timestamp: Seq<char>) -> Seq<char> {
        "idx_"@ + scope_name(self.export_scope) + "_"@ + timestamp + "."@ + format_extension(
            self.export_format,
        )
    }
}

impl App {
    /// Opens the export menu on its first row; the scope starts as the view
    /// that is shown, the watchlist for the news view.
    pub fn start_export(&mut self)
        ensures
            final(self)@ == (AppModel {
                input_mode: InputMode::ExportMenu,
                export_menu_selection: 0,
                export_scope: match old(self)@.view_mode {
                    ViewMode::Portfolio => ExportScope::Portfolio,
                    _ => ExportScope::Watchlist,
                },
                ..old(self)@
            }),
    {
        proof {
            reveal(App::model);
        }
        self.input_mode = InputMode::ExportMenu;
        self.export_menu_selection = 0;
        self.export_scope = match self.view_mode {
            ViewMode::Watchlist | ViewMode::News => ExportScope::Watchlist,
            ViewMode::Portfolio => ExportScope::Portfolio,
        };
    }

    /// Closes the export menu.
    pub fn cancel_export(&mut self)
        ensures
            final(self)@ == (AppModel { input_mode: InputMode::Normal, ..old(self)@ }),
    {
        proof {
            reveal(App::model);
        }
        self.input_mode = InputMode::Normal;
    }

    /// Switches between the two file formats.
    pub fn toggle_export_format(&mut self)
        ensures
            final(self)@ == (AppModel {
                export_format: match old(self)@.export_format {
                    ExportFormat::Csv => ExportFormat::Json,
                    ExportFormat::Json => ExportFormat::Csv,
                },
                ..old(self)@
            }),
    {
        proof {
            reveal(App::model);
        }
        self.export_format = match self.export_format {
            ExportFormat::Csv => ExportFormat::Json,
            ExportFormat::Json => ExportFormat::Csv,
        };
    }

    /// Switches between the two scopes.
    pub fn toggle_export_scope(&mut self)
        ensures
            final(self)@ == (AppModel {
                export_scope: match old(self)@.export_scope {
                    ExportScope::Watchlist => ExportScope::Portfolio,
                    ExportScope::Portfolio => ExportScope::Watchlist,
                },
                ..old(self)@
            }),
    {
        proof {
            reveal(App::model);
        }
        self.export_scope = match self.export_scope {
            ExportScope::Watchlist => ExportScope::Portfolio,
            ExportScope::Portfolio => ExportScope::Watchlist,
        };
    }

    /// Moves the selection of the export menu one row up.
    pub fn export_menu_up(&mut self)
        ensures
            final(self)@ == (AppModel {
                export_menu_selection: if old(self)@.export_menu_selection > 0 {
                    (old(self)@.export_menu_selection - 1) as usize
                } else {
                    0
                },
                ..old(self)@
            }),
    {
        proof {
            reveal(App::model);
        }
        if self.export_menu_selection > 0 {
            self.export_menu_selection -= 1;
        }
    }

    /// Moves the selection of the export menu one row down; the menu has
    /// three rows.
    pub fn export_menu_down(&mut self)
        ensures
            final(self)@ == (AppModel {
                export_menu_selection: if old(self)@.export_menu_selection
                    < EXPORT_MENU_CONFIRM_ROW {
                    (old(self)@.export_menu_selection + 1) as usize
                } else {
                    old(self)@.export_menu_selection
                },
                ..old(self)@
            }),
    {
        proof {
            reveal(App::model);
        }
        if self.export_menu_selection < EXPORT_MENU_CONFIRM_ROW {
            self.export_menu_selection += 1;
        }
    }

    /// Confirms the selected row of the export menu. On the last row the
    /// menu closes and the result says that the export is to be written;
    /// any other row does nothing.
    pub fn confirm_export(&mut self) -> (export: bool)
        ensures
            export == (old(self)@.export_menu_selection == EXPORT_MENU_CONFIRM_ROW),
            final(self)@ == (AppModel {
                input_mode: if export {
                    InputMode::Normal
                } else {
                    old(self)@.input_mode
                },
                ..old(self)@
            }),
    {
        proof {
            reveal(App::model);
        }
        if self.export_menu_selection == EXPORT_MENU_CONFIRM_ROW {
            self.input_mode = InputMode::Normal;
            true
        } else {
            false
        }
    }

    /// Takes in the outcome of writing an export: the path it went to, or
    /// the reason why it failed, shows in the status line.
    pub fn finish_export(&mut self, outcome: Result<String, String>)
        ensures
            final(self)@ == (AppModel {
                status_message: Some(
                    match outcome {
                        Ok(path) => "Exported to "@ + path@,
                        Err(reason) => "Export failed: "@ + reason@,
                    },
                ),
                ..old(self)@
            }),
    {
        proof {
            reveal(App::model);
        }
        self.status_message = Some(
            match outcome {
                Ok(path) => join2("Exported to ", path.as_str()),
                Err(reason) => join2("Export failed: ", reason.as_str()),
            },
        );
    }

    /// The name of the file that an export made at the time `timestamp`
    /// goes to: `idx_`, the scope, the time, and the extension of the
    /// format.
    pub fn export_file_name(&self, timestamp: &str) -> (r: String)
        ensures
            r@ == self@.export_file_name(timestamp@),
    {
        proof {
            reveal(App::model);
        }
        let mut out: Vec<char> = Vec::new();
        push_text(&mut out, "idx_");
        push_text(
            &mut out,
            match self.export_scope {
                ExportScope::Watchlist => "watchlist",
                ExportScope::Portfolio => "portfolio",
            },
        );
        push_text(&mut out, "_");
        push_text(&mut out, timestamp);
        push_text(&mut out, ".");
        push_text(
            &mut out,
            match self.export_format {
                ExportFormat::Csv => "csv",
                ExportFormat::Json => "json",
            },
        );
        assert(out@ =~= self@.export_file_name(timestamp@));
        text_of(&out)
    }

    /// The CSV text of a watchlist export: every symbol of the active
    /// watchlist, in the watchlist's own order.
    pub fn export_watchlist_csv(&self) -> (r: String)
        requires
            self.wf(),
        ensures
            r@ == watchlist_csv_header() + watchlist_csv_lines(self@.raw_watchlist()),
    {
        let rows = self.get_raw_watchlist();
        watchlist_csv(&rows)
    }

    /// The CSV text of a portfolio export: every holding of the active
    /// portfolio, in the portfolio's own order.
    pub fn export_portfolio_csv(&self) -> (r: String)
        requires
            self.wf(),
        ensures
            r@ == portfolio_csv_header() + portfolio_csv_lines(
                self@.config.current_portfolio().holdings,
                self@.quotes,
            ),
    {
        proof {
            reveal(App::model);
        }
        portfolio_csv(&self.config.current_portfolio().holdings, &self.quotes)
    }
}

} // verus!
