//! The watchlist view: adding and removing symbols, and the watchlists
//! themselves.

use super::navigation::clamped_after_removal;
use super::{App, AppModel, InputMode};
use crate::number::{decimal, push_decimal, push_text};
use crate::text::{join2, join3, join5, text_of, trim, trimmed, uppercase_of};
use vstd::prelude::*;

verus! {

impl AppModel {
    /// The session back in normal mode, the text field empty.
    pub open spec fn back_to_normal(self) -> AppModel {
        AppModel { input_mode: InputMode::Normal, input_buffer: Seq::empty(), ..self }
    }

    /// The session after the symbol typed into the add field was confirmed:
    /// the symbol, trimmed and in upper case, joins the active watchlist and
    /// the store is due for saving; an empty field adds nothing. Either way
    /// the session is back in normal mode.
    pub open spec fn confirm_add(self) -> AppModel {
        if self.input_buffer.len() > 0 {
            let symbol = uppercase_of(trimmed(self.input_buffer));
            AppModel {
                config: self.config.add_stock(uppercase_of(symbol)),
                needs_save: true,
                status_message: Some("Added "@ + symbol),
                ..self
            }.back_to_normal()
        } else {
            self.back_to_normal()
        }
    }

    /// The session after the selected watchlist row was removed: its symbol
    /// leaves the active watchlist and the quote cache, the store is due for
    /// saving, and the selection moves to the last row where it would point
    /// behind it. Nothing changes where no row is selected.
    pub open spec fn remove_selected(self) -> AppModel {
        match self.selected_watchlist_symbol() {
            Some(symbol) => {
                let removed = AppModel {
                    config: self.config.remove_stock(symbol),
                    quotes: self.quotes.remove(symbol),
                    needs_save: true,
                    status_message: Some("Removed "@ + symbol),
                    ..self
                };
                AppModel {
                    selected_index: clamped_after_removal(
                        self.selected_index,
                        removed.filtered_watchlist().len(),
                    ),
                    ..removed
                }
            },
            None => self,
        }
    }

    /// What the header shows for the active watchlist: its name, and in
    /// brackets its number among the watchlists.
    pub open spec fn watchlist_indicator(self) -> Seq<char> {
        self.config.current_watchlist().name + " ("@ + decimal(
            (self.config.active_watchlist + 1) as nat,
        ) + "/"@ + decimal(self.config.watchlists.len()) + ")"@
    }

    /// The session on another watchlist: quotes dropped, selection at the
    /// first row, no sort column.
    pub open spec fn on_watchlist(self, active: usize) -> AppModel {
        AppModel {
            config: crate::config::ConfigModel { active_watchlist: active, ..self.config },
            selected_index: 0,
            quotes: Map::empty(),
            watchlist_sort_column: None,
            ..self
        }
    }
}

impl App {
    /// Opens the field for a new symbol.
    pub fn start_adding(&mut self)
        ensures
            final(self)@ == (AppModel {
                input_mode: InputMode::Adding,
                input_buffer: Seq::empty(),
                ..old(self)@
            }),
    {
        proof {
            reveal(App::model);
        }
        self.input_mode = InputMode::Adding;
        self.input_buffer.clear();
    }

    /// Adds the symbol that was typed to the active watchlist and returns to
    /// normal mode.
    pub fn confirm_add(&mut self)
        requires
            old(self).wf(),
        ensures
            final(self)@ == old(self)@.confirm_add(),
            final(self).wf(),
    {
        proof {
            reveal(App::model);
        }
        if !self.input_buffer.as_str().is_empty() {
            let typed = trim(self.input_buffer.as_str());
            let symbol = typed.as_str().to_uppercase();
            self.config.add_stock(symbol.as_str());
            self.needs_save = true;
            self.status_message = Some(join2("Added ", symbol.as_str()));
        }
        self.input_mode = InputMode::Normal;
        self.input_buffer.clear();
    }

    /// Removes the selected symbol from the active watchlist.
    pub fn remove_selected(&mut self)
        requires
            old(self).wf(),
        ensures
            final(self)@ == old(self)@.remove_selected(),
            final(self).wf(),
    {
        if let Some(symbol) = self.selected_watchlist_symbol() {
            self.drop_symbol(symbol.as_str());
            let len = self.get_filtered_watchlist().len();
            self.clamp_watchlist_selection(len);
        }
    }

    /// Brings the watchlist selection back onto one of `len` rows.
    fn clamp_watchlist_selection(&mut self, len: usize)
        ensures
            final(self)@ == (AppModel {
                selected_index: clamped_after_removal(old(self)@.selected_index, len as nat),
                ..old(self)@
            }),
    {
        proof {
            reveal(App::model);
        }
        self.selected_index = super::navigation::clamp_selection(self.selected_index, len);
    }

    /// Takes a symbol out of the active watchlist and the quote cache.
    fn drop_symbol(&mut self, symbol: &str)
        requires
            old(self).wf(),
        ensures
            final(self)@ == (AppModel {
                config: old(self)@.config.remove_stock(symbol@),
                quotes: old(self)@.quotes.remove(symbol@),
                needs_save: true,
                status_message: Some("Removed "@ + symbol@),
                ..old(self)@
            }),
            final(self).wf(),
    {
        proof {
            reveal(App::model);
        }
        self.config.remove_symbol(symbol);
        self.needs_save = true;
        self.quotes.remove(symbol);
        self.status_message = Some(join2("Removed ", symbol));
    }

    /// What the header shows for the active watchlist: its name, and in
    /// brackets its number among the watchlists.
    pub fn watchlist_indicator(&self) -> (r: String)
        requires
            self.wf(),
        ensures
            r@ == self@.watchlist_indicator(),
    {
        proof {
            reveal(App::model);
        }
        let mut out: Vec<char> = Vec::new();
        push_text(&mut out, self.config.current_watchlist().name.as_str());
        push_text(&mut out, " (");
        let count = self.config.watchlists.len();
        assert(self.config.active_watchlist < count);
        push_decimal(&mut out, (self.config.active_watchlist + 1) as u128);
        push_text(&mut out, "/");
        push_decimal(&mut out, count as u128);
        push_text(&mut out, ")");
        assert(out@ =~= self@.watchlist_indicator());
        text_of(&out)
    }

    /// Shows the next watchlist.
    pub fn next_watchlist(&mut self)
        requires
            old(self).wf(),
        ensures
            final(self)@ == old(self)@.on_watchlist(
                crate::config::ring_next(
                    old(self)@.config.active_watchlist,
                    old(self)@.config.watchlists.len(),
                ) as usize,
            ),
            final(self).wf(),
    {
        proof {
            reveal(App::model);
        }
        self.config.next_watchlist();
        self.selected_index = 0;
        self.quotes.clear();
        self.watchlist_sort_column = None;
    }

    /// Shows the previous watchlist.
    pub fn prev_watchlist(&mut self)
        requires
            old(self).wf(),
        ensures
            final(self)@ == old(self)@.on_watchlist(
                crate::config::ring_prev(
                    old(self)@.config.active_watchlist,
                    old(self)@.config.watchlists.len(),
                ) as usize,
            ),
            final(self).wf(),
    {
        proof {
            reveal(App::model);
        }
        self.config.prev_watchlist();
        self.selected_index = 0;
        self.quotes.clear();
        self.watchlist_sort_column = None;
    }

    /// Opens the field for the name of a new watchlist.
    pub fn start_watchlist_add(&mut self)
        ensures
            final(self)@ == (AppModel {
                input_mode: InputMode::WatchlistAdd,
                input_buffer: Seq::empty(),
                ..old(self)@
            }),
    {
        proof {
            reveal(App::model);
        }
        self.input_mode = InputMode::WatchlistAdd;
        self.input_buffer.clear();
    }

    /// Opens the field for a new name of the active watchlist, filled with
    /// the name it has.
    pub fn start_watchlist_rename(&mut self)
        requires
            old(self).wf(),
        ensures
            final(self)@ == (AppModel {
                input_mode: InputMode::WatchlistRename,
                input_buffer: old(self)@.config.current_watchlist().name,
                ..old(self)@
            }),
    {
        proof {
            reveal(App::model);
        }
        self.input_mode = InputMode::WatchlistRename;
        self.input_buffer = self.config.current_watchlist().name.clone();
    }

    /// Creates the watchlist whose name was typed, shows it, and returns to
    /// normal mode; an empty field creates nothing.
    pub fn confirm_watchlist_add(&mut self)
        requires
            old(self).wf(),
        ensures
            old(self)@.input_buffer.len() > 0 ==> final(self)@ == (AppModel {
                config: crate::config::ConfigModel {
                    watchlists: old(self)@.config.watchlists.push(
                        crate::config::WatchlistModel {
                            name: trimmed(old(self)@.input_buffer),
                            symbols: Seq::empty(),
                        },
                    ),
                    active_watchlist: old(self)@.config.watchlists.len() as usize,
                    ..old(self)@.config
                },
                needs_save: true,
                quotes: Map::empty(),
                selected_index: 0,
                status_message: Some(
                    "Created watchlist '"@ + trimmed(old(self)@.input_buffer) + "'"@,
                ),
                ..old(self)@
            }).back_to_normal(),
            old(self)@.input_buffer.len() == 0 ==> final(self)@ == old(self)@.back_to_normal(),
            final(self).wf(),
    {
        proof {
            reveal(App::model);
        }
        if !self.input_buffer.as_str().is_empty() {
            let name = trim(self.input_buffer.as_str());
            self.config.add_watchlist(name.as_str());
            self.needs_save = true;
            self.quotes.clear();
            self.selected_index = 0;
            self.status_message = Some(join3("Created watchlist '", name.as_str(), "'"));
        }
        self.input_mode = InputMode::Normal;
        self.input_buffer.clear();
    }

    /// Gives the active watchlist the name that was typed and returns to
    /// normal mode; an empty field renames nothing.
    pub fn confirm_watchlist_rename(&mut self)
        requires
            old(self).wf(),
        ensures
            old(self)@.input_buffer.len() > 0 ==> final(self)@ == (AppModel {
                config: crate::config::ConfigModel {
                    watchlists: old(self)@.config.watchlists.update(
                        old(self)@.config.active_watchlist as int,
                        crate::config::WatchlistModel {
                            name: trimmed(old(self)@.input_buffer),
                            ..old(self)@.config.current_watchlist()
                        },
                    ),
                    ..old(self)@.config
                },
                needs_save: true,
                status_message: Some(
                    "Renamed '"@ + old(self)@.config.current_watchlist().name + "' to '"@ + trimmed(
                        old(self)@.input_buffer,
                    ) + "'"@,
                ),
                ..old(self)@
            }).back_to_normal(),
            old(self)@.input_buffer.len() == 0 ==> final(self)@ == old(self)@.back_to_normal(),
            final(self).wf(),
    {
        proof {
            reveal(App::model);
        }
        if !self.input_buffer.as_str().is_empty() {
            let new_name = trim(self.input_buffer.as_str());
            let old_name = self.config.current_watchlist().name.clone();
            self.config.rename_watchlist(new_name.as_str());
            self.needs_save = true;
            self.status_message = Some(
                join5("Renamed '", old_name.as_str(), "' to '", new_name.as_str(), "'"),
            );
        }
        self.input_mode = InputMode::Normal;
        self.input_buffer.clear();
    }

    /// Removes the active watchlist, unless it is the only one, which is
    /// refused with a message.
    pub fn remove_current_watchlist(&mut self)
        requires
            old(self).wf(),
        ensures
            old(self)@.config.watchlists.len() > 1 ==> final(self)@ == (AppModel {
                config: crate::config::ConfigModel {
                    watchlists: old(self)@.config.watchlists.remove(
                        old(self)@.config.active_watchlist as int,
                    ),
                    active_watchlist: crate::config::index_after_removal(
                        old(self)@.config.active_watchlist,
                        old(self)@.config.watchlists.len(),
                    ) as usize,
                    ..old(self)@.config
                },
                needs_save: true,
                quotes: Map::empty(),
                selected_index: 0,
                status_message: Some(
                    "Removed watchlist '"@ + old(self)@.config.current_watchlist().name + "'"@,
                ),
                ..old(self)@
            }),
            old(self)@.config.watchlists.len() <= 1 ==> final(self)@ == (AppModel {
                status_message: Some("Cannot remove the last watchlist"@),
                ..old(self)@
            }),
            final(self).wf(),
            final(self)@.config.watchlists.len() >= 1,
    {
        proof {
            reveal(App::model);
        }
        if self.config.watchlists.len() > 1 {
            let name = self.config.current_watchlist().name.clone();
            self.config.remove_watchlist();
            self.needs_save = true;
            self.quotes.clear();
            self.selected_index = 0;
            self.status_message = Some(join3("Removed watchlist '", name.as_str(), "'"));
        } else {
            self.status_message = Some(String::from_str("Cannot remove the last watchlist"));
        }
    }
}

} // verus!
