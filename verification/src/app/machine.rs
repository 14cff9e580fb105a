//! Carrying out what a key means: one step of the session.

use super::events::{decide_key, key_action, Action, Command, CommandModel, Key};
use super::navigation::{moved_down, moved_up};
use super::{next_sort_column, App, AppModel, ExportFormat, ExportScope, InputMode, NewsTab, ViewMode};
use crate::config::AlertType;
use crate::text::{trimmed, uppercase_of};
use vstd::prelude::*;

verus! {

/// The parts of the session that an action belongs to.
#[derive(Debug, Clone, Copy, PartialEq, Eq, Structural)]
pub enum Group {
    General,
    Watchlist,
    Portfolio,
    Alerts,
    News,
    Export,
}

/// The part of the session that an action belongs to.
pub open spec fn group_of(action: Action) -> Group {
    match action {
        Action::Ignore
        | Action::Quit
        | Action::ShowHelp
        | Action::CloseHelp
        | Action::StartSearch
        | Action::ConfirmSearch
        | Action::CancelSearch
        | Action::ToggleView
        | Action::ToggleNewsTab
        | Action::Refresh
        | Action::MoveUp
        | Action::MoveDown
        | Action::CycleSortColumn
        | Action::ToggleSortDirection
        | Action::Append(_)
        | Action::Backspace => Group::General,
        Action::StartAdding
        | Action::ConfirmAdd
        | Action::CancelInput
        | Action::RemoveSelected
        | Action::PrevWatchlist
        | Action::NextWatchlist
        | Action::StartWatchlistAdd
        | Action::StartWatchlistRename
        | Action::ConfirmWatchlistAdd
        | Action::ConfirmWatchlistRename
        | Action::RemoveCurrentWatchlist
        | Action::ShowStockDetail
        | Action::CloseStockDetail => Group::Watchlist,
        Action::StartPortfolioAdd
        | Action::ConfirmPortfolioSymbol
        | Action::ConfirmPortfolioLots
        | Action::ConfirmPortfolioPrice
        | Action::CancelPortfolioAdd
        | Action::StartPortfolioEdit
        | Action::ConfirmPortfolioEditLots
        | Action::ConfirmPortfolioEditPrice
        | Action::CancelPortfolioEdit
        | Action::RemoveSelectedHolding
        | Action::ShowPortfolioDetail
        | Action::PrevPortfolio
        | Action::NextPortfolio
        | Action::StartPortfolioNew
        | Action::StartPortfolioRename
        | Action::ConfirmPortfolioNew
        | Action::ConfirmPortfolioRename
        | Action::RemoveCurrentPortfolio
        | Action::ShowPortfolioChart
        | Action::ClosePortfolioChart => Group::Portfolio,
        Action::OpenAlertModal
        | Action::CloseAlertModal
        | Action::AlertListUp
        | Action::AlertListDown
        | Action::AlertListConfirm
        | Action::AlertListDelete
        | Action::AlertTypeCycle
        | Action::AlertTypeConfirm
        | Action::AlertValueConfirm
        | Action::CancelAlertAdd => Group::Alerts,
        Action::OpenNewsDetail
        | Action::CloseDetail
        | Action::ScrollDetailUp
        | Action::ScrollDetailDown
        | Action::OpenArticle
        | Action::ToggleNewsBookmark
        | Action::RemoveSelectedBookmark
        | Action::StartClearBookmarks
        | Action::ConfirmClearBookmarks
        | Action::CancelClearBookmarks
        | Action::OpenBookmarkDetail
        | Action::ToggleBookmarkRead => Group::News,
        Action::StartExport
        | Action::CancelExport
        | Action::ExportMenuUp
        | Action::ExportMenuDown
        | Action::ToggleExportFormat
        | Action::ToggleExportScope
        | Action::ConfirmExport => Group::Export,
    }
}

/// The part of the session that an action belongs to.
pub fn action_group(action: Action) -> (r: Group)
    ensures
        r == group_of(action),
{
    match action {
        Action::Ignore
        | Action::Quit
        | Action::ShowHelp
        | Action::CloseHelp
        | Action::StartSearch
        | Action::ConfirmSearch
        | Action::CancelSearch
        | Action::ToggleView
        | Action::ToggleNewsTab
        | Action::Refresh
        | Action::MoveUp
        | Action::MoveDown
        | Action::CycleSortColumn
        | Action::ToggleSortDirection
        | Action::Append(_)
        | Action::Backspace => Group::General,
        Action::StartAdding
        | Action::ConfirmAdd
        | Action::CancelInput
        | Action::RemoveSelected
        | Action::PrevWatchlist
        | Action::NextWatchlist
        | Action::StartWatchlistAdd
        | Action::StartWatchlistRename
        | Action::ConfirmWatchlistAdd
        | Action::ConfirmWatchlistRename
        | Action::RemoveCurrentWatchlist
        | Action::ShowStockDetail
        | Action::CloseStockDetail => Group::Watchlist,
        Action::StartPortfolioAdd
        | Action::ConfirmPortfolioSymbol
        | Action::ConfirmPortfolioLots
        | Action::ConfirmPortfolioPrice
        | Action::CancelPortfolioAdd
        | Action::StartPortfolioEdit
        | Action::ConfirmPortfolioEditLots
        | Action::ConfirmPortfolioEditPrice
        | Action::CancelPortfolioEdit
        | Action::RemoveSelectedHolding
        | Action::ShowPortfolioDetail
        | Action::PrevPortfolio
        | Action::NextPortfolio
        | Action::StartPortfolioNew
        | Action::StartPortfolioRename
        | Action::ConfirmPortfolioNew
        | Action::ConfirmPortfolioRename
        | Action::RemoveCurrentPortfolio
        | Action::ShowPortfolioChart
        | Action::ClosePortfolioChart => Group::Portfolio,
        Action::OpenAlertModal
        | Action::CloseAlertModal
        | Action::AlertListUp
        | Action::AlertListDown
        | Action::AlertListConfirm
        | Action::AlertListDelete
        | Action::AlertTypeCycle
        | Action::AlertTypeConfirm
        | Action::AlertValueConfirm
        | Action::CancelAlertAdd => Group::Alerts,
        Action::OpenNewsDetail
        | Action::CloseDetail
        | Action::ScrollDetailUp
        | Action::ScrollDetailDown
        | Action::OpenArticle
        | Action::ToggleNewsBookmark
        | Action::RemoveSelectedBookmark
        | Action::StartClearBookmarks
        | Action::ConfirmClearBookmarks
        | Action::CancelClearBookmarks
        | Action::OpenBookmarkDetail
        | Action::ToggleBookmarkRead => Group::News,
        Action::StartExport
        | Action::CancelExport
        | Action::ExportMenuUp
        | Action::ExportMenuDown
        | Action::ToggleExportFormat
        | Action::ToggleExportScope
        | Action::ConfirmExport => Group::Export,
    }
}

impl AppModel {
    /// The command that asks for the data of the view that is shown: the
    /// news in the news view, quotes in the others.
    pub open spec fn refresh_command(self) -> CommandModel {
        if self.view_mode == ViewMode::News {
            CommandModel::RefreshNews
        } else {
            CommandModel::RefreshQuotes
        }
    }

    /// The command that follows a change of view: quotes for a view that
    /// shows them, the news for the news view if none were fetched yet.
    pub open spec fn view_changed_command(self) -> CommandModel {
        if self.view_mode != ViewMode::News {
            CommandModel::RefreshQuotes
        } else if self.news_last_refresh.is_none() {
            CommandModel::RefreshNews
        } else {
            CommandModel::Nothing
        }
    }

    /// The session after the search field was confirmed.
    pub open spec fn confirm_search(self) -> AppModel {
        if self.input_buffer.len() > 0 {
            AppModel {
                search_query: uppercase_of(trimmed(self.input_buffer)),
                search_active: true,
                input_mode: InputMode::Normal,
                input_buffer: Seq::empty(),
                ..self
            }.all_at_top()
        } else {
            AppModel {
                input_mode: InputMode::Normal,
                input_buffer: Seq::empty(),
                ..self
            }.without_filter()
        }
    }

    /// The session after a switch to the next view.
    pub open spec fn toggle_view(self) -> AppModel {
        AppModel {
            view_mode: AppModel::next_view(self.view_mode),
            quotes: if AppModel::next_view(self.view_mode) != ViewMode::News {
                Map::empty()
            } else {
                self.quotes
            },
            ..self
        }.without_filter()
    }

    /// One step of the session for an action that belongs to no view in
    /// particular: the session afterwards, and the command for the caller.
    pub open spec fn step_general(self, action: Action) -> (AppModel, CommandModel) {
        match action {
            Action::Quit => (self, CommandModel::Quit),
            Action::ShowHelp => (
                AppModel { input_mode: InputMode::Help, ..self },
                CommandModel::Nothing,
            ),
            Action::CloseHelp => (
                AppModel { input_mode: InputMode::Normal, ..self },
                CommandModel::Nothing,
            ),
            Action::StartSearch => (
                AppModel { input_mode: InputMode::Search, input_buffer: Seq::empty(), ..self },
                CommandModel::Nothing,
            ),
            Action::ConfirmSearch => (self.confirm_search(), CommandModel::Nothing),
            Action::CancelSearch => (self.back_to_normal().without_filter(), CommandModel::Nothing),
            Action::ToggleView => (self.toggle_view(), self.toggle_view().view_changed_command()),
            Action::ToggleNewsTab => (
                AppModel {
                    news_tab: match self.news_tab {
                        NewsTab::Feed => NewsTab::Bookmarks,
                        NewsTab::Bookmarks => NewsTab::Feed,
                    },
                    ..self
                },
                CommandModel::Nothing,
            ),
            Action::Refresh => (self, self.refresh_command()),
            Action::MoveUp => (
                self.select_row(moved_up(self.selection(self.active_list()))),
                CommandModel::Nothing,
            ),
            Action::MoveDown => (
                self.select_row(
                    moved_down(
                        self.selection(self.active_list()),
                        self.row_count(self.active_list()),
                    ),
                ),
                CommandModel::Nothing,
            ),
            Action::CycleSortColumn => (
                self.with_sort(
                    self.active_list(),
                    next_sort_column(
                        self.sort_column(self.active_list()),
                        AppModel::sortable_columns(self.active_list()),
                    ),
                    self.sort_direction(self.active_list()),
                ).at_top(self.active_list()),
                CommandModel::Nothing,
            ),
            Action::ToggleSortDirection => (
                self.with_sort(
                    self.active_list(),
                    self.sort_column(self.active_list()),
                    self.sort_direction(self.active_list()).flipped(),
                ).at_top(self.active_list()),
                CommandModel::Nothing,
            ),
            Action::Append(c) => (
                AppModel { input_buffer: self.input_buffer.push(c), ..self },
                CommandModel::Nothing,
            ),
            Action::Backspace => (
                AppModel {
                    input_buffer: if self.input_buffer.len() > 0 {
                        self.input_buffer.drop_last()
                    } else {
                        self.input_buffer
                    },
                    ..self
                },
                CommandModel::Nothing,
            ),
            _ => (self, CommandModel::Nothing),
        }
    }

    /// The command that loads the detail view of the symbol that a view has
    /// selected, if it has one.
    pub open spec fn detail_command(self, symbol: Option<Seq<char>>) -> CommandModel {
        match symbol {
            Some(s) => CommandModel::LoadDetail { symbol: s, fetch_news: self.news_items.len() == 0 },
            None => CommandModel::Nothing,
        }
    }

    /// The session with the detail view of a selected symbol opening, if
    /// there is one.
    pub open spec fn show_detail(self, symbol: Option<Seq<char>>) -> AppModel {
        match symbol {
            Some(s) => self.begin_detail(s),
            None => self,
        }
    }

    /// The session after the name of a new watchlist was confirmed.
    pub open spec fn confirm_watchlist_add(self) -> AppModel {
        if self.input_buffer.len() > 0 {
            AppModel {
                config: crate::config::ConfigModel {
                    watchlists: self.config.watchlists.push(
                        crate::config::WatchlistModel {
                            name: trimmed(self.input_buffer),
                            symbols: Seq::empty(),
                        },
                    ),
                    active_watchlist: self.config.watchlists.len() as usize,
                    ..self.config
                },
                needs_save: true,
                quotes: Map::empty(),
                selected_index: 0,
                status_message: Some("Created watchlist '"@ + trimmed(self.input_buffer) + "'"@),
                ..self
            }.back_to_normal()
        } else {
            self.back_to_normal()
        }
    }

    /// The session after the new name of the active watchlist was
    /// confirmed.
    pub open spec fn confirm_watchlist_rename(self) -> AppModel {
        if self.input_buffer.len() > 0 {
            AppModel {
                config: crate::config::ConfigModel {
                    watchlists: self.config.watchlists.update(
                        self.config.active_watchlist as int,
                        crate::config::WatchlistModel {
                            name: trimmed(self.input_buffer),
                            ..self.config.current_watchlist()
                        },
                    ),
                    ..self.config
                },
                needs_save: true,
                status_message: Some(
                    "Renamed '"@ + self.config.current_watchlist().name + "' to '"@ + trimmed(
                        self.input_buffer,
                    ) + "'"@,
                ),
                ..self
            }.back_to_normal()
        } else {
            self.back_to_normal()
        }
    }

    /// The session after the active watchlist was asked to go.
    pub open spec fn remove_current_watchlist(self) -> AppModel {
        if self.config.watchlists.len() > 1 {
            AppModel {
                config: crate::config::ConfigModel {
                    watchlists: self.config.watchlists.remove(self.config.active_watchlist as int),
                    active_watchlist: crate::config::index_after_removal(
                        self.config.active_watchlist,
                        self.config.watchlists.len(),
                    ) as usize,
                    ..self.config
                },
                needs_save: true,
                quotes: Map::empty(),
                selected_index: 0,
                status_message: Some(
                    "Removed watchlist '"@ + self.config.current_watchlist().name + "'"@,
                ),
                ..self
            }
        } else {
            AppModel { status_message: Some("Cannot remove the last watchlist"@), ..self }
        }
    }

    /// One step of the session for an action of the watchlist view.
    pub open spec fn step_watchlist(self, action: Action) -> (AppModel, CommandModel) {
        match action {
            Action::StartAdding => (
                AppModel { input_mode: InputMode::Adding, input_buffer: Seq::empty(), ..self },
                CommandModel::Nothing,
            ),
            Action::ConfirmAdd => (self.confirm_add(), CommandModel::RefreshQuotes),
            Action::CancelInput => (self.back_to_normal(), CommandModel::Nothing),
            Action::RemoveSelected => (self.remove_selected(), CommandModel::RefreshQuotes),
            Action::PrevWatchlist => (
                self.on_watchlist(
                    crate::config::ring_prev(
                        self.config.active_watchlist,
                        self.config.watchlists.len(),
                    ) as usize,
                ),
                CommandModel::RefreshQuotes,
            ),
            Action::NextWatchlist => (
                self.on_watchlist(
                    crate::config::ring_next(
                        self.config.active_watchlist,
                        self.config.watchlists.len(),
                    ) as usize,
                ),
                CommandModel::RefreshQuotes,
            ),
            Action::StartWatchlistAdd => (
                AppModel {
                    input_mode: InputMode::WatchlistAdd,
                    input_buffer: Seq::empty(),
                    ..self
                },
                CommandModel::Nothing,
            ),
            Action::StartWatchlistRename => (
                AppModel {
                    input_mode: InputMode::WatchlistRename,
                    input_buffer: self.config.current_watchlist().name,
                    ..self
                },
                CommandModel::Nothing,
            ),
            Action::ConfirmWatchlistAdd => (
                self.confirm_watchlist_add(),
                CommandModel::RefreshQuotes,
            ),
            Action::ConfirmWatchlistRename => (
                self.confirm_watchlist_rename(),
                CommandModel::RefreshQuotes,
            ),
            Action::RemoveCurrentWatchlist => (
                self.remove_current_watchlist(),
                CommandModel::RefreshQuotes,
            ),
            Action::ShowStockDetail => (
                self.show_detail(self.selected_watchlist_symbol()),
                self.detail_command(self.selected_watchlist_symbol()),
            ),
            Action::CloseStockDetail => (
                AppModel {
                    detail_symbol: None,
                    detail_chart: None,
                    detail_news: None,
                    input_mode: InputMode::Normal,
                    ..self
                },
                CommandModel::Nothing,
            ),
            _ => (self, CommandModel::Nothing),
        }
    }
}

impl App {
    /// The mode that the session is in.
    pub fn mode(&self) -> (r: InputMode)
        ensures
            r == self@.input_mode,
    {
        proof {
            reveal(App::model);
        }
        self.input_mode
    }

    /// The tab of the news view that is shown.
    pub(crate) fn tab(&self) -> (r: NewsTab)
        ensures
            r == self@.news_tab,
    {
        proof {
            reveal(App::model);
        }
        self.news_tab
    }

    /// The selected row of the export menu.
    pub(crate) fn export_row(&self) -> (r: usize)
        ensures
            r == self@.export_menu_selection,
    {
        proof {
            reveal(App::model);
        }
        self.export_menu_selection
    }

    /// Whether the news were fetched at least once.
    pub(crate) fn news_were_fetched(&self) -> (r: bool)
        ensures
            r == self@.news_last_refresh.is_some(),
    {
        proof {
            reveal(App::model);
        }
        self.news_last_refresh.is_some()
    }

    /// Types a character into the text field.
    pub fn type_char(&mut self, c: char)
        ensures
            final(self)@ == (AppModel {
                input_buffer: old(self)@.input_buffer.push(c),
                ..old(self)@
            }),
    {
        proof {
            reveal(App::model);
        }
        self.input_buffer.push(c);
    }

    /// Erases the last character of the text field, if it has one.
    pub fn erase_char(&mut self)
        ensures
            final(self)@ == (AppModel {
                input_buffer: if old(self)@.input_buffer.len() > 0 {
                    old(self)@.input_buffer.drop_last()
                } else {
                    old(self)@.input_buffer
                },
                ..old(self)@
            }),
    {
        proof {
            reveal(App::model);
        }
        let _ = self.input_buffer.pop();
    }

    /// The command that asks for the data of the view that is shown.
    fn refresh_command(&self) -> (r: Command)
        ensures
            r@ == self@.refresh_command(),
    {
        if self.current_view() == ViewMode::News {
            Command::RefreshNews
        } else {
            Command::RefreshQuotes
        }
    }

    /// The command that follows a change of view.
    fn view_changed_command(&self) -> (r: Command)
        ensures
            r@ == self@.view_changed_command(),
    {
        if self.current_view() != ViewMode::News {
            Command::RefreshQuotes
        } else if !self.news_were_fetched() {
            Command::RefreshNews
        } else {
            Command::Nothing
        }
    }

    /// Carries out an action that belongs to no view in particular.
    pub fn apply_general(&mut self, action: Action) -> (command: Command)
        requires
            old(self).wf(),
            group_of(action) == Group::General,
        ensures
            (final(self)@, command@) == old(self)@.step_general(action),
            final(self).wf(),
    {
        match action {
            Action::Quit => Command::Quit,
            Action::ShowHelp => {
                self.show_help();
                Command::Nothing
            },
            Action::CloseHelp => {
                self.close_help();
                Command::Nothing
            },
            Action::StartSearch => {
                self.start_search();
                Command::Nothing
            },
            Action::ConfirmSearch => {
                self.confirm_search();
                Command::Nothing
            },
            Action::CancelSearch => {
                self.cancel_search();
                Command::Nothing
            },
            Action::ToggleView => {
                self.toggle_view();
                self.view_changed_command()
            },
            Action::ToggleNewsTab => {
                self.toggle_news_tab();
                Command::Nothing
            },
            Action::Refresh => self.refresh_command(),
            Action::MoveUp => {
                self.move_up();
                Command::Nothing
            },
            Action::MoveDown => {
                self.move_down();
                Command::Nothing
            },
            Action::CycleSortColumn => {
                self.cycle_sort_column();
                Command::Nothing
            },
            Action::ToggleSortDirection => {
                self.toggle_sort_direction();
                Command::Nothing
            },
            Action::Append(c) => {
                self.type_char(c);
                Command::Nothing
            },
            Action::Backspace => {
                self.erase_char();
                Command::Nothing
            },
            _ => Command::Nothing,
        }
    }

    /// The command that loads the detail view that was just opened.
    fn detail_command(opened: Option<(String, bool)>) -> (r: Command)
        ensures
            r@ == (match opened.deep_view() {
                Some((symbol, fetch_news)) => CommandModel::LoadDetail { symbol, fetch_news },
                None => CommandModel::Nothing,
            }),
    {
        match opened {
            Some((symbol, fetch_news)) => Command::LoadDetail { symbol, fetch_news },
            None => Command::Nothing,
        }
    }

    /// Carries out an action of the watchlist view.
    pub fn apply_watchlist(&mut self, action: Action) -> (command: Command)
        requires
            old(self).wf(),
            group_of(action) == Group::Watchlist,
        ensures
            (final(self)@, command@) == old(self)@.step_watchlist(action),
            final(self).wf(),
    {
        match action {
            Action::StartAdding => {
                self.start_adding();
                Command::Nothing
            },
            Action::ConfirmAdd => {
                self.confirm_add();
                Command::RefreshQuotes
            },
            Action::CancelInput => {
                self.cancel_input();
                Command::Nothing
            },
            Action::RemoveSelected => {
                self.remove_selected();
                Command::RefreshQuotes
            },
            Action::PrevWatchlist => {
                self.prev_watchlist();
                Command::RefreshQuotes
            },
            Action::NextWatchlist => {
                self.next_watchlist();
                Command::RefreshQuotes
            },
            Action::StartWatchlistAdd => {
                self.start_watchlist_add();
                Command::Nothing
            },
            Action::StartWatchlistRename => {
                self.start_watchlist_rename();
                Command::Nothing
            },
            Action::ConfirmWatchlistAdd => {
                self.confirm_watchlist_add();
                Command::RefreshQuotes
            },
            Action::ConfirmWatchlistRename => {
                self.confirm_watchlist_rename();
                Command::RefreshQuotes
            },
            Action::RemoveCurrentWatchlist => {
                self.remove_current_watchlist();
                Command::RefreshQuotes
            },
            Action::ShowStockDetail => {
                let opened = self.show_stock_detail();
                App::detail_command(opened)
            },
            Action::CloseStockDetail => {
                self.close_stock_detail();
                Command::Nothing
            },
            _ => Command::Nothing,
        }
    }
}

impl AppModel {
    /// The session on another portfolio, with no sort column.
    pub open spec fn on_portfolio(self, active: usize) -> AppModel {
        AppModel {
            config: crate::config::ConfigModel { active_portfolio: active, ..self.config },
            portfolio_sort_column: None,
            ..self
        }.portfolio_view_reset()
    }

    /// The session after the name of a new portfolio was confirmed.
    pub open spec fn confirm_portfolio_new(self) -> AppModel {
        if self.input_buffer.len() > 0 {
            AppModel {
                config: crate::config::ConfigModel {
                    portfolios: self.config.portfolios.push(
                        crate::config::PortfolioModel {
                            name: trimmed(self.input_buffer),
                            holdings: Seq::empty(),
                        },
                    ),
                    active_portfolio: self.config.portfolios.len() as usize,
                    ..self.config
                },
                needs_save: true,
                status_message: Some("Created portfolio '"@ + trimmed(self.input_buffer) + "'"@),
                ..self
            }.portfolio_view_reset().back_to_normal()
        } else {
            self.back_to_normal()
        }
    }

    /// The session after the new name of the active portfolio was
    /// confirmed.
    pub open spec fn confirm_portfolio_rename(self) -> AppModel {
        if self.input_buffer.len() > 0 {
            AppModel {
                config: crate::config::ConfigModel {
                    portfolios: self.config.portfolios.update(
                        self.config.active_portfolio as int,
                        crate::config::PortfolioModel {
                            name: trimmed(self.input_buffer),
                            ..self.config.current_portfolio()
                        },
                    ),
                    ..self.config
                },
                needs_save: true,
                status_message: Some(
                    "Renamed '"@ + self.config.current_portfolio().name + "' to '"@ + trimmed(
                        self.input_buffer,
                    ) + "'"@,
                ),
                ..self
            }.back_to_normal()
        } else {
            self.back_to_normal()
        }
    }

    /// The session after the active portfolio was asked to go.
    pub open spec fn remove_current_portfolio(self) -> AppModel {
        if self.config.portfolios.len() > 1 {
            AppModel {
                config: crate::config::ConfigModel {
                    portfolios: self.config.portfolios.remove(self.config.active_portfolio as int),
                    active_portfolio: crate::config::index_after_removal(
                        self.config.active_portfolio,
                        self.config.portfolios.len(),
                    ) as usize,
                    ..self.config
                },
                needs_save: true,
                status_message: Some(
                    "Removed portfolio '"@ + self.config.current_portfolio().name + "'"@,
                ),
                ..self
            }.portfolio_view_reset()
        } else {
            AppModel { status_message: Some("Cannot remove the last portfolio"@), ..self }
        }
    }

    /// One step of the session for an action of the portfolio view.
    pub open spec fn step_portfolio(self, action: Action) -> (AppModel, CommandModel) {
        match action {
            Action::StartPortfolioAdd => (
                AppModel {
                    input_mode: InputMode::PortfolioAddSymbol,
                    input_buffer: Seq::empty(),
                    pending_symbol: None,
                    pending_lots: None,
                    ..self
                },
                CommandModel::Nothing,
            ),
            Action::ConfirmPortfolioSymbol => (
                self.confirm_portfolio_symbol(),
                CommandModel::Nothing,
            ),
            Action::ConfirmPortfolioLots => (
                self.confirm_lots(InputMode::PortfolioAddPrice, Seq::empty()),
                CommandModel::Nothing,
            ),
            Action::ConfirmPortfolioPrice => (
                self.confirm_portfolio_price(),
                CommandModel::RefreshQuotes,
            ),
            Action::CancelPortfolioAdd => (self.holding_wizard_left(), CommandModel::Nothing),
            Action::StartPortfolioEdit => (self.start_portfolio_edit(), CommandModel::Nothing),
            Action::ConfirmPortfolioEditLots => (
                self.confirm_lots(InputMode::PortfolioEditPrice, self.edit_price_prefill()),
                CommandModel::Nothing,
            ),
            Action::ConfirmPortfolioEditPrice => (
                self.confirm_portfolio_edit_price(),
                CommandModel::RefreshQuotes,
            ),
            Action::CancelPortfolioEdit => (self.holding_wizard_left(), CommandModel::Nothing),
            Action::RemoveSelectedHolding => (
                self.remove_selected_holding(),
                CommandModel::RefreshQuotes,
            ),
            Action::ShowPortfolioDetail => (
                self.show_detail(self.selected_portfolio_symbol()),
                self.detail_command(self.selected_portfolio_symbol()),
            ),
            Action::PrevPortfolio => (
                self.on_portfolio(
                    crate::config::ring_prev(
                        self.config.active_portfolio,
                        self.config.portfolios.len(),
                    ) as usize,
                ),
                CommandModel::RefreshQuotes,
            ),
            Action::NextPortfolio => (
                self.on_portfolio(
                    crate::config::ring_next(
                        self.config.active_portfolio,
                        self.config.portfolios.len(),
                    ) as usize,
                ),
                CommandModel::RefreshQuotes,
            ),
            Action::StartPortfolioNew => (
                AppModel {
                    input_mode: InputMode::PortfolioNew,
                    input_buffer: Seq::empty(),
                    ..self
                },
                CommandModel::Nothing,
            ),
            Action::StartPortfolioRename => (
                AppModel {
                    input_mode: InputMode::PortfolioRename,
                    input_buffer: self.config.current_portfolio().name,
                    ..self
                },
                CommandModel::Nothing,
            ),
            Action::ConfirmPortfolioNew => (
                self.confirm_portfolio_new(),
                CommandModel::RefreshQuotes,
            ),
            Action::ConfirmPortfolioRename => (
                self.confirm_portfolio_rename(),
                CommandModel::Nothing,
            ),
            Action::RemoveCurrentPortfolio => (
                self.remove_current_portfolio(),
                CommandModel::RefreshQuotes,
            ),
            Action::ShowPortfolioChart => (
                AppModel {
                    input_mode: if self.config.current_portfolio().holdings.len() > 0 {
                        InputMode::PortfolioChart
                    } else {
                        self.input_mode
                    },
                    ..self
                },
                CommandModel::Nothing,
            ),
            Action::ClosePortfolioChart => (
                AppModel { input_mode: InputMode::Normal, ..self },
                CommandModel::Nothing,
            ),
            _ => (self, CommandModel::Nothing),
        }
    }

    /// One step of the session for an action of the alert list or the alert
    /// wizard, at time `now` (seconds since the epoch).
    pub open spec fn step_alerts(self, action: Action, now: u64) -> (AppModel, CommandModel) {
        (
            match action {
                Action::OpenAlertModal => self.open_alert_modal(),
                Action::CloseAlertModal => AppModel {
                    alert_symbol: None,
                    alert_list_selected: 0,
                    input_mode: InputMode::Normal,
                    input_buffer: Seq::empty(),
                    ..self
                },
                Action::AlertListUp => AppModel {
                    alert_list_selected: if self.alert_list_selected > 0 {
                        (self.alert_list_selected - 1) as usize
                    } else {
                        0
                    },
                    ..self
                },
                Action::AlertListDown => AppModel {
                    alert_list_selected: if self.alert_list_selected < self.listed_alerts().len() {
                        (self.alert_list_selected + 1) as usize
                    } else {
                        self.alert_list_selected
                    },
                    ..self
                },
                Action::AlertListConfirm => self.alert_list_confirm(),
                Action::AlertListDelete => self.alert_list_delete(),
                Action::AlertTypeCycle => AppModel {
                    pending_alert_type: self.pending_alert_type.following(),
                    ..self
                },
                Action::AlertTypeConfirm => AppModel {
                    input_buffer: Seq::empty(),
                    input_mode: InputMode::AlertAddValue,
                    ..self
                },
                Action::AlertValueConfirm => self.alert_value_confirm(now),
                Action::CancelAlertAdd => AppModel {
                    input_buffer: Seq::empty(),
                    input_mode: InputMode::AlertList,
                    pending_alert_type: AlertType::Above,
                    ..self
                },
                _ => self,
            },
            CommandModel::Nothing,
        )
    }

    /// The address of the article that the open detail shows, if it has
    /// one.
    pub open spec fn article_url(self) -> Option<Seq<char>> {
        match self.input_mode {
            InputMode::NewsDetail => match self.selected_news() {
                Some(item) => item.url,
                None => None,
            },
            InputMode::BookmarkDetail => match self.selected_bookmark() {
                Some(bookmark) => bookmark.url,
                None => None,
            },
            _ => None,
        }
    }

    /// The session with the open article detail scrolled by one line.
    pub open spec fn scroll_detail(self, down: bool) -> AppModel {
        match self.input_mode {
            InputMode::NewsDetail => AppModel {
                news_detail_scroll: scrolled_line(self.news_detail_scroll, down),
                ..self
            },
            InputMode::BookmarkDetail => AppModel {
                bookmark_detail_scroll: scrolled_line(self.bookmark_detail_scroll, down),
                ..self
            },
            _ => self,
        }
    }

    /// One step of the session for an action of the news view, at time
    /// `now` (seconds since the epoch).
    pub open spec fn step_news(self, action: Action, now: u64) -> (AppModel, CommandModel) {
        match action {
            Action::OpenNewsDetail => (
                if self.news_selected < self.filtered_news().len() {
                    AppModel { input_mode: InputMode::NewsDetail, news_detail_scroll: 0, ..self }
                } else {
                    self
                },
                CommandModel::Nothing,
            ),
            Action::CloseDetail => (
                AppModel { input_mode: InputMode::Normal, ..self },
                CommandModel::Nothing,
            ),
            Action::ScrollDetailUp => (self.scroll_detail(false), CommandModel::Nothing),
            Action::ScrollDetailDown => (self.scroll_detail(true), CommandModel::Nothing),
            Action::OpenArticle => (
                self,
                match self.article_url() {
                    Some(url) => CommandModel::OpenUrl(url),
                    None => CommandModel::Nothing,
                },
            ),
            Action::ToggleNewsBookmark => (self.toggle_news_bookmark(now), CommandModel::Nothing),
            Action::RemoveSelectedBookmark => (
                self.remove_selected_bookmark(),
                CommandModel::Nothing,
            ),
            Action::StartClearBookmarks => (
                AppModel {
                    input_mode: if self.config.bookmarks.len() > 0 {
                        InputMode::BookmarkClearConfirm
                    } else {
                        self.input_mode
                    },
                    ..self
                },
                CommandModel::Nothing,
            ),
            Action::ConfirmClearBookmarks => (
                AppModel {
                    config: crate::config::ConfigModel { bookmarks: Seq::empty(), ..self.config },
                    needs_save: true,
                    bookmark_selected: 0,
                    bookmark_table_state: super::TableState {
                        offset: 0,
                        selected: self.bookmark_table_state.selected,
                    },
                    input_mode: InputMode::Normal,
                    status_message: Some("All bookmarks cleared"@),
                    ..self
                },
                CommandModel::Nothing,
            ),
            Action::CancelClearBookmarks => (
                AppModel { input_mode: InputMode::Normal, ..self },
                CommandModel::Nothing,
            ),
            Action::OpenBookmarkDetail => (
                match self.selected_bookmark() {
                    Some(_) => AppModel {
                        input_mode: InputMode::BookmarkDetail,
                        bookmark_detail_scroll: 0,
                        ..self.mark_selected_bookmark(false)
                    },
                    None => self,
                },
                CommandModel::Nothing,
            ),
            Action::ToggleBookmarkRead => (self.mark_selected_bookmark(true), CommandModel::Nothing),
            _ => (self, CommandModel::Nothing),
        }
    }

    /// One step of the session for an action of the export menu.
    pub open spec fn step_export(self, action: Action) -> (AppModel, CommandModel) {
        match action {
            Action::StartExport => (
                AppModel {
                    input_mode: InputMode::ExportMenu,
                    export_menu_selection: 0,
                    export_scope: match self.view_mode {
                        ViewMode::Portfolio => ExportScope::Portfolio,
                        _ => ExportScope::Watchlist,
                    },
                    ..self
                },
                CommandModel::Nothing,
            ),
            Action::CancelExport => (
                AppModel { input_mode: InputMode::Normal, ..self },
                CommandModel::Nothing,
            ),
            Action::ExportMenuUp => (
                AppModel {
                    export_menu_selection: if self.export_menu_selection > 0 {
                        (self.export_menu_selection - 1) as usize
                    } else {
                        0
                    },
                    ..self
                },
                CommandModel::Nothing,
            ),
            Action::ExportMenuDown => (
                AppModel {
                    export_menu_selection: if self.export_menu_selection
                        < super::export::EXPORT_MENU_CONFIRM_ROW {
                        (self.export_menu_selection + 1) as usize
                    } else {
                        self.export_menu_selection
                    },
                    ..self
                },
                CommandModel::Nothing,
            ),
            Action::ToggleExportFormat => (
                AppModel {
                    export_format: match self.export_format {
                        ExportFormat::Csv => ExportFormat::Json,
                        ExportFormat::Json => ExportFormat::Csv,
                    },
                    ..self
                },
                CommandModel::Nothing,
            ),
            Action::ToggleExportScope => (
                AppModel {
                    export_scope: match self.export_scope {
                        ExportScope::Watchlist => ExportScope::Portfolio,
                        ExportScope::Portfolio => ExportScope::Watchlist,
                    },
                    ..self
                },
                CommandModel::Nothing,
            ),
            Action::ConfirmExport => if self.export_menu_selection
                == super::export::EXPORT_MENU_CONFIRM_ROW {
                (AppModel { input_mode: InputMode::Normal, ..self }, CommandModel::WriteExport)
            } else {
                (self, CommandModel::Nothing)
            },
            _ => (self, CommandModel::Nothing),
        }
    }

    /// One step of the session: what it is after an action was carried out
    /// at time `now` (seconds since the epoch), and the command for the
    /// caller.
    pub open spec fn step(self, action: Action, now: u64) -> (AppModel, CommandModel) {
        match group_of(action) {
            Group::General => self.step_general(action),
            Group::Watchlist => self.step_watchlist(action),
            Group::Portfolio => self.step_portfolio(action),
            Group::Alerts => self.step_alerts(action, now),
            Group::News => self.step_news(action, now),
            Group::Export => self.step_export(action),
        }
    }

    /// What a key means in the session as it is.
    pub open spec fn key_action(self, key: Key) -> Action {
        key_action(self.input_mode, self.view_mode, self.news_tab, self.export_menu_selection, key)
    }
}

/// A scroll position one line further down or up; it stops at the top.
pub open spec fn scrolled_line(scroll: usize, down: bool) -> usize {
    if down {
        if scroll < usize::MAX {
            (scroll + 1) as usize
        } else {
            scroll
        }
    } else if scroll > 0 {
        (scroll - 1) as usize
    } else {
        scroll
    }
}

/// A scroll position one line further down or up.
fn scroll_line(scroll: usize, down: bool) -> (r: usize)
    ensures
        r == scrolled_line(scroll, down),
{
    if down {
        if scroll < usize::MAX {
            scroll + 1
        } else {
            scroll
        }
    } else if scroll > 0 {
        scroll - 1
    } else {
        scroll
    }
}

impl App {
    /// Carries out an action of the portfolio view.
    pub fn apply_portfolio(&mut self, action: Action) -> (command: Command)
        requires
            old(self).wf(),
            group_of(action) == Group::Portfolio,
        ensures
            (final(self)@, command@) == old(self)@.step_portfolio(action),
            final(self).wf(),
    {
        match action {
            Action::StartPortfolioAdd => {
                self.start_portfolio_add();
                Command::Nothing
            },
            Action::ConfirmPortfolioSymbol => {
                self.confirm_portfolio_symbol();
                Command::Nothing
            },
            Action::ConfirmPortfolioLots => {
                self.confirm_portfolio_lots();
                Command::Nothing
            },
            Action::ConfirmPortfolioPrice => {
                self.confirm_portfolio_price();
                Command::RefreshQuotes
            },
            Action::CancelPortfolioAdd => {
                self.cancel_portfolio_add();
                Command::Nothing
            },
            Action::StartPortfolioEdit => {
                self.start_portfolio_edit();
                Command::Nothing
            },
            Action::ConfirmPortfolioEditLots => {
                self.confirm_portfolio_edit_lots();
                Command::Nothing
            },
            Action::ConfirmPortfolioEditPrice => {
                self.confirm_portfolio_edit_price();
                Command::RefreshQuotes
            },
            Action::CancelPortfolioEdit => {
                self.cancel_portfolio_edit();
                Command::Nothing
            },
            Action::RemoveSelectedHolding => {
                self.remove_selected_holding();
                Command::RefreshQuotes
            },
            Action::ShowPortfolioDetail => {
                let opened = self.show_portfolio_detail();
                App::detail_command(opened)
            },
            Action::PrevPortfolio => {
                self.prev_portfolio();
                Command::RefreshQuotes
            },
            Action::NextPortfolio => {
                self.next_portfolio();
                Command::RefreshQuotes
            },
            Action::StartPortfolioNew => {
                self.start_portfolio_new();
                Command::Nothing
            },
            Action::StartPortfolioRename => {
                self.start_portfolio_rename();
                Command::Nothing
            },
            Action::ConfirmPortfolioNew => {
                self.confirm_portfolio_new();
                Command::RefreshQuotes
            },
            Action::ConfirmPortfolioRename => {
                self.confirm_portfolio_rename();
                Command::Nothing
            },
            Action::RemoveCurrentPortfolio => {
                self.remove_current_portfolio();
                Command::RefreshQuotes
            },
            Action::ShowPortfolioChart => {
                self.show_portfolio_chart();
                Command::Nothing
            },
            Action::ClosePortfolioChart => {
                self.close_portfolio_chart();
                Command::Nothing
            },
            _ => Command::Nothing,
        }
    }

    /// Carries out an action of the alert list or the alert wizard at time
    /// `now` (seconds since the epoch).
    pub fn apply_alerts(&mut self, action: Action, now: u64) -> (command: Command)
        requires
            old(self).wf(),
            group_of(action) == Group::Alerts,
        ensures
            (final(self)@, command@) == old(self)@.step_alerts(action, now),
            final(self).wf(),
    {
        match action {
            Action::OpenAlertModal => self.open_alert_modal(),
            Action::CloseAlertModal => self.close_alert_modal(),
            Action::AlertListUp => self.alert_list_up(),
            Action::AlertListDown => self.alert_list_down(),
            Action::AlertListConfirm => self.alert_list_confirm(),
            Action::AlertListDelete => self.alert_list_delete(),
            Action::AlertTypeCycle => self.alert_type_cycle(),
            Action::AlertTypeConfirm => self.alert_type_confirm(),
            Action::AlertValueConfirm => self.alert_value_confirm_at(now),
            Action::CancelAlertAdd => self.cancel_alert_add(),
            _ => {},
        }
        Command::Nothing
    }

    /// Closes the detail of an article.
    pub fn close_detail(&mut self)
        ensures
            final(self)@ == (AppModel { input_mode: InputMode::Normal, ..old(self)@ }),
    {
        proof {
            reveal(App::model);
        }
        self.input_mode = InputMode::Normal;
    }

    /// Scrolls the open article detail by one line.
    pub fn scroll_detail(&mut self, down: bool)
        ensures
            final(self)@ == old(self)@.scroll_detail(down),
    {
        proof {
            reveal(App::model);
        }
        match self.input_mode {
            InputMode::NewsDetail => {
                self.news_detail_scroll = scroll_line(self.news_detail_scroll, down);
            },
            InputMode::BookmarkDetail => {
                self.bookmark_detail_scroll = scroll_line(self.bookmark_detail_scroll, down);
            },
            _ => {},
        }
    }

    /// The address of the article that the open detail shows, if it has
    /// one.
    pub fn article_url(&self) -> (r: Option<String>)
        ensures
            r.deep_view() == self@.article_url(),
    {
        match self.mode() {
            InputMode::NewsDetail => self.selected_news_url(),
            InputMode::BookmarkDetail => self.selected_bookmark_url(),
            _ => None,
        }
    }

    /// Carries out an action of the news view at time `now` (seconds since
    /// the epoch).
    pub fn apply_news(&mut self, action: Action, now: u64) -> (command: Command)
        requires
            old(self).wf(),
            group_of(action) == Group::News,
        ensures
            (final(self)@, command@) == old(self)@.step_news(action, now),
            final(self).wf(),
    {
        match action {
            Action::OpenNewsDetail => {
                self.open_news_detail();
                Command::Nothing
            },
            Action::CloseDetail => {
                self.close_detail();
                Command::Nothing
            },
            Action::ScrollDetailUp => {
                self.scroll_detail(false);
                Command::Nothing
            },
            Action::ScrollDetailDown => {
                self.scroll_detail(true);
                Command::Nothing
            },
            Action::OpenArticle => match self.article_url() {
                Some(url) => Command::OpenUrl(url),
                None => Command::Nothing,
            },
            Action::ToggleNewsBookmark => {
                self.toggle_news_bookmark_at(now);
                Command::Nothing
            },
            Action::RemoveSelectedBookmark => {
                self.remove_selected_bookmark();
                Command::Nothing
            },
            Action::StartClearBookmarks => {
                self.start_clear_bookmarks();
                Command::Nothing
            },
            Action::ConfirmClearBookmarks => {
                self.confirm_clear_bookmarks();
                Command::Nothing
            },
            Action::CancelClearBookmarks => {
                self.cancel_clear_bookmarks();
                Command::Nothing
            },
            Action::OpenBookmarkDetail => {
                self.open_bookmark_detail();
                Command::Nothing
            },
            Action::ToggleBookmarkRead => {
                self.toggle_selected_bookmark_read();
                Command::Nothing
            },
            _ => Command::Nothing,
        }
    }

    /// Carries out an action of the export menu.
    pub fn apply_export(&mut self, action: Action) -> (command: Command)
        requires
            old(self).wf(),
            group_of(action) == Group::Export,
        ensures
            (final(self)@, command@) == old(self)@.step_export(action),
            final(self).wf(),
    {
        match action {
            Action::StartExport => {
                self.start_export();
                Command::Nothing
            },
            Action::CancelExport => {
                self.cancel_export();
                Command::Nothing
            },
            Action::ExportMenuUp => {
                self.export_menu_up();
                Command::Nothing
            },
            Action::ExportMenuDown => {
                self.export_menu_down();
                Command::Nothing
            },
            Action::ToggleExportFormat => {
                self.toggle_export_format();
                Command::Nothing
            },
            Action::ToggleExportScope => {
                self.toggle_export_scope();
                Command::Nothing
            },
            Action::ConfirmExport => {
                if self.confirm_export() {
                    Command::WriteExport
                } else {
                    Command::Nothing
                }
            },
            _ => Command::Nothing,
        }
    }

    /// Carries out an action at time `now` (seconds since the epoch) and
    /// says what the caller is to do.
    pub fn perform(&mut self, action: Action, now: u64) -> (command: Command)
        requires
            old(self).wf(),
        ensures
            (final(self)@, command@) == old(self)@.step(action, now),
            final(self).wf(),
    {
        match action_group(action) {
            Group::General => self.apply_general(action),
            Group::Watchlist => self.apply_watchlist(action),
            Group::Portfolio => self.apply_portfolio(action),
            Group::Alerts => self.apply_alerts(action, now),
            Group::News => self.apply_news(action, now),
            Group::Export => self.apply_export(action),
        }
    }

    /// What a key means in the session as it is.
    pub fn action_for(&self, key: Key) -> (action: Action)
        ensures
            action == self@.key_action(key),
    {
        decide_key(self.mode(), self.current_view(), self.tab(), self.export_row(), key)
    }

    /// Handles one key press at time `now` (seconds since the epoch): finds
    /// what the key means in the mode the session is in, carries it out, and
    /// says what the caller is to do.
    pub fn handle_key_at(&mut self, key: Key, now: u64) -> (command: Command)
        requires
            old(self).wf(),
        ensures
            (final(self)@, command@) == old(self)@.step(old(self)@.key_action(key), now),
            final(self).wf(),
    {
        let action = self.action_for(key);
        self.perform(action, now)
    }

    /// Handles one key press now, by the system clock.
    pub fn handle_key(&mut self, key: Key) -> (command: Command)
        requires
            old(self).wf(),
        ensures
            exists|now: u64|
                (final(self)@, command@) == old(self)@.step(old(self)@.key_action(key), now),
            final(self).wf(),
    {
        let now = crate::clock::unix_now();
        self.handle_key_at(key, now)
    }
}

} // verus!
