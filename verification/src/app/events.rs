//! The input mode state machine: what each key means in each mode, and
//! what the session does about it. The caller reads the keys, hands them
//! in one by one, and carries out the command that comes back.

use super::{InputMode, NewsTab, ViewMode};

use crate::text::alphanumeric;
use vstd::prelude::*;

verus! {

/// A key press, as far as the session tells keys apart.
#[derive(Debug, Clone, Copy, PartialEq, Eq, Structural)]
pub enum Key {
    Char(char),
    Enter,
    Esc,
    Backspace,
    Up,
    Down,
    Left,
    Right,
    Tab,
    Other,
}

/// What the caller is asked to do after a key was handled.
#[derive(Debug, Clone)]
pub enum Command {
    /// Nothing.
    Nothing,
    /// End the session.
    Quit,
    /// Fetch quotes now: call `prepare_refresh`, fetch, `execute_refresh`.
    RefreshQuotes,
    /// Fetch the news now: `prepare_news_refresh`, fetch,
    /// `execute_news_refresh`.
    RefreshNews,
    /// Load the detail view of a symbol: fetch the news first where
    /// `fetch_news` is set, call `show_detail_news`, fetch the chart, call
    /// `finish_detail_chart`.
    LoadDetail { symbol: String, fetch_news: bool },
    /// Write the export out and call `finish_export`.
    WriteExport,
    /// Open an article in the browser.
    OpenUrl(String),
}

/// The mathematical model of [`Command`].
pub enum CommandModel {
    Nothing,
    Quit,
    RefreshQuotes,
    RefreshNews,
    LoadDetail { symbol: Seq<char>, fetch_news: bool },
    WriteExport,
    OpenUrl(Seq<char>),
}

impl DeepView for Command {
    type V = CommandModel;

    open spec fn deep_view(&self) -> CommandModel {
        match self {
            Command::Nothing => CommandModel::Nothing,
            Command::Quit => CommandModel::Quit,
            Command::RefreshQuotes => CommandModel::RefreshQuotes,
            Command::RefreshNews => CommandModel::RefreshNews,
            Command::LoadDetail { symbol, fetch_news } => CommandModel::LoadDetail {
                symbol: symbol@,
                fetch_news: *fetch_news,
            },
            Command::WriteExport => CommandModel::WriteExport,
            Command::OpenUrl(url) => CommandModel::OpenUrl(url@),
        }
    }
}

impl View for Command {
    type V = CommandModel;

    open spec fn view(&self) -> CommandModel {
        self.deep_view()
    }
}

/// What a key means. The actions of normal mode come first, then those of
/// each modal state.
#[derive(Debug, Clone, Copy, PartialEq, Eq, Structural)]
pub enum Action {
    Ignore,
    Quit,
    ShowHelp,
    CloseHelp,
    StartSearch,
    ConfirmSearch,
    CancelSearch,
    ToggleView,
    ToggleNewsTab,
    Refresh,
    MoveUp,
    MoveDown,
    CycleSortColumn,
    ToggleSortDirection,
    // Watchlist
    StartAdding,
    ConfirmAdd,
    CancelInput,
    RemoveSelected,
    PrevWatchlist,
    NextWatchlist,
    StartWatchlistAdd,
    StartWatchlistRename,
    ConfirmWatchlistAdd,
    ConfirmWatchlistRename,
    RemoveCurrentWatchlist,
    ShowStockDetail,
    CloseStockDetail,
    // Portfolio
    StartPortfolioAdd,
    ConfirmPortfolioSymbol,
    ConfirmPortfolioLots,
    ConfirmPortfolioPrice,
    CancelPortfolioAdd,
    StartPortfolioEdit,
    ConfirmPortfolioEditLots,
    ConfirmPortfolioEditPrice,
    CancelPortfolioEdit,
    RemoveSelectedHolding,
    ShowPortfolioDetail,
    PrevPortfolio,
    NextPortfolio,
    StartPortfolioNew,
    StartPortfolioRename,
    ConfirmPortfolioNew,
    ConfirmPortfolioRename,
    RemoveCurrentPortfolio,
    ShowPortfolioChart,
    ClosePortfolioChart,
    // Alerts
    OpenAlertModal,
    CloseAlertModal,
    AlertListUp,
    AlertListDown,
    AlertListConfirm,
    AlertListDelete,
    AlertTypeCycle,
    AlertTypeConfirm,
    AlertValueConfirm,
    CancelAlertAdd,
    // News and bookmarks
    OpenNewsDetail,
    CloseDetail,
    ScrollDetailUp,
    ScrollDetailDown,
    OpenArticle,
    ToggleNewsBookmark,
    RemoveSelectedBookmark,
    StartClearBookmarks,
    ConfirmClearBookmarks,
    CancelClearBookmarks,
    OpenBookmarkDetail,
    ToggleBookmarkRead,
    // Export
    StartExport,
    CancelExport,
    ExportMenuUp,
    ExportMenuDown,
    ToggleExportFormat,
    ToggleExportScope,
    ConfirmExport,
    // Text field
    Append(char),
    Backspace,
}

/// Whether `c` is an ASCII digit.
pub open spec fn is_ascii_digit(c: char) -> bool {
    0x30 <= c as u32 <= 0x39
}

/// Whether a character may be typed into the text field of a mode: letters
/// and digits for a symbol, digits for lots, digits and the point for a
/// price or an alert value, letters, digits, space, `-` and `_` for a name,
/// anything for a search; nothing in a mode without a text field.
pub open spec fn accepts_char(mode: InputMode, c: char) -> bool {
    match mode {
        InputMode::Adding | InputMode::PortfolioAddSymbol => alphanumeric(c),
        InputMode::PortfolioAddLots | InputMode::PortfolioEditLots => is_ascii_digit(c),
        InputMode::PortfolioAddPrice | InputMode::PortfolioEditPrice | InputMode::AlertAddValue => {
            is_ascii_digit(c) || c == '.'
        },
        InputMode::WatchlistAdd
        | InputMode::WatchlistRename
        | InputMode::PortfolioNew
        | InputMode::PortfolioRename => alphanumeric(c) || c == ' ' || c == '-' || c == '_',
        InputMode::Search => true,
        _ => false,
    }
}

/// Whether a mode has a text field.
pub open spec fn is_text_mode(mode: InputMode) -> bool {
    match mode {
        InputMode::Adding
        | InputMode::WatchlistAdd
        | InputMode::WatchlistRename
        | InputMode::PortfolioAddSymbol
        | InputMode::PortfolioAddLots
        | InputMode::PortfolioAddPrice
        | InputMode::PortfolioEditLots
        | InputMode::PortfolioEditPrice
        | InputMode::Search
        | InputMode::PortfolioNew
        | InputMode::PortfolioRename
        | InputMode::AlertAddValue => true,
        _ => false,
    }
}

/// What the confirm key means in a mode with a text field.
pub open spec fn confirm_action(mode: InputMode) -> Action {
    match mode {
        InputMode::Adding => Action::ConfirmAdd,
        InputMode::WatchlistAdd => Action::ConfirmWatchlistAdd,
        InputMode::WatchlistRename => Action::ConfirmWatchlistRename,
        InputMode::PortfolioAddSymbol => Action::ConfirmPortfolioSymbol,
        InputMode::PortfolioAddLots => Action::ConfirmPortfolioLots,
        InputMode::PortfolioAddPrice => Action::ConfirmPortfolioPrice,
        InputMode::PortfolioEditLots => Action::ConfirmPortfolioEditLots,
        InputMode::PortfolioEditPrice => Action::ConfirmPortfolioEditPrice,
        InputMode::Search => Action::ConfirmSearch,
        InputMode::PortfolioNew => Action::ConfirmPortfolioNew,
        InputMode::PortfolioRename => Action::ConfirmPortfolioRename,
        InputMode::AlertAddValue => Action::AlertValueConfirm,
        _ => Action::Ignore,
    }
}

/// What the cancel key means in a mode with a text field.
pub open spec fn cancel_action(mode: InputMode) -> Action {
    match mode {
        InputMode::PortfolioAddSymbol
        | InputMode::PortfolioAddLots
        | InputMode::PortfolioAddPrice => Action::CancelPortfolioAdd,
        InputMode::PortfolioEditLots | InputMode::PortfolioEditPrice => Action::CancelPortfolioEdit,
        InputMode::Search => Action::CancelSearch,
        InputMode::AlertAddValue => Action::CancelAlertAdd,
        _ => Action::CancelInput,
    }
}

/// What a key means in a mode with a text field: confirm, cancel, erase,
/// or type a character that the field accepts. No other key does anything.
pub open spec fn text_key_action(mode: InputMode, key: Key) -> Action {
    match key {
        Key::Esc => cancel_action(mode),
        Key::Enter => confirm_action(mode),
        Key::Backspace => Action::Backspace,
        Key::Char(c) => if accepts_char(mode, c) {
            Action::Append(c)
        } else {
            Action::Ignore
        },
        _ => Action::Ignore,
    }
}

/// What a key means in normal mode.
pub open spec fn normal_key_action(view: ViewMode, tab: NewsTab, key: Key) -> Action {
    match key {
        Key::Char(c) => if c == 'q' {
            Action::Quit
        } else if c == '?' {
            Action::ShowHelp
        } else if c == '/' {
            Action::StartSearch
        } else if c == 'p' {
            Action::ToggleView
        } else if c == 'r' {
            Action::Refresh
        } else if c == 'k' {
            Action::MoveUp
        } else if c == 'j' {
            Action::MoveDown
        } else if c == 's' {
            Action::CycleSortColumn
        } else if c == 'S' {
            Action::ToggleSortDirection
        } else {
            match view {
                ViewMode::Watchlist => if c == 'e' {
                    Action::StartExport
                } else if c == 'a' {
                    Action::StartAdding
                } else if c == 'd' {
                    Action::RemoveSelected
                } else if c == 'h' {
                    Action::PrevWatchlist
                } else if c == 'l' {
                    Action::NextWatchlist
                } else if c == 'n' {
                    Action::StartWatchlistAdd
                } else if c == 'R' {
                    Action::StartWatchlistRename
                } else if c == 'D' {
                    Action::RemoveCurrentWatchlist
                } else if c == 'A' {
                    Action::OpenAlertModal
                } else {
                    Action::Ignore
                },
                ViewMode::Portfolio => if c == 'e' {
                    Action::StartPortfolioEdit
                } else if c == 'a' {
                    Action::StartPortfolioAdd
                } else if c == 'd' {
                    Action::RemoveSelectedHolding
                } else if c == 'h' {
                    Action::PrevPortfolio
                } else if c == 'l' {
                    Action::NextPortfolio
                } else if c == 'n' {
                    Action::StartPortfolioNew
                } else if c == 'R' {
                    Action::StartPortfolioRename
                } else if c == 'D' {
                    Action::RemoveCurrentPortfolio
                } else if c == 'c' {
                    Action::ShowPortfolioChart
                } else if c == 'A' {
                    Action::OpenAlertModal
                } else {
                    Action::Ignore
                },
                ViewMode::News => match tab {
                    NewsTab::Feed => if c == 'b' {
                        Action::ToggleNewsBookmark
                    } else {
                        Action::Ignore
                    },
                    NewsTab::Bookmarks => if c == 'd' {
                        Action::RemoveSelectedBookmark
                    } else if c == 'm' {
                        Action::ToggleBookmarkRead
                    } else if c == 'C' {
                        Action::StartClearBookmarks
                    } else {
                        Action::Ignore
                    },
                },
            }
        },
        Key::Up => Action::MoveUp,
        Key::Down => Action::MoveDown,
        Key::Left => match view {
            ViewMode::Watchlist => Action::PrevWatchlist,
            ViewMode::Portfolio => Action::PrevPortfolio,
            ViewMode::News => Action::Ignore,
        },
        Key::Right => match view {
            ViewMode::Watchlist => Action::NextWatchlist,
            ViewMode::Portfolio => Action::NextPortfolio,
            ViewMode::News => Action::Ignore,
        },
        Key::Enter => match view {
            ViewMode::Watchlist => Action::ShowStockDetail,
            ViewMode::Portfolio => Action::ShowPortfolioDetail,
            ViewMode::News => match tab {
                NewsTab::Feed => Action::OpenNewsDetail,
                NewsTab::Bookmarks => Action::OpenBookmarkDetail,
            },
        },
        Key::Tab => match view {
            ViewMode::News => Action::ToggleNewsTab,
            _ => Action::Ignore,
        },
        _ => Action::Ignore,
    }
}

/// Whether a key is one of the two that move up: the arrow and `k`.
pub open spec fn is_up(key: Key) -> bool {
    key == Key::Up || key == Key::Char('k')
}

/// Whether a key is one of the two that move down: the arrow and `j`.
pub open spec fn is_down(key: Key) -> bool {
    key == Key::Down || key == Key::Char('j')
}

/// Whether a key is one of the four that move sideways: the arrows, `h`
/// and `l`.
pub open spec fn is_sideways(key: Key) -> bool {
    key == Key::Left || key == Key::Right || key == Key::Char('h') || key == Key::Char('l')
}

/// What a key means in a modal state without a text field.
pub open spec fn modal_key_action(mode: InputMode, menu_row: usize, key: Key) -> Action {
    match mode {
        InputMode::StockDetail => if key == Key::Esc || key == Key::Enter {
            Action::CloseStockDetail
        } else {
            Action::Ignore
        },
        InputMode::Help => if key == Key::Esc || key == Key::Enter || key == Key::Char('?') {
            Action::CloseHelp
        } else {
            Action::Ignore
        },
        InputMode::ExportMenu => if key == Key::Esc {
            Action::CancelExport
        } else if is_up(key) {
            Action::ExportMenuUp
        } else if is_down(key) {
            Action::ExportMenuDown
        } else if is_sideways(key) {
            if menu_row == 0 {
                Action::ToggleExportFormat
            } else if menu_row == 1 {
                Action::ToggleExportScope
            } else {
                Action::Ignore
            }
        } else if key == Key::Enter {
            Action::ConfirmExport
        } else {
            Action::Ignore
        },
        InputMode::PortfolioChart => if key == Key::Esc || key == Key::Enter || key == Key::Char(
            'c',
        ) {
            Action::ClosePortfolioChart
        } else {
            Action::Ignore
        },
        InputMode::NewsDetail | InputMode::BookmarkDetail => if key == Key::Esc {
            Action::CloseDetail
        } else if is_up(key) {
            Action::ScrollDetailUp
        } else if is_down(key) {
            Action::ScrollDetailDown
        } else if key == Key::Char('o') {
            Action::OpenArticle
        } else {
            Action::Ignore
        },
        InputMode::BookmarkClearConfirm => if key == Key::Enter || key == Key::Char('y') {
            Action::ConfirmClearBookmarks
        } else if key == Key::Esc || key == Key::Char('n') {
            Action::CancelClearBookmarks
        } else {
            Action::Ignore
        },
        InputMode::AlertList => if key == Key::Esc {
            Action::CloseAlertModal
        } else if is_up(key) {
            Action::AlertListUp
        } else if is_down(key) {
            Action::AlertListDown
        } else if key == Key::Enter {
            Action::AlertListConfirm
        } else if key == Key::Char('d') {
            Action::AlertListDelete
        } else {
            Action::Ignore
        },
        InputMode::AlertAddType => if key == Key::Esc {
            Action::CancelAlertAdd
        } else if key == Key::Enter {
            Action::AlertTypeConfirm
        } else if is_up(key) || is_down(key) || is_sideways(key) || key == Key::Tab {
            Action::AlertTypeCycle
        } else {
            Action::Ignore
        },
        _ => Action::Ignore,
    }
}

/// What a key means, given the mode, the view, the tab of the news view and
/// the selected row of the export menu.
pub open spec fn key_action(
    mode: InputMode,
    view: ViewMode,
    tab: NewsTab,
    menu_row: usize,
    key: Key,
) -> Action {
    if mode == InputMode::Normal {
        normal_key_action(view, tab, key)
    } else if is_text_mode(mode) {
        text_key_action(mode, key)
    } else {
        modal_key_action(mode, menu_row, key)
    }
}

/// Whether a character may be typed into the text field of a mode.
pub fn mode_accepts(mode: InputMode, c: char) -> (r: bool)
    ensures
        r == accepts_char(mode, c),
{
    let n: u32 = c as u32;
    let digit = 0x30 <= n && n <= 0x39;
    match mode {
        InputMode::Adding | InputMode::PortfolioAddSymbol => c.is_alphanumeric(),
        InputMode::PortfolioAddLots | InputMode::PortfolioEditLots => digit,
        InputMode::PortfolioAddPrice | InputMode::PortfolioEditPrice | InputMode::AlertAddValue => {
            digit || c == '.'
        },
        InputMode::WatchlistAdd
        | InputMode::WatchlistRename
        | InputMode::PortfolioNew
        | InputMode::PortfolioRename => c.is_alphanumeric() || c == ' ' || c == '-' || c == '_',
        InputMode::Search => true,
        _ => false,
    }
}

/// What a key means in a mode with a text field.
pub fn decide_text_key(mode: InputMode, key: Key) -> (r: Action)
    ensures
        r == text_key_action(mode, key),
{
    match key {
        Key::Esc => match mode {
            InputMode::PortfolioAddSymbol
            | InputMode::PortfolioAddLots
            | InputMode::PortfolioAddPrice => Action::CancelPortfolioAdd,
            InputMode::PortfolioEditLots | InputMode::PortfolioEditPrice => {
                Action::CancelPortfolioEdit
            },
            InputMode::Search => Action::CancelSearch,
            InputMode::AlertAddValue => Action::CancelAlertAdd,
            _ => Action::CancelInput,
        },
        Key::Enter => match mode {
            InputMode::Adding => Action::ConfirmAdd,
            InputMode::WatchlistAdd => Action::ConfirmWatchlistAdd,
            InputMode::WatchlistRename => Action::ConfirmWatchlistRename,
            InputMode::PortfolioAddSymbol => Action::ConfirmPortfolioSymbol,
            InputMode::PortfolioAddLots => Action::ConfirmPortfolioLots,
            InputMode::PortfolioAddPrice => Action::ConfirmPortfolioPrice,
            InputMode::PortfolioEditLots => Action::ConfirmPortfolioEditLots,
            InputMode::PortfolioEditPrice => Action::ConfirmPortfolioEditPrice,
            InputMode::Search => Action::ConfirmSearch,
            InputMode::PortfolioNew => Action::ConfirmPortfolioNew,
            InputMode::PortfolioRename => Action::ConfirmPortfolioRename,
            InputMode::AlertAddValue => Action::AlertValueConfirm,
            _ => Action::Ignore,
        },
        Key::Backspace => Action::Backspace,
        Key::Char(c) => if mode_accepts(mode, c) {
            Action::Append(c)
        } else {
            Action::Ignore
        },
        _ => Action::Ignore,
    }
}

/// What a key means in normal mode.
pub fn decide_normal_key(view: ViewMode, tab: NewsTab, key: Key) -> (r: Action)
    ensures
        r == normal_key_action(view, tab, key),
{
    match key {
        Key::Char(c) => if c == 'q' {
            Action::Quit
        } else if c == '?' {
            Action::ShowHelp
        } else if c == '/' {
            Action::StartSearch
        } else if c == 'p' {
            Action::ToggleView
        } else if c == 'r' {
            Action::Refresh
        } else if c == 'k' {
            Action::MoveUp
        } else if c == 'j' {
            Action::MoveDown
        } else if c == 's' {
            Action::CycleSortColumn
        } else if c == 'S' {
            Action::ToggleSortDirection
        } else {
            match view {
                ViewMode::Watchlist => if c == 'e' {
                    Action::StartExport
                } else if c == 'a' {
                    Action::StartAdding
                } else if c == 'd' {
                    Action::RemoveSelected
                } else if c == 'h' {
                    Action::PrevWatchlist
                } else if c == 'l' {
                    Action::NextWatchlist
                } else if c == 'n' {
                    Action::StartWatchlistAdd
                } else if c == 'R' {
                    Action::StartWatchlistRename
                } else if c == 'D' {
                    Action::RemoveCurrentWatchlist
                } else if c == 'A' {
                    Action::OpenAlertModal
                } else {
                    Action::Ignore
                },
                ViewMode::Portfolio => if c == 'e' {
                    Action::StartPortfolioEdit
                } else if c == 'a' {
                    Action::StartPortfolioAdd
                } else if c == 'd' {
                    Action::RemoveSelectedHolding
                } else if c == 'h' {
                    Action::PrevPortfolio
                } else if c == 'l' {
                    Action::NextPortfolio
                } else if c == 'n' {
                    Action::StartPortfolioNew
                } else if c == 'R' {
                    Action::StartPortfolioRename
                } else if c == 'D' {
                    Action::RemoveCurrentPortfolio
                } else if c == 'c' {
                    Action::ShowPortfolioChart
                } else if c == 'A' {
                    Action::OpenAlertModal
                } else {
                    Action::Ignore
                },
                ViewMode::News => match tab {
                    NewsTab::Feed => if c == 'b' {
                        Action::ToggleNewsBookmark
                    } else {
                        Action::Ignore
                    },
                    NewsTab::Bookmarks => if c == 'd' {
                        Action::RemoveSelectedBookmark
                    } else if c == 'm' {
                        Action::ToggleBookmarkRead
                    } else if c == 'C' {
                        Action::StartClearBookmarks
                    } else {
                        Action::Ignore
                    },
                },
            }
        },
        Key::Up => Action::MoveUp,
        Key::Down => Action::MoveDown,
        Key::Left => match view {
            ViewMode::Watchlist => Action::PrevWatchlist,
            ViewMode::Portfolio => Action::PrevPortfolio,
            ViewMode::News => Action::Ignore,
        },
        Key::Right => match view {
            ViewMode::Watchlist => Action::NextWatchlist,
            ViewMode::Portfolio => Action::NextPortfolio,
            ViewMode::News => Action::Ignore,
        },
        Key::Enter => match view {
            ViewMode::Watchlist => Action::ShowStockDetail,
            ViewMode::Portfolio => Action::ShowPortfolioDetail,
            ViewMode::News => match tab {
                NewsTab::Feed => Action::OpenNewsDetail,
                NewsTab::Bookmarks => Action::OpenBookmarkDetail,
            },
        },
        Key::Tab => match view {
            ViewMode::News => Action::ToggleNewsTab,
            _ => Action::Ignore,
        },
        _ => Action::Ignore,
    }
}

/// Whether a key is the given character.
fn is_char(key: Key, c: char) -> (r: bool)
    ensures
        r == (key == Key::Char(c)),
{
    match key {
        Key::Char(k) => k == c,
        _ => false,
    }
}

/// What a key means in a modal state without a text field.
pub fn decide_modal_key(mode: InputMode, menu_row: usize, key: Key) -> (r: Action)
    ensures
        r == modal_key_action(mode, menu_row, key),
{
    let esc = key == Key::Esc;
    let enter = key == Key::Enter;
    let up = key == Key::Up || is_char(key, 'k');
    let down = key == Key::Down || is_char(key, 'j');
    let sideways = key == Key::Left || key == Key::Right || is_char(key, 'h') || is_char(key, 'l');
    match mode {
        InputMode::StockDetail => if esc || enter {
            Action::CloseStockDetail
        } else {
            Action::Ignore
        },
        InputMode::Help => if esc || enter || is_char(key, '?') {
            Action::CloseHelp
        } else {
            Action::Ignore
        },
        InputMode::ExportMenu => if esc {
            Action::CancelExport
        } else if up {
            Action::ExportMenuUp
        } else if down {
            Action::ExportMenuDown
        } else if sideways {
            if menu_row == 0 {
                Action::ToggleExportFormat
            } else if menu_row == 1 {
                Action::ToggleExportScope
            } else {
                Action::Ignore
            }
        } else if enter {
            Action::ConfirmExport
        } else {
            Action::Ignore
        },
        InputMode::PortfolioChart => if esc || enter || is_char(key, 'c') {
            Action::ClosePortfolioChart
        } else {
            Action::Ignore
        },
        InputMode::NewsDetail | InputMode::BookmarkDetail => if esc {
            Action::CloseDetail
        } else if up {
            Action::ScrollDetailUp
        } else if down {
            Action::ScrollDetailDown
        } else if is_char(key, 'o') {
            Action::OpenArticle
        } else {
            Action::Ignore
        },
        InputMode::BookmarkClearConfirm => if enter || is_char(key, 'y') {
            Action::ConfirmClearBookmarks
        } else if esc || is_char(key, 'n') {
            Action::CancelClearBookmarks
        } else {
            Action::Ignore
        },
        InputMode::AlertList => if esc {
            Action::CloseAlertModal
        } else if up {
            Action::AlertListUp
        } else if down {
            Action::AlertListDown
        } else if enter {
            Action::AlertListConfirm
        } else if is_char(key, 'd') {
            Action::AlertListDelete
        } else {
            Action::Ignore
        },
        InputMode::AlertAddType => if esc {
            Action::CancelAlertAdd
        } else if enter {
            Action::AlertTypeConfirm
        } else if up || down || sideways || key == Key::Tab {
            Action::AlertTypeCycle
        } else {
            Action::Ignore
        },
        _ => Action::Ignore,
    }
}

/// Whether a mode has a text field.
pub fn mode_has_text_field(mode: InputMode) -> (r: bool)
    ensures
        r == is_text_mode(mode),
{
    match mode {
        InputMode::Adding
        | InputMode::WatchlistAdd
        | InputMode::WatchlistRename
        | InputMode::PortfolioAddSymbol
        | InputMode::PortfolioAddLots
        | InputMode::PortfolioAddPrice
        | InputMode::PortfolioEditLots
        | InputMode::PortfolioEditPrice
        | InputMode::Search
        | InputMode::PortfolioNew
        | InputMode::PortfolioRename
        | InputMode::AlertAddValue => true,
        _ => false,
    }
}

/// What a key means, given the mode, the view, the tab of the news view and
/// the selected row of the export menu.
pub fn decide_key(mode: InputMode, view: ViewMode, tab: NewsTab, menu_row: usize, key: Key) -> (r:
    Action)
    ensures
        r == key_action(mode, view, tab, menu_row, key),
{
    if mode == InputMode::Normal {
        decide_normal_key(view, tab, key)
    } else if mode_has_text_field(mode) {
        decide_text_key(mode, key)
    } else {
        decide_modal_key(mode, menu_row, key)
    }
}

/// Only normal mode takes keys that move around, delete or refresh: in
/// every other mode a key means an action of that mode, or nothing.
pub proof fn lemma_normal_only_actions(
    mode: InputMode,
    view: ViewMode,
    tab: NewsTab,
    menu_row: usize,
    key: Key,
)
    requires
        mode != InputMode::Normal,
    ensures
        ({
            let action = key_action(mode, view, tab, menu_row, key);
            &&& action != Action::MoveUp
            &&& action != Action::MoveDown
            &&& action != Action::Refresh
            &&& action != Action::RemoveSelected
            &&& action != Action::RemoveSelectedHolding
            &&& action != Action::RemoveSelectedBookmark
            &&& action != Action::RemoveCurrentWatchlist
            &&& action != Action::RemoveCurrentPortfolio
            &&& action != Action::ToggleView
            &&& action != Action::Quit
        }),
{
}

/// In a mode with a text field a key confirms, cancels, erases, types a
/// character that the field accepts, or does nothing.
pub proof fn lemma_text_mode_keys(mode: InputMode, view: ViewMode, tab: NewsTab, menu_row: usize, key: Key)
    requires
        is_text_mode(mode),
    ensures
        ({
            let action = key_action(mode, view, tab, menu_row, key);
            ||| action == confirm_action(mode)
            ||| action == cancel_action(mode)
            ||| action == Action::Backspace
            ||| action == Action::Ignore
            ||| exists|c: char| action == Action::Append(c) && accepts_char(mode, c)
        }),
{
    match key {
        Key::Char(c) => {
            if accepts_char(mode, c) {
                assert(key_action(mode, view, tab, menu_row, key) == Action::Append(c));
            }
        },
        _ => {},
    }
}

} // verus!
