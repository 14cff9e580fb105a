//! Bookmarks: keeping articles of the feed, and the bookmark list.

use super::{App, AppModel, InputMode, TableState};
use crate::api::yahoo::copy_text;
use crate::api::{NewsItem, NewsItemModel};
use crate::config::{Bookmark, BookmarkModel, BookmarkOf, BookmarkWithId, ConfigModel};
use crate::number::{decimal, push_decimal, push_text};
use crate::rows::{filter_rows, keep_where, test_of, Except};
use crate::text::text_of;
use vstd::prelude::*;

verus! {

/// A time in seconds as a signed number; the largest one where it does not
/// fit.
pub open spec fn signed_time(now: u64) -> i64 {
    if now > i64::MAX {
        i64::MAX
    } else {
        now as i64
    }
}

/// The bookmark that keeps a news item at time `now`.
pub open spec fn bookmark_of(item: NewsItemModel, now: u64) -> BookmarkModel {
    BookmarkModel {
        id: "bm_"@ + decimal(now as nat),
        headline: item.title,
        source: item.publisher,
        url: item.url,
        published_at: item.published_at,
        bookmarked_at: signed_time(now),
        read: false,
    }
}

impl AppModel {
    /// The news item that the selection of the feed points at.
    pub open spec fn selected_news(self) -> Option<NewsItemModel> {
        if self.news_selected < self.filtered_news().len() {
            Some(self.filtered_news()[self.news_selected as int])
        } else {
            None
        }
    }

    /// The bookmark that the selection of the bookmark list points at.
    pub open spec fn selected_bookmark(self) -> Option<BookmarkModel> {
        if self.bookmark_selected < self.filtered_bookmarks().len() {
            Some(self.filtered_bookmarks()[self.bookmark_selected as int])
        } else {
            None
        }
    }

    /// The session after the bookmark key on the feed at time `now`: the
    /// selected article is bookmarked, or its bookmark removed where it had
    /// one. The store is due for saving. Nothing changes where no article is
    /// selected.
    pub open spec fn toggle_news_bookmark(self, now: u64) -> AppModel {
        match self.selected_news() {
            Some(item) => if self.config.is_bookmarked(item.title, item.url) {
                AppModel {
                    config: ConfigModel {
                        bookmarks: keep_where(
                            self.config.bookmarks,
                            |b: BookmarkModel| !b.is_article(item.title, item.url),
                        ),
                        ..self.config
                    },
                    needs_save: true,
                    status_message: Some("Bookmark removed"@),
                    ..self
                }
            } else {
                AppModel {
                    config: ConfigModel {
                        bookmarks: self.config.bookmarks.push(bookmark_of(item, now)),
                        ..self.config
                    },
                    needs_save: true,
                    status_message: Some("Article bookmarked"@),
                    ..self
                }
            },
            None => self,
        }
    }

    /// The session after the selected bookmark was removed (with every
    /// bookmark of its id): the store is due for saving and the selection
    /// points at a row of the list that is left, or at 0 where none is.
    pub open spec fn remove_selected_bookmark(self) -> AppModel {
        match self.selected_bookmark() {
            Some(bookmark) => {
                let removed = AppModel {
                    config: ConfigModel {
                        bookmarks: keep_where(
                            self.config.bookmarks,
                            |b: BookmarkModel| b.id != bookmark.id,
                        ),
                        ..self.config
                    },
                    needs_save: true,
                    status_message: Some("Bookmark removed"@),
                    ..self
                };
                AppModel {
                    bookmark_selected: super::navigation::clamped_after_removal(
                        self.bookmark_selected,
                        removed.filtered_bookmarks().len(),
                    ),
                    ..removed
                }
            },
            None => self,
        }
    }

    /// The session with the first bookmark that has the id of the selected
    /// one marked as read, or with its read flag flipped where `flip` is
    /// set, and the store due for saving.
    pub open spec fn mark_selected_bookmark(self, flip: bool) -> AppModel {
        match self.selected_bookmark() {
            Some(bookmark) => AppModel {
                config: self.config.mark_bookmark(bookmark.id, flip),
                needs_save: true,
                ..self
            },
            None => self,
        }
    }
}

/// The bookmark that keeps a news item at time `now`.
fn bookmark_for(item: &NewsItem, now: u64) -> (r: Bookmark)
    ensures
        r@ == bookmark_of(item@, now),
{
    let mut id: Vec<char> = Vec::new();
    push_text(&mut id, "bm_");
    push_decimal(&mut id, now as u128);
    assert(id@ =~= "bm_"@ + decimal(now as nat));
    Bookmark {
        id: text_of(&id),
        headline: item.title.clone(),
        source: item.publisher.clone(),
        url: copy_text(&item.url),
        published_at: item.published_at,
        bookmarked_at: if now > 0x7fff_ffff_ffff_ffff {
            0x7fff_ffff_ffff_ffff
        } else {
            now as i64
        },
        read: false,
    }
}

impl App {
    /// A copy of the news item that the selection of the feed points at.
    fn selected_news_item(&self) -> (r: Option<NewsItem>)
        ensures
            r.deep_view() == self@.selected_news(),
    {
        let selected = self.news_selection();
        let rows = self.get_filtered_news();
        if selected < rows.len() {
            Some(rows[selected].duplicate())
        } else {
            None
        }
    }

    /// The selection of the feed.
    fn news_selection(&self) -> (r: usize)
        ensures
            r == self@.news_selected,
    {
        proof {
            reveal(App::model);
        }
        self.news_selected
    }

    /// The selection of the bookmark list.
    fn bookmark_selection(&self) -> (r: usize)
        ensures
            r == self@.bookmark_selected,
    {
        proof {
            reveal(App::model);
        }
        self.bookmark_selected
    }

    /// The id of the bookmark that the selection of the list points at.
    fn selected_bookmark_id(&self) -> (r: Option<String>)
        ensures
            r.deep_view() == (match self@.selected_bookmark() {
                Some(b) => Some(b.id),
                None => None,
            }),
    {
        let selected = self.bookmark_selection();
        let rows = self.get_filtered_bookmarks();
        if selected < rows.len() {
            Some(rows[selected].id.clone())
        } else {
            None
        }
    }

    /// The address of the news item that the selection of the feed points
    /// at.
    pub(crate) fn selected_news_url(&self) -> (r: Option<String>)
        ensures
            r.deep_view() == (match self@.selected_news() {
                Some(item) => item.url,
                None => None,
            }),
    {
        let selected = self.news_selection();
        let rows = self.get_filtered_news();
        if selected < rows.len() {
            copy_text(&rows[selected].url)
        } else {
            None
        }
    }

    /// The address of the bookmark that the selection of the list points
    /// at.
    pub(crate) fn selected_bookmark_url(&self) -> (r: Option<String>)
        ensures
            r.deep_view() == (match self@.selected_bookmark() {
                Some(bookmark) => bookmark.url,
                None => None,
            }),
    {
        let selected = self.bookmark_selection();
        let rows = self.get_filtered_bookmarks();
        if selected < rows.len() {
            copy_text(&rows[selected].url)
        } else {
            None
        }
    }

    /// Bookmarks an article, or removes its bookmark where it has one.
    fn toggle_bookmark_of(&mut self, item: &NewsItem, now: u64)
        ensures
            final(self)@ == (if old(self)@.config.is_bookmarked(item@.title, item@.url) {
                AppModel {
                    config: ConfigModel {
                        bookmarks: keep_where(
                            old(self)@.config.bookmarks,
                            |b: BookmarkModel| !b.is_article(item@.title, item@.url),
                        ),
                        ..old(self)@.config
                    },
                    needs_save: true,
                    status_message: Some("Bookmark removed"@),
                    ..old(self)@
                }
            } else {
                AppModel {
                    config: ConfigModel {
                        bookmarks: old(self)@.config.bookmarks.push(bookmark_of(item@, now)),
                        ..old(self)@.config
                    },
                    needs_save: true,
                    status_message: Some("Article bookmarked"@),
                    ..old(self)@
                }
            }),
    {
        proof {
            reveal(App::model);
        }
        let url: Option<&str> = match &item.url {
            Some(u) => Some(u.as_str()),
            None => None,
        };
        if self.config.is_bookmarked(item.title.as_str(), url) {
            let filter = Except { inner: BookmarkOf { headline: item.title.as_str(), url } };
            filter_rows(&mut self.config.bookmarks, &filter);
            assert(test_of::<Bookmark, Except<BookmarkOf>>(&filter) =~= (|b: BookmarkModel|
                !b.is_article(item@.title, item@.url)));
            self.status_message = Some(String::from_str("Bookmark removed"));
        } else {
            let bookmark = bookmark_for(item, now);
            let ghost before = self.config.bookmarks.deep_view();
            self.config.bookmarks.push(bookmark);
            assert(self.config.bookmarks.deep_view() =~= before.push(bookmark_of(item@, now)));
            self.status_message = Some(String::from_str("Article bookmarked"));
        }
        self.needs_save = true;
    }

    /// Bookmarks the selected article of the feed at time `now` (seconds
    /// since the epoch), or removes its bookmark where it has one.
    pub fn toggle_news_bookmark_at(&mut self, now: u64)
        ensures
            final(self)@ == old(self)@.toggle_news_bookmark(now),
    {
        if let Some(item) = self.selected_news_item() {
            self.toggle_bookmark_of(&item, now);
        }
    }

    /// Bookmarks the selected article of the feed now, by the system clock,
    /// or removes its bookmark where it has one.
    pub fn toggle_news_bookmark(&mut self)
        ensures
            exists|now: u64| final(self)@ == old(self)@.toggle_news_bookmark(now),
    {
        let now = crate::clock::unix_now();
        self.toggle_news_bookmark_at(now);
    }

    /// Removes the bookmarks with the id.
    fn delete_bookmarks(&mut self, id: &str)
        ensures
            final(self)@ == (AppModel {
                config: ConfigModel {
                    bookmarks: keep_where(
                        old(self)@.config.bookmarks,
                        |b: BookmarkModel| b.id != id@,
                    ),
                    ..old(self)@.config
                },
                needs_save: true,
                status_message: Some("Bookmark removed"@),
                ..old(self)@
            }),
    {
        proof {
            reveal(App::model);
        }
        let filter = Except { inner: BookmarkWithId { id } };
        filter_rows(&mut self.config.bookmarks, &filter);
        assert(test_of::<Bookmark, Except<BookmarkWithId>>(&filter) =~= (|b: BookmarkModel|
            b.id != id@));
        self.needs_save = true;
        self.status_message = Some(String::from_str("Bookmark removed"));
    }

    /// Sets the selection of the bookmark list.
    fn select_bookmark(&mut self, index: usize)
        ensures
            final(self)@ == (AppModel { bookmark_selected: index, ..old(self)@ }),
    {
        proof {
            reveal(App::model);
        }
        self.bookmark_selected = index;
    }

    /// Removes the selected bookmark and moves the selection to a row that
    /// is left.
    pub fn remove_selected_bookmark(&mut self)
        ensures
            final(self)@ == old(self)@.remove_selected_bookmark(),
    {
        if let Some(id) = self.selected_bookmark_id() {
            let selected = self.bookmark_selection();
            self.delete_bookmarks(id.as_str());
            let left = self.get_filtered_bookmarks().len();
            self.select_bookmark(super::navigation::clamp_selection(selected, left));
        }
    }

    /// Asks whether every bookmark shall go, unless there is none.
    pub fn start_clear_bookmarks(&mut self)
        ensures
            final(self)@ == (AppModel {
                input_mode: if old(self)@.config.bookmarks.len() > 0 {
                    InputMode::BookmarkClearConfirm
                } else {
                    old(self)@.input_mode
                },
                ..old(self)@
            }),
    {
        proof {
            reveal(App::model);
        }
        if !self.config.bookmarks.is_empty() {
            self.input_mode = InputMode::BookmarkClearConfirm;
        }
    }

    /// Removes every bookmark.
    pub fn confirm_clear_bookmarks(&mut self)
        ensures
            final(self)@ == (AppModel {
                config: ConfigModel { bookmarks: Seq::empty(), ..old(self)@.config },
                needs_save: true,
                bookmark_selected: 0,
                bookmark_table_state: TableState {
                    offset: 0,
                    selected: old(self)@.bookmark_table_state.selected,
                },
                input_mode: InputMode::Normal,
                status_message: Some("All bookmarks cleared"@),
                ..old(self)@
            }),
    {
        proof {
            reveal(App::model);
        }
        self.config.clear_bookmarks();
        self.needs_save = true;
        self.bookmark_selected = 0;
        self.bookmark_table_state.offset = 0;
        self.input_mode = InputMode::Normal;
        self.status_message = Some(String::from_str("All bookmarks cleared"));
    }

    /// Keeps the bookmarks after all.
    pub fn cancel_clear_bookmarks(&mut self)
        ensures
            final(self)@ == (AppModel { input_mode: InputMode::Normal, ..old(self)@ }),
    {
        proof {
            reveal(App::model);
        }
        self.input_mode = InputMode::Normal;
    }

    /// Marks the first bookmark with the id as read, or flips its read
    /// flag, and marks the store as due for saving.
    fn mark_bookmark(&mut self, id: &str, flip: bool)
        ensures
            final(self)@ == (AppModel {
                config: old(self)@.config.mark_bookmark(id@, flip),
                needs_save: true,
                ..old(self)@
            }),
    {
        proof {
            reveal(App::model);
        }
        self.config.mark_bookmark(id, flip);
        self.needs_save = true;
    }

    /// Shows the bookmark detail, from its top.
    fn show_bookmark_detail(&mut self)
        ensures
            final(self)@ == (AppModel {
                input_mode: InputMode::BookmarkDetail,
                bookmark_detail_scroll: 0,
                ..old(self)@
            }),
    {
        proof {
            reveal(App::model);
        }
        self.input_mode = InputMode::BookmarkDetail;
        self.bookmark_detail_scroll = 0;
    }

    /// Opens the selected bookmark and marks it as read.
    pub fn open_bookmark_detail(&mut self)
        ensures
            final(self)@ == (match old(self)@.selected_bookmark() {
                Some(_) => AppModel {
                    input_mode: InputMode::BookmarkDetail,
                    bookmark_detail_scroll: 0,
                    ..old(self)@.mark_selected_bookmark(false)
                },
                None => old(self)@,
            }),
    {
        if let Some(id) = self.selected_bookmark_id() {
            self.mark_bookmark(id.as_str(), false);
            self.show_bookmark_detail();
        }
    }

    /// Flips the read flag of the selected bookmark.
    pub fn toggle_selected_bookmark_read(&mut self)
        ensures
            final(self)@ == old(self)@.mark_selected_bookmark(true),
    {
        if let Some(id) = self.selected_bookmark_id() {
            self.mark_bookmark(id.as_str(), true);
        }
    }
}

} // verus!
