//! Bookmarked articles of the record store.

use super::{Bookmark, BookmarkModel, BookmarkOf, Config, ConfigModel};
use super::BookmarkWithId;
use crate::rows::{find_row, first_where, test_of, RowFilter};
use vstd::prelude::*;

verus! {

impl ConfigModel {
    /// The store with the bookmark at the end, unless its article is
    /// bookmarked already.
    pub open spec fn add_bookmark(self, bookmark: BookmarkModel) -> ConfigModel {
        if self.is_bookmarked(bookmark.headline, bookmark.url) {
            self
        } else {
            ConfigModel { bookmarks: self.bookmarks.push(bookmark), ..self }
        }
    }

    /// The store without the bookmark at `index`; unchanged where there is
    /// none.
    pub open spec fn remove_bookmark(self, index: usize) -> ConfigModel {
        if index < self.bookmarks.len() {
            ConfigModel { bookmarks: self.bookmarks.remove(index as int), ..self }
        } else {
            self
        }
    }

    /// The store with the read flag of the bookmark at `index` set to
    /// `read`; unchanged where there is none.
    pub open spec fn set_bookmark_read(self, index: usize, read: bool) -> ConfigModel {
        if index < self.bookmarks.len() {
            ConfigModel {
                bookmarks: self.bookmarks.update(
                    index as int,
                    BookmarkModel { read, ..self.bookmarks[index as int] },
                ),
                ..self
            }
        } else {
            self
        }
    }
}

impl ConfigModel {
    /// Index of the first bookmark with the id, or the number of bookmarks.
    pub open spec fn bookmark_index(self, id: Seq<char>) -> int {
        first_where(self.bookmarks, |b: BookmarkModel| b.id == id)
    }

    /// The store with the first bookmark of that id marked as read, or with
    /// its read flag flipped where `flip` is set; unchanged where no
    /// bookmark has the id.
    pub open spec fn mark_bookmark(self, id: Seq<char>, flip: bool) -> ConfigModel {
        let i = self.bookmark_index(id);
        if i < self.bookmarks.len() {
            self.set_bookmark_read(i as usize, !flip || !self.bookmarks[i].read)
        } else {
            self
        }
    }
}

impl Config {
    /// Marks the first bookmark with the id as read, or flips its read flag
    /// where `flip` is set.
    pub fn mark_bookmark(&mut self, id: &str, flip: bool)
        ensures
            final(self)@ == old(self)@.mark_bookmark(id@, flip),
    {
        let filter = BookmarkWithId { id };
        let found = find_row(&self.bookmarks, &filter);
        assert(test_of::<Bookmark, BookmarkWithId>(&filter) =~= (|b: BookmarkModel| b.id == id@));
        if let Some(i) = found {
            if flip {
                self.toggle_bookmark_read(i);
            } else {
                self.mark_bookmark_read(i);
            }
        }
    }

    /// Whether the article with this headline and URL is bookmarked.
    pub fn is_bookmarked(&self, headline: &str, url: Option<&str>) -> (r: bool)
        ensures
            r == self@.is_bookmarked(headline@, url.deep_view()),
    {
        let filter = BookmarkOf { headline, url };
        let found = find_row(&self.bookmarks, &filter);
        proof {
            let bookmarks = self@.bookmarks;
            match found {
                Some(i) => {
                    assert(filter.keeps(bookmarks[i as int]));
                },
                None => {
                    assert forall|k: int| 0 <= k < bookmarks.len() implies !(
                    #[trigger] bookmarks[k]).is_article(headline@, url.deep_view()) by {
                        assert(!filter.keeps(bookmarks[k]));
                    }
                },
            }
        }
        found.is_some()
    }

    /// Adds a bookmark at the end, unless its article is bookmarked already.
    /// Returns whether it was added.
    pub fn add_bookmark(&mut self, bookmark: Bookmark) -> (added: bool)
        ensures
            added == !old(self)@.is_bookmarked(bookmark@.headline, bookmark@.url),
            final(self)@ == old(self)@.add_bookmark(bookmark@),
    {
        let known = match &bookmark.url {
            Some(u) => self.is_bookmarked(bookmark.headline.as_str(), Some(u.as_str())),
            None => self.is_bookmarked(bookmark.headline.as_str(), None),
        };
        if known {
            return false;
        }
        let ghost model = bookmark@;
        self.bookmarks.push(bookmark);
        assert(self.bookmarks.deep_view() =~= old(self)@.bookmarks.push(model));
        true
    }

    /// Removes the bookmark at `index`, if there is one.
    pub fn remove_bookmark(&mut self, index: usize)
        ensures
            final(self)@ == old(self)@.remove_bookmark(index),
    {
        if index < self.bookmarks.len() {
            self.bookmarks.remove(index);
            assert(self.bookmarks.deep_view() =~= old(self)@.bookmarks.remove(index as int));
        }
    }

    /// Removes every bookmark.
    pub fn clear_bookmarks(&mut self)
        ensures
            final(self)@ == (ConfigModel { bookmarks: Seq::empty(), ..old(self)@ }),
    {
        self.bookmarks.clear();
        assert(self.bookmarks.deep_view() =~= Seq::<BookmarkModel>::empty());
    }

    /// Flips the read flag of the bookmark at `index`, if there is one.
    pub fn toggle_bookmark_read(&mut self, index: usize)
        ensures
            index < old(self).bookmarks.len() ==> final(self)@ == old(self)@.set_bookmark_read(
                index,
                !old(self).bookmarks[index as int].read,
            ),
            index >= old(self).bookmarks.len() ==> final(self)@ == old(self)@,
    {
        if index < self.bookmarks.len() {
            let read = self.bookmarks[index].read;
            self.bookmarks[index].read = !read;
            assert(self.bookmarks.deep_view() =~= old(self)@.bookmarks.update(
                index as int,
                BookmarkModel { read: !read, ..old(self)@.bookmarks[index as int] },
            ));
        }
    }

    /// Marks the bookmark at `index` as read, if there is one.
    pub fn mark_bookmark_read(&mut self, index: usize)
        ensures
            final(self)@ == old(self)@.set_bookmark_read(index, true),
    {
        if index < self.bookmarks.len() {
            self.bookmarks[index].read = true;
            assert(self.bookmarks.deep_view() =~= old(self)@.bookmarks.update(
                index as int,
                BookmarkModel { read: true, ..old(self)@.bookmarks[index as int] },
            ));
        }
    }
}

} // verus!
