//! Turning the entries of fetched feeds into news items.

use super::yahoo::{NewsItem, NewsItemModel};
use crate::rows::{order_of, sort_rows, stable_sort, RowOrder};
use crate::text::{
    before_char, chars_of, find_char, slice_chars, strip_leading, text_of, without_leading,
};
use vstd::prelude::*;

verus! {

/// What the library reads of one entry of a feed, as the caller's feed
/// parser hands it over.
pub struct FeedEntry {
    pub title: Option<String>,
    /// Time of publication, in seconds since the epoch.
    pub published: Option<i64>,
    /// Time of the last change, in seconds since the epoch.
    pub updated: Option<i64>,
    /// The addresses that the entry links to, in the order of the feed.
    pub links: Vec<String>,
    pub summary: Option<String>,
}

/// The mathematical model of [`FeedEntry`]: texts by their characters, lists by
/// their sequences.
pub struct FeedEntryModel {
    pub title: Option<Seq<char>>,
    pub published: Option<i64>,
    pub updated: Option<i64>,
    pub links: Seq<Seq<char>>,
    pub summary: Option<Seq<char>>,
}

impl DeepView for FeedEntry {
    type V = FeedEntryModel;

    open spec fn deep_view(&self) -> FeedEntryModel {
        FeedEntryModel {
            title: self.title.deep_view(),
            published: self.published,
            updated: self.updated,
            links: self.links.deep_view(),
            summary: self.summary.deep_view(),
        }
    }
}

/// The host of an address: what stands behind `https://` or `http://` and
/// before the first `/`, without a leading `www.`, `rss.` or `feeds.`.
pub open spec fn host_of(url: Seq<char>) -> Seq<char> {
    let rest = if crate::text::starts_with(url, "https://"@) {
        url.skip(8)
    } else if crate::text::starts_with(url, "http://"@) {
        url.skip(7)
    } else {
        url
    };
    without_leading(
        without_leading(without_leading(before_char(rest, '/'), "www."@), "rss."@),
        "feeds."@,
    )
}

/// The name of the publisher of a feed, by the host of its address: a
/// known name for a known host, else the host up to its first point.
pub open spec fn publisher_of(url: Seq<char>) -> Seq<char> {
    let host = host_of(url);
    if host == "cnbcindonesia.com"@ {
        "CNBC Indonesia"@
    } else if host == "idxchannel.com"@ {
        "IDX Channel"@
    } else if host == "tempo.co"@ {
        "Tempo"@
    } else if host == "kontan.co.id"@ {
        "Kontan"@
    } else if host == "feedburner.com"@ {
        "Feedburner"@
    } else {
        before_char(host, '.')
    }
}

/// Whether two runs of characters are the same.
fn same_chars(a: &Vec<char>, b: &str) -> (r: bool)
    ensures
        r == (a@ == b@),
{
    let other = chars_of(b);
    if a.len() != other.len() {
        return false;
    }
    let mut i: usize = 0;
    while i < a.len()
        invariant
            i <= a.len(),
            a.len() == other.len(),
            other@ == b@,
            forall|k: int| 0 <= k < i ==> a@[k] == other@[k],
        decreases a.len() - i,
    {
        if a[i] != other[i] {
            return false;
        }
        i += 1;
    }
    assert(a@ =~= b@);
    true
}

/// The name of the publisher of a feed, by the host of its address.
pub fn publisher_from_url(url: &str) -> (r: String)
    ensures
        r@ == publisher_of(url@),
{
    let all = chars_of(url);
    let https = chars_of("https://");
    let http = chars_of("http://");
    proof {
        reveal_strlit("https://");
        reveal_strlit("http://");
    }
    let start: usize = if crate::text::occurs_at_exec(&all, &https, 0) {
        8
    } else if crate::text::occurs_at_exec(&all, &http, 0) {
        7
    } else {
        0
    };
    let len = all.len();
    let rest = slice_chars(&all, start, len);
    assert(rest@ =~= all@.skip(start as int));
    assert("https://"@.len() == 8 && "http://"@.len() == 7);
    assert(all@.skip(0) =~= all@);
    assert(rest@ == (if crate::text::starts_with(url@, "https://"@) {
        url@.skip(8)
    } else if crate::text::starts_with(url@, "http://"@) {
        url@.skip(7)
    } else {
        url@
    }));
    let slash = find_char(&rest, '/', 0);
    let domain = slice_chars(&rest, 0, slash);
    assert(domain@ =~= before_char(rest@, '/'));
    let host = strip_leading(domain, &chars_of("www."));
    let host = strip_leading(host, &chars_of("rss."));
    let host = strip_leading(host, &chars_of("feeds."));
    assert(host@ == host_of(url@));
    if same_chars(&host, "cnbcindonesia.com") {
        String::from_str("CNBC Indonesia")
    } else if same_chars(&host, "idxchannel.com") {
        String::from_str("IDX Channel")
    } else if same_chars(&host, "tempo.co") {
        String::from_str("Tempo")
    } else if same_chars(&host, "kontan.co.id") {
        String::from_str("Kontan")
    } else if same_chars(&host, "feedburner.com") {
        String::from_str("Feedburner")
    } else {
        let point = find_char(&host, '.', 0);
        let name = slice_chars(&host, 0, point);
        assert(name@ =~= before_char(host@, '.'));
        text_of(&name)
    }
}

/// The news item that an entry of a feed makes: the title, or "(no title)"
/// where the entry has none; the time of publication, else that of the last
/// change, else 0; the first link; the summary.
pub open spec fn news_item_of(entry: FeedEntryModel, publisher: Seq<char>) -> NewsItemModel {
    NewsItemModel {
        title: match entry.title {
            Some(t) => t,
            None => "(no title)"@,
        },
        publisher,
        published_at: match entry.published {
            Some(t) => t,
            None => match entry.updated {
                Some(t) => t,
                None => 0,
            },
        },
        url: if entry.links.len() > 0 {
            Some(entry.links[0])
        } else {
            None
        },
        summary: entry.summary,
    }
}

/// The news items that the entries of a feed make, in the order of the
/// feed.
pub open spec fn news_items_of(entries: Seq<FeedEntryModel>, publisher: Seq<char>) -> Seq<
    NewsItemModel,
> {
    Seq::new(entries.len(), |i: int| news_item_of(entries[i], publisher))
}

/// The news items of a feed that was fetched from `url`.
pub fn news_from_entries(url: &str, entries: Vec<FeedEntry>) -> (r: Vec<NewsItem>)
    ensures
        r.deep_view() == news_items_of(entries.deep_view(), publisher_of(url@)),
{
    let publisher = publisher_from_url(url);
    let ghost models = entries.deep_view();
    let mut r: Vec<NewsItem> = Vec::new();
    for entry in it: entries
        invariant
            it.seq().len() == models.len(),
            forall|k: int| 0 <= k < models.len() ==> (#[trigger] it.seq()[k]).deep_view() == models[k],
            publisher@ == publisher_of(url@),
            r.deep_view() == news_items_of(models.take(it.index() as int), publisher@),
    {
        let ghost before = r.deep_view();
        let ghost model = entry.deep_view();
        let FeedEntry { title, published, updated, links, summary } = entry;
        let url: Option<String> = if links.len() > 0 {
            Some(links[0].clone())
        } else {
            None
        };
        let item = NewsItem {
            title: match title {
                Some(t) => t,
                None => String::from_str("(no title)"),
            },
            publisher: publisher.clone(),
            published_at: match published {
                Some(t) => t,
                None => match updated {
                    Some(t) => t,
                    None => 0,
                },
            },
            url,
            summary,
        };
        assert(item@ == news_item_of(model, publisher@));
        r.push(item);
        assert(r.deep_view() =~= before.push(news_item_of(model, publisher@)));
        assert(r.deep_view() =~= news_items_of(models.take(it.index() + 1), publisher@));
    }
    assert(models.take(models.len() as int) =~= models);
    r
}

/// The order of the merged feed: the newest item first.
pub struct NewestFirst {}

impl RowOrder<NewsItem> for NewestFirst {
    open spec fn le(&self, a: NewsItemModel, b: NewsItemModel) -> bool {
        a.published_at >= b.published_at
    }

    proof fn le_total(&self, a: NewsItemModel, b: NewsItemModel) {
    }

    proof fn le_transitive(&self, a: NewsItemModel, b: NewsItemModel, c: NewsItemModel) {
    }

    fn may_precede(&self, a: &NewsItem, b: &NewsItem) -> (r: bool) {
        a.published_at >= b.published_at
    }
}

/// The items of all feeds, one feed after the other.
pub open spec fn flattened(feeds: Seq<Seq<NewsItemModel>>) -> Seq<NewsItemModel>
    decreases feeds.len(),
{
    if feeds.len() == 0 {
        Seq::empty()
    } else {
        flattened(feeds.drop_last()) + feeds.last()
    }
}

/// The order in which the merged feed stands: the newest item first.
pub open spec fn newest_first() -> spec_fn(NewsItemModel, NewsItemModel) -> bool {
    |a: NewsItemModel, b: NewsItemModel| a.published_at >= b.published_at
}

/// The items of the feeds that could be read, merged: the newest first,
/// items of one time in the order of the feeds.
pub fn merge_feeds(feeds: Vec<Vec<NewsItem>>) -> (r: Vec<NewsItem>)
    ensures
        r.deep_view() == stable_sort(flattened(feeds.deep_view()), newest_first()),
{
    let ghost models = feeds.deep_view();
    let mut all: Vec<NewsItem> = Vec::new();
    for feed in it: feeds
        invariant
            it.seq().len() == models.len(),
            forall|k: int| 0 <= k < models.len() ==> (#[trigger] it.seq()[k]).deep_view() == models[k],
            all.deep_view() == flattened(models.take(it.index() as int)),
    {
        let ghost before = all.deep_view();
        let ghost feed_model = feed.deep_view();
        assert(models.take(it.index() + 1).drop_last() =~= models.take(it.index() as int));
        let mut feed = feed;
        all.append(&mut feed);
        assert(all.deep_view() =~= before + feed_model);
    }
    assert(models.take(models.len() as int) =~= models);
    let order = NewestFirst {  };
    sort_rows(&mut all, &order);
    assert(order_of::<NewsItem, NewestFirst>(&order) =~= newest_first());
    all
}

} // verus!
