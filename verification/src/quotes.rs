//! The live quote cache: the latest quote of each symbol.

use crate::api::{StockQuote, StockQuoteModel};
use crate::rows::{filter_rows, keep_where, test_of, Except, RowFilter};
use crate::text::same_text;
use vstd::prelude::*;

verus! {

/// One cache entry: the symbol it is filed under, and the quote.
pub struct QuoteEntry {
    pub key: String,
    pub quote: StockQuote,
}

/// The mathematical model of [`QuoteEntry`]: texts by their characters, lists by
/// their sequences.
pub struct QuoteEntryModel {
    pub key: Seq<char>,
    pub quote: StockQuoteModel,
}

impl DeepView for QuoteEntry {
    type V = QuoteEntryModel;

    open spec fn deep_view(&self) -> QuoteEntryModel {
        QuoteEntryModel { key: self.key@, quote: self.quote@ }
    }
}

/// Keeps the entries filed under one symbol.
pub struct FiledUnder<'a> {
    pub key: &'a str,
}

impl<'a> RowFilter<QuoteEntry> for FiledUnder<'a> {
    open spec fn keeps(&self, row: QuoteEntryModel) -> bool {
        row.key == self.key@
    }

    fn keep(&self, row: &QuoteEntry) -> (r: bool) {
        same_text(row.key.as_str(), self.key)
    }
}

/// The map that a run of entries stands for; of two entries under one key
/// the later counts.
pub open spec fn entries_map(entries: Seq<QuoteEntryModel>) -> Map<Seq<char>, StockQuoteModel>
    decreases entries.len(),
{
    if entries.len() == 0 {
        Map::empty()
    } else {
        entries_map(entries.drop_last()).insert(entries.last().key, entries.last().quote)
    }
}

/// Dropping the entries under a key removes the key from the map.
pub proof fn lemma_entries_without(entries: Seq<QuoteEntryModel>, key: Seq<char>)
    ensures
        entries_map(keep_where(entries, |e: QuoteEntryModel| e.key != key)) == entries_map(
            entries,
        ).remove(key),
    decreases entries.len(),
{
    let pred = |e: QuoteEntryModel| e.key != key;
    if entries.len() == 0 {
        assert(entries_map(entries).remove(key) =~= Map::empty());
    } else {
        lemma_entries_without(entries.drop_last(), key);
        let last = entries.last();
        if pred(last) {
            assert(keep_where(entries, pred).drop_last() =~= keep_where(entries.drop_last(), pred));
            assert(entries_map(entries.drop_last()).remove(key).insert(last.key, last.quote)
                =~= entries_map(entries).remove(key));
        } else {
            assert(entries_map(entries.drop_last()).remove(key) =~= entries_map(entries).remove(
                key,
            ));
        }
    }
}

/// A key is in the map exactly when an entry is filed under it, and the
/// last such entry gives its quote.
pub proof fn lemma_entries_lookup(entries: Seq<QuoteEntryModel>, key: Seq<char>, at: int)
    requires
        -1 <= at < entries.len(),
        at >= 0 ==> entries[at].key == key,
        forall|k: int| at < k < entries.len() ==> (#[trigger] entries[k]).key != key,
    ensures
        entries_map(entries).contains_key(key) == (at >= 0),
        at >= 0 ==> entries_map(entries)[key] == entries[at].quote,
    decreases entries.len(),
{
    if entries.len() > 0 {
        if at < entries.len() - 1 {
            assert(entries[entries.len() - 1].key != key);
            assert forall|k: int| at < k < entries.drop_last().len() implies (
            #[trigger] entries.drop_last()[k]).key != key by {
                assert(entries.drop_last()[k] == entries[k]);
            }
            lemma_entries_lookup(entries.drop_last(), key, at);
        }
    }
}

/// The latest quote of each symbol that was fetched. It is replaced as a
/// whole by every refresh.
pub struct QuoteCache {
    entries: Vec<QuoteEntry>,
}

impl View for QuoteCache {
    type V = Map<Seq<char>, StockQuoteModel>;

    closed spec fn view(&self) -> Map<Seq<char>, StockQuoteModel> {
        entries_map(self.entries.deep_view())
    }
}

impl DeepView for QuoteCache {
    type V = Map<Seq<char>, StockQuoteModel>;

    open spec fn deep_view(&self) -> Map<Seq<char>, StockQuoteModel> {
        self.view()
    }
}

/// The quote filed under `key`, if there is one.
pub open spec fn quote_of(
    quotes: Map<Seq<char>, StockQuoteModel>,
    key: Seq<char>,
) -> Option<StockQuoteModel> {
    if quotes.contains_key(key) {
        Some(quotes[key])
    } else {
        None
    }
}

impl QuoteCache {
    /// An empty cache.
    pub fn new() -> (r: QuoteCache)
        ensures
            r@ == Map::<Seq<char>, StockQuoteModel>::empty(),
    {
        let r = QuoteCache { entries: Vec::new() };
        assert(r.entries.deep_view() =~= Seq::<QuoteEntryModel>::empty());
        r
    }

    /// Files `quote` under `key`, in place of what was there.
    pub fn insert(&mut self, key: String, quote: StockQuote)
        ensures
            final(self)@ == old(self)@.insert(key@, quote@),
    {
        self.remove(key.as_str());
        let ghost before = self.entries.deep_view();
        let ghost entry = QuoteEntryModel { key: key@, quote: quote@ };
        self.entries.push(QuoteEntry { key, quote });
        proof {
            assert(self.entries.deep_view() =~= before.push(entry));
            assert(self.entries.deep_view().drop_last() =~= before);
            assert(old(self)@.remove(entry.key).insert(entry.key, entry.quote) =~= old(self)@.insert(
                entry.key,
                entry.quote,
            ));
        }
    }

    /// The quote filed under `key`, if there is one.
    pub fn get(&self, key: &str) -> (r: Option<&StockQuote>)
        ensures
            r.deep_view() == quote_of(self@, key@),
    {
        let mut i: usize = self.entries.len();
        while i > 0
            invariant
                i <= self.entries.len(),
                forall|k: int| i <= k < self.entries.len() ==> (
                #[trigger] self.entries.deep_view()[k]).key != key@,
            decreases i,
        {
            i -= 1;
            if same_text(self.entries[i].key.as_str(), key) {
                proof {
                    lemma_entries_lookup(self.entries.deep_view(), key@, i as int);
                }
                return Some(&self.entries[i].quote);
            }
        }
        proof {
            lemma_entries_lookup(self.entries.deep_view(), key@, -1);
        }
        None
    }

    /// Whether a quote is filed under `key`.
    pub fn contains_key(&self, key: &str) -> (r: bool)
        ensures
            r == self@.contains_key(key@),
    {
        self.get(key).is_some()
    }

    /// Drops what is filed under `key`.
    pub fn remove(&mut self, key: &str)
        ensures
            final(self)@ == old(self)@.remove(key@),
    {
        let filter = Except { inner: FiledUnder { key } };
        filter_rows(&mut self.entries, &filter);
        proof {
            assert(test_of::<QuoteEntry, Except<FiledUnder>>(&filter) =~= (|e: QuoteEntryModel|
                e.key != key@));
            lemma_entries_without(old(self).entries.deep_view(), key@);
        }
    }

    /// Drops every quote.
    pub fn clear(&mut self)
        ensures
            final(self)@ == Map::<Seq<char>, StockQuoteModel>::empty(),
    {
        self.entries.clear();
        assert(self.entries.deep_view() =~= Seq::<QuoteEntryModel>::empty());
    }

    /// Whether the cache holds no quote.
    pub fn is_empty(&self) -> (r: bool)
        ensures
            r == (self@ == Map::<Seq<char>, StockQuoteModel>::empty()),
    {
        let r = self.entries.is_empty();
        proof {
            if r {
                assert(self.entries.deep_view() =~= Seq::<QuoteEntryModel>::empty());
            } else {
                let last = self.entries.deep_view().last();
                assert(self@.contains_key(last.key));
            }
        }
        r
    }
}

} // verus!
