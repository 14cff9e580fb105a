//! Three-way comparison results and the orders the views sort by.

use vstd::prelude::*;

verus! {

/// How a first value stands to a second one in some order.
#[derive(Debug, Clone, Copy, PartialEq, Eq, Structural)]
pub enum Relation {
    Before,
    Same,
    After,
}

impl Relation {
    /// The relation seen from the other side.
    pub open spec fn reversed(self) -> Relation {
        match self {
            Relation::Before => Relation::After,
            Relation::Same => Relation::Same,
            Relation::After => Relation::Before,
        }
    }

    /// The relation seen from the other side.
    pub fn reverse(self) -> (r: Relation)
        ensures
            r == self.reversed(),
    {
        match self {
            Relation::Before => Relation::After,
            Relation::Same => Relation::Same,
            Relation::After => Relation::Before,
        }
    }

    /// Whether the first value may stand before the second in sorted output.
    pub open spec fn not_after(self) -> bool {
        self != Relation::After
    }
}

/// The relation of two integers in the usual order.
pub open spec fn int_relation(a: int, b: int) -> Relation {
    if a < b {
        Relation::Before
    } else if a == b {
        Relation::Same
    } else {
        Relation::After
    }
}

/// How two unsigned numbers stand to each other.
pub fn relate_u128(a: u128, b: u128) -> (r: Relation)
    ensures
        r == int_relation(a as int, b as int),
{
    if a < b {
        Relation::Before
    } else if a == b {
        Relation::Same
    } else {
        Relation::After
    }
}

/// How two signed numbers stand to each other.
pub fn relate_i128(a: i128, b: i128) -> (r: Relation)
    ensures
        r == int_relation(a as int, b as int),
{
    if a < b {
        Relation::Before
    } else if a == b {
        Relation::Same
    } else {
        Relation::After
    }
}

/// The relation of two texts from index `i` on, given that they agree before
/// it: character by character, by code point, a proper prefix coming first.
pub open spec fn text_relation_from(a: Seq<char>, b: Seq<char>, i: int) -> Relation
    decreases a.len() - i,
{
    if i < 0 {
        Relation::Same
    } else if i >= a.len() {
        if i >= b.len() {
            Relation::Same
        } else {
            Relation::Before
        }
    } else if i >= b.len() {
        Relation::After
    } else if (a[i] as u32) < (b[i] as u32) {
        Relation::Before
    } else if (a[i] as u32) > (b[i] as u32) {
        Relation::After
    } else {
        text_relation_from(a, b, i + 1)
    }
}

/// The lexicographic relation of two texts, which is the order of `str`.
pub open spec fn text_relation(a: Seq<char>, b: Seq<char>) -> Relation {
    text_relation_from(a, b, 0)
}

/// The lexicographic relation of two character vectors.
pub fn relate_chars(a: &Vec<char>, b: &Vec<char>) -> (r: Relation)
    ensures
        r == text_relation(a@, b@),
{
    let mut i: usize = 0;
    while i < a.len() && i < b.len()
        invariant
            i <= a.len(),
            i <= b.len(),
            text_relation(a@, b@) == text_relation_from(a@, b@, i as int),
        decreases a.len() - i,
    {
        let x: u32 = a[i] as u32;
        let y: u32 = b[i] as u32;
        if x < y {
            return Relation::Before;
        }
        if x > y {
            return Relation::After;
        }
        i += 1;
    }
    if i < b.len() {
        Relation::Before
    } else if i < a.len() {
        Relation::After
    } else {
        Relation::Same
    }
}

/// The lexicographic relation of two texts.
pub fn relate_text(a: &str, b: &str) -> (r: Relation)
    ensures
        r == text_relation(a@, b@),
{
    let x = crate::text::chars_of(a);
    let y = crate::text::chars_of(b);
    relate_chars(&x, &y)
}

/// Swapping the two texts reverses their relation.
pub proof fn lemma_text_relation_reversed(a: Seq<char>, b: Seq<char>, i: int)
    requires
        0 <= i,
    ensures
        text_relation_from(b, a, i) == text_relation_from(a, b, i).reversed(),
    decreases a.len() - i,
{
    if i < a.len() && i < b.len() && a[i] as u32 == b[i] as u32 {
        lemma_text_relation_reversed(a, b, i + 1);
    }
}

/// "Not after" is transitive on texts.
pub proof fn lemma_text_relation_transitive(a: Seq<char>, b: Seq<char>, c: Seq<char>, i: int)
    requires
        0 <= i,
        text_relation_from(a, b, i).not_after(),
        text_relation_from(b, c, i).not_after(),
    ensures
        text_relation_from(a, c, i).not_after(),
        text_relation_from(a, b, i) == Relation::Before || text_relation_from(b, c, i)
            == Relation::Before ==> text_relation_from(a, c, i) == Relation::Before,
    decreases a.len() - i,
{
    if i < a.len() && i < b.len() && i < c.len() && a[i] as u32 == b[i] as u32 && b[i] as u32
        == c[i] as u32 {
        lemma_text_relation_transitive(a, b, c, i + 1);
    }
}

} // verus!
