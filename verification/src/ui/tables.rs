//! The columns of the tables: which of them fit, and how wide they are.

use crate::app::SortDirection;
use crate::text::join3;
use vstd::prelude::*;

verus! {

/// One column of a table: its heading, its width in cells, and its
/// priority, 1 for the columns that are shown first.
#[derive(Debug, Clone, Copy)]
pub struct ColumnDef {
    pub name: &'static str,
    pub width: u16,
    pub priority: u8,
}

/// How a column takes its width.
#[derive(Debug, Clone, Copy, PartialEq, Eq, Structural)]
pub enum ColumnWidth {
    /// Exactly so many cells.
    Length(u16),
    /// At least so many cells, and what is left over.
    Min(u16),
}

/// The highest priority among the columns, 1 where there are none.
pub open spec fn max_priority(columns: Seq<ColumnDef>) -> int
    decreases columns.len(),
{
    if columns.len() == 0 {
        1
    } else if columns.len() == 1 {
        columns[0].priority as int
    } else if columns.last().priority > max_priority(columns.drop_last()) {
        columns.last().priority as int
    } else {
        max_priority(columns.drop_last())
    }
}

/// The indices of the columns with a priority of at most `cutoff`.
pub open spec fn columns_up_to(columns: Seq<ColumnDef>, cutoff: int) -> Seq<usize>
    decreases columns.len(),
{
    if columns.len() == 0 {
        Seq::empty()
    } else if columns.last().priority <= cutoff {
        columns_up_to(columns.drop_last(), cutoff).push((columns.len() - 1) as usize)
    } else {
        columns_up_to(columns.drop_last(), cutoff)
    }
}

/// The indices of the columns with exactly the priority `priority`.
pub open spec fn columns_of_priority(columns: Seq<ColumnDef>, priority: int) -> Seq<usize>
    decreases columns.len(),
{
    if columns.len() == 0 {
        Seq::empty()
    } else if columns.last().priority == priority {
        columns_of_priority(columns.drop_last(), priority).push((columns.len() - 1) as usize)
    } else {
        columns_of_priority(columns.drop_last(), priority)
    }
}

/// The width of the columns with a priority of at most `cutoff`, taken
/// together.
pub open spec fn width_up_to(columns: Seq<ColumnDef>, cutoff: int) -> int
    decreases columns.len(),
{
    if columns.len() == 0 {
        0
    } else if columns.last().priority <= cutoff {
        width_up_to(columns.drop_last(), cutoff) + columns.last().width
    } else {
        width_up_to(columns.drop_last(), cutoff)
    }
}

/// The highest priority up to `limit` such that the columns up to it fit
/// the width, and so do the columns up to every lower priority from 1 on; 0
/// where not even the columns of priority 1 fit.
pub open spec fn fitting_priority(columns: Seq<ColumnDef>, available: u16, limit: int) -> int
    decreases limit,
{
    if limit <= 0 {
        0
    } else {
        let below = fitting_priority(columns, available, limit - 1);
        if below == limit - 1 && width_up_to(columns, limit) <= available {
            limit
        } else {
            below
        }
    }
}

/// The columns to show in a table of the given width: all columns up to the
/// highest priority that fits; the columns of priority 1, whether they fit
/// or not, where that leaves none.
pub open spec fn visible(columns: Seq<ColumnDef>, available: u16) -> Seq<usize> {
    let fit = fitting_priority(columns, available, max_priority(columns));
    let chosen = if fit >= 1 {
        columns_up_to(columns, fit)
    } else {
        Seq::empty()
    };
    if chosen.len() == 0 {
        columns_of_priority(columns, 1)
    } else {
        chosen
    }
}

/// The highest priority among the columns, 1 where there are none.
fn highest_priority(columns: &Vec<ColumnDef>) -> (r: u8)
    ensures
        r == max_priority(columns@),
{
    if columns.len() == 0 {
        return 1;
    }
    let mut best: u8 = columns[0].priority;
    let mut i: usize = 1;
    assert(columns@.take(1) =~= seq![columns@[0]]);
    while i < columns.len()
        invariant
            1 <= i <= columns.len(),
            best == max_priority(columns@.take(i as int)),
        decreases columns.len() - i,
    {
        proof {
            assert(columns@.take(i + 1).drop_last() =~= columns@.take(i as int));
        }
        if columns[i].priority > best {
            best = columns[i].priority;
        }
        i += 1;
    }
    assert(columns@.take(columns.len() as int) =~= columns@);
    best
}

/// The columns with a priority of at most `cutoff`, and their width.
fn pick_up_to(columns: &Vec<ColumnDef>, cutoff: u8) -> (r: (Vec<usize>, u128))
    ensures
        r.0@ == columns_up_to(columns@, cutoff as int),
        r.1 == width_up_to(columns@, cutoff as int),
{
    let mut picked: Vec<usize> = Vec::new();
    let mut width: u128 = 0;
    let mut i: usize = 0;
    while i < columns.len()
        invariant
            i <= columns.len(),
            picked@ == columns_up_to(columns@.take(i as int), cutoff as int),
            width == width_up_to(columns@.take(i as int), cutoff as int),
            width <= i * 65_535,
        decreases columns.len() - i,
    {
        proof {
            assert(columns@.take(i + 1).drop_last() =~= columns@.take(i as int));
        }
        if columns[i].priority <= cutoff {
            picked.push(i);
            width = width + columns[i].width as u128;
        }
        i += 1;
    }
    assert(columns@.take(columns.len() as int) =~= columns@);
    (picked, width)
}

/// The columns with exactly the priority 1.
fn pick_first_priority(columns: &Vec<ColumnDef>) -> (r: Vec<usize>)
    ensures
        r@ == columns_of_priority(columns@, 1),
{
    let mut picked: Vec<usize> = Vec::new();
    let mut i: usize = 0;
    while i < columns.len()
        invariant
            i <= columns.len(),
            picked@ == columns_of_priority(columns@.take(i as int), 1),
        decreases columns.len() - i,
    {
        proof {
            assert(columns@.take(i + 1).drop_last() =~= columns@.take(i as int));
        }
        if columns[i].priority == 1 {
            picked.push(i);
        }
        i += 1;
    }
    assert(columns@.take(columns.len() as int) =~= columns@);
    picked
}

/// The columns to show in a table of the given width, by their indices in
/// rising order: all columns up to the highest priority that fits; the
/// columns of priority 1 where that leaves none.
pub fn visible_columns(columns: &Vec<ColumnDef>, available_width: u16) -> (r: Vec<usize>)
    ensures
        r@ == visible(columns@, available_width),
{
    let top = highest_priority(columns);
    let mut shown: Vec<usize> = Vec::new();
    let mut fit: u8 = 0;
    let mut cutoff: u8 = 1;
    let mut going = top >= 1;
    while going
        invariant
            1 <= cutoff <= top || !going,
            fit <= top,
            top == max_priority(columns@),
            going ==> fit == cutoff - 1,
            going ==> fit == fitting_priority(columns@, available_width, cutoff - 1),
            !going ==> fit == fitting_priority(columns@, available_width, top as int),
            shown@ == (if fit >= 1 {
                columns_up_to(columns@, fit as int)
            } else {
                Seq::<usize>::empty()
            }),
        decreases
                (if going {
                    1int
                } else {
                    0int
                }) + top - cutoff,
    {
        let (candidate, width) = pick_up_to(columns, cutoff);
        if width <= available_width as u128 {
            shown = candidate;
            fit = cutoff;
            if cutoff == top {
                going = false;
            } else {
                cutoff += 1;
            }
        } else {
            proof {
                lemma_fitting_stays(columns@, available_width, cutoff as int, top as int);
            }
            going = false;
        }
    }
    if shown.len() == 0 {
        pick_first_priority(columns)
    } else {
        shown
    }
}

/// Once the columns up to a priority do not fit, no higher priority fits.
pub proof fn lemma_fitting_stays(columns: Seq<ColumnDef>, available: u16, failed: int, limit: int)
    requires
        1 <= failed <= limit,
        fitting_priority(columns, available, failed - 1) == failed - 1,
        width_up_to(columns, failed) > available,
    ensures
        fitting_priority(columns, available, limit) == failed - 1,
    decreases limit - failed,
{
    if limit > failed {
        lemma_fitting_stays(columns, available, failed, limit - 1);
    }
}

/// The heading of a column: its name, and behind it the arrow of the sort
/// direction where the table is sorted by this column.
pub fn header_label(name: &str, sorted: bool, direction: SortDirection) -> (r: String)
    ensures
        r@ == (if sorted {
            name@ + " "@ + direction.indicator_text()
        } else {
            name@
        }),
{
    if sorted {
        join3(name, " ", direction.indicator())
    } else {
        String::from_str(name)
    }
}

/// The width of the columns at the given indices, taken together, capped at
/// the largest 16-bit number.
pub open spec fn shown_width(columns: Seq<ColumnDef>, shown: Seq<usize>) -> int
    decreases shown.len(),
{
    if shown.len() == 0 {
        0
    } else {
        let sum = shown_width(columns, shown.drop_last()) + columns[shown.last() as int].width;
        if sum > u16::MAX {
            u16::MAX as int
        } else {
            sum
        }
    }
}

/// How the shown columns take their widths in a table of the given width.
/// Where room is left over, the stretch column (if there is one) takes it
/// and is at least as wide as it asks; with no stretch column an empty
/// column at the end takes it. Every other column is exactly as wide as it
/// asks.
pub open spec fn constraints_of(
    columns: Seq<ColumnDef>,
    shown: Seq<usize>,
    stretch: Option<usize>,
    available: u16,
) -> Seq<ColumnWidth> {
    let spare = available > shown_width(columns, shown);
    let widths = Seq::new(
        shown.len(),
        |i: int|
            if spare && stretch == Some(shown[i]) {
                ColumnWidth::Min(columns[shown[i] as int].width)
            } else {
                ColumnWidth::Length(columns[shown[i] as int].width)
            },
    );
    if spare && stretch.is_none() {
        widths.push(ColumnWidth::Min(0))
    } else {
        widths
    }
}

/// How the shown columns take their widths in a table of the given width.
pub fn column_constraints(
    columns: &Vec<ColumnDef>,
    vis: &Vec<usize>,
    stretch_col: Option<usize>,
    available_width: u16,
) -> (r: Vec<ColumnWidth>)
    requires
        forall|i: int| 0 <= i < vis@.len() ==> (#[trigger] vis@[i]) < columns@.len(),
    ensures
        r@ == constraints_of(columns@, vis@, stretch_col, available_width),
{
    let mut total: u16 = 0;
    let mut i: usize = 0;
    while i < vis.len()
        invariant
            i <= vis.len(),
            forall|k: int| 0 <= k < vis@.len() ==> (#[trigger] vis@[k]) < columns@.len(),
            total == shown_width(columns@, vis@.take(i as int)),
        decreases vis.len() - i,
    {
        proof {
            assert(vis@.take(i + 1).drop_last() =~= vis@.take(i as int));
        }
        let w = columns[vis[i]].width;
        total = if w > u16::MAX - total {
            u16::MAX
        } else {
            total + w
        };
        i += 1;
    }
    assert(vis@.take(vis.len() as int) =~= vis@);
    let spare = available_width > total;
    let mut r: Vec<ColumnWidth> = Vec::new();
    let mut j: usize = 0;
    while j < vis.len()
        invariant
            j <= vis.len(),
            forall|k: int| 0 <= k < vis@.len() ==> (#[trigger] vis@[k]) < columns@.len(),
            spare == (available_width > shown_width(columns@, vis@)),
            r@.len() == j,
            forall|k: int|
                0 <= k < j ==> #[trigger] r@[k] == (if spare && stretch_col == Some(vis@[k]) {
                    ColumnWidth::Min(columns@[vis@[k] as int].width)
                } else {
                    ColumnWidth::Length(columns@[vis@[k] as int].width)
                }),
        decreases vis.len() - j,
    {
        let index = vis[j];
        let stretched = match stretch_col {
            Some(s) => spare && s == index,
            None => false,
        };
        if stretched {
            r.push(ColumnWidth::Min(columns[index].width));
        } else {
            r.push(ColumnWidth::Length(columns[index].width));
        }
        j += 1;
    }
    if spare && stretch_col.is_none() {
        r.push(ColumnWidth::Min(0));
    }
    assert(r@ =~= constraints_of(columns@, vis@, stretch_col, available_width));
    r
}

} // verus!
