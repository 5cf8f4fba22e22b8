//! Output discovery and capture-source selection.
//!
//! Discovery walks an adapter's outputs in driver-enumeration order and
//! keeps the attached prefix; selection picks, among every discovered
//! output, the one a capture-source index designates.

use vstd::prelude::*;

use crate::frame::Rotation;

verus! {

/// What discovery learns about one output: its rectangle in the virtual
/// desktop, its rotation, whether it is attached to the desktop, and whether
/// the OS designates its monitor as the primary one.
#[derive(Copy, Clone, Debug, PartialEq, Eq, Structural)]
pub struct OutputDescriptor {
    pub left: i32,
    pub top: i32,
    pub right: i32,
    pub bottom: i32,
    pub rotation: Rotation,
    pub attached_to_desktop: bool,
    pub is_primary: bool,
}

impl OutputDescriptor {
    /// A rectangle the driver can actually report: not inverted, with side
    /// lengths that fit a signed 32-bit difference.
    pub open spec fn wf(self) -> bool {
        &&& self.left <= self.right
        &&& self.top <= self.bottom
        &&& self.right - self.left <= i32::MAX
        &&& self.bottom - self.top <= i32::MAX
    }

    /// Width of the desktop rectangle, in the mapped surface's unrotated
    /// coordinate system.
    pub open spec fn width(self) -> int {
        self.right - self.left
    }

    /// Height of the desktop rectangle; see `width`.
    pub open spec fn height(self) -> int {
        self.bottom - self.top
    }

    /// Side lengths of the desktop rectangle, as a (width, height) pair.
    pub fn dimensions(&self) -> (dims: (usize, usize))
        requires
            self.wf(),
        ensures
            dims.0 == self.width(),
            dims.1 == self.height(),
    {
        ((self.right - self.left) as usize, (self.bottom - self.top) as usize)
    }
}

/// Report whether monitor-info flags mark the primary monitor: the OS sets
/// the lowest flag bit on the primary display's monitor.
pub fn output_is_primary(monitor_flags: u32) -> (primary: bool)
    ensures
        primary == ((monitor_flags & 1) != 0),
{
    (monitor_flags & 1) != 0
}

/// Keep the longest attached prefix of an adapter's outputs: enumeration
/// stops both at end-of-list and at the first output not attached to the
/// desktop, so a detached output truncates everything after it — a prefix
/// scan, not a filter.
pub fn attached_output_prefix(outputs: &Vec<OutputDescriptor>) -> (prefix: Vec<OutputDescriptor>)
    ensures
        prefix@.len() <= outputs@.len(),
        prefix@ == outputs@.take(prefix@.len() as int),
        forall|j: int| 0 <= j < prefix@.len() ==> outputs@[j].attached_to_desktop,
        prefix@.len() < outputs@.len() ==> !outputs@[prefix@.len() as int].attached_to_desktop,
{
    let mut prefix: Vec<OutputDescriptor> = Vec::new();
    let mut i: usize = 0;
    while i < outputs.len() && outputs[i].attached_to_desktop
        invariant
            i <= outputs@.len(),
            prefix@.len() == i,
            prefix@ == outputs@.take(i as int),
            forall|j: int| 0 <= j < i ==> outputs@[j].attached_to_desktop,
        decreases outputs@.len() - i,
    {
        prefix.push(outputs[i]);
        proof {
            assert(outputs@.take(i + 1) =~= outputs@.take(i as int).push(outputs@[i as int]));
        }
        i = i + 1;
    }
    prefix
}

/// Index of the first primary output at or after position `i`, in discovery
/// order.
pub open spec fn first_primary_from(outputs: Seq<OutputDescriptor>, i: int) -> Option<int>
    decreases outputs.len() - i,
{
    if i < 0 || i >= outputs.len() {
        None
    } else if outputs[i].is_primary {
        Some(i)
    } else {
        first_primary_from(outputs, i + 1)
    }
}

/// Index of the `k`-th (1-based) non-primary output at or after position
/// `i`, in discovery order.
pub open spec fn nth_nonprimary_from(outputs: Seq<OutputDescriptor>, i: int, k: int) -> Option<
    int,
>
    decreases outputs.len() - i,
{
    if i < 0 || i >= outputs.len() {
        None
    } else if !outputs[i].is_primary {
        if k <= 1 {
            Some(i)
        } else {
            nth_nonprimary_from(outputs, i + 1, k - 1)
        }
    } else {
        nth_nonprimary_from(outputs, i + 1, k)
    }
}

/// The output a capture-source index designates: index 0 is the first
/// primary output, and index k > 0 is the k-th non-primary output, both in
/// discovery order across all adapters.
pub open spec fn selected_source(outputs: Seq<OutputDescriptor>, cs_index: int) -> Option<int> {
    if cs_index == 0 {
        first_primary_from(outputs, 0)
    } else {
        nth_nonprimary_from(outputs, 0, cs_index)
    }
}

/// Select the capture source that `cs_index` designates among the discovered
/// outputs, returning its position, or `None` where no output matches.
pub fn get_capture_source(outputs: &Vec<OutputDescriptor>, cs_index: usize) -> (selected: Option<
    usize,
>)
    ensures
        match selected {
            Some(i) => selected_source(outputs@, cs_index as int) == Some(i as int),
            None => selected_source(outputs@, cs_index as int) is None,
        },
{
    if cs_index == 0 {
        let mut i: usize = 0;
        while i < outputs.len()
            invariant
                cs_index == 0,
                i <= outputs@.len(),
                first_primary_from(outputs@, 0) == first_primary_from(outputs@, i as int),
            decreases outputs@.len() - i,
        {
            if outputs[i].is_primary {
                proof {
                    assert(first_primary_from(outputs@, i as int) == Some(i as int));
                }
                return Some(i);
            }
            i = i + 1;
        }
        None
    } else {
        let mut i: usize = 0;
        let mut remaining: usize = cs_index;
        while i < outputs.len()
            invariant
                1 <= cs_index,
                i <= outputs@.len(),
                1 <= remaining,
                nth_nonprimary_from(outputs@, 0, cs_index as int) == nth_nonprimary_from(
                    outputs@,
                    i as int,
                    remaining as int,
                ),
            decreases outputs@.len() - i,
        {
            if !outputs[i].is_primary {
                if remaining == 1 {
                    proof {
                        assert(nth_nonprimary_from(outputs@, i as int, 1) == Some(i as int));
                    }
                    return Some(i);
                }
                remaining = remaining - 1;
            }
            i = i + 1;
        }
        None
    }
}

/// What selection with capture-source index 0 returns: the first primary
/// output in discovery order — the selected output is primary and no
/// earlier one is.
pub proof fn lemma_index_zero_selects_first_primary(outputs: Seq<OutputDescriptor>, i: int)
    requires
        selected_source(outputs, 0) == Some(i),
    ensures
        0 <= i < outputs.len(),
        outputs[i].is_primary,
        forall|m: int| 0 <= m < i ==> !outputs[m].is_primary,
{
    lemma_first_primary_found(outputs, 0, i);
}

/// Where the first-primary scan from `j` stops, everything it passed was
/// non-primary.
proof fn lemma_first_primary_found(outputs: Seq<OutputDescriptor>, j: int, i: int)
    requires
        0 <= j,
        first_primary_from(outputs, j) == Some(i),
    ensures
        j <= i < outputs.len(),
        outputs[i].is_primary,
        forall|m: int| j <= m < i ==> !outputs[m].is_primary,
    decreases outputs.len() - j,
{
    if j < outputs.len() && !outputs[j].is_primary {
        lemma_first_primary_found(outputs, j + 1, i);
    }
}

/// With capture-source index 0, selection returns the unique primary output
/// wherever exactly one exists among the discovered outputs.
pub proof fn lemma_selects_unique_primary(outputs: Seq<OutputDescriptor>, j: int)
    requires
        0 <= j < outputs.len(),
        outputs[j].is_primary,
        forall|m: int| 0 <= m < outputs.len() && m != j ==> !outputs[m].is_primary,
    ensures
        selected_source(outputs, 0) == Some(j),
{
    lemma_first_primary_reaches(outputs, 0, j);
}

/// The first-primary scan passes every non-primary output before `j` and
/// stops at `j`.
proof fn lemma_first_primary_reaches(outputs: Seq<OutputDescriptor>, i: int, j: int)
    requires
        0 <= i <= j < outputs.len(),
        outputs[j].is_primary,
        forall|m: int| i <= m < j ==> !outputs[m].is_primary,
    ensures
        first_primary_from(outputs, i) == Some(j),
    decreases j - i,
{
    if i < j {
        lemma_first_primary_reaches(outputs, i + 1, j);
    }
}

/// Number of non-primary outputs at or after position `i`.
pub open spec fn nonprimary_count_from(outputs: Seq<OutputDescriptor>, i: int) -> int
    decreases outputs.len() - i,
{
    if i < 0 || i >= outputs.len() {
        0
    } else {
        (if !outputs[i].is_primary {
            1int
        } else {
            0int
        }) + nonprimary_count_from(outputs, i + 1)
    }
}

/// Number of non-primary outputs among the discovered outputs.
pub open spec fn nonprimary_count(outputs: Seq<OutputDescriptor>) -> int {
    nonprimary_count_from(outputs, 0)
}

/// What selection with a positive capture-source index `k` returns: the
/// k-th non-primary output in discovery order — the selected output is
/// non-primary, and exactly `k - 1` non-primary outputs precede it, so the
/// non-primary outputs from it onward number `nonprimary_count - (k - 1)`.
pub proof fn lemma_positive_index_selects_kth(outputs: Seq<OutputDescriptor>, k: int, i: int)
    requires
        1 <= k,
        selected_source(outputs, k) == Some(i),
    ensures
        0 <= i < outputs.len(),
        !outputs[i].is_primary,
        nonprimary_count_from(outputs, i) == nonprimary_count(outputs) - (k - 1),
{
    lemma_nth_nonprimary_found(outputs, 0, k, i);
}

/// Where the k-th-non-primary scan from `j` stops, it passed exactly
/// `k - 1` non-primary outputs.
proof fn lemma_nth_nonprimary_found(outputs: Seq<OutputDescriptor>, j: int, k: int, i: int)
    requires
        0 <= j,
        1 <= k,
        nth_nonprimary_from(outputs, j, k) == Some(i),
    ensures
        j <= i < outputs.len(),
        !outputs[i].is_primary,
        nonprimary_count_from(outputs, i) == nonprimary_count_from(outputs, j) - (k - 1),
    decreases outputs.len() - j,
{
    if j < outputs.len() {
        if !outputs[j].is_primary {
            if k > 1 {
                lemma_nth_nonprimary_found(outputs, j + 1, k - 1, i);
            }
        } else {
            lemma_nth_nonprimary_found(outputs, j + 1, k, i);
        }
    }
}

/// An out-of-range capture-source index selects nothing: with fewer than `k`
/// non-primary outputs discovered, selection with index `k` returns `None`.
pub proof fn lemma_out_of_range_index_selects_none(outputs: Seq<OutputDescriptor>, k: int)
    requires
        1 <= k,
        nonprimary_count(outputs) < k,
    ensures
        selected_source(outputs, k) is None,
{
    lemma_too_few_nonprimary(outputs, 0, k);
}

/// A count of outputs is never negative.
proof fn lemma_nonprimary_count_nonneg(outputs: Seq<OutputDescriptor>, i: int)
    ensures
        nonprimary_count_from(outputs, i) >= 0,
    decreases outputs.len() - i,
{
    if 0 <= i < outputs.len() {
        lemma_nonprimary_count_nonneg(outputs, i + 1);
    }
}

/// The k-th-non-primary scan runs off the end where fewer than `k`
/// non-primary outputs remain.
proof fn lemma_too_few_nonprimary(outputs: Seq<OutputDescriptor>, i: int, k: int)
    requires
        1 <= k,
        nonprimary_count_from(outputs, i) < k,
    ensures
        nth_nonprimary_from(outputs, i, k) is None,
    decreases outputs.len() - i,
{
    if 0 <= i < outputs.len() {
        if !outputs[i].is_primary {
            if k > 1 {
                lemma_too_few_nonprimary(outputs, i + 1, k - 1);
            } else {
                lemma_nonprimary_count_nonneg(outputs, i + 1);
            }
        } else {
            lemma_too_few_nonprimary(outputs, i + 1, k);
        }
    }
}

} // verus!
