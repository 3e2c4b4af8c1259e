//! Selection cursors over cached lists, moved with wraparound.
use vstd::prelude::*;

verus! {

/// A cursor is valid for a list of `len` entries when it is unset or indexes an entry.
pub open spec fn cursor_valid(c: Option<usize>, len: nat) -> bool {
    match c {
        Some(i) => i < len,
        None => true,
    }
}

/// The cursor after one step towards the end of the list: past the last
/// entry it wraps to the first; an unset cursor selects the first entry; on
/// an empty list nothing moves.
pub open spec fn cursor_forward(c: Option<usize>, len: nat) -> Option<usize> {
    if len == 0 {
        c
    } else {
        match c {
            Some(i) => if i + 1 >= len { Some(0usize) } else { Some((i + 1) as usize) },
            None => Some(0usize),
        }
    }
}

/// The cursor after one step towards the start of the list: before the first
/// entry it wraps to the last; an unset cursor selects the first entry; on an
/// empty list nothing moves.
pub open spec fn cursor_backward(c: Option<usize>, len: nat) -> Option<usize> {
    if len == 0 {
        c
    } else {
        match c {
            Some(i) => if i == 0 { Some((len - 1) as usize) } else { Some((i - 1) as usize) },
            None => Some(0usize),
        }
    }
}

/// The cursor kept after its list was replaced by one of `len` entries:
/// cleared when the list is empty, moved to the last entry when it points past
/// the end, unchanged otherwise.
pub open spec fn cursor_clamped(c: Option<usize>, len: nat) -> Option<usize> {
    match c {
        Some(i) => if len == 0 {
            None
        } else if i >= len {
            Some((len - 1) as usize)
        } else {
            Some(i)
        },
        None => None,
    }
}

/// `k` forward steps.
pub open spec fn forward_steps(c: Option<usize>, len: nat, k: nat) -> Option<usize>
    decreases k,
{
    if k == 0 {
        c
    } else {
        cursor_forward(forward_steps(c, len, (k - 1) as nat), len)
    }
}

/// `k` backward steps.
pub open spec fn backward_steps(c: Option<usize>, len: nat, k: nat) -> Option<usize>
    decreases k,
{
    if k == 0 {
        c
    } else {
        cursor_backward(backward_steps(c, len, (k - 1) as nat), len)
    }
}

/// Moves a cursor one entry forward, wrapping after the last entry.
pub fn step_forward(c: Option<usize>, len: usize) -> (r: Option<usize>)
    ensures
        r == cursor_forward(c, len as nat),
{
    if len == 0 {
        c
    } else {
        match c {
            Some(i) => if i >= len - 1 { Some(0) } else { Some(i + 1) },
            None => Some(0),
        }
    }
}

/// Moves a cursor one entry backward, wrapping before the first entry.
pub fn step_backward(c: Option<usize>, len: usize) -> (r: Option<usize>)
    ensures
        r == cursor_backward(c, len as nat),
{
    if len == 0 {
        c
    } else {
        match c {
            Some(i) => if i == 0 { Some(len - 1) } else { Some(i - 1) },
            None => Some(0),
        }
    }
}

/// Keeps a cursor valid for a list of `len` entries.
pub fn clamp(c: Option<usize>, len: usize) -> (r: Option<usize>)
    ensures
        r == cursor_clamped(c, len as nat),
        cursor_valid(r, len as nat),
{
    match c {
        Some(i) => if len == 0 {
            None
        } else if i >= len {
            Some(len - 1)
        } else {
            Some(i)
        },
        None => None,
    }
}

proof fn lemma_forward_steps_add(c: Option<usize>, len: nat, a: nat, b: nat)
    ensures
        forward_steps(c, len, a + b) == forward_steps(forward_steps(c, len, a), len, b),
    decreases b,
{
    if b > 0 {
        lemma_forward_steps_add(c, len, a, (b - 1) as nat);
        assert(forward_steps(c, len, a + b) == cursor_forward(forward_steps(c, len, (a + b - 1) as nat), len));
    }
}

proof fn lemma_backward_steps_add(c: Option<usize>, len: nat, a: nat, b: nat)
    ensures
        backward_steps(c, len, a + b) == backward_steps(backward_steps(c, len, a), len, b),
    decreases b,
{
    if b > 0 {
        lemma_backward_steps_add(c, len, a, (b - 1) as nat);
        assert(backward_steps(c, len, a + b) == cursor_backward(backward_steps(c, len, (a + b - 1) as nat), len));
    }
}

/// From entry `i`, `k` forward steps that do not pass the end reach `i + k`.
proof fn lemma_forward_run(i: usize, len: nat, k: nat)
    requires
        i + k < len <= usize::MAX,
    ensures
        forward_steps(Some(i), len, k) == Some((i + k) as usize),
    decreases k,
{
    if k > 0 {
        lemma_forward_run(i, len, (k - 1) as nat);
    }
}

/// From entry `i`, `k` backward steps that do not pass the start reach `i - k`.
proof fn lemma_backward_run(i: usize, len: nat, k: nat)
    requires
        k <= i < len <= usize::MAX,
    ensures
        backward_steps(Some(i), len, k) == Some((i - k) as usize),
    decreases k,
{
    if k > 0 {
        lemma_backward_run(i, len, (k - 1) as nat);
    }
}

/// On a list of `len` entries, `len` forward steps bring a cursor back to the
/// entry it started on, and one forward step from the last entry reaches the
/// first.
pub proof fn lemma_forward_wraps_around(len: nat, i: usize)
    requires
        i < len <= usize::MAX,
    ensures
        forward_steps(Some(i), len, len) == Some(i),
        cursor_forward(Some((len - 1) as usize), len) == Some(0usize),
{
    let to_last = (len - 1 - i) as nat;
    lemma_forward_run(i, len, to_last);
    lemma_forward_steps_add(Some(i), len, to_last, 1);
    assert(forward_steps(Some(i), len, to_last + 1) == Some(0usize)) by {
        assert(forward_steps(Some(i), len, to_last + 1) == cursor_forward(forward_steps(Some(i), len, to_last), len));
    }
    lemma_forward_run(0, len, i as nat);
    lemma_forward_steps_add(Some(i), len, to_last + 1, i as nat);
}

/// On a list of `len` entries, `len` backward steps bring a cursor back to
/// the entry it started on, and one backward step from the first entry
/// reaches the last.
pub proof fn lemma_backward_wraps_around(len: nat, i: usize)
    requires
        i < len <= usize::MAX,
    ensures
        backward_steps(Some(i), len, len) == Some(i),
        cursor_backward(Some(0usize), len) == Some((len - 1) as usize),
{
    let to_first = i as nat;
    lemma_backward_run(i, len, to_first);
    lemma_backward_steps_add(Some(i), len, to_first, 1);
    assert(backward_steps(Some(i), len, to_first + 1) == Some((len - 1) as usize)) by {
        assert(backward_steps(Some(i), len, to_first + 1) == cursor_backward(backward_steps(Some(i), len, to_first), len));
    }
    let rest = (len - 1 - i) as nat;
    lemma_backward_run((len - 1) as usize, len, rest);
    lemma_backward_steps_add(Some(i), len, to_first + 1, rest);
}

} // verus!
