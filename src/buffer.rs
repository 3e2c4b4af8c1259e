//! Text-entry buffers with an upper bound on their number of characters.
use vstd::prelude::*;
use vstd::string::*;

verus! {

/// The text after `c` is offered to a buffer bounded by `bound` characters:
/// appended when the buffer is under its bound, ignored otherwise.
pub open spec fn bounded_push(s: Seq<char>, c: char, bound: nat) -> Seq<char> {
    if s.len() < bound {
        s.push(c)
    } else {
        s
    }
}

/// The text after `cs` are offered one by one to a buffer bounded by `bound`.
pub open spec fn bounded_push_all(s: Seq<char>, cs: Seq<char>, bound: nat) -> Seq<char>
    decreases cs.len(),
{
    if cs.len() == 0 {
        s
    } else {
        bounded_push_all(bounded_push(s, cs[0], bound), cs.drop_first(), bound)
    }
}

/// The text after Backspace: the last character removed, if there is one.
pub open spec fn without_last(s: Seq<char>) -> Seq<char> {
    if s.len() == 0 {
        s
    } else {
        s.drop_last()
    }
}

/// The text that fills a buffer bounded by `bound` from `s`: `s` itself when
/// it fits, else its first `bound` characters.
pub open spec fn bounded_prefix(s: Seq<char>, bound: nat) -> Seq<char> {
    if s.len() <= bound {
        s
    } else {
        s.take(bound as int)
    }
}

/// Relies on String::push: appends one character at the end.
#[verifier::external_body]
pub(crate) fn push_char(s: &mut String, c: char)
    ensures
        final(s)@ == old(s)@.push(c),
{
    s.push(c)
}

/// Relies on String::pop: removes the last character and returns it, or
/// returns None and leaves an empty string as it is.
#[verifier::external_body]
fn pop_char(s: &mut String) -> (r: Option<char>)
    ensures
        old(s)@.len() == 0 ==> r.is_none() && final(s)@ == old(s)@,
        old(s)@.len() > 0 ==> r == Some(old(s)@.last()) && final(s)@ == old(s)@.drop_last(),
{
    s.pop()
}

/// Appends `c` to `buf` unless `buf` already holds `bound` characters.
pub fn push_bounded(buf: &mut String, c: char, bound: usize)
    ensures
        final(buf)@ == bounded_push(old(buf)@, c, bound as nat),
{
    if buf.as_str().unicode_len() < bound {
        push_char(buf, c);
    }
}

/// Removes the last character of `buf`; an empty buffer stays empty.
pub fn backspace(buf: &mut String)
    ensures
        final(buf)@ == without_last(old(buf)@),
{
    let _ = pop_char(buf);
}

/// A copy of `s` cut to at most `bound` characters, as it is loaded into a
/// bounded buffer.
pub fn copy_bounded(s: &String, bound: usize) -> (r: String)
    ensures
        r@ == bounded_prefix(s@, bound as nat),
        r@.len() <= bound,
{
    let n = s.as_str().unicode_len();
    if n <= bound {
        s.clone()
    } else {
        s.as_str().substring_char(0, bound).to_owned()
    }
}

/// Offering characters to a buffer that holds its maximum changes neither
/// its content nor its length.
pub proof fn lemma_full_buffer_ignores_input(s: Seq<char>, cs: Seq<char>, bound: nat)
    requires
        s.len() >= bound,
    ensures
        bounded_push_all(s, cs, bound) == s,
    decreases cs.len(),
{
    if cs.len() > 0 {
        lemma_full_buffer_ignores_input(s, cs.drop_first(), bound);
    }
}

/// However many characters are offered, a buffer that starts within its
/// bound stays within it.
pub proof fn lemma_bounded_push_all_within(s: Seq<char>, cs: Seq<char>, bound: nat)
    requires
        s.len() <= bound,
    ensures
        bounded_push_all(s, cs, bound).len() <= bound,
    decreases cs.len(),
{
    if cs.len() > 0 {
        lemma_bounded_push_all_within(bounded_push(s, cs[0], bound), cs.drop_first(), bound);
    }
}

} // verus!
