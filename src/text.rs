//! Character-level rewriting of rendered text.
use vstd::prelude::*;

verus! {

/// What one character of the input becomes in indented text: a line break
/// is followed by four spaces, every other character stands as it is.
pub open spec fn indent_char(c: char) -> Seq<char> {
    if c == '\n' {
        seq!['\n', ' ', ' ', ' ', ' ']
    } else {
        seq![c]
    }
}

/// `s` with every line after the first moved four columns to the right.
pub open spec fn indented(s: Seq<char>) -> Seq<char>
    decreases s.len(),
{
    if s.len() == 0 {
        Seq::empty()
    } else {
        indented(s.drop_last()) + indent_char(s.last())
    }
}

/// `first` where it agrees with `second`, and `fill` at each position where
/// the two differ.
pub open spec fn filled(first: Seq<char>, second: Seq<char>, fill: char) -> Seq<char> {
    Seq::new(
        first.len(),
        |i: int|
            if i < second.len() && first[i] != second[i] {
                fill
            } else {
                first[i]
            },
    )
}

/// Relies on `String::push`: the character is appended at the end.
#[verifier::external_body]
fn push_char(s: &mut String, c: char)
    ensures
        final(s)@ == old(s)@.push(c),
{
    s.push(c)
}

/// Moves every line of `s` after the first four columns to the right.
pub fn indent(s: &str) -> (r: String)
    ensures
        r@ == indented(s@),
{
    broadcast use vstd::string::group_string_axioms;

    let mut r = String::new();
    for c in it: s.chars()
        invariant
            it.seq() == s@,
            r@ == indented(s@.take(it.index() as int)),
    {
        proof {
            assert(s@.take(it.index() + 1).drop_last() == s@.take(it.index() as int));
        }
        push_char(&mut r, c);
        if c == '\n' {
            push_char(&mut r, ' ');
            push_char(&mut r, ' ');
            push_char(&mut r, ' ');
            push_char(&mut r, ' ');
        }
    }
    assert(s@.take(s@.len() as int) == s@);
    r
}

fn chars_of(s: &str) -> (r: Vec<char>)
    ensures
        r@ == s@,
{
    broadcast use vstd::string::group_string_axioms;

    let mut r: Vec<char> = Vec::new();
    for c in it: s.chars()
        invariant
            it.seq() == s@,
            r@ == s@.take(it.index() as int),
    {
        proof {
            assert(s@.take(it.index() + 1) == s@.take(it.index() as int).push(c));
        }
        r.push(c);
    }
    assert(s@.take(s@.len() as int) == s@);
    r
}

/// Copies `first`, putting `fill` at each position where `second` holds
/// another character.
pub fn fill_differences(first: &str, second: &str, fill: char) -> (r: String)
    ensures
        r@ == filled(first@, second@, fill),
{
    let ours = chars_of(first);
    let other = chars_of(second);
    let ghost whole = filled(first@, second@, fill);
    let mut r = String::new();
    let mut i: usize = 0;
    while i < ours.len()
        invariant
            ours@ == first@,
            other@ == second@,
            whole == filled(first@, second@, fill),
            i <= ours@.len(),
            r@ == whole.take(i as int),
        decreases ours@.len() - i,
    {
        let c = ours[i];
        proof {
            assert(whole.take(i + 1) == whole.take(i as int).push(whole[i as int]));
        }
        if i < other.len() && c != other[i] {
            push_char(&mut r, fill);
        } else {
            push_char(&mut r, c);
        }
        i = i + 1;
    }
    assert(whole.take(whole.len() as int) == whole);
    r
}

} // verus!
