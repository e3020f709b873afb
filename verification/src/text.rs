//! Small roff text helpers.

use vstd::prelude::*;

verus! {

/// The roff escape that switches to a bold font.
pub open spec fn bold_start() -> Seq<char> {
    seq!['\\', 'f', 'B']
}

/// The roff escape that switches to an italic font.
pub open spec fn italic_start() -> Seq<char> {
    seq!['\\', 'f', 'I']
}

/// The roff escape that switches back to the regular font.
pub open spec fn font_reset() -> Seq<char> {
    seq!['\\', 'f', 'R']
}

/// `s` set in bold.
pub open spec fn bold_text(s: Seq<char>) -> Seq<char> {
    bold_start() + s + font_reset()
}

/// `s` set in italics.
pub open spec fn italic_text(s: Seq<char>) -> Seq<char> {
    italic_start() + s + font_reset()
}

/// Return the given text formatted as bold troff.
pub fn bold(input: &str) -> (res: String)
    ensures
        res@ == bold_text(input@),
{
    let mut res = String::from_str("\\fB");
    res.append(input);
    res.append("\\fR");
    proof {
        reveal_strlit("\\fB");
        reveal_strlit("\\fR");
    }
    res
}

/// Return the given text formatted as italic troff.
pub fn italic(input: &str) -> (res: String)
    ensures
        res@ == italic_text(input@),
{
    let mut res = String::from_str("\\fI");
    res.append(input);
    res.append("\\fR");
    proof {
        reveal_strlit("\\fI");
        reveal_strlit("\\fR");
    }
    res
}

/// The parts joined into one text, with `sep` between each two of them.
pub open spec fn join_text(parts: Seq<Seq<char>>, sep: Seq<char>) -> Seq<char>
    decreases parts.len(),
{
    if parts.len() == 0 {
        Seq::empty()
    } else if parts.len() == 1 {
        parts[0]
    } else {
        join_text(parts.drop_last(), sep) + sep + parts.last()
    }
}

/// The parts written one after the other.
pub open spec fn concat_text(parts: Seq<Seq<char>>) -> Seq<char>
    decreases parts.len(),
{
    if parts.len() == 0 {
        Seq::empty()
    } else {
        concat_text(parts.drop_last()) + parts.last()
    }
}

/// The upper-case form of a text, as the standard library computes it
/// (Unicode case mapping, which may change the number of characters).
pub uninterp spec fn uppercase_text(s: Seq<char>) -> Seq<char>;

/// Calls `str::to_uppercase`: the result is the upper-case form of `s`,
/// which depends on `s` alone; what that form is character by character
/// (Unicode's case tables) is left to the name `uppercase_text`.
#[verifier::external_body]
pub(crate) fn to_uppercase(s: &str) -> (res: String)
    ensures
        res@ == uppercase_text(s@),
{
    s.to_uppercase()
}

/// Calls `String::push`: appends one character to the end of the string.
#[verifier::external_body]
pub(crate) fn push_char(s: &mut String, c: char)
    ensures
        final(s)@ == old(s)@.push(c),
{
    s.push(c)
}

/// Join the texts, with `sep` between each two of them.
pub fn join(parts: &Vec<String>, sep: &str) -> (res: String)
    ensures
        res@ == join_text(parts.deep_view(), sep@),
{
    let mut res = String::new();
    let n = parts.len();
    let ghost whole = parts.deep_view();
    let mut i: usize = 0;
    while i < n
        invariant
            n == parts@.len(),
            whole == parts.deep_view(),
            0 <= i <= n,
            res@ == join_text(whole.take(i as int), sep@),
        decreases n - i,
    {
        assert(whole.take(i + 1).drop_last() =~= whole.take(i as int));
        assert(whole.take(i + 1).last() == parts@[i as int]@);
        if i != 0 {
            res.append(sep);
        } else {
            assert(res@ =~= Seq::<char>::empty());
        }
        res.append(parts[i].as_str());
        i = i + 1;
    }
    assert(whole.take(n as int) =~= whole);
    res
}

} // verus!
