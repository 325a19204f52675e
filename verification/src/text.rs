//! Character-level text helpers shared by the clipboard history.
use vstd::prelude::*;

verus! {

broadcast use vstd::string::group_string_axioms;

/// Appends `c` to `s` with `String::push`.
#[verifier::external_body]
pub(crate) fn push_char(s: &mut String, c: char)
    ensures
        final(s)@ == old(s)@.push(c),
{
    s.push(c);
}

/// The first `n` characters of `s`, or all of them where `s` is shorter.
pub open spec fn take_chars(s: Seq<char>, n: nat) -> Seq<char> {
    if s.len() <= n {
        s
    } else {
        s.take(n as int)
    }
}

/// Law: cutting a text keeps its beginning: the result is a prefix of the
/// text, as long as the text but at most `n` characters.
pub proof fn take_chars_is_prefix(s: Seq<char>, n: nat)
    ensures
        take_chars(s, n).len() == if s.len() <= n {
            s.len()
        } else {
            n
        },
        take_chars(s, n).len() <= n,
        forall|i: int| 0 <= i < take_chars(s, n).len() ==> #[trigger] take_chars(s, n)[i] == s[i],
{
}

/// The first `max_chars` characters of `text` (all of it where it is shorter).
pub fn truncate_chars(text: &str, max_chars: usize) -> (res: String)
    ensures
        res@ == take_chars(text@, max_chars as nat),
{
    let mut res = String::new();
    let mut count: usize = 0;
    for c in it: text.chars()
        invariant
            it.seq() == text@,
            count == res@.len(),
            count <= max_chars,
            res@ == take_chars(it.seq().take(it.index() as int), max_chars as nat),
    {
        assert(it.seq().take(it.index() + 1) =~= it.seq().take(it.index() as int).push(c));
        if count < max_chars {
            push_char(&mut res, c);
            count = count + 1;
        }
    }
    proof {
        assert(text@.take(text@.len() as int) =~= text@);
    }
    res
}

} // verus!
