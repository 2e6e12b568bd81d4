//! Small string operations, stated over sequences of characters.

use vstd::prelude::*;
use vstd::string::StrSliceExecFns;

verus! {

/// Whether `s` begins with `prefix`.
pub open spec fn starts_with(s: Seq<char>, prefix: Seq<char>) -> bool {
    &&& prefix.len() <= s.len()
    &&& s.subrange(0, prefix.len() as int) == prefix
}

/// What follows the first `n` characters of `s`.
pub open spec fn after(s: Seq<char>, n: nat) -> Seq<char> {
    s.subrange(n as int, s.len() as int)
}

/// The rest of `s` after `prefix`, if `s` begins with it.
pub fn strip_prefix<'a>(s: &'a str, prefix: &str) -> (rest: Option<&'a str>)
    ensures
        rest is Some <==> starts_with(s@, prefix@),
        rest matches Some(r) ==> r@ == after(s@, prefix@.len()),
{
    let total: usize = s.unicode_len();
    let wanted: usize = prefix.unicode_len();
    if total < wanted {
        return None;
    }
    let mut i: usize = 0;
    while i < wanted
        invariant
            i <= wanted <= total,
            total == s@.len(),
            wanted == prefix@.len(),
            forall|j: int| 0 <= j < i ==> s@[j] == prefix@[j],
        decreases wanted - i,
    {
        if s.get_char(i) != prefix.get_char(i) {
            assert(s@.subrange(0, wanted as int)[i as int] != prefix@[i as int]);
            return None;
        }
        i += 1;
    }
    assert(s@.subrange(0, wanted as int) =~= prefix@);
    Some(s.substring_char(wanted, total))
}

/// A prefix is stripped exactly where the string is that prefix and something more, and what is
/// left is that rest.
pub proof fn law_strip_prefix_undoes_concatenation(
    s: &str,
    prefix: &str,
    out: Option<&str>,
    rest: Seq<char>,
)
    requires
        call_ensures(strip_prefix, (s, prefix), out),
    ensures
        out matches Some(r) ==> s@ == prefix@ + r@,
        s@ == prefix@ + rest ==> (out matches Some(r) && r@ == rest),
{
    if let Some(r) = out {
        assert(s@ =~= prefix@ + r@);
    }
    law_prefix_of_concatenation(prefix@, rest);
}

/// A concatenation begins with its first part, and goes on with its second.
pub proof fn law_prefix_of_concatenation(prefix: Seq<char>, rest: Seq<char>)
    ensures
        starts_with(prefix + rest, prefix),
        after(prefix + rest, prefix.len()) == rest,
{
    assert((prefix + rest).subrange(0, prefix.len() as int) =~= prefix);
    assert(after(prefix + rest, prefix.len()) =~= rest);
}

/// Whether two strings hold the same characters.
pub fn same_text(a: &str, b: &str) -> (same: bool)
    ensures
        same == (a@ == b@),
{
    match strip_prefix(a, b) {
        Some(rest) => {
            assert(a@ =~= b@ + rest@);
            assert(rest@.len() == 0 ==> a@ =~= b@);
            rest.is_empty()
        },
        None => {
            assert(a@ == b@ ==> starts_with(a@, b@)) by {
                assert(a@.subrange(0, a@.len() as int) =~= a@);
            }
            false
        },
    }
}

} // verus!
