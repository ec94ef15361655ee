//! Capability strings: a list of extension names separated by single spaces,
//! as a graphics driver reports it.

use vstd::prelude::*;
use vstd::string::StringSliceAdditionalSpecFns;

verus! {

/// The byte that separates two names of a capability string.
pub const SEPARATOR: u8 = 32;

/// `list[start..end]` is one name of the list: it reaches from the start of
/// the list or a separator to the next separator or the end of the list.
/// Between two adjacent separators, and after a last one, stands an empty name.
pub open spec fn is_token(list: Seq<u8>, start: int, end: int) -> bool {
    &&& 0 <= start <= end <= list.len()
    &&& (start == 0 || list[start - 1] == SEPARATOR)
    &&& (end == list.len() || list[end] == SEPARATOR)
    &&& forall|k: int| start <= k < end ==> list[k] != SEPARATOR
}

/// `name` is one of the names of `list`.
pub open spec fn lists(list: Seq<u8>, name: Seq<u8>) -> bool {
    exists|start: int, end: int| #[trigger]
        is_token(list, start, end) && list.subrange(start, end) == name
}

/// A name that holds a separator is never listed.
pub proof fn lemma_listed_name_has_no_separator(list: Seq<u8>, name: Seq<u8>, k: int)
    requires
        lists(list, name),
        0 <= k < name.len(),
    ensures
        name[k] != SEPARATOR,
{
    let (start, end) = choose|start: int, end: int| #[trigger]
        is_token(list, start, end) && list.subrange(start, end) == name;
    assert(list.subrange(start, end)[k] == list[start + k]);
}

/// A list that is one name and nothing else lists exactly that name.
pub proof fn lemma_single_name(name: Seq<u8>, other: Seq<u8>)
    requires
        forall|k: int| 0 <= k < name.len() ==> name[k] != SEPARATOR,
    ensures
        lists(name, other) <==> other == name,
{
    if lists(name, other) {
        let (start, end) = choose|start: int, end: int| #[trigger]
            is_token(name, start, end) && name.subrange(start, end) == other;
        assert(start == 0);
        assert(end == name.len());
        assert(name.subrange(0, name.len() as int) =~= name);
    }
    if other == name {
        assert(is_token(name, 0, name.len() as int));
        assert(name.subrange(0, name.len() as int) =~= name);
    }
}

/// Compares `list[start..end]` with `name`.
fn segment_equals(list: &[u8], start: usize, end: usize, name: &[u8]) -> (same: bool)
    requires
        start <= end <= list@.len(),
    ensures
        same == (list@.subrange(start as int, end as int) == name@),
{
    let ghost segment = list@.subrange(start as int, end as int);
    if end - start != name.len() {
        return false;
    }
    let mut i: usize = 0;
    while i < name.len()
        invariant
            start <= end <= list@.len(),
            end - start == name@.len(),
            i <= name@.len(),
            segment == list@.subrange(start as int, end as int),
            forall|k: int| 0 <= k < i ==> segment[k] == name@[k],
        decreases name@.len() - i,
    {
        if list[start + i] != name[i] {
            assert(segment[i as int] != name@[i as int]);
            return false;
        }
        i += 1;
    }
    assert(segment =~= name@);
    true
}

/// Whether `name` is one of the names of `list`.
pub fn token_listed(list: &[u8], name: &[u8]) -> (found: bool)
    ensures
        found == lists(list@, name@),
{
    let n = list.len();
    let mut start: usize = 0;
    loop
        invariant
            n == list@.len(),
            start <= n,
            start == 0 || list@[start - 1] == SEPARATOR,
            forall|s: int, e: int| #[trigger]
                is_token(list@, s, e) && s < start ==> list@.subrange(s, e) != name@,
        decreases n - start,
    {
        let mut end: usize = start;
        while end < n && list[end] != SEPARATOR
            invariant
                n == list@.len(),
                start <= end <= n,
                forall|k: int| start <= k < end ==> list@[k] != SEPARATOR,
            decreases n - end,
        {
            end += 1;
        }
        assert(is_token(list@, start as int, end as int));
        if segment_equals(list, start, end, name) {
            return true;
        }
        assert forall|s: int, e: int| #[trigger]
            is_token(list@, s, e) && s <= end implies list@.subrange(s, e) != name@ by {
            if s == start {
                if e < end {
                    assert(list@[e] == SEPARATOR);
                }
                if e > end {
                    assert(list@[end as int] == SEPARATOR);
                }
                assert(e == end);
            } else if s > start {
                assert(list@[s - 1] == SEPARATOR);
            }
        }
        if end == n {
            return false;
        }
        start = end + 1;
    }
}

/// Whether the capability string `extensions` names `name`.
pub fn has_extension(extensions: &str, name: &str) -> (found: bool)
    ensures
        found == lists(extensions.spec_bytes(), name.spec_bytes()),
{
    token_listed(extensions.as_bytes(), name.as_bytes())
}

} // verus!
