//! Which keys a key range addresses.

use crate::rpc::key_range::{differ_at, lex_less, Extent, KeyRange};
use vstd::prelude::*;

verus! {

/// `a` comes before `b` in the order of keys: byte by byte, a shorter key before its
/// extensions.
pub open spec fn before(a: Seq<u8>, b: Seq<u8>) -> bool
    decreases a.len(),
{
    if b.len() == 0 {
        false
    } else if a.len() == 0 || a[0] < b[0] {
        true
    } else {
        a[0] == b[0] && before(a.drop_first(), b.drop_first())
    }
}

/// The server takes a request with this key and range end to mean the key `k`: the key
/// alone without a range end, every key from there on with a zero byte, and otherwise
/// the keys from the key on that come before the range end.
pub open spec fn addresses(key: Seq<u8>, range_end: Seq<u8>, k: Seq<u8>) -> bool {
    if range_end.len() == 0 {
        k == key
    } else if range_end.len() == 1 && range_end[0] == 0 {
        !before(k, key)
    } else {
        !before(k, key) && before(k, range_end)
    }
}

/// The key `k` is `head` and something after it.
pub open spec fn extends(k: Seq<u8>, head: Seq<u8>) -> bool {
    exists|rest: Seq<u8>| k == #[trigger] (head + rest)
}

/// Both ways to order keys agree.
proof fn lemma_before(a: Seq<u8>, b: Seq<u8>)
    ensures
        before(a, b) <==> lex_less(a, b),
    decreases a.len(),
{
    if b.len() == 0 {
        assert(forall|i: int| !#[trigger] differ_at(a, b, i));
    } else if a.len() == 0 || a[0] < b[0] {
        assert(differ_at(a, b, 0));
    } else {
        let (c, d) = (a.drop_first(), b.drop_first());
        lemma_before(c, d);
        if before(a, b) {
            let i = choose|i: int| #[trigger] differ_at(c, d, i);
            assert forall|j: int| 0 <= j < i + 1 implies a[j] == b[j] by {
                if j > 0 {
                    assert(c[j - 1] == d[j - 1]);
                }
            }
            assert(differ_at(a, b, i + 1));
        }
        if lex_less(a, b) {
            let i = choose|i: int| #[trigger] differ_at(a, b, i);
            assert(i > 0);
            assert(differ_at(c, d, i - 1));
        }
    }
}

/// Both ways to say what a range means agree.
pub proof fn lemma_addresses(key: Seq<u8>, range_end: Seq<u8>, k: Seq<u8>)
    ensures
        addresses(key, range_end, k) <==> crate::rpc::key_range::range_covers(key, range_end, k),
{
    lemma_before(k, key);
    lemma_before(k, range_end);
    if range_end.len() == 1 && range_end[0] == 0 {
        assert(range_end =~= crate::rpc::key_range::unbounded());
    }
}

/// A key extends another exactly if it begins with it.
pub proof fn lemma_extends(k: Seq<u8>, head: Seq<u8>)
    ensures
        extends(k, head) <==> crate::text::has_prefix(k, head),
{
    if extends(k, head) {
        assert(k.take(head.len() as int) =~= head);
    }
    if crate::text::has_prefix(k, head) {
        assert(k =~= head + k.skip(head.len() as int));
    }
}

/// A new range addresses the empty key alone.
pub proof fn law_new_range(kr: KeyRange, r: (Vec<u8>, Vec<u8>))
    requires
        call_ensures(KeyRange::new, (), kr),
        call_ensures(KeyRange::build, (kr,), r),
    ensures
        kr.key@.len() == 0,
        kr.range_end@.len() == 0,
        kr.extent == Extent::Range,
        r.0@.len() == 0,
        r.1@.len() == 0,
{
}

/// The key that is set is the key of the range; how far it extends stays.
pub proof fn law_key_is_set(kr: &mut KeyRange, key: Vec<u8>)
    requires
        call_ensures(KeyRange::with_key, (kr, key), ()),
    ensures
        final(kr).key@ == key@,
        final(kr).range_end == old(kr).range_end,
        final(kr).extent == old(kr).extent,
{
}

/// A range from the key up to an end is sent as it is.
pub proof fn law_explicit_range_is_sent(kr: &mut KeyRange, end: Vec<u8>, r: (Vec<u8>, Vec<u8>))
    requires
        call_ensures(KeyRange::with_range, (kr, end), ()),
        call_ensures(KeyRange::build, (*final(kr),), r),
    ensures
        r.0@ == old(kr).key@,
        r.1@ == end@,
        final(kr).key == old(kr).key,
        final(kr).range_end == end,
        final(kr).extent == Extent::Range,
{
}

/// Without another extent the key and the range end are sent as they are.
pub proof fn law_range_is_sent(kr: KeyRange, r: (Vec<u8>, Vec<u8>))
    requires
        kr.extent == Extent::Range,
        call_ensures(KeyRange::build, (kr,), r),
    ensures
        r.0@ == kr.key@,
        r.1@ == kr.range_end@,
{
}

/// A prefix range addresses exactly the keys that begin with its key. Keys are never
/// empty.
pub proof fn law_prefix_addresses_the_extensions(kr: KeyRange, r: (Vec<u8>, Vec<u8>), k: Seq<u8>)
    requires
        kr.extent == Extent::Prefix,
        call_ensures(KeyRange::build, (kr,), r),
        k.len() > 0,
    ensures
        addresses(r.0@, r.1@, k) <==> extends(k, kr.key@),
{
    lemma_addresses(r.0@, r.1@, k);
    crate::rpc::key_range::law_prefix_range(kr.key@, kr.range_end@, k);
    lemma_extends(k, kr.key@);
}

/// A range from its key on addresses exactly the keys that do not come before it.
pub proof fn law_from_key_addresses_the_rest(kr: KeyRange, r: (Vec<u8>, Vec<u8>), k: Seq<u8>)
    requires
        kr.extent == Extent::FromKey,
        call_ensures(KeyRange::build, (kr,), r),
        k.len() > 0,
    ensures
        addresses(r.0@, r.1@, k) <==> !before(k, kr.key@),
{
    lemma_addresses(r.0@, r.1@, k);
    lemma_before(k, kr.key@);
    crate::rpc::key_range::law_from_key_range(kr.key@, kr.range_end@, k);
}

/// A range of all keys addresses every key.
pub proof fn law_all_keys_addresses_every_key(kr: KeyRange, r: (Vec<u8>, Vec<u8>), k: Seq<u8>)
    requires
        kr.extent == Extent::AllKeys,
        call_ensures(KeyRange::build, (kr,), r),
        k.len() > 0,
    ensures
        addresses(r.0@, r.1@, k),
{
    lemma_addresses(r.0@, r.1@, k);
    crate::rpc::key_range::law_all_keys_range(kr.key@, kr.range_end@, k);
}

/// A range that spans several keys starts at its key, so that nothing before it is
/// addressed; an empty key stands for the least one there is.
pub proof fn law_range_starts_at_its_key(kr: KeyRange, r: (Vec<u8>, Vec<u8>))
    requires
        kr.extent != Extent::AllKeys,
        call_ensures(KeyRange::build, (kr,), r),
    ensures
        kr.key@.len() > 0 || kr.extent == Extent::Range ==> r.0@ == kr.key@,
        kr.key@.len() == 0 && kr.extent != Extent::Range ==> r.0@ == seq![0u8],
{
}

/// Choosing a prefix range changes how far the range extends and nothing else.
pub proof fn law_prefix_is_chosen(kr: &mut KeyRange)
    requires
        call_ensures(KeyRange::with_prefix, (kr,), ()),
    ensures
        final(kr).extent == Extent::Prefix,
        final(kr).key == old(kr).key,
        final(kr).range_end == old(kr).range_end,
{
}

/// Choosing a range from the key on changes how far the range extends and nothing else.
pub proof fn law_from_key_is_chosen(kr: &mut KeyRange)
    requires
        call_ensures(KeyRange::with_from_key, (kr,), ()),
    ensures
        final(kr).extent == Extent::FromKey,
        final(kr).key == old(kr).key,
        final(kr).range_end == old(kr).range_end,
{
}

/// Choosing all keys changes how far the range extends and nothing else.
pub proof fn law_all_keys_is_chosen(kr: &mut KeyRange)
    requires
        call_ensures(KeyRange::with_all_keys, (kr,), ()),
    ensures
        final(kr).extent == Extent::AllKeys,
        final(kr).key == old(kr).key,
        final(kr).range_end == old(kr).range_end,
{
}

/// A cloned range has the same key, end and extent.
pub proof fn law_range_clone(kr: KeyRange, r: KeyRange)
    requires
        call_ensures(<KeyRange as Clone>::clone, (&kr,), r),
    ensures
        r.key@ == kr.key@,
        r.range_end@ == kr.range_end@,
        r.extent == kr.extent,
{
}

} // verus!
