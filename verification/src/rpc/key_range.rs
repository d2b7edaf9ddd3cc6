//! Which keys a request addresses.
//!
//! On the wire a range is a pair `(key, range_end)`. An empty `range_end`
//! addresses the key alone, a `range_end` of one zero byte addresses all keys
//! from `key` on, and any other addresses the half-open interval
//! `[key, range_end)` in lexicographic order.

use crate::text::has_prefix;
use vstd::prelude::*;

verus! {

/// `a` is less than `b` in lexicographic order: they agree up to some position,
/// where `a` ends or has the smaller byte.
pub open spec fn lex_less(a: Seq<u8>, b: Seq<u8>) -> bool {
    exists|i: int| #[trigger] differ_at(a, b, i)
}

/// `a` and `b` agree before position `i`, and there `a` ends or has the smaller
/// byte.
pub open spec fn differ_at(a: Seq<u8>, b: Seq<u8>, i: int) -> bool {
    &&& 0 <= i <= a.len()
    &&& i < b.len()
    &&& forall|j: int| 0 <= j < i ==> a[j] == b[j]
    &&& i == a.len() || a[i] < b[i]
}

/// The range end that stands for "no upper bound".
pub open spec fn unbounded() -> Seq<u8> {
    seq![0u8]
}

/// The wire range `(key, range_end)` addresses the key `k`.
pub open spec fn range_covers(key: Seq<u8>, range_end: Seq<u8>, k: Seq<u8>) -> bool {
    if range_end.len() == 0 {
        k == key
    } else if range_end == unbounded() {
        !lex_less(k, key)
    } else {
        !lex_less(k, key) && lex_less(k, range_end)
    }
}

/// The end of the range of all keys that begin with `key`: its last byte that
/// can grow grows by one, and what follows is cut off. If none can grow, there
/// is no upper bound.
pub open spec fn prefix_end(key: Seq<u8>) -> Seq<u8>
    decreases key.len(),
{
    if key.len() == 0 {
        unbounded()
    } else if key.last() < 0xff {
        key.drop_last().push((key.last() + 1) as u8)
    } else {
        prefix_end(key.drop_last())
    }
}

/// How a range extends from its key.
#[derive(Clone, Copy, Debug, PartialEq, Eq, Structural)]
pub enum Extent {
    /// Up to the given range end, or the key alone if that is empty.
    Range,
    /// All keys that begin with the key.
    Prefix,
    /// All keys from the key on.
    FromKey,
    /// All keys, whatever the key is.
    AllKeys,
}

/// A key and how far the range extends from it. The last extent that was chosen
/// counts.
#[derive(Debug)]
pub struct KeyRange {
    pub key: Vec<u8>,
    pub range_end: Vec<u8>,
    pub extent: Extent,
}

/// The wire range that a key, a range end and an extent stand for.
pub open spec fn wire_range(key: Seq<u8>, range_end: Seq<u8>, extent: Extent) -> (Seq<u8>, Seq<u8>) {
    match extent {
        Extent::Range => (key, range_end),
        Extent::Prefix => if key.len() == 0 {
            (unbounded(), unbounded())
        } else {
            (key, prefix_end(key))
        },
        Extent::FromKey => if key.len() == 0 {
            (unbounded(), unbounded())
        } else {
            (key, unbounded())
        },
        Extent::AllKeys => (unbounded(), unbounded()),
    }
}

/// The range end of all keys that begin with `key`.
fn end_of_prefix(key: &Vec<u8>) -> (r: Vec<u8>)
    ensures
        r@ == prefix_end(key@),
{
    let mut i: usize = key.len();
    assert(key@.take(key@.len() as int) =~= key@);
    while i > 0
        invariant
            i <= key@.len(),
            prefix_end(key@) == prefix_end(key@.take(i as int)),
        decreases i,
    {
        i -= 1;
        let last = key[i];
        assert(key@.take(i + 1).drop_last() =~= key@.take(i as int));
        if last < 0xff {
            let mut end = key.clone();
            end.truncate(i);
            end.push(last + 1);
            assert(end@ =~= key@.take(i as int).push((last + 1) as u8));
            return end;
        }
    }
    let mut end: Vec<u8> = Vec::new();
    end.push(0);
    assert(end@ =~= unbounded());
    end
}

/// The range end, or the key, that stands for "everything".
fn zero_byte() -> (r: Vec<u8>)
    ensures
        r@ == unbounded(),
{
    let mut v: Vec<u8> = Vec::new();
    v.push(0);
    assert(v@ =~= unbounded());
    v
}

impl View for KeyRange {
    type V = (Seq<u8>, Seq<u8>, Extent);

    open spec fn view(&self) -> (Seq<u8>, Seq<u8>, Extent) {
        (self.key@, self.range_end@, self.extent)
    }
}

impl Clone for KeyRange {
    fn clone(&self) -> (r: Self)
        ensures
            r@ == self@,
    {
        KeyRange {
            key: self.key.clone(),
            range_end: self.range_end.clone(),
            extent: self.extent,
        }
    }
}

impl KeyRange {
    /// The wire range that the key range stands for.
    pub open spec fn wire(self) -> (Seq<u8>, Seq<u8>) {
        wire_range(self.key@, self.range_end@, self.extent)
    }

    /// An empty key, addressed alone.
    pub fn new() -> (r: Self)
        ensures
            r.key@ == Seq::<u8>::empty(),
            r.range_end@ == Seq::<u8>::empty(),
            r.extent == Extent::Range,
    {
        KeyRange { key: Vec::new(), range_end: Vec::new(), extent: Extent::Range }
    }

    /// Sets the key.
    pub fn with_key(&mut self, key: Vec<u8>)
        ensures
            *final(self) == (KeyRange { key, ..*old(self) }),
    {
        self.key = key;
    }

    /// Sets the end of the range `[key, end)`.
    pub fn with_range(&mut self, end: Vec<u8>)
        ensures
            *final(self) == (KeyRange { range_end: end, extent: Extent::Range, ..*old(self) }),
    {
        self.range_end = end;
        self.extent = Extent::Range;
    }

    /// Addresses all keys >= key.
    pub fn with_from_key(&mut self)
        ensures
            *final(self) == (KeyRange { extent: Extent::FromKey, ..*old(self) }),
    {
        self.extent = Extent::FromKey;
    }

    /// Addresses all keys prefixed with key.
    pub fn with_prefix(&mut self)
        ensures
            *final(self) == (KeyRange { extent: Extent::Prefix, ..*old(self) }),
    {
        self.extent = Extent::Prefix;
    }

    /// Addresses all keys.
    pub fn with_all_keys(&mut self)
        ensures
            *final(self) == (KeyRange { extent: Extent::AllKeys, ..*old(self) }),
    {
        self.extent = Extent::AllKeys;
    }

    /// The wire range: the key and the range end.
    pub fn build(self) -> (r: (Vec<u8>, Vec<u8>))
        ensures
            (r.0@, r.1@) == self.wire(),
    {
        match self.extent {
            Extent::Range => (self.key, self.range_end),
            Extent::Prefix => if self.key.len() == 0 {
                (zero_byte(), zero_byte())
            } else {
                let end = end_of_prefix(&self.key);
                (self.key, end)
            },
            Extent::FromKey => if self.key.len() == 0 {
                (zero_byte(), zero_byte())
            } else {
                (self.key, zero_byte())
            },
            Extent::AllKeys => (zero_byte(), zero_byte()),
        }
    }
}

/// A byte string is not below one zero byte exactly if it is not empty.
proof fn lemma_not_below_zero_byte(k: Seq<u8>)
    ensures
        lex_less(k, unbounded()) <==> k.len() == 0,
{
    if k.len() == 0 {
        assert(differ_at(k, unbounded(), 0));
    }
}

/// If the tail of `p` after its first `n` bytes is all 0xff, then a byte string that
/// agrees with `p` on those and is not below `p` begins with `p`.
proof fn lemma_full_tail(p: Seq<u8>, n: int, k: Seq<u8>)
    requires
        0 <= n <= p.len(),
        forall|j: int| n <= j < p.len() ==> p[j] == 0xff,
        n <= k.len(),
        forall|j: int| 0 <= j < n ==> k[j] == p[j],
        !lex_less(k, p),
    ensures
        has_prefix(k, p),
    decreases p.len() - n,
{
    if n == p.len() {
        assert(k.take(p.len() as int) =~= p);
    } else {
        assert(!differ_at(k, p, n));
        lemma_full_tail(p, n + 1, k);
    }
}

/// Bytes of `p` from position `n` on are all 0xff; `prefix_end` only looks at the bytes
/// before them.
proof fn lemma_prefix_covers(p: Seq<u8>, n: int, k: Seq<u8>)
    requires
        0 < p.len(),
        0 <= n <= p.len(),
        forall|j: int| n <= j < p.len() ==> p[j] == 0xff,
    ensures
        range_covers(p, prefix_end(p.take(n)), k) <==> has_prefix(k, p),
    decreases n,
{
    let head = p.take(n);
    if has_prefix(k, p) {
        assert(forall|j: int| 0 <= j < p.len() ==> k[j] == k.take(p.len() as int)[j]);
        assert(!lex_less(k, p)) by {
            assert(forall|i: int| !#[trigger] differ_at(k, p, i));
        }
    }
    if n == 0 {
        if !lex_less(k, p) {
            lemma_full_tail(p, 0, k);
        }
    } else if head.last() < 0xff {
        let end = prefix_end(head);
        assert(end.len() == n && end[n - 1] == p[n - 1] + 1);
        assert(end != unbounded());
        if has_prefix(k, p) {
            assert(differ_at(k, end, n - 1));
        }
        if !lex_less(k, p) && lex_less(k, end) {
            let i = choose|i: int| #[trigger] differ_at(k, end, i);
            assert(!differ_at(k, p, i));
            assert(i == n - 1);
            assert(!differ_at(k, p, n - 1));
            lemma_full_tail(p, n, k);
        }
    } else {
        assert(head.drop_last() =~= p.take(n - 1));
        lemma_prefix_covers(p, n - 1, k);
    }
}

/// A prefix range addresses exactly the keys that begin with its key. Keys are
/// never empty, so with an empty key it addresses every key.
pub proof fn law_prefix_range(key: Seq<u8>, range_end: Seq<u8>, k: Seq<u8>)
    requires
        k.len() > 0,
    ensures
        ({
            let (from, to) = wire_range(key, range_end, Extent::Prefix);
            range_covers(from, to, k) <==> has_prefix(k, key)
        }),
{
    if key.len() == 0 {
        lemma_not_below_zero_byte(k);
        assert(k.take(0) =~= key);
    } else {
        assert(key.take(key.len() as int) =~= key);
        lemma_prefix_covers(key, key.len() as int, k);
    }
}

/// A from-key range addresses exactly the keys that are not below its key.
pub proof fn law_from_key_range(key: Seq<u8>, range_end: Seq<u8>, k: Seq<u8>)
    requires
        k.len() > 0,
    ensures
        ({
            let (from, to) = wire_range(key, range_end, Extent::FromKey);
            range_covers(from, to, k) <==> !lex_less(k, key)
        }),
{
    if key.len() == 0 {
        lemma_not_below_zero_byte(k);
        assert(forall|i: int| !#[trigger] differ_at(k, key, i));
    }
}

/// The range of all keys addresses every key, whatever its key and end are.
pub proof fn law_all_keys_range(key: Seq<u8>, range_end: Seq<u8>, k: Seq<u8>)
    requires
        k.len() > 0,
    ensures
        ({
            let (from, to) = wire_range(key, range_end, Extent::AllKeys);
            range_covers(from, to, k)
        }),
{
    lemma_not_below_zero_byte(k);
}

/// Without a range end only the key itself is addressed.
pub proof fn law_single_key_range(key: Seq<u8>, k: Seq<u8>)
    ensures
        ({
            let (from, to) = wire_range(key, Seq::<u8>::empty(), Extent::Range);
            range_covers(from, to, k) <==> k == key
        }),
{
}

} // verus!
