//! The data functions of a column family: how its keys are ordered and
//! how a delta is merged into a value. A family's value type supplies
//! them; the adapters below give them the shape in which the engine
//! calls back, over slices.
use vstd::prelude::*;
use crate::slice::{copy_bytes, optional_bytes, slice_bytes, Slice};

verus! {

/// How one key stands to another.
#[derive(Debug, Clone, Copy, PartialEq, Eq, Structural)]
pub enum KeyOrder {
    Less,
    Equal,
    Greater,
}

/// The number that the engine takes for an order: negative, zero or
/// positive.
pub open spec fn order_sign(order: KeyOrder) -> int {
    match order {
        KeyOrder::Less => -1,
        KeyOrder::Equal => 0,
        KeyOrder::Greater => 1,
    }
}

/// What a value type supplies for its column family. Every function is
/// fixed by a mathematical function of its arguments, so that the engine
/// may replay a merge and get the same value; the order is a total order
/// in which only equal keys are equal.
pub trait SdbRustDataFuncs {
    /// The order of the family's keys.
    spec fn key_order(key1: Seq<u8>, key2: Seq<u8>) -> KeyOrder;

    /// The value after a delta was merged into the value stored before,
    /// if there was one.
    spec fn merged(key: Seq<u8>, old: Option<Seq<u8>>, delta: Seq<u8>) -> Seq<u8>;

    /// The value that is read where the oldest entry for a key is
    /// `oldest`.
    spec fn merged_final(key: Seq<u8>, oldest: Seq<u8>) -> Seq<u8>;

    /// The order is total: keys are equal in it exactly when they are the
    /// same bytes, one is less exactly when the other is greater, and
    /// less carries over a key in between.
    proof fn key_order_is_total(key1: Seq<u8>, key2: Seq<u8>, key3: Seq<u8>)
        ensures
            Self::key_order(key1, key2) == KeyOrder::Equal <==> key1 == key2,
            Self::key_order(key1, key2) == KeyOrder::Less <==> Self::key_order(key2, key1)
                == KeyOrder::Greater,
            Self::key_order(key1, key2) == KeyOrder::Less && Self::key_order(key2, key3)
                == KeyOrder::Less ==> Self::key_order(key1, key3) == KeyOrder::Less,
    ;

    /// Orders two keys.
    fn key_comp(key1: &[u8], key2: &[u8]) -> (r: KeyOrder)
        ensures
            r == Self::key_order(key1@, key2@),
    ;

    /// Merges a delta into the value stored before, if there was one.
    fn merge(key: &[u8], old: Option<&[u8]>, delta: &[u8]) -> (r: Vec<u8>)
        ensures
            r@ == Self::merged(key@, optional_bytes(old), delta@),
    ;

    /// Gives the value to read where the oldest entry for a key is
    /// `oldest`.
    fn merge_final(key: &[u8], oldest: &[u8]) -> (r: Vec<u8>)
        ensures
            r@ == Self::merged_final(key@, oldest@),
    ;
}

/// The adapter for the key order: it takes two keys as slices, the null
/// slice as the empty key, and answers with the sign of their order.
pub fn key_comp_trampoline<T: SdbRustDataFuncs>(key1: &Slice, key2: &Slice) -> (r: i32)
    ensures
        r == order_sign(T::key_order(slice_bytes(key1@), slice_bytes(key2@))),
{
    let empty: Vec<u8> = Vec::new();
    let first: &[u8] = match key1.data {
        Some(bytes) => bytes,
        None => empty.as_slice(),
    };
    let second: &[u8] = match key2.data {
        Some(bytes) => bytes,
        None => empty.as_slice(),
    };
    match T::key_comp(first, second) {
        KeyOrder::Less => -1,
        KeyOrder::Equal => 0,
        KeyOrder::Greater => 1,
    }
}

/// The adapter for the merge on update: it takes the key, the value
/// stored before (the null slice where there is none) and the delta,
/// and gives the new value.
pub fn merge_trampoline<T: SdbRustDataFuncs>(key: &Slice, old: &Slice, delta: &Slice) -> (r: Vec<u8>)
    ensures
        r@ == T::merged(slice_bytes(key@), old@, slice_bytes(delta@)),
{
    let empty: Vec<u8> = Vec::new();
    let key_bytes: &[u8] = match key.data {
        Some(bytes) => bytes,
        None => empty.as_slice(),
    };
    let delta_bytes: &[u8] = match delta.data {
        Some(bytes) => bytes,
        None => empty.as_slice(),
    };
    T::merge(key_bytes, old.data, delta_bytes)
}

/// The adapter for the merge on read: it takes the key and the oldest
/// entry for it, and gives the value to read.
pub fn merge_final_trampoline<T: SdbRustDataFuncs>(key: &Slice, oldest: &Slice) -> (r: Vec<u8>)
    ensures
        r@ == T::merged_final(slice_bytes(key@), slice_bytes(oldest@)),
{
    let empty: Vec<u8> = Vec::new();
    let key_bytes: &[u8] = match key.data {
        Some(bytes) => bytes,
        None => empty.as_slice(),
    };
    let oldest_bytes: &[u8] = match oldest.data {
        Some(bytes) => bytes,
        None => empty.as_slice(),
    };
    T::merge_final(key_bytes, oldest_bytes)
}

/// The order of two byte sequences by their first differing byte; a
/// sequence that is the beginning of a longer one comes before it.
pub open spec fn bytewise_order(a: Seq<u8>, b: Seq<u8>) -> KeyOrder
    decreases a.len(),
{
    if a.len() == 0 {
        if b.len() == 0 {
            KeyOrder::Equal
        } else {
            KeyOrder::Less
        }
    } else if b.len() == 0 {
        KeyOrder::Greater
    } else if a[0] < b[0] {
        KeyOrder::Less
    } else if a[0] > b[0] {
        KeyOrder::Greater
    } else {
        bytewise_order(a.drop_first(), b.drop_first())
    }
}

/// Byte sequences are equal in the bytewise order exactly when they are
/// the same.
pub proof fn bytewise_equal_is_same(a: Seq<u8>, b: Seq<u8>)
    ensures
        bytewise_order(a, b) == KeyOrder::Equal <==> a == b,
    decreases a.len(),
{
    if a.len() == 0 || b.len() == 0 {
        if a.len() == 0 && b.len() == 0 {
            assert(a =~= b);
        }
    } else {
        bytewise_equal_is_same(a.drop_first(), b.drop_first());
        if a[0] == b[0] && a.drop_first() == b.drop_first() {
            assert forall|i: int| 0 <= i < a.len() implies a[i] == b[i] by {
                if i > 0 {
                    assert(a[i] == a.drop_first()[i - 1]);
                    assert(b[i] == b.drop_first()[i - 1]);
                }
            }
            assert(a.len() == a.drop_first().len() + 1);
            assert(b.len() == b.drop_first().len() + 1);
            assert(a =~= b);
        }
    }
}

/// One byte sequence is less than another exactly when the other is
/// greater than it.
pub proof fn bytewise_less_mirrors_greater(a: Seq<u8>, b: Seq<u8>)
    ensures
        bytewise_order(a, b) == KeyOrder::Less <==> bytewise_order(b, a) == KeyOrder::Greater,
    decreases a.len(),
{
    if a.len() != 0 && b.len() != 0 {
        bytewise_less_mirrors_greater(a.drop_first(), b.drop_first());
    }
}

/// Less carries over a byte sequence in between.
pub proof fn bytewise_less_carries(a: Seq<u8>, b: Seq<u8>, c: Seq<u8>)
    requires
        bytewise_order(a, b) == KeyOrder::Less,
        bytewise_order(b, c) == KeyOrder::Less,
    ensures
        bytewise_order(a, c) == KeyOrder::Less,
    decreases a.len(),
{
    if a.len() != 0 && b.len() != 0 && c.len() != 0 {
        if a[0] == b[0] && b[0] == c[0] {
            bytewise_less_carries(a.drop_first(), b.drop_first(), c.drop_first());
        }
    }
}

/// Orders two byte sequences bytewise.
pub fn bytewise_key_comp(key1: &[u8], key2: &[u8]) -> (r: KeyOrder)
    ensures
        r == bytewise_order(key1@, key2@),
{
    let mut i: usize = 0;
    proof {
        assert(key1@.skip(0) =~= key1@);
        assert(key2@.skip(0) =~= key2@);
    }
    while i < key1.len() && i < key2.len()
        invariant
            i <= key1@.len(),
            i <= key2@.len(),
            bytewise_order(key1@, key2@) == bytewise_order(
                key1@.skip(i as int),
                key2@.skip(i as int),
            ),
        decreases key1@.len() - i,
    {
        proof {
            assert(key1@.skip(i as int)[0] == key1@[i as int]);
            assert(key2@.skip(i as int)[0] == key2@[i as int]);
            assert(key1@.skip(i as int).drop_first() =~= key1@.skip(i + 1));
            assert(key2@.skip(i as int).drop_first() =~= key2@.skip(i + 1));
        }
        if key1[i] < key2[i] {
            return KeyOrder::Less;
        }
        if key1[i] > key2[i] {
            return KeyOrder::Greater;
        }
        i += 1;
    }
    if i < key2.len() {
        KeyOrder::Less
    } else if i < key1.len() {
        KeyOrder::Greater
    } else {
        KeyOrder::Equal
    }
}

/// The data functions of a family that brings none of its own: keys are
/// ordered bytewise, a delta takes the place of the value stored before,
/// and an entry is read as it stands.
#[derive(Debug, Clone, Copy)]
pub struct DefaultSdb {}

impl SdbRustDataFuncs for DefaultSdb {
    open spec fn key_order(key1: Seq<u8>, key2: Seq<u8>) -> KeyOrder {
        bytewise_order(key1, key2)
    }

    open spec fn merged(key: Seq<u8>, old: Option<Seq<u8>>, delta: Seq<u8>) -> Seq<u8> {
        delta
    }

    open spec fn merged_final(key: Seq<u8>, oldest: Seq<u8>) -> Seq<u8> {
        oldest
    }

    proof fn key_order_is_total(key1: Seq<u8>, key2: Seq<u8>, key3: Seq<u8>) {
        bytewise_equal_is_same(key1, key2);
        bytewise_less_mirrors_greater(key1, key2);
        if bytewise_order(key1, key2) == KeyOrder::Less && bytewise_order(key2, key3)
            == KeyOrder::Less {
            bytewise_less_carries(key1, key2, key3);
        }
    }

    fn key_comp(key1: &[u8], key2: &[u8]) -> (r: KeyOrder) {
        bytewise_key_comp(key1, key2)
    }

    fn merge(key: &[u8], old: Option<&[u8]>, delta: &[u8]) -> (r: Vec<u8>) {
        copy_bytes(delta)
    }

    fn merge_final(key: &[u8], oldest: &[u8]) -> (r: Vec<u8>) {
        copy_bytes(oldest)
    }
}

} // verus!
