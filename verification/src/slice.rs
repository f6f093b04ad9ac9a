//! The transport form of a byte sequence: a length and a borrowed view of
//! the bytes, or the null slice that stands for "no value" and "no start
//! key". A slice owns nothing: on the way out it borrows the caller's
//! bytes, and what comes in is copied before it is kept.
use vstd::prelude::*;

verus! {

/// A length together with the bytes it counts. `data` is `None` for the
/// null slice, whose length is zero.
#[derive(Debug, Clone, Copy, PartialEq, Eq)]
pub struct Slice<'a> {
    pub length: u64,
    pub data: Option<&'a [u8]>,
}

impl<'a> View for Slice<'a> {
    type V = Option<Seq<u8>>;

    open spec fn view(&self) -> Option<Seq<u8>> {
        match self.data {
            Some(d) => Some(d@),
            None => None,
        }
    }
}

impl<'a> Slice<'a> {
    /// The length field counts the bytes; the null slice has length zero.
    pub open spec fn wf(&self) -> bool {
        match self.data {
            Some(d) => self.length == d@.len(),
            None => self.length == 0,
        }
    }

    /// Whether this is the null slice.
    pub fn is_null(&self) -> (r: bool)
        ensures
            r == (self@ is None),
    {
        self.data.is_none()
    }

    /// An owned copy of the bytes; the null slice gives no bytes.
    pub fn to_vec(&self) -> (r: Vec<u8>)
        ensures
            r@ == slice_bytes(self@),
    {
        match self.data {
            Some(d) => copy_bytes(d),
            None => Vec::new(),
        }
    }
}

/// The bytes that a slice stands for.
pub open spec fn slice_bytes(s: Option<Seq<u8>>) -> Seq<u8> {
    match s {
        Some(d) => d,
        None => Seq::empty(),
    }
}

/// A fresh vector with the bytes of `src`, sized exactly to them.
pub fn copy_bytes(src: &[u8]) -> (r: Vec<u8>)
    ensures
        r@ == src@,
{
    let mut out: Vec<u8> = Vec::with_capacity(src.len());
    let mut i: usize = 0;
    while i < src.len()
        invariant
            i <= src.len(),
            out@ == src@.subrange(0, i as int),
        decreases src.len() - i,
    {
        out.push(src[i]);
        i += 1;
        assert(out@ =~= src@.subrange(0, i as int));
    }
    assert(src@.subrange(0, src.len() as int) =~= src@);
    out
}

/// The slice over a byte sequence. The bytes are borrowed, not copied.
pub fn create_splinter_slice<'a>(bytes: &'a [u8]) -> (r: Slice<'a>)
    ensures
        r@ == Some(bytes@),
        r.length == bytes@.len(),
        r.wf(),
{
    Slice { length: bytes.len() as u64, data: Some(bytes) }
}

/// The null slice.
pub fn null_slice<'a>() -> (r: Slice<'a>)
    ensures
        r@ == None::<Seq<u8>>,
        r.length == 0,
        r.wf(),
{
    Slice { length: 0, data: None }
}

/// The slice for an optional start key: the key's bytes, or the null
/// slice where there is none.
pub fn start_slice<'a>(start_key: Option<&'a [u8]>) -> (r: Slice<'a>)
    ensures
        r@ == optional_bytes(start_key),
        r.wf(),
{
    match start_key {
        Some(s) => create_splinter_slice(s),
        None => null_slice(),
    }
}

/// The view of an optional byte sequence.
pub open spec fn optional_bytes(start_key: Option<&[u8]>) -> Option<Seq<u8>> {
    match start_key {
        Some(s) => Some(s@),
        None => None,
    }
}

} // verus!
