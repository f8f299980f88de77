//! Buffer transfer layer: byte views borrowed from engine memory for the length
//! of one call, and owned buffers moved into the engine for results.

use vstd::prelude::*;
use vstd::slice::slice_subrange;

verus! {

/// The bytes of `store` that a view of `byte_length` bytes at `byte_offset` covers.
pub open spec fn window(store: Seq<u8>, byte_offset: int, byte_length: int) -> Seq<u8> {
    store.subrange(byte_offset, byte_offset + byte_length)
}

/// Borrows the bytes of a backing store that a view covers.
pub fn get_backing_store_slice<'a>(
    backing_store: &'a [u8],
    byte_offset: usize,
    byte_length: usize,
) -> (bytes: &'a [u8])
    requires
        byte_offset + byte_length <= backing_store@.len(),
    ensures
        bytes@ == window(backing_store@, byte_offset as int, byte_length as int),
{
    // The length of a slice is a `usize`, so the end of the view is one too.
    let _store_len = backing_store.len();
    slice_subrange(backing_store, byte_offset, byte_offset + byte_length)
}

/// Borrows the bytes of a backing store that a view covers, for writing. What
/// is written through the borrow lands in the store, and the bytes outside the
/// view stay as they are.
pub fn get_backing_store_slice_mut<'a>(
    backing_store: &'a mut [u8],
    byte_offset: usize,
    byte_length: usize,
) -> (bytes: &'a mut [u8])
    requires
        byte_offset + byte_length <= old(backing_store)@.len(),
    ensures
        bytes@ == window(old(backing_store)@, byte_offset as int, byte_length as int),
        final(backing_store)@ == old(backing_store)@.subrange(0, byte_offset as int)
            + final(bytes)@ + old(backing_store)@.subrange(
            byte_offset + byte_length,
            old(backing_store)@.len() as int,
        ),
{
    let (_, tail) = backing_store.split_at_mut(byte_offset);
    let (bytes, _) = tail.split_at_mut(byte_length);
    bytes
}

/// A byte view over engine-owned memory. The lifetime ties the view to the call
/// during which the engine keeps that memory in place.
#[derive(Clone, Copy, Debug)]
pub struct ZeroCopyBuf<'a> {
    backing_store: &'a [u8],
    byte_offset: usize,
    byte_length: usize,
}

impl<'a> ZeroCopyBuf<'a> {
    #[verifier::type_invariant]
    spec fn in_bounds(self) -> bool {
        self.byte_offset + self.byte_length <= self.backing_store@.len()
    }

    /// The bytes that the view covers.
    pub closed spec fn view(&self) -> Seq<u8> {
        window(self.backing_store@, self.byte_offset as int, self.byte_length as int)
    }

    /// A view of `byte_length` bytes of `backing_store`, starting at
    /// `byte_offset`; `None` when that range does not lie inside the store.
    pub fn new(backing_store: &'a [u8], byte_offset: usize, byte_length: usize) -> (buf: Option<
        Self,
    >)
        ensures
            byte_offset + byte_length <= backing_store@.len() <==> buf is Some,
            buf matches Some(b) ==> b@ == window(
                backing_store@,
                byte_offset as int,
                byte_length as int,
            ),
    {
        let len = backing_store.len();
        if byte_offset <= len && byte_length <= len - byte_offset {
            Some(ZeroCopyBuf { backing_store, byte_offset, byte_length })
        } else {
            None
        }
    }

    /// The viewed bytes, borrowed for as long as the engine memory is.
    pub fn as_slice(&self) -> (bytes: &'a [u8])
        ensures
            bytes@ == self@,
    {
        proof {
            use_type_invariant(self);
        }
        get_backing_store_slice(self.backing_store, self.byte_offset, self.byte_length)
    }

    /// Number of bytes in the view.
    pub fn len(&self) -> (n: usize)
        ensures
            n == self@.len(),
    {
        proof {
            use_type_invariant(self);
        }
        self.byte_length
    }

    /// An owned copy of the viewed bytes, for data that must outlive the call.
    pub fn to_owned_bytes(&self) -> (bytes: Vec<u8>)
        ensures
            bytes@ == self@,
    {
        vstd::slice::slice_to_vec(self.as_slice())
    }
}

/// An owned byte buffer in the engine's memory, seen through a typed array
/// that starts at offset zero and covers all of the buffer.
#[derive(Debug, PartialEq, Eq)]
pub struct Uint8Array {
    backing_store: Vec<u8>,
}

impl Uint8Array {
    /// The bytes that script code reads through the array.
    pub closed spec fn view(&self) -> Seq<u8> {
        self.backing_store@
    }

    /// An array of length zero over a fresh empty buffer.
    pub fn empty() -> (array: Self)
        ensures
            array@ == Seq::<u8>::empty(),
    {
        Uint8Array { backing_store: Vec::new() }
    }

    /// An array over all of `bytes`, which become the engine's.
    pub fn from_vec(bytes: Vec<u8>) -> (array: Self)
        ensures
            array@ == bytes@,
    {
        Uint8Array { backing_store: bytes }
    }

    /// Number of bytes in the array.
    pub fn len(&self) -> (n: usize)
        ensures
            n == self@.len(),
    {
        self.backing_store.len()
    }

    /// The bytes of the array.
    pub fn as_slice(&self) -> (bytes: &[u8])
        ensures
            bytes@ == self@,
    {
        self.backing_store.as_slice()
    }

    /// Gives the buffer up, as it is handed to the engine.
    pub fn into_vec(self) -> (bytes: Vec<u8>)
        ensures
            bytes@ == self@,
    {
        self.backing_store
    }
}

/// Moves an owned buffer into the engine and returns the array that covers all
/// of it. The allocation changes owner; no byte is copied.
pub fn boxed_slice_to_uint8array(buf: Box<[u8]>) -> (array: Uint8Array)
    requires
        buf@.len() > 0,
    ensures
        array@ == buf@,
{
    Uint8Array::from_vec(buf.into_vec())
}

/// The engine value for a result buffer: an array over the bytes, or no value
/// at all when there are none. An empty result never becomes an empty array.
pub fn to_engine_buffer(bytes: Box<[u8]>) -> (value: Option<Uint8Array>)
    ensures
        bytes@.len() == 0 <==> value is None,
        value matches Some(array) ==> array@ == bytes@,
{
    if bytes.is_empty() {
        None
    } else {
        Some(boxed_slice_to_uint8array(bytes))
    }
}

} // verus!
