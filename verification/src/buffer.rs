//! Byte regions that cross the boundary: borrowed views coming in, owned
//! buffers going out.

use vstd::prelude::*;

verus! {

/// How an incoming address-and-length pair is to be read.
#[derive(Clone, Copy, Debug, PartialEq, Eq, Structural)]
pub enum ViewKind {
    /// No bytes; the address is not looked at.
    Empty,
    /// `len` readable bytes at a non-null address.
    Region,
    /// A null address with a non-zero length: the caller broke the contract.
    Violation,
}

/// The reading of a pair whose address is null or not and whose length is
/// `len`. A zero length is an empty region whatever the address.
pub open spec fn view_kind(ptr_is_null: bool, len: nat) -> ViewKind {
    if len == 0 {
        ViewKind::Empty
    } else if ptr_is_null {
        ViewKind::Violation
    } else {
        ViewKind::Region
    }
}

/// Decides how an incoming pair is read, from the null test on its address
/// and its length alone.
pub fn classify_view(ptr_is_null: bool, len: usize) -> (k: ViewKind)
    ensures
        k == view_kind(ptr_is_null, len as nat),
{
    if len == 0 {
        ViewKind::Empty
    } else if ptr_is_null {
        ViewKind::Violation
    } else {
        ViewKind::Region
    }
}

/// A buffer whose ownership passes to the caller. It is either absent (the
/// null encoding: no data, nothing to release) or present with its bytes; a
/// present buffer may hold zero bytes and is still not absent.
#[derive(Debug)]
pub struct SledData {
    bytes: Option<Vec<u8>>,
}

impl View for SledData {
    type V = Option<Seq<u8>>;

    closed spec fn view(&self) -> Option<Seq<u8>> {
        match self.bytes {
            Some(v) => Some(v@),
            None => None,
        }
    }
}

/// The buffer owed for an engine answer to a lookup: the value when the key
/// is bound, and the absent encoding both for an unbound key and for a fault.
pub open spec fn exported(outcome: Result<Option<Vec<u8>>, sled::Error>) -> Option<Seq<u8>> {
    match outcome {
        Ok(Some(v)) => Some(v@),
        _ => None,
    }
}

impl SledData {
    /// The absent encoding.
    pub fn absent() -> (data: SledData)
        ensures
            data@ is None,
    {
        SledData { bytes: None }
    }

    /// Hands a byte sequence over as a present buffer with the same bytes.
    pub fn export(bytes: Vec<u8>) -> (data: SledData)
        ensures
            data@ == Some(bytes@),
    {
        SledData { bytes: Some(bytes) }
    }

    /// Turns the engine's answer to a lookup into the buffer for the caller.
    pub fn of_lookup(outcome: Result<Option<Vec<u8>>, sled::Error>) -> (data: SledData)
        ensures
            data@ == exported(outcome),
    {
        match outcome {
            Ok(Some(v)) => SledData::export(v),
            _ => SledData::absent(),
        }
    }

    /// Whether this is the absent encoding.
    pub fn is_null(&self) -> (b: bool)
        ensures
            b == (self@ is None),
    {
        self.bytes.is_none()
    }

    /// The number of bytes held: zero for the absent encoding.
    pub fn len(&self) -> (n: usize)
        ensures
            self@ matches Some(s) ==> n == s.len(),
            self@ is None ==> n == 0,
    {
        match &self.bytes {
            Some(v) => v.len(),
            None => 0,
        }
    }

    /// Gives up the buffer's bytes: `None` for the absent encoding.
    pub fn into_bytes(self) -> (r: Option<Vec<u8>>)
        ensures
            r is Some <==> self@ is Some,
            r matches Some(v) ==> self@ == Some(v@),
    {
        self.bytes
    }
}

/// Releases a buffer. The buffer is consumed, so it cannot be released a
/// second time; releasing the absent encoding does nothing.
pub fn sled_free_data(data: SledData) {
    let _ = data.into_bytes();
}

} // verus!
