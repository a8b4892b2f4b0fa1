//! Buffers and text that cross the boundary.
//!
//! Input is borrowed only for the duration of a call, so it is copied into
//! memory of our own before any work is queued. Output is moved to the
//! caller, who hands it back exactly once to be released.
use vstd::prelude::*;
use crate::error::{ArgName, BridgeError};

verus! {

/// Bytes that the caller lends for the duration of one call. A null
/// pointer arrives as `None` and reads as empty.
pub struct IrohBytes<'a> {
    pub data: Option<&'a [u8]>,
}

/// The bytes that `b` describes.
pub open spec fn borrowed_bytes(b: IrohBytes<'_>) -> Seq<u8> {
    match b.data {
        Some(d) => d@,
        None => Seq::empty(),
    }
}

impl<'a> IrohBytes<'a> {
    /// Copies the borrowed bytes into a buffer that the core owns.
    pub fn copy_in(&self) -> (r: Vec<u8>)
        ensures
            r@ == borrowed_bytes(*self),
    {
        match self.data {
            Some(d) => vstd::slice::slice_to_vec(d),
            None => Vec::new(),
        }
    }
}

/// Bytes moved to the caller, who releases them with [`iroh_bytes_free`].
pub struct IrohOwnedBytes {
    pub data: Vec<u8>,
}

impl IrohOwnedBytes {
    /// Moves `data` out to the caller unchanged.
    pub fn from_vec(data: Vec<u8>) -> (r: Self)
        ensures
            r.data@ == data@,
    {
        IrohOwnedBytes { data }
    }

    pub fn len(&self) -> (r: usize)
        ensures
            r == self.data@.len(),
    {
        self.data.len()
    }
}

/// Releases bytes that were moved to the caller. Taking the buffer by value
/// means it is released once and cannot be touched afterwards.
pub fn iroh_bytes_free(bytes: IrohOwnedBytes) {
    let IrohOwnedBytes { data: _released } = bytes;
}

/// A text argument as the caller passed it: null, bytes that are not UTF-8
/// (with a description of the fault), or text.
pub enum TextArg {
    Null,
    NotUtf8(String),
    Text(String),
}

/// The outcome of validating a required text argument.
pub open spec fn required_text_spec(arg: TextArg, name: ArgName) -> Result<String, BridgeError> {
    match arg {
        TextArg::Null => Err(BridgeError::NullArgument(name)),
        TextArg::NotUtf8(d) => Err(BridgeError::InvalidUtf8(name, d)),
        TextArg::Text(s) => Ok(s),
    }
}

/// The outcome of validating an optional text argument.
pub open spec fn optional_text_spec(arg: TextArg, name: ArgName) -> Result<Option<String>, BridgeError> {
    match arg {
        TextArg::Null => Ok(None),
        TextArg::NotUtf8(d) => Err(BridgeError::InvalidUtf8(name, d)),
        TextArg::Text(s) => Ok(Some(s)),
    }
}

/// Validates a text argument that must be present.
pub fn required_text(arg: TextArg, name: ArgName) -> (r: Result<String, BridgeError>)
    ensures
        r == required_text_spec(arg, name),
{
    match arg {
        TextArg::Null => Err(BridgeError::NullArgument(name)),
        TextArg::NotUtf8(d) => Err(BridgeError::InvalidUtf8(name, d)),
        TextArg::Text(s) => Ok(s),
    }
}

/// Validates a text argument that may be null.
pub fn optional_text(arg: TextArg, name: ArgName) -> (r: Result<Option<String>, BridgeError>)
    ensures
        r == optional_text_spec(arg, name),
{
    match arg {
        TextArg::Null => Ok(None),
        TextArg::NotUtf8(d) => Err(BridgeError::InvalidUtf8(name, d)),
        TextArg::Text(s) => Ok(Some(s)),
    }
}

} // verus!
