//! Why a frame is refused.

use vstd::prelude::*;

verus! {

/// Why a frame was refused, on the way out or on the way in.
#[derive(Clone, Copy, Debug, PartialEq, Eq)]
pub enum ProtocolError {
    Truncated,
    BadMagic,
    UnsupportedVersion(u8),
    UnknownMessageType(u8),
    FrameTooLarge,
    LengthMismatch,
    InvalidUtf8,
    StringTooLarge,
    TooManyNodes,
    TooDeep,
    InvalidValue(&'static str),
}

} // verus!
