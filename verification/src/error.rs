//! The error translator: turns the host runtime's "fetch last error" side
//! channel into a typed error.
//!
//! The side channel is a single process-wide slot holding the most recent
//! failure's message (a null-terminated string owned by the runtime), or
//! nothing.  Reading that slot is a foreign call; the embedding program
//! performs the read, copies the message bytes (terminator excluded) into an
//! owned buffer, and hands the observation — `Some(bytes)` or `None` — to
//! the translation functions here, which are verified to preserve the
//! message exactly.

use vstd::prelude::*;

verus! {

/// A failure surfaced by this layer.
///
/// No variant owns any native resource; the message inside
/// [`Error::ByondError`] is an owned copy of the runtime's bytes.
#[derive(Debug)]
pub enum Error {
    /// A value's actual kind does not match the representation a caller
    /// asked for: a validated expectation mismatch, not a native failure.
    InvalidConversion,
    /// String content taken from the host runtime is not valid text.
    NonUtf8String,
    /// The host runtime reported a failure and left a message on its
    /// last-error side channel.
    ByondError(ByondError),
    /// The host runtime reported a failure but its side channel held no
    /// message.
    UnknownByondError,
}

/// An owned copy of the message the host runtime left on its last-error
/// side channel, without the terminating null byte.
#[derive(Debug)]
pub struct ByondError {
    message: Vec<u8>,
}

impl View for ByondError {
    type V = Seq<u8>;

    closed spec fn view(&self) -> Seq<u8> {
        self.message@
    }
}

impl ByondError {
    /// Translates one observation of the side channel into an owned error
    /// message.  `raw` is what the embedding program read: `Some` of the
    /// copied message bytes when the runtime had recorded a failure
    /// message, `None` when the slot was empty.
    pub fn get_last(raw: Option<Vec<u8>>) -> (r: Option<ByondError>)
        ensures
            raw matches Some(bytes) ==> (r matches Some(e) && e@ == bytes@),
            raw is None ==> r is None,
    {
        match raw {
            Some(bytes) => Some(ByondError { message: bytes }),
            None => None,
        }
    }

    /// The recorded message bytes, exactly as they were observed on the
    /// side channel (terminator excluded).
    pub fn message_bytes(&self) -> (r: &Vec<u8>)
        ensures
            r@ == self@,
    {
        &self.message
    }
}

impl Error {
    /// Translates one observation of the side channel into a typed error:
    /// a recorded message becomes [`Error::ByondError`] carrying exactly
    /// those bytes, an empty slot becomes [`Error::UnknownByondError`].
    ///
    /// The embedding program must read the slot promptly after a failing
    /// operation, before any other native call can overwrite it, and hand
    /// the observation here.
    pub fn get_last_byond_error(raw: Option<Vec<u8>>) -> (r: Error)
        ensures
            raw matches Some(bytes) ==> (r matches Error::ByondError(e) && e@ == bytes@),
            raw is None ==> r == Error::UnknownByondError,
    {
        match ByondError::get_last(raw) {
            Some(err) => Error::ByondError(err),
            None => Error::UnknownByondError,
        }
    }
}

} // verus!
