use vstd::prelude::*;

verus! {

/// Why the decoder could not produce a message from the bytes at hand.
///
/// The first two variants are not failures: they are the normal
/// "keep buffering and call again" signals of an incremental parser.
#[derive(Debug, Clone, Copy, PartialEq, Eq, Structural)]
pub enum DecodeError {
    /// Fewer bytes are buffered than are needed to frame a message:
    /// either under five bytes in all, or an untagged message whose
    /// declared total length exceeds what has arrived so far.
    NotEnoughData,
    /// A tagged message whose declared total length does not equal the
    /// number of buffered bytes; more (or fewer) bytes than exactly one
    /// message are present.
    NotFullyLoaded,
    /// An untagged message with declared length exactly 8: an SSL/encryption
    /// negotiation request, which this proxy does not implement. Surfaced
    /// as its own condition so it is never mistaken for missing data.
    UnsupportedSslRequest,
    /// Accepting the offered bytes would grow the decode buffer past its
    /// enforced maximum; the connection should be dropped rather than let
    /// a corrupt or malicious length field exhaust memory.
    BufferLimitExceeded,
}

impl DecodeError {
    /// An incomplete-input condition: not a failure, the caller should
    /// buffer more bytes and try again.
    pub open spec fn spec_is_incomplete(self) -> bool {
        self == DecodeError::NotEnoughData || self == DecodeError::NotFullyLoaded
    }

    /// True exactly for the "keep buffering" variants.
    pub fn is_incomplete(&self) -> (r: bool)
        ensures
            r == self.spec_is_incomplete(),
    {
        match self {
            DecodeError::NotEnoughData => true,
            DecodeError::NotFullyLoaded => true,
            DecodeError::UnsupportedSslRequest => false,
            DecodeError::BufferLimitExceeded => false,
        }
    }
}

} // verus!
