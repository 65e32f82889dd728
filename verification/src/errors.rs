use vstd::prelude::*;

verus! {

/// The terminal ways a gift-card request can fail. A call returns exactly a
/// claim code or one of these; there is no retry and no partial success.
#[derive(Debug)]
pub enum GiftCardError {
    /// The network round trip could not be completed; carries the cause.
    TransportError { cause: String },
    /// The response body was not a JSON object carrying the claim code;
    /// carries the raw body and the cause.
    DecodeError { body: Vec<u8>, cause: String },
    /// A header value fell outside the transport's header encoding; carries
    /// the name of the offending header. Construction fails fast rather than
    /// silently dropping the entry.
    InvalidHeader { name: String },
}

} // verus!
