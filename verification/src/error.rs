//! The errors of the transport.
use libp2p_core::Multiaddr;
use vstd::prelude::*;

verus! {

/// What went wrong while reserving a relay, dialing a peer or exchanging messages.
#[derive(Debug)]
pub enum Error {
    /// An address, or a relay behind an address, cannot be used.
    InvalidMultiaddr(String),
    /// A message could not be encoded or decoded.
    ProtoSerialization(String),
    /// The underlying stream failed.
    Io(String),
}

/// The model of an [`Error`].
pub enum ErrorView {
    InvalidMultiaddr(Seq<char>),
    ProtoSerialization(Seq<char>),
    Io(Seq<char>),
}

impl View for Error {
    type V = ErrorView;

    open spec fn view(&self) -> ErrorView {
        match *self {
            Error::InvalidMultiaddr(text) => ErrorView::InvalidMultiaddr(text@),
            Error::ProtoSerialization(text) => ErrorView::ProtoSerialization(text@),
            Error::Io(text) => ErrorView::Io(text@),
        }
    }
}

/// Why a request to listen or to dial was turned down.
#[derive(Debug)]
pub enum TransportError {
    /// This transport does not serve the address.
    MultiaddrNotSupported(Multiaddr),
    /// The request failed for another reason.
    Other(Error),
}

/// The view of an error says which error it is, and its text.
pub proof fn law_error_is_what_its_view_says(error: Error)
    ensures
        match error {
            Error::InvalidMultiaddr(text) => error@ == ErrorView::InvalidMultiaddr(text@),
            Error::ProtoSerialization(text) => error@ == ErrorView::ProtoSerialization(text@),
            Error::Io(text) => error@ == ErrorView::Io(text@),
        },
{
}

} // verus!
