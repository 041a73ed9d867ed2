//! The error taxonomy of the link.

use vstd::prelude::*;

verus! {

/// `std::io::Error`, carried through the engine as an opaque value.
#[verifier::external_type_specification]
#[verifier::external_body]
pub struct ExIoError(std::io::Error);

/// Everything that can end a protocol operation early.
#[derive(Debug)]
pub enum BESLinkError {
    /// The transport failed with something other than a read timeout.
    IOError { e: std::io::Error },
    /// A complete frame arrived whose last byte is not the checksum of the
    /// bytes before it.
    BadChecksumError { failed_packet: Vec<u8>, got: u8, wanted: u8 },
    /// A well-framed reply carried content the protocol does not allow here.
    BadResponseCode { failed_packet: Vec<u8>, got: u8, wanted: u8 },
    /// The caller handed the engine something malformed.
    InvalidArgs,
}

/// The mathematical content of a [`BESLinkError`].
pub enum ErrorView {
    IOError { e: std::io::Error },
    BadChecksumError { failed_packet: Seq<u8>, got: u8, wanted: u8 },
    BadResponseCode { failed_packet: Seq<u8>, got: u8, wanted: u8 },
    InvalidArgs,
}

impl View for BESLinkError {
    type V = ErrorView;

    open spec fn view(&self) -> ErrorView {
        match *self {
            BESLinkError::IOError { e } => ErrorView::IOError { e },
            BESLinkError::BadChecksumError { failed_packet, got, wanted } => {
                ErrorView::BadChecksumError { failed_packet: failed_packet@, got, wanted }
            },
            BESLinkError::BadResponseCode { failed_packet, got, wanted } => {
                ErrorView::BadResponseCode { failed_packet: failed_packet@, got, wanted }
            },
            BESLinkError::InvalidArgs => ErrorView::InvalidArgs,
        }
    }
}

impl From<std::io::Error> for BESLinkError {
    fn from(value: std::io::Error) -> (r: BESLinkError) {
        BESLinkError::IOError { e: value }
    }
}

impl vstd::std_specs::convert::FromSpecImpl<std::io::Error> for BESLinkError {
    open spec fn obeys_from_spec() -> bool {
        true
    }

    open spec fn from_spec(value: std::io::Error) -> BESLinkError {
        BESLinkError::IOError { e: value }
    }
}

} // verus!
