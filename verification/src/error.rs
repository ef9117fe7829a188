//! The errors a decode can end in.

use vstd::prelude::*;

verus! {

/// The abstract error: what a failed decode reports.
pub enum ErrView {
    /// The container is structurally malformed, a primitive rejected its
    /// input, or an assembled key failed its consistency check.
    CouldNotRead,
    /// The container is encrypted and no password was supplied.
    Encrypted,
    /// The first key record carries a type tag that no assembler handles;
    /// the payload is the tag's exact bytes.
    Unsupported(Seq<u8>),
}

/// What can go wrong while decoding a key container.
#[derive(Debug, Clone, PartialEq, Eq)]
pub enum Error {
    /// The container is structurally malformed, a primitive rejected its
    /// input, or an assembled key failed its consistency check.
    CouldNotReadKey,
    /// The container is encrypted and no password was supplied.
    KeyIsEncrypted,
    /// The first key record carries a type tag that no assembler handles;
    /// the payload is the tag's exact bytes.
    UnsupportedKeyType(Vec<u8>),
}

impl View for Error {
    type V = ErrView;

    open spec fn view(&self) -> ErrView {
        match self {
            Error::CouldNotReadKey => ErrView::CouldNotRead,
            Error::KeyIsEncrypted => ErrView::Encrypted,
            Error::UnsupportedKeyType(tag) => ErrView::Unsupported(tag@),
        }
    }
}

} // verus!
