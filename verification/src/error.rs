//! What can go wrong when a tagged result envelope is decoded.

use vstd::prelude::*;
use crate::common::{BulkResult, BulkResultView};
use crate::media::MediaKind;
use crate::search::query::{QueryBulkResult, QueryBulkResultView};

verus! {

/// Why an envelope could not be decoded. Either kind is final for the call:
/// no partial result accompanies it.
#[derive(Debug, PartialEq, Eq)]
pub enum DecodeError {
    /// A group carries a discriminator outside the recognised set. `tag` is
    /// the offending discriminator as it was received, `snapshot` the whole
    /// envelope in which it was found.
    UnrecognizedDiscriminator { tag: String, snapshot: BulkResult<QueryBulkResult> },
    /// An entry of a group is not of the kind that the group's discriminator
    /// calls for.
    ShapeMismatch { expected: MediaKind, found: MediaKind },
}

/// Mathematical model of a [`DecodeError`].
pub ghost enum DecodeErrorView {
    UnrecognizedDiscriminator { tag: Seq<char>, snapshot: BulkResultView<QueryBulkResultView> },
    ShapeMismatch { expected: MediaKind, found: MediaKind },
}

impl View for DecodeError {
    type V = DecodeErrorView;

    open spec fn view(&self) -> DecodeErrorView {
        match self {
            DecodeError::UnrecognizedDiscriminator { tag, snapshot } => {
                DecodeErrorView::UnrecognizedDiscriminator { tag: tag@, snapshot: snapshot@ }
            },
            DecodeError::ShapeMismatch { expected, found } => {
                DecodeErrorView::ShapeMismatch { expected: *expected, found: *found }
            },
        }
    }
}

impl DecodeErrorView {
    /// The error in words.
    pub open spec fn message(self) -> Seq<char> {
        match self {
            DecodeErrorView::UnrecognizedDiscriminator { tag, .. } => {
                "invalid result type found: '"@ + tag + "'"@
            },
            DecodeErrorView::ShapeMismatch { expected, found } => {
                "expected an entry of type '"@ + expected.token() + "', found '"@ + found.token()
                    + "'"@
            },
        }
    }
}

impl DecodeError {
    /// The error in words: the offending discriminator between quotes, or
    /// the kind called for and the kind found.
    pub fn message(&self) -> (s: String)
        ensures
            s@ == self@.message(),
    {
        match self {
            DecodeError::UnrecognizedDiscriminator { tag, .. } => {
                let mut s = String::from_str("invalid result type found: '");
                s.append(tag.as_str());
                s.append("'");
                s
            },
            DecodeError::ShapeMismatch { expected, found } => {
                let mut s = String::from_str("expected an entry of type '");
                s.append(expected.as_str());
                s.append("', found '");
                s.append(found.as_str());
                s.append("'");
                s
            },
        }
    }
}

} // verus!
