//! Why a dump could not be decoded.
use crate::model::BlockKind;
use vstd::prelude::*;

verus! {

/// A decoding failure, with the block it happened in and the raw line.
#[derive(Clone, Debug, PartialEq, Eq)]
pub enum Error {
    /// A key/value line without a `:`.
    MalformedLine { block: BlockKind, line: String },
    /// A port index or numeric value that is not a decimal fitting in `usize`.
    IntegerParse { block: BlockKind, line: String },
    /// A lock letter or a `true`/`false`/`needs_update` literal that is not one of the codes.
    InvalidEnumCode { block: BlockKind, line: String },
    /// A non-empty line between blocks that does not start with a known header.
    UnknownBlockHeader { line: String },
    /// An indexed line that ends right after its index, where a value is due.
    UnexpectedEndOfInput { block: BlockKind, line: String },
}

pub enum ErrorView {
    MalformedLine { block: BlockKind, line: Seq<char> },
    IntegerParse { block: BlockKind, line: Seq<char> },
    InvalidEnumCode { block: BlockKind, line: Seq<char> },
    UnknownBlockHeader { line: Seq<char> },
    UnexpectedEndOfInput { block: BlockKind, line: Seq<char> },
}

impl View for Error {
    type V = ErrorView;

    open spec fn view(&self) -> ErrorView {
        match self {
            Error::MalformedLine { block, line } => ErrorView::MalformedLine {
                block: *block,
                line: line@,
            },
            Error::IntegerParse { block, line } => ErrorView::IntegerParse {
                block: *block,
                line: line@,
            },
            Error::InvalidEnumCode { block, line } => ErrorView::InvalidEnumCode {
                block: *block,
                line: line@,
            },
            Error::UnknownBlockHeader { line } => ErrorView::UnknownBlockHeader { line: line@ },
            Error::UnexpectedEndOfInput { block, line } => ErrorView::UnexpectedEndOfInput {
                block: *block,
                line: line@,
            },
        }
    }
}

/// A decoding result, seen through the views of its value and its error.
pub open spec fn view_result<T: View>(r: Result<T, Error>) -> Result<T::V, ErrorView> {
    match r {
        Ok(v) => Ok(v@),
        Err(e) => Err(e@),
    }
}

} // verus!
