//! The span descriptors produced by the scanner: the kind of each recognized
//! construct and the record of where it stood in the source.

use vstd::prelude::*;

verus! {

/// The kind of a recognized construct.
///
/// `RawStringLiteral` carries the number of `#` delimiters surrounding the
/// raw string's quotes; zero is legal and means an undelimited raw string
/// `r"..."`. `Whitespace` covers runs of spaces, newlines and tabs.
#[derive(Clone, Copy, Debug, PartialEq, Eq, Structural)]
pub enum CommentType {
    LineComment,
    BlockComment,
    StringLiteral,
    ByteStringLiteral,
    RawStringLiteral { preceding_hashes: usize },
    Whitespace,
}

/// One recognized construct: where it begins in the untouched source
/// (0-based), how many source characters it occupies including all of its
/// delimiters, and what kind it is.
#[derive(Clone, Copy, Debug, PartialEq, Eq, Structural)]
pub struct Comment {
    pub begin: usize,
    pub length: usize,
    pub comment_type: CommentType,
}

impl CommentType {
    /// True of the three literal kinds, which are rewritten to `""`;
    /// the comment and whitespace kinds are rewritten to nothing or to a
    /// single separating newline.
    pub open spec fn is_string_kind(self) -> bool {
        match self {
            CommentType::StringLiteral => true,
            CommentType::ByteStringLiteral => true,
            CommentType::RawStringLiteral { .. } => true,
            _ => false,
        }
    }
}

} // verus!
