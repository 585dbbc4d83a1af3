//! The mathematical model of the scanner: what construct begins at a
//! position, how far it extends, what its rewrite writes, and what a whole
//! scan of the source produces.
//!
//! The executable functions in [`crate::scanner`] are specified against
//! these functions; [`scan`] is the reference semantics of the whole pass.

use crate::span::{Comment, CommentType};
use vstd::prelude::*;

verus! {

/// The characters that form a whitespace run: space, newline and tab.
pub open spec fn is_ws(c: char) -> bool {
    c == ' ' || c == '\n' || c == '\t'
}

/// An ASCII letter; the rewrite of a comment or whitespace run inserts a
/// newline only when the character already before it in the result is one.
pub open spec fn is_alpha(c: char) -> bool {
    (97 <= c as u32 && c as u32 <= 122) || (65 <= c as u32 && c as u32 <= 90)
}

/// The length of the run of `#` characters starting at `j`.
pub open spec fn hash_run(src: Seq<char>, j: int) -> nat
    decreases src.len() - j,
{
    if j < 0 || j >= src.len() || src[j] != '#' {
        0
    } else {
        1 + hash_run(src, j + 1)
    }
}

/// The length of the run of whitespace characters starting at `j`.
pub open spec fn ws_run(src: Seq<char>, j: int) -> nat
    decreases src.len() - j,
{
    if j < 0 || j >= src.len() || !is_ws(src[j]) {
        0
    } else {
        1 + ws_run(src, j + 1)
    }
}

/// The index of the first unescaped closing quote at or after `j`: a `"`
/// whose immediately preceding character is not `\` (a single preceding
/// backslash always escapes; escaped backslashes are not recognized).
/// `None` when the source ends first.
pub open spec fn string_close(src: Seq<char>, j: int) -> Option<int>
    recommends
        1 <= j,
    decreases src.len() - j,
{
    if j >= src.len() {
        None
    } else if src[j] == '"' && src[j - 1] != '\\' {
        Some(j)
    } else {
        string_close(src, j + 1)
    }
}

/// The index of the first newline at or after `j`, or `None` when the
/// source ends first.
pub open spec fn newline_at(src: Seq<char>, j: int) -> Option<int>
    decreases src.len() - j,
{
    if j >= src.len() {
        None
    } else if src[j] == '\n' {
        Some(j)
    } else {
        newline_at(src, j + 1)
    }
}

/// The index of the first `/` at or after `j` whose immediately preceding
/// character is `*`, or `None` when the source ends first. Block comments do
/// not nest: this first `*/` always closes.
pub open spec fn block_close(src: Seq<char>, j: int) -> Option<int>
    recommends
        1 <= j,
    decreases src.len() - j,
{
    if j >= src.len() {
        None
    } else if src[j] == '/' && src[j - 1] == '*' {
        Some(j)
    } else {
        block_close(src, j + 1)
    }
}

/// The index of the first `"` at or after `j` that is followed by at least
/// `hashes` consecutive `#` characters, or `None` when the source ends
/// first. This is the closing quote of a raw string with `hashes`
/// delimiters.
pub open spec fn raw_close(src: Seq<char>, j: int, hashes: int) -> Option<int>
    decreases src.len() - j,
{
    if j >= src.len() {
        None
    } else if src[j] == '"' && hash_run(src, j + 1) >= hashes {
        Some(j)
    } else {
        raw_close(src, j + 1, hashes)
    }
}

/// Whether a recognized construct begins at `i`, and which. `r` and `b` are
/// ordinary text unless the full opening sequence (`r#...#"` or `b"`) fits
/// before the source ends; a trailing `/` is ordinary text as well.
pub open spec fn classify_at(src: Seq<char>, i: int) -> Option<CommentType>
    recommends
        0 <= i < src.len(),
{
    let c = src[i];
    if c == 'r' {
        let h = hash_run(src, i + 1);
        if i + 1 + h < src.len() && src[i + 1 + h] == '"' {
            Some(CommentType::RawStringLiteral { preceding_hashes: h as usize })
        } else {
            None
        }
    } else if c == 'b' {
        if i + 1 < src.len() && src[i + 1] == '"' {
            Some(CommentType::ByteStringLiteral)
        } else {
            None
        }
    } else if c == '"' {
        Some(CommentType::StringLiteral)
    } else if c == '/' {
        if i + 1 < src.len() {
            if src[i + 1] == '*' {
                Some(CommentType::BlockComment)
            } else if src[i + 1] == '/' {
                Some(CommentType::LineComment)
            } else {
                None
            }
        } else {
            None
        }
    } else if is_ws(c) {
        Some(CommentType::Whitespace)
    } else {
        None
    }
}

/// The number of source characters a construct of kind `kind` beginning at
/// `i` occupies, delimiters included, or `None` when it is unterminated.
/// A line comment's length counts one slot beyond its content, so the
/// terminating newline is consumed together with the comment.
pub open spec fn construct_len(kind: CommentType, src: Seq<char>, i: int) -> Option<int>
    recommends
        0 <= i < src.len(),
        classify_at(src, i) == Some(kind),
{
    match kind {
        CommentType::StringLiteral => match string_close(src, i + 1) {
            Some(k) => Some(k - i + 1),
            None => None,
        },
        CommentType::ByteStringLiteral => match string_close(src, i + 2) {
            Some(k) => Some(k - i + 1),
            None => None,
        },
        CommentType::LineComment => match newline_at(src, i + 2) {
            Some(k) => Some(k - i + 1),
            None => None,
        },
        CommentType::BlockComment => match block_close(src, i + 3) {
            Some(k) => Some(k - i + 1),
            None => None,
        },
        CommentType::RawStringLiteral { preceding_hashes } => match raw_close(
            src,
            i + preceding_hashes + 2,
            preceding_hashes as int,
        ) {
            Some(k) => Some(k + preceding_hashes - i + 1),
            None => None,
        },
        CommentType::Whitespace => Some(ws_run(src, i) as int),
    }
}

/// What the rewrite of a construct of kind `kind` appends to a result
/// buffer currently holding `out`: the literal kinds always leave an empty
/// string literal `""`; a comment or whitespace run leaves a single newline
/// when the character before it is a letter (so the two tokens it separated
/// stay separated) and nothing otherwise.
pub open spec fn rewrite_seq(kind: CommentType, out: Seq<char>) -> Seq<char> {
    if kind.is_string_kind() {
        seq!['"', '"']
    } else if out.len() > 0 && is_alpha(out.last()) {
        seq!['\n']
    } else {
        seq![]
    }
}

/// A run of hashes lies within the source.
pub proof fn lemma_hash_run_bounds(src: Seq<char>, j: int)
    ensures
        hash_run(src, j) > 0 ==> 0 <= j && j + hash_run(src, j) <= src.len(),
    decreases src.len() - j,
{
    if 0 <= j < src.len() && src[j] == '#' {
        lemma_hash_run_bounds(src, j + 1);
    }
}

/// A run of whitespace lies within the source.
pub proof fn lemma_ws_run_bounds(src: Seq<char>, j: int)
    ensures
        ws_run(src, j) > 0 ==> 0 <= j && j + ws_run(src, j) <= src.len(),
    decreases src.len() - j,
{
    if 0 <= j < src.len() && is_ws(src[j]) {
        lemma_ws_run_bounds(src, j + 1);
    }
}

/// A closing quote found from `j` lies between `j` and the end of the source.
pub proof fn lemma_string_close_bounds(src: Seq<char>, j: int)
    ensures
        string_close(src, j) is Some ==> j <= string_close(src, j)->Some_0 < src.len(),
    decreases src.len() - j,
{
    if j < src.len() && !(src[j] == '"' && src[j - 1] != '\\') {
        lemma_string_close_bounds(src, j + 1);
    }
}

/// A newline found from `j` lies between `j` and the end of the source.
pub proof fn lemma_newline_at_bounds(src: Seq<char>, j: int)
    ensures
        newline_at(src, j) is Some ==> j <= newline_at(src, j)->Some_0 < src.len(),
    decreases src.len() - j,
{
    if j < src.len() && src[j] != '\n' {
        lemma_newline_at_bounds(src, j + 1);
    }
}

/// A block-comment close found from `j` lies between `j` and the end of the
/// source.
pub proof fn lemma_block_close_bounds(src: Seq<char>, j: int)
    ensures
        block_close(src, j) is Some ==> j <= block_close(src, j)->Some_0 < src.len(),
    decreases src.len() - j,
{
    if j < src.len() && !(src[j] == '/' && src[j - 1] == '*') {
        lemma_block_close_bounds(src, j + 1);
    }
}

/// A raw-string close found from `j` lies between `j` and the end of the
/// source, with room for its trailing hashes.
pub proof fn lemma_raw_close_bounds(src: Seq<char>, j: int, hashes: int)
    requires
        0 <= hashes,
    ensures
        raw_close(src, j, hashes) is Some ==> {
            let k = raw_close(src, j, hashes)->Some_0;
            j <= k < src.len() && k + hashes < src.len()
        },
    decreases src.len() - j,
{
    if j < src.len() {
        if src[j] == '"' && hash_run(src, j + 1) >= hashes {
            lemma_hash_run_bounds(src, j + 1);
        } else {
            lemma_raw_close_bounds(src, j + 1, hashes);
        }
    }
}

/// A terminated construct occupies at least one source character (at least
/// two for the literal kinds) and ends within the source.
pub proof fn lemma_construct_len_bounds(kind: CommentType, src: Seq<char>, i: int)
    requires
        0 <= i < src.len(),
        classify_at(src, i) == Some(kind),
    ensures
        construct_len(kind, src, i) is Some ==> {
            let n = construct_len(kind, src, i)->Some_0;
            1 <= n && i + n <= src.len() && (kind.is_string_kind() ==> 2 <= n)
        },
{
    match kind {
        CommentType::StringLiteral => {
            lemma_string_close_bounds(src, i + 1);
        },
        CommentType::ByteStringLiteral => {
            lemma_string_close_bounds(src, i + 2);
        },
        CommentType::LineComment => {
            lemma_newline_at_bounds(src, i + 2);
        },
        CommentType::BlockComment => {
            lemma_block_close_bounds(src, i + 3);
        },
        CommentType::RawStringLiteral { preceding_hashes } => {
            lemma_raw_close_bounds(src, i + preceding_hashes + 2, preceding_hashes as int);
        },
        CommentType::Whitespace => {
            lemma_ws_run_bounds(src, i);
        },
    }
}

/// The whole scan, from position `i`, with `out` the result text written so
/// far. On success it yields the spans of all constructs from `i` on and the
/// complete result text; on the first unterminated construct it yields that
/// construct's start index and nothing else.
pub open spec fn scan(src: Seq<char>, i: int, out: Seq<char>) -> Result<
    (Seq<Comment>, Seq<char>),
    int,
>
    recommends
        0 <= i,
    decreases src.len() - i,
{
    if i < 0 || i >= src.len() {
        Ok((Seq::empty(), out))
    } else {
        match classify_at(src, i) {
            None => scan(src, i + 1, out.push(src[i])),
            Some(kind) => match construct_len(kind, src, i) {
                None => Err(i),
                Some(n) => {
                    proof {
                        lemma_construct_len_bounds(kind, src, i);
                    }
                    match scan(src, i + n, out + rewrite_seq(kind, out)) {
                        Err(e) => Err(e),
                        Ok(rest) => Ok(
                            (
                                seq![
                                    Comment {
                                        begin: i as usize,
                                        length: n as usize,
                                        comment_type: kind,
                                    },
                                ] + rest.0,
                                rest.1,
                            ),
                        ),
                    }
                },
            },
        }
    }
}

/// Prepends the spans already produced to the outcome of the remaining scan;
/// an error of the remainder is the error of the whole.
pub open spec fn scan_join(
    done: Seq<Comment>,
    rest: Result<(Seq<Comment>, Seq<char>), int>,
) -> Result<(Seq<Comment>, Seq<char>), int> {
    match rest {
        Ok(p) => Ok((done + p.0, p.1)),
        Err(e) => Err(e),
    }
}

} // verus!
