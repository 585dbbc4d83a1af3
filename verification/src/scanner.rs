//! The executable scanner: the classifier, the length scan, the rewrite
//! step, and the driver that walks the source once and produces the span
//! list and the rewritten text.

use crate::model::{
    block_close, classify_at, construct_len, hash_run, lemma_construct_len_bounds,
    lemma_hash_run_bounds, newline_at, raw_close, rewrite_seq, scan, scan_join, string_close,
    ws_run,
};
use crate::span::{Comment, CommentType};
use vstd::prelude::*;

verus! {

/// True when at least `count` consecutive `#` characters stand at `start`.
fn hash_run_at_least(src_text: &[char], start: usize, count: usize) -> (r: bool)
    requires
        start <= src_text@.len(),
    ensures
        r == (hash_run(src_text@, start as int) >= count),
{
    let mut k: usize = 0;
    while k < count
        invariant
            k <= count,
            start + k <= src_text@.len(),
            hash_run(src_text@, start as int) == k + hash_run(src_text@, start + k),
        decreases count - k,
    {
        if src_text.len() - start == k {
            return false;
        }
        if src_text[start + k] != '#' {
            return false;
        }
        k += 1;
    }
    true
}

impl CommentType {
    /// Decides whether a recognized construct begins at `index` and, if so,
    /// which kind. A lookahead that runs off the end of the source fails
    /// open: the character at `index` is then ordinary text.
    pub fn any_comment(src_text: &[char], index: usize) -> (r: Option<CommentType>)
        requires
            index < src_text@.len(),
        ensures
            r == classify_at(src_text@, index as int),
    {
        match src_text[index] {
            'r' => {
                let mut hashes: usize = 0;
                let mut tmp_index: usize = index + 1;
                while tmp_index < src_text.len() && src_text[tmp_index] == '#'
                    invariant
                        index < src_text@.len(),
                        index + 1 <= tmp_index <= src_text@.len(),
                        tmp_index == index + 1 + hashes,
                        hash_run(src_text@, index + 1) == hashes + hash_run(
                            src_text@,
                            tmp_index as int,
                        ),
                    decreases src_text@.len() - tmp_index,
                {
                    hashes += 1;
                    tmp_index += 1;
                }
                if tmp_index < src_text.len() && src_text[tmp_index] == '"' {
                    Some(CommentType::RawStringLiteral { preceding_hashes: hashes })
                } else {
                    None
                }
            },
            'b' => {
                if index + 1 < src_text.len() && src_text[index + 1] == '"' {
                    Some(CommentType::ByteStringLiteral)
                } else {
                    None
                }
            },
            '"' => Some(CommentType::StringLiteral),
            '/' => {
                if index + 1 < src_text.len() {
                    match src_text[index + 1] {
                        '*' => Some(CommentType::BlockComment),
                        '/' => Some(CommentType::LineComment),
                        _ => None,
                    }
                } else {
                    None
                }
            },
            ' ' | '\n' | '\t' => Some(CommentType::Whitespace),
            _ => None,
        }
    }

    /// Scans forward from `comment_begin`, where a construct of kind `self`
    /// begins, and returns the number of source characters it occupies, or
    /// `Err(())` when the source ends before the construct closes.
    pub fn comment_length(&self, src_text: &[char], comment_begin: usize) -> (r: Result<
        usize,
        (),
    >)
        requires
            comment_begin < src_text@.len(),
            classify_at(src_text@, comment_begin as int) == Some(*self),
        ensures
            match r {
                Ok(n) => construct_len(*self, src_text@, comment_begin as int) == Some(n as int),
                Err(_) => construct_len(*self, src_text@, comment_begin as int) is None,
            },
    {
        let src_len: usize = src_text.len();
        match *self {
            CommentType::StringLiteral => {
                let mut tmp_index: usize = comment_begin + 1;
                while tmp_index < src_len && !(src_text[tmp_index] == '"'
                    && src_text[tmp_index - 1] != '\\')
                    invariant
                        src_len == src_text@.len(),
                        comment_begin + 1 <= tmp_index <= src_text@.len(),
                        string_close(src_text@, comment_begin + 1) == string_close(
                            src_text@,
                            tmp_index as int,
                        ),
                    decreases src_text@.len() - tmp_index,
                {
                    tmp_index += 1;
                }
                if tmp_index == src_len {
                    Err(())
                } else {
                    Ok(tmp_index - comment_begin + 1)
                }
            },
            CommentType::ByteStringLiteral => {
                let mut tmp_index: usize = comment_begin + 2;
                while tmp_index < src_len && !(src_text[tmp_index] == '"'
                    && src_text[tmp_index - 1] != '\\')
                    invariant
                        src_len == src_text@.len(),
                        comment_begin + 2 <= tmp_index <= src_text@.len(),
                        string_close(src_text@, comment_begin + 2) == string_close(
                            src_text@,
                            tmp_index as int,
                        ),
                    decreases src_text@.len() - tmp_index,
                {
                    tmp_index += 1;
                }
                if tmp_index == src_len {
                    Err(())
                } else {
                    Ok(tmp_index - comment_begin + 1)
                }
            },
            CommentType::LineComment => {
                let mut tmp_index: usize = comment_begin + 2;
                while tmp_index < src_len && src_text[tmp_index] != '\n'
                    invariant
                        src_len == src_text@.len(),
                        comment_begin + 2 <= tmp_index <= src_text@.len(),
                        newline_at(src_text@, comment_begin + 2) == newline_at(
                            src_text@,
                            tmp_index as int,
                        ),
                    decreases src_text@.len() - tmp_index,
                {
                    tmp_index += 1;
                }
                if tmp_index == src_len {
                    Err(())
                } else {
                    Ok(tmp_index - comment_begin + 1)
                }
            },
            CommentType::BlockComment => {
                if src_len - comment_begin < 4 {
                    return Err(());
                }
                let mut tmp_index: usize = comment_begin + 3;
                while tmp_index < src_len && !(src_text[tmp_index] == '/'
                    && src_text[tmp_index - 1] == '*')
                    invariant
                        src_len == src_text@.len(),
                        comment_begin + 3 <= tmp_index <= src_text@.len(),
                        block_close(src_text@, comment_begin + 3) == block_close(
                            src_text@,
                            tmp_index as int,
                        ),
                    decreases src_text@.len() - tmp_index,
                {
                    tmp_index += 1;
                }
                if tmp_index == src_len {
                    Err(())
                } else {
                    Ok(tmp_index - comment_begin + 1)
                }
            },
            CommentType::RawStringLiteral { preceding_hashes } => {
                let mut tmp_index: usize = comment_begin + preceding_hashes + 2;
                while tmp_index < src_len && !(src_text[tmp_index] == '"'
                    && hash_run_at_least(src_text, tmp_index + 1, preceding_hashes))
                    invariant
                        src_len == src_text@.len(),
                        comment_begin + preceding_hashes + 2 <= tmp_index <= src_text@.len(),
                        raw_close(
                            src_text@,
                            comment_begin + preceding_hashes + 2,
                            preceding_hashes as int,
                        ) == raw_close(src_text@, tmp_index as int, preceding_hashes as int),
                    decreases src_text@.len() - tmp_index,
                {
                    tmp_index += 1;
                }
                if tmp_index == src_len {
                    Err(())
                } else {
                    proof {
                        lemma_hash_run_bounds(src_text@, tmp_index + 1);
                    }
                    Ok(tmp_index - comment_begin + preceding_hashes + 1)
                }
            },
            CommentType::Whitespace => {
                let mut tmp_index: usize = comment_begin;
                let mut length: usize = 0;
                while tmp_index < src_len && (src_text[tmp_index] == ' '
                    || src_text[tmp_index] == '\n' || src_text[tmp_index] == '\t')
                    invariant
                        src_len == src_text@.len(),
                        comment_begin <= tmp_index <= src_text@.len(),
                        tmp_index == comment_begin + length,
                        ws_run(src_text@, comment_begin as int) == length + ws_run(
                            src_text@,
                            tmp_index as int,
                        ),
                    decreases src_text@.len() - tmp_index,
                {
                    tmp_index += 1;
                    length += 1;
                }
                Ok(length)
            },
        }
    }

    /// Writes the rewrite of a construct of kind `self` into the result
    /// buffer at `index` and returns the number of characters written: `""`
    /// for the literal kinds; for a comment or whitespace run a single
    /// newline when a letter stands just before `index`, nothing otherwise.
    pub fn replace_in_source(&self, index: usize, source: &mut [char]) -> (r: usize)
        requires
            index <= old(source)@.len(),
            index + rewrite_seq(*self, old(source)@.take(index as int)).len() <= old(
                source,
            )@.len(),
        ensures
            r == rewrite_seq(*self, old(source)@.take(index as int)).len(),
            final(source)@.len() == old(source)@.len(),
            final(source)@.subrange(index as int, index + r) == rewrite_seq(
                *self,
                old(source)@.take(index as int),
            ),
            forall|j: int|
                0 <= j < final(source)@.len() && !(index <= j < index + r)
                    ==> final(source)@[j] == old(source)@[j],
    {
        proof {
            assert(old(source)@.take(index as int).len() == index);
        }
        match *self {
            CommentType::LineComment | CommentType::BlockComment | CommentType::Whitespace => {
                if index != 0 && source[index - 1] != '\n' {
                    let prev = source[index - 1] as u32;
                    if (97 <= prev && prev <= 122) || (65 <= prev && prev <= 90) {
                        source[index] = '\n';
                        proof {
                            assert(source@.subrange(index as int, index + 1) =~= rewrite_seq(
                                *self,
                                old(source)@.take(index as int),
                            ));
                        }
                        1
                    } else {
                        proof {
                            assert(source@.subrange(index as int, index as int) =~= rewrite_seq(
                                *self,
                                old(source)@.take(index as int),
                            ));
                        }
                        0
                    }
                } else {
                    proof {
                        assert(source@.subrange(index as int, index as int) =~= rewrite_seq(
                            *self,
                            old(source)@.take(index as int),
                        ));
                    }
                    0
                }
            },
            _ => {
                source[index] = '"';
                source[index + 1] = '"';
                proof {
                    assert(source@.subrange(index as int, index + 2) =~= rewrite_seq(
                        *self,
                        old(source)@.take(index as int),
                    ));
                }
                2
            },
        }
    }
}

/// The single entry point. Scans `source_text` once, left to right: every
/// recognized construct is recorded as a span and rewritten into
/// `result_text`, every other character is copied through unchanged. On
/// success the returned spans and the written prefix of `result_text` are
/// exactly what [`scan`] ascribes to the source; the rest of `result_text`
/// is untouched. On the first unterminated construct the scan aborts and
/// returns that construct's start index, and no span list is produced.
pub fn preprocess(source_text: &[char], result_text: &mut [char]) -> (r: Result<
    Vec<Comment>,
    usize,
>)
    requires
        source_text@.len() <= old(result_text)@.len(),
    ensures
        final(result_text)@.len() == old(result_text)@.len(),
        match r {
            Ok(comments) => {
                let outcome = scan(source_text@, 0, Seq::empty());
                &&& outcome is Ok
                &&& comments@ == outcome->Ok_0.0
                &&& outcome->Ok_0.1.len() <= source_text@.len()
                &&& final(result_text)@.take(outcome->Ok_0.1.len() as int) == outcome->Ok_0.1
                &&& forall|j: int|
                    outcome->Ok_0.1.len() <= j < final(result_text)@.len()
                        ==> final(result_text)@[j] == old(result_text)@[j]
            },
            Err(idx) => scan(source_text@, 0, Seq::empty()) == Err::<
                (Seq<Comment>, Seq<char>),
                int,
            >(idx as int),
        },
{
    let src_len: usize = source_text.len();
    let mut ret: Vec<Comment> = Vec::new();
    let mut index_in_src: usize = 0;
    let mut index_in_result: usize = 0;
    proof {
        assert(result_text@.take(0int) =~= Seq::<char>::empty());
        if scan(source_text@, 0, Seq::empty()) is Ok {
            assert(Seq::<Comment>::empty() + scan(source_text@, 0, Seq::empty())->Ok_0.0
                =~= scan(source_text@, 0, Seq::empty())->Ok_0.0);
        }
    }
    while index_in_src < src_len
        invariant
            src_len == source_text@.len(),
            index_in_result <= index_in_src <= src_len,
            src_len <= result_text@.len() == old(result_text)@.len(),
            forall|j: int|
                index_in_result <= j < result_text@.len() ==> result_text@[j] == old(
                    result_text,
                )@[j],
            scan(source_text@, 0, Seq::empty()) == scan_join(
                ret@,
                scan(
                    source_text@,
                    index_in_src as int,
                    result_text@.take(index_in_result as int),
                ),
            ),
        decreases src_len - index_in_src,
    {
        let ghost sp = index_in_src as int;
        let ghost rp = index_in_result as int;
        let ghost out_prefix = result_text@.take(rp);
        match CommentType::any_comment(source_text, index_in_src) {
            Some(c) => {
                match c.comment_length(source_text, index_in_src) {
                    Ok(length) => {
                        proof {
                            lemma_construct_len_bounds(c, source_text@, sp);
                            assert(rewrite_seq(c, out_prefix).len() <= length);
                        }
                        let ghost old_ret = ret@;
                        ret.push(
                            Comment { begin: index_in_src, length, comment_type: c },
                        );
                        let written = c.replace_in_source(index_in_result, result_text);
                        proof {
                            let span = Comment {
                                begin: index_in_src,
                                length,
                                comment_type: c,
                            };
                            let out2 = out_prefix + rewrite_seq(c, out_prefix);
                            assert(result_text@.take(rp + written) =~= out2);
                            let rest = scan(source_text@, sp + length, out2);
                            assert(scan(source_text@, sp, out_prefix) == scan_join(
                                seq![span],
                                rest,
                            ));
                            match rest {
                                Ok(p) => {
                                    assert(old_ret + (seq![span] + p.0) =~= old_ret.push(span)
                                        + p.0);
                                },
                                Err(_) => {},
                            }
                            assert(scan_join(old_ret, scan_join(seq![span], rest)) == scan_join(
                                ret@,
                                rest,
                            ));
                        }
                        index_in_src += length;
                        index_in_result += written;
                    },
                    Err(_) => {
                        return Err(index_in_src);
                    },
                }
            },
            None => {
                result_text[index_in_result] = source_text[index_in_src];
                proof {
                    assert(result_text@.take(rp + 1) =~= out_prefix.push(source_text@[sp]));
                    assert(scan(source_text@, sp, out_prefix) == scan(
                        source_text@,
                        sp + 1,
                        out_prefix.push(source_text@[sp]),
                    ));
                }
                index_in_src += 1;
                index_in_result += 1;
            },
        }
    }
    proof {
        assert(ret@ + Seq::<Comment>::empty() =~= ret@);
        let out = result_text@.take(index_in_result as int);
        assert(out.len() == index_in_result);
        assert(result_text@.take(out.len() as int) == out);
    }
    Ok(ret)
}

} // verus!
