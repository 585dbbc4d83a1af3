//! Laws of the whole scan: the produced spans cover the source in order and
//! without overlap, and a source with no recognizable construct passes
//! through unchanged.

use crate::model::{classify_at, construct_len, is_ws, lemma_construct_len_bounds, rewrite_seq, scan};
use crate::span::Comment;
use vstd::prelude::*;

verus! {

proof fn lemma_scan_spans_from(src: Seq<char>, i: int, out: Seq<char>)
    requires
        0 <= i,
        src.len() <= usize::MAX,
        scan(src, i, out) is Ok,
    ensures
        ({
            let spans = scan(src, i, out)->Ok_0.0;
            &&& forall|k: int|
                0 <= k < spans.len() ==> i <= (#[trigger] spans[k]).begin && spans[k].begin
                    + spans[k].length <= src.len() && 1 <= spans[k].length
            &&& forall|k: int|
                0 <= k < spans.len() - 1 ==> (#[trigger] spans[k]).begin + spans[k].length
                    <= spans[k + 1].begin
        }),
    decreases src.len() - i,
{
    if i < src.len() {
        match classify_at(src, i) {
            None => {
                lemma_scan_spans_from(src, i + 1, out.push(src[i]));
            },
            Some(kind) => {
                let n = construct_len(kind, src, i)->Some_0;
                lemma_construct_len_bounds(kind, src, i);
                let out2 = out + rewrite_seq(kind, out);
                lemma_scan_spans_from(src, i + n, out2);
                let rest = scan(src, i + n, out2)->Ok_0.0;
                let spans = scan(src, i, out)->Ok_0.0;
                let span = Comment {
                    begin: i as usize,
                    length: n as usize,
                    comment_type: kind,
                };
                assert(spans == seq![span] + rest);
                assert(spans[0] == span);
                assert forall|k: int| 0 < k < spans.len() implies spans[k] == rest[k - 1] by {
                    assert(spans[k] == (seq![span] + rest)[k]);
                }
            },
        }
    }
}

/// Coverage law: on a successful scan, every produced span is at least one
/// character long and lies within the source, and each span ends no later
/// than the next begins. The spans are therefore disjoint and ordered by
/// start position, and together with the gaps between them they cover the
/// source exactly once.
pub proof fn lemma_scan_coverage(src: Seq<char>)
    requires
        src.len() <= usize::MAX,
        scan(src, 0, Seq::empty()) is Ok,
    ensures
        ({
            let spans = scan(src, 0, Seq::empty())->Ok_0.0;
            &&& forall|k: int|
                0 <= k < spans.len() ==> 0 <= (#[trigger] spans[k]).begin && spans[k].begin
                    + spans[k].length <= src.len() && 1 <= spans[k].length
            &&& forall|k: int|
                0 <= k < spans.len() - 1 ==> (#[trigger] spans[k]).begin + spans[k].length
                    <= spans[k + 1].begin
        }),
{
    lemma_scan_spans_from(src, 0, Seq::empty());
}

proof fn lemma_passthrough_from(src: Seq<char>, i: int, out: Seq<char>)
    requires
        0 <= i <= src.len(),
        forall|j: int|
            0 <= j < src.len() ==> #[trigger] src[j] != '/' && src[j] != '"' && !is_ws(src[j]),
    ensures
        scan(src, i, out) == Ok::<(Seq<Comment>, Seq<char>), int>(
            (Seq::empty(), out + src.skip(i)),
        ),
    decreases src.len() - i,
{
    if i >= src.len() {
        assert(out + src.skip(i) =~= out);
    } else {
        assert(classify_at(src, i) is None) by {
            if src[i] == 'r' {
                let h = crate::model::hash_run(src, i + 1) as int;
                if i + 1 + h < src.len() {
                    assert(src[i + 1 + h] != '"');
                }
            }
            if src[i] == 'b' && i + 1 < src.len() {
                assert(src[i + 1] != '"');
            }
        }
        lemma_passthrough_from(src, i + 1, out.push(src[i]));
        assert(out.push(src[i]) + src.skip(i + 1) =~= out + src.skip(i));
    }
}

/// Pass-through law: a source that contains no `/`, no `"` and no
/// whitespace character (so in particular no raw-string or byte-string
/// opening, both of which need a `"`) produces no spans, and its rewritten
/// text is the source itself, unchanged.
pub proof fn lemma_passthrough(src: Seq<char>)
    requires
        forall|j: int|
            0 <= j < src.len() ==> #[trigger] src[j] != '/' && src[j] != '"' && !is_ws(src[j]),
    ensures
        scan(src, 0, Seq::empty()) == Ok::<(Seq<Comment>, Seq<char>), int>((Seq::empty(), src)),
{
    lemma_passthrough_from(src, 0, Seq::empty());
    assert(Seq::<char>::empty() + src.skip(0) =~= src);
}

} // verus!
