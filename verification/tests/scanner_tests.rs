use comment_strip::scanner::preprocess;
use comment_strip::span::{Comment, CommentType};
use std::iter::FromIterator;

/// Runs the scanner over `input` with a result buffer primed with `~`
/// sentinels, so the written prefix and the untouched tail can be told
/// apart.
fn run(input: &str) -> Result<(Vec<Comment>, Vec<char>), usize> {
    let src: Vec<char> = input.chars().collect();
    let mut result: Vec<char> = vec!['~'; src.len()];
    match preprocess(&src, result.as_mut_slice()) {
        Ok(comments) => Ok((comments, result)),
        Err(idx) => Err(idx),
    }
}

/// Checks that the result buffer holds exactly `expected` followed by
/// untouched sentinels.
fn assert_output(result: &[char], expected: &str) {
    let expected: Vec<char> = expected.chars().collect();
    assert_eq!(&result[..expected.len()], &expected[..]);
    for &c in &result[expected.len()..] {
        assert_eq!(c, '~');
    }
}

#[test]
fn asdfasdf() {
    let src_as_string = r####"
pub fn test<'a, B>( &self, u: usize) {let k = 3;
println!("{}", k); k}"####;

    let src_code = src_as_string.chars().collect::<Vec<char>>();

    let mut result_text = Vec::<char>::with_capacity(src_code.len());
    for _ in 0..src_code.len() {
        result_text.push(' ');
    }

    let comments = preprocess(&src_code, result_text.as_mut_slice()).unwrap();
    println!("{}", comments.len());

    for c in comments {
        println!("{:?}", c);
    }

    println!("{:?}", result_text);
    println!("{}", String::from_iter(&result_text));
}

#[test]
fn passthrough_plain_text() {
    let (comments, result) = run("abc;(x=1)").unwrap();
    assert_eq!(comments.len(), 0);
    assert_output(&result, "abc;(x=1)");
}

#[test]
fn string_collapse() {
    let (comments, result) = run("\"hello\"").unwrap();
    assert_eq!(comments.len(), 1);
    assert_eq!(
        comments[0],
        Comment { begin: 0, length: 7, comment_type: CommentType::StringLiteral },
    );
    assert_output(&result, "\"\"");
}

#[test]
fn byte_string_collapse() {
    let (comments, result) = run("b\"hi\"").unwrap();
    assert_eq!(comments.len(), 1);
    assert_eq!(
        comments[0],
        Comment { begin: 0, length: 5, comment_type: CommentType::ByteStringLiteral },
    );
    assert_output(&result, "\"\"");
}

#[test]
fn raw_string_delimiter_matching() {
    let input = "r##\"a\"#b\"##";
    assert_eq!(input.chars().count(), 11);
    let (comments, result) = run(input).unwrap();
    assert_eq!(comments.len(), 1);
    assert_eq!(
        comments[0],
        Comment {
            begin: 0,
            length: 11,
            comment_type: CommentType::RawStringLiteral { preceding_hashes: 2 },
        },
    );
    assert_output(&result, "\"\"");
}

#[test]
fn raw_string_missing_final_hash() {
    assert_eq!(run("r##\"a\"#b\"#"), Err(0));
}

#[test]
fn raw_string_zero_hashes() {
    let (comments, result) = run("r\"ab\"").unwrap();
    assert_eq!(comments.len(), 1);
    assert_eq!(
        comments[0],
        Comment {
            begin: 0,
            length: 5,
            comment_type: CommentType::RawStringLiteral { preceding_hashes: 0 },
        },
    );
    assert_output(&result, "\"\"");
}

#[test]
fn line_comment_boundary() {
    let (comments, result) = run("foo//bar\nbaz").unwrap();
    assert_eq!(comments.len(), 1);
    assert_eq!(
        comments[0],
        Comment { begin: 3, length: 6, comment_type: CommentType::LineComment },
    );
    assert_output(&result, "foo\nbaz");
}

#[test]
fn unterminated_block_comment() {
    assert_eq!(run("a/* never closes"), Err(1));
}

#[test]
fn whitespace_collapse_at_buffer_start() {
    let (comments, result) = run("   x").unwrap();
    assert_eq!(comments.len(), 1);
    assert_eq!(
        comments[0],
        Comment { begin: 0, length: 3, comment_type: CommentType::Whitespace },
    );
    assert_output(&result, "x");
}

#[test]
fn escaped_quote_stays_inside_string() {
    let (comments, result) = run("\"a\\\"b\"").unwrap();
    assert_eq!(comments.len(), 1);
    assert_eq!(
        comments[0],
        Comment { begin: 0, length: 6, comment_type: CommentType::StringLiteral },
    );
    assert_output(&result, "\"\"");
}

#[test]
fn unterminated_string() {
    assert_eq!(run("\"abc"), Err(0));
}

#[test]
fn unterminated_byte_string() {
    assert_eq!(run("xb\"abc"), Err(1));
}

#[test]
fn unterminated_line_comment() {
    assert_eq!(run("//abc"), Err(0));
}

#[test]
fn unterminated_raw_string() {
    assert_eq!(run("r#\"x\""), Err(0));
}

#[test]
fn block_comment_between_letters() {
    let (comments, result) = run("a/*x*/b").unwrap();
    assert_eq!(comments.len(), 1);
    assert_eq!(
        comments[0],
        Comment { begin: 1, length: 5, comment_type: CommentType::BlockComment },
    );
    assert_output(&result, "a\nb");
}

#[test]
fn comment_after_non_alpha_leaves_no_trace() {
    let (comments, result) = run("1/*x*/2").unwrap();
    assert_eq!(comments.len(), 1);
    assert_output(&result, "12");
}

#[test]
fn comment_after_newline_leaves_no_trace() {
    let (comments, result) = run("x//a\n//b\ny").unwrap();
    assert_eq!(comments.len(), 2);
    assert_eq!(
        comments[0],
        Comment { begin: 1, length: 4, comment_type: CommentType::LineComment },
    );
    assert_eq!(
        comments[1],
        Comment { begin: 5, length: 4, comment_type: CommentType::LineComment },
    );
    assert_output(&result, "x\ny");
}

#[test]
fn whitespace_between_letters_becomes_newline() {
    let (comments, result) = run("a  b").unwrap();
    assert_eq!(comments.len(), 1);
    assert_eq!(
        comments[0],
        Comment { begin: 1, length: 2, comment_type: CommentType::Whitespace },
    );
    assert_output(&result, "a\nb");
}

#[test]
fn trailing_slash_is_plain_text() {
    let (comments, result) = run("a/").unwrap();
    assert_eq!(comments.len(), 0);
    assert_output(&result, "a/");
}

#[test]
fn lone_r_fails_open() {
    let (comments, result) = run("rx").unwrap();
    assert_eq!(comments.len(), 0);
    assert_output(&result, "rx");

    let (comments, result) = run("r##x").unwrap();
    assert_eq!(comments.len(), 0);
    assert_output(&result, "r##x");
}

#[test]
fn spans_cover_mixed_input_in_order() {
    let input = "let s = \"q\"; // done\nr\"w\"";
    let (comments, result) = run(input).unwrap();
    let mut covered = 0;
    let mut last_end = 0;
    for c in &comments {
        assert!(c.begin >= last_end);
        assert!(c.length >= 1);
        assert!(c.begin + c.length <= input.chars().count());
        last_end = c.begin + c.length;
        covered += c.length;
    }
    assert!(covered <= input.chars().count());
    assert_output(&result, "let\ns\n=\"\";\"\"");
}
