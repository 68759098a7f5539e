//! The request of the decoding service: one line that holds a path.
//!
//! A request is the UTF-8 form of a filesystem path followed by a line feed.
//! Nothing is escaped, so the line ends at the first line feed. The receiver
//! drops the white space at the end of the line and takes the rest as the
//! path.

use vstd::prelude::*;
use vstd::string::*;
use vstd::utf8::*;

verus! {

/// The byte that ends a request.
pub const LINE_FEED: u8 = 0x0A;

/// Why a request line names no file.
#[derive(Clone, Copy, Debug, PartialEq, Eq, Structural)]
pub enum RequestError {
    /// Nothing but white space stands on the line.
    EmptyPath,
}

/// Whether `c` has the Unicode property White_Space.
pub open spec fn white_space(c: char) -> bool {
    let code = c as u32;
    ||| 0x0009 <= code <= 0x000D
    ||| code == 0x0020
    ||| code == 0x0085
    ||| code == 0x00A0
    ||| code == 0x1680
    ||| 0x2000 <= code <= 0x200A
    ||| code == 0x2028
    ||| code == 0x2029
    ||| code == 0x202F
    ||| code == 0x205F
    ||| code == 0x3000
}

/// `line` without the white space at its end.
pub open spec fn trim_end(line: Seq<char>) -> Seq<char>
    decreases line.len(),
{
    if line.len() > 0 && white_space(line.last()) {
        trim_end(line.drop_last())
    } else {
        line
    }
}

/// The path that a request line names, if it names one.
pub open spec fn requested_path(line: Seq<char>) -> Result<Seq<char>, RequestError> {
    if trim_end(line).len() == 0 {
        Err(RequestError::EmptyPath)
    } else {
        Ok(trim_end(line))
    }
}

/// The line that asks for `path`.
pub open spec fn request_line(path: Seq<char>) -> Seq<char> {
    path.push('\n')
}

/// Whether a request can carry `path` unchanged: the path is not empty, holds
/// no line feed and does not end in white space.
pub open spec fn representable(path: Seq<char>) -> bool {
    &&& path.len() > 0
    &&& !white_space(path.last())
    &&& !path.contains('\n')
}

/// Tells whether `c` is white space.
pub fn is_whitespace(c: char) -> (b: bool)
    ensures
        b == white_space(c),
{
    let code: u32 = c as u32;
    (0x0009 <= code && code <= 0x000D) || code == 0x0020 || code == 0x0085 || code == 0x00A0
        || code == 0x1680 || (0x2000 <= code && code <= 0x200A) || code == 0x2028 || code
        == 0x2029 || code == 0x202F || code == 0x205F || code == 0x3000
}

/// Reads the path out of a request line.
///
/// The white space at the end of the line, the line feed among it, is
/// dropped. A line of which nothing is left names no file.
pub fn parse_request(line: &str) -> (path: Result<String, RequestError>)
    ensures
        path is Ok <==> requested_path(line@) is Ok,
        path is Ok ==> path->Ok_0@ == requested_path(line@)->Ok_0,
        path is Err ==> path->Err_0 == requested_path(line@)->Err_0,
{
    let mut end: usize = line.unicode_len();
    assert(line@.take(end as int) =~= line@);
    while end > 0
        invariant
            end <= line@.len(),
            trim_end(line@) == trim_end(line@.take(end as int)),
        ensures
            end <= line@.len(),
            trim_end(line@) == line@.take(end as int),
        decreases end,
    {
        let c: char = line.get_char(end - 1);
        proof {
            let kept = line@.take(end as int);
            assert(kept.last() == c);
            assert(kept.drop_last() =~= line@.take(end - 1));
        }
        if !is_whitespace(c) {
            break ;
        }
        end = end - 1;
    }
    if end == 0 {
        Err(RequestError::EmptyPath)
    } else {
        Ok(line.substring_char(0, end).to_owned())
    }
}

/// Writes the request for `path`: its bytes, then a line feed. The result is
/// the UTF-8 form of the request line.
pub fn encode_request(path: &str) -> (bytes: Vec<u8>)
    ensures
        bytes@ == path.spec_bytes().push(LINE_FEED),
        bytes@ == encode_utf8(request_line(path@)),
{
    let mut bytes: Vec<u8> = path.as_bytes_vec();
    bytes.push(LINE_FEED);
    proof {
        lemma_request_line_bytes(path@);
    }
    bytes
}

/// The UTF-8 form of a sequence with one more character at its end.
proof fn lemma_encode_push(chars: Seq<char>, c: char)
    ensures
        encode_utf8(chars.push(c)) == encode_utf8(chars) + encode_scalar(c as u32),
    decreases chars.len(),
{
    let longer = chars.push(c);
    if chars.len() == 0 {
        assert(longer.drop_first() =~= chars);
        assert(encode_utf8(longer) =~= encode_utf8(chars) + encode_scalar(c as u32));
    } else {
        lemma_encode_push(chars.drop_first(), c);
        assert(longer.drop_first() =~= chars.drop_first().push(c));
        assert(longer[0] == chars[0]);
        assert(encode_utf8(longer) =~= encode_utf8(chars) + encode_scalar(c as u32));
    }
}

/// The UTF-8 form of a request line is that of the path and one line feed.
pub proof fn lemma_request_line_bytes(path: Seq<char>)
    ensures
        encode_utf8(request_line(path)) == encode_utf8(path).push(LINE_FEED),
{
    lemma_encode_push(path, '\n');
    assert('\n' as u32 == 0x0A);
    assert(0x0Au32 & 0x7F == 0x0A) by (bit_vector);
    assert(encode_scalar(0x0Au32) =~= seq![LINE_FEED]);
    assert(encode_utf8(path) + seq![LINE_FEED] =~= encode_utf8(path).push(LINE_FEED));
}

/// What is left of a line is a prefix of it that does not end in white space,
/// and all that was dropped is white space.
pub proof fn lemma_trim_end_is_longest(line: Seq<char>)
    ensures
        trim_end(line).len() <= line.len(),
        trim_end(line) == line.take(trim_end(line).len() as int),
        trim_end(line).len() > 0 ==> !white_space(trim_end(line).last()),
        forall|i: int| trim_end(line).len() <= i < line.len() ==> white_space(#[trigger] line[i]),
    decreases line.len(),
{
    if line.len() > 0 && white_space(line.last()) {
        let shorter = line.drop_last();
        lemma_trim_end_is_longest(shorter);
        assert(shorter.take(trim_end(shorter).len() as int) =~= line.take(
            trim_end(shorter).len() as int,
        ));
        assert forall|i: int| trim_end(line).len() <= i < line.len() implies white_space(
            #[trigger] line[i],
        ) by {
            if i < shorter.len() {
                assert(line[i] == shorter[i]);
            }
        }
    } else {
        assert(line.take(line.len() as int) =~= line);
    }
}

/// A path that a request can carry comes out of its request line unchanged.
pub proof fn lemma_request_round_trip(path: Seq<char>)
    requires
        representable(path),
    ensures
        requested_path(request_line(path)) == Ok::<Seq<char>, RequestError>(path),
        forall|i: int| 0 <= i < path.len() ==> #[trigger] request_line(path)[i] != '\n',
{
    let line = request_line(path);
    assert(white_space('\n'));
    assert(line.drop_last() =~= path);
    assert(trim_end(line) == trim_end(path));
    assert(trim_end(path) == path);
    assert forall|i: int| 0 <= i < path.len() implies #[trigger] line[i] != '\n' by {
        assert(path.contains(path[i]));
    }
}

} // verus!
