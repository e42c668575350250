//! Finding an activation token in the environment that a process was started with.
use vstd::prelude::*;
use vstd::string::*;
use vstd::utf8::*;

verus! {

/// What the line begins with that sets the token.
pub open spec fn token_prefix() -> Seq<u8> {
    encode_utf8("XDG_ACTIVATION_TOKEN="@)
}

/// Whether the bytes from `start` on, up to `end`, are a line of the environment. Lines are
/// separated by zero bytes.
pub open spec fn is_line(environ: Seq<u8>, start: int, end: int) -> bool {
    &&& 0 <= start <= end <= environ.len()
    &&& start == 0 || environ[start - 1] == 0
    &&& end == environ.len() || environ[end] == 0
    &&& forall|i: int| start <= i < end ==> #[trigger] environ[i] != 0
}

/// Whether the line from `start` to `end` sets the token.
pub open spec fn sets_token(environ: Seq<u8>, start: int, end: int) -> bool {
    &&& is_line(environ, start, end)
    &&& token_prefix().is_prefix_of(environ.subrange(start, end))
}

/// Whether the line from `start` to `end` is the first one that sets the token.
pub open spec fn first_sets_token(environ: Seq<u8>, start: int, end: int) -> bool {
    &&& sets_token(environ, start, end)
    &&& forall|earlier: int, until: int|
        earlier < start ==> !#[trigger] sets_token(environ, earlier, until)
}

/// The text that bytes stand for, if they stand for any.
pub open spec fn text(bytes: Seq<u8>) -> Option<Seq<char>> {
    if valid_utf8(bytes) {
        Some(decode_utf8(bytes))
    } else {
        None
    }
}

/// The token that an environment holds: what the first line sets that sets it, if that is text.
pub open spec fn token_in(environ: Seq<u8>) -> Option<Seq<char>> {
    if exists|start: int, end: int| #[trigger] first_sets_token(environ, start, end) {
        let (start, end) = choose|start: int, end: int| #[trigger]
            first_sets_token(environ, start, end);
        text(environ.subrange(start + token_prefix().len(), end))
    } else {
        None
    }
}

/// No two lines are both the first one that sets the token.
pub(crate) proof fn first_line_is_unique(environ: Seq<u8>, start: int, end: int)
    requires
        first_sets_token(environ, start, end),
    ensures
        token_in(environ) == text(environ.subrange(start + token_prefix().len(), end)),
{
    let (first, until) = choose|first: int, until: int| #[trigger]
        first_sets_token(environ, first, until);
    assert(first == start);
    if until < end {
        assert(environ[until] == 0);
    } else if end < until {
        assert(environ[end] == 0);
    }
}

/// The token that the environment of a process was given is the one that is found in it.
pub proof fn token_is_found(environ: Seq<u8>, start: int, end: int, token: Seq<char>)
    requires
        first_sets_token(environ, start, end),
        environ.subrange(start, end) == token_prefix() + encode_utf8(token),
    ensures
        token_in(environ) == Some(token),
{
    first_line_is_unique(environ, start, end);
    let line = environ.subrange(start, end);
    let length = token_prefix().len() as int;
    assert(line.len() == length + encode_utf8(token).len());
    assert(environ.subrange(start + length, end) =~= line.subrange(length, line.len() as int));
    assert(line.subrange(length, line.len() as int) =~= encode_utf8(token));
    encode_utf8_valid_utf8(token);
    encode_utf8_decode_utf8(token);
}

/// An environment in which no line sets the token holds none.
pub proof fn no_token_without_line(environ: Seq<u8>)
    requires
        forall|start: int, end: int| !#[trigger] sets_token(environ, start, end),
    ensures
        token_in(environ) is None,
{
}

/// Calls `String::from_utf8`, which makes a string of bytes that are valid UTF-8 and refuses all
/// others.
#[verifier::external_body]
fn string_of(bytes: Vec<u8>) -> (string: Option<String>)
    ensures
        string is Some == valid_utf8(bytes@),
        string is Some ==> string->0@ == decode_utf8(bytes@),
{
    String::from_utf8(bytes).ok()
}

/// Whether the line from `start` to `end` begins with what sets the token.
fn begins_with(environ: &Vec<u8>, start: usize, end: usize, prefix: &Vec<u8>) -> (begins: bool)
    requires
        start <= end <= environ@.len(),
    ensures
        begins == prefix@.is_prefix_of(environ@.subrange(start as int, end as int)),
{
    if end - start < prefix.len() {
        return false;
    }
    let mut i: usize = 0;
    while i < prefix.len()
        invariant
            i <= prefix@.len() <= end - start,
            start <= end <= environ@.len(),
            forall|j: int| 0 <= j < i ==> environ@[start + j] == #[trigger] prefix@[j],
        decreases prefix@.len() - i,
    {
        if environ[start + i] != prefix[i] {
            assert(environ@.subrange(start as int, end as int)[i as int] == environ@[start + i]);
            return false;
        }
        i += 1;
    }
    assert(prefix@ =~= environ@.subrange(start as int, end as int).subrange(
        0,
        prefix@.len() as int,
    ));
    true
}

/// The end of the line that begins at `start`.
fn line_end(environ: &Vec<u8>, start: usize) -> (end: usize)
    requires
        start <= environ@.len(),
        start == 0 || environ@[start - 1] == 0,
    ensures
        is_line(environ@, start as int, end as int),
{
    let mut end: usize = start;
    while end < environ.len() && environ[end] != 0
        invariant
            start <= end <= environ@.len(),
            forall|i: int| start <= i < end ==> #[trigger] environ@[i] != 0,
        decreases environ@.len() - end,
    {
        end += 1;
    }
    end
}

/// The activation token that a process was started with, by its environment.
pub fn activation_token(environ: &Vec<u8>) -> (token: Option<String>)
    ensures
        token.deep_view() == token_in(environ@),
{
    let prefix: Vec<u8> = "XDG_ACTIVATION_TOKEN=".as_bytes_vec();
    assert(prefix@ == token_prefix());
    let mut start: usize = 0;
    loop
        invariant
            prefix@ == token_prefix(),
            start <= environ@.len(),
            start == 0 || environ@[start - 1] == 0,
            forall|earlier: int, until: int|
                earlier < start ==> !#[trigger] sets_token(environ@, earlier, until),
        decreases environ@.len() - start,
    {
        let end: usize = line_end(environ, start);
        if begins_with(environ, start, end, &prefix) {
            let bytes: Vec<u8> = vstd::slice::slice_to_vec(
                vstd::slice::slice_subrange(environ.as_slice(), start + prefix.len(), end),
            );
            proof {
                assert(first_sets_token(environ@, start as int, end as int));
                first_line_is_unique(environ@, start as int, end as int);
            }
            return string_of(bytes);
        }
        assert forall|earlier: int, until: int| earlier <= end implies !#[trigger] sets_token(
            environ@,
            earlier,
            until,
        ) by {
            if start < earlier && is_line(environ@, earlier, until) {
                assert(environ@[earlier - 1] != 0);
            }
            if earlier == start && is_line(environ@, earlier, until) {
                if until < end {
                    assert(environ@[until] != 0);
                } else if end < until {
                    assert(environ@[end as int] != 0);
                }
            }
        }
        if end == environ.len() {
            assert forall|earlier: int, until: int| !#[trigger] sets_token(
                environ@,
                earlier,
                until,
            ) by {
                if earlier > end {
                    assert(!is_line(environ@, earlier, until));
                }
            }
            return None;
        }
        start = end + 1;
    }
}

} // verus!
