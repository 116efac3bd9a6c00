//! Tokenizing request lines and encoding responses.
use vstd::prelude::*;
use vstd::string::*;

verus! {

/// The characters with the Unicode `White_Space` property.
pub open spec fn is_space(c: char) -> bool {
    ('\u{9}' <= c && c <= '\u{d}') || c == ' ' || c == '\u{85}' || c == '\u{a0}'
        || c == '\u{1680}' || ('\u{2000}' <= c && c <= '\u{200a}') || c == '\u{2028}'
        || c == '\u{2029}' || c == '\u{202f}' || c == '\u{205f}' || c == '\u{3000}'
}

/// The maximal runs of non-space characters of `s`, in order.
pub open spec fn tokens(s: Seq<char>) -> Seq<Seq<char>>
    decreases s.len(),
{
    if s.len() == 0 {
        Seq::empty()
    } else {
        let init = s.drop_last();
        let c = s.last();
        let t = tokens(init);
        if is_space(c) {
            t
        } else if init.len() == 0 || is_space(init.last()) {
            t.push(seq![c])
        } else {
            t.update(t.len() - 1, t.last().push(c))
        }
    }
}

/// The character sequences held by a sequence of strings.
pub open spec fn views(v: Seq<String>) -> Seq<Seq<char>> {
    v.map_values(|t: String| t@)
}

/// Whether `c` is a white-space character.
pub fn space(c: char) -> (r: bool)
    ensures
        r == is_space(c),
{
    ('\u{9}' <= c && c <= '\u{d}') || c == ' ' || c == '\u{85}' || c == '\u{a0}'
        || c == '\u{1680}' || ('\u{2000}' <= c && c <= '\u{200a}') || c == '\u{2028}'
        || c == '\u{2029}' || c == '\u{202f}' || c == '\u{205f}' || c == '\u{3000}'
}

/// Splits a line into its tokens. Line breaks count as white space, so a
/// trailing `"\r\n"` or `"\n"` never reaches a token.
pub fn split_tokens(line: &str) -> (r: Vec<String>)
    ensures
        views(r@) == tokens(line@),
{
    let n = line.unicode_len();
    let mut out: Vec<String> = Vec::new();
    let mut start: usize = 0;
    let mut inside = false;
    let mut i: usize = 0;
    while i < n
        invariant
            n == line@.len(),
            i <= n,
            inside ==> start < i,
            inside ==> (start == 0 || is_space(line@[start - 1])),
            inside ==> !is_space(line@[i - 1]),
            !inside ==> (i == 0 || is_space(line@[i - 1])),
            tokens(line@.subrange(0, i as int)) == (if inside {
                views(out@).push(line@.subrange(start as int, i as int))
            } else {
                views(out@)
            }),
        decreases n - i,
    {
        let c = line.get_char(i);
        let ghost pre = line@.subrange(0, i as int);
        let ghost next = line@.subrange(0, i + 1);
        assert(next.drop_last() == pre);
        assert(next.last() == c);
        if space(c) {
            if inside {
                let t = String::from_str(line.substring_char(start, i));
                let ghost before = out@;
                out.push(t);
                assert(views(out@) == views(before).push(t@));
                inside = false;
            }
        } else if inside {
            proof {
                assert(pre.last() == line@[i - 1]);
                let w = line@.subrange(start as int, i as int);
                assert(line@.subrange(start as int, i + 1) == w.push(c));
            }
        } else {
            assert(line@.subrange(i as int, i + 1) == seq![c]);
            start = i;
            inside = true;
        }
        i = i + 1;
    }
    assert(line@.subrange(0, n as int) == line@);
    if inside {
        let t = String::from_str(line.substring_char(start, n));
        let ghost before = out@;
        out.push(t);
        assert(views(out@) == views(before).push(t@));
    }
    out
}

/// Whether two texts hold the same characters.
pub fn same_text(a: &str, b: &str) -> (r: bool)
    ensures
        r == (a@ == b@),
{
    let n = a.unicode_len();
    if n != b.unicode_len() {
        return false;
    }
    let mut i: usize = 0;
    while i < n
        invariant
            n == a@.len(),
            n == b@.len(),
            i <= n,
            a@.subrange(0, i as int) == b@.subrange(0, i as int),
        decreases n - i,
    {
        if a.get_char(i) != b.get_char(i) {
            return false;
        }
        assert(a@.subrange(0, i + 1) == a@.subrange(0, i as int).push(a@[i as int]));
        assert(b@.subrange(0, i + 1) == b@.subrange(0, i as int).push(b@[i as int]));
        i = i + 1;
    }
    assert(a@ == a@.subrange(0, n as int));
    assert(b@ == b@.subrange(0, n as int));
    true
}

/// What executing a command yields: a success with or without a one-line
/// payload, or a failure with a human-readable reason.
pub type Response = Result<Option<String>, String>;

/// The characters carried by a response.
pub open spec fn response_view(r: Response) -> Result<Option<Seq<char>>, Seq<char>> {
    match r {
        Ok(Some(t)) => Ok(Some(t@)),
        Ok(None) => Ok(None),
        Err(m) => Err(m@),
    }
}

/// The line written back for a response: its payload for a success with a
/// payload, nothing for a void success, and the failure marker otherwise.
pub open spec fn reply_line(r: Result<Option<Seq<char>>, Seq<char>>) -> Option<Seq<char>> {
    match r {
        Ok(p) => p,
        Err(_) => Some("ERR!"@),
    }
}

/// Encodes a response as the line to send back, without its terminator.
pub fn encode(r: &Response) -> (line: Option<String>)
    ensures
        match line {
            Some(t) => reply_line(response_view(*r)) == Some(t@),
            None => reply_line(response_view(*r)) is None,
        },
{
    match r {
        Ok(Some(t)) => Some(t.clone()),
        Ok(None) => None,
        Err(_) => Some(String::from_str("ERR!")),
    }
}

} // verus!
