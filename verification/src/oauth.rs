//! The authorization-code handshake: reading the one callback request,
//! finding the code in it, answering the browser, and the order in which the
//! flow's steps follow each other.

use vstd::prelude::*;
use vstd::string::*;
use crate::text::opt_view;

verus! {

/// The loopback port on which the callback is awaited.
pub const CALLBACK_PORT: u16 = 8888;

/// The number of bytes of the callback request that are read.
pub const REQUEST_BUFFER_SIZE: usize = 1024;

/// One decoded `key=value` pair of a query string.
#[derive(Debug, Clone)]
pub struct QueryPair {
    pub key: String,
    pub value: String,
}

/// The pairs of a list as plain texts.
pub open spec fn pair_texts(pairs: Seq<QueryPair>) -> Seq<(Seq<char>, Seq<char>)> {
    Seq::new(pairs.len(), |i: int| (pairs[i].key@, pairs[i].value@))
}

/// The pairs of an optional list as plain texts.
pub open spec fn opt_pair_texts(pairs: Option<Vec<QueryPair>>) -> Option<Seq<(Seq<char>, Seq<char>)>> {
    match pairs {
        Some(list) => Some(pair_texts(list@)),
        None => None,
    }
}

/// The decoded query pairs of an absolute URL, in the order in which they
/// stand in it; `None` where the text is no absolute URL.
pub uninterp spec fn url_query_pairs(address: Seq<char>) -> Option<Seq<(Seq<char>, Seq<char>)>>;

/// `url::Url::parse` followed by `Url::query_pairs`: the address is parsed as
/// an absolute URL, and its query is handed out as decoded pairs in their
/// order. A text that does not parse gives `None`. The pairs depend on the
/// address alone.
#[verifier::external_body]
fn parse_query_pairs(address: &str) -> (pairs: Option<Vec<QueryPair>>)
    ensures
        opt_pair_texts(pairs) == url_query_pairs(address@),
{
    url::Url::parse(address).ok().map(|parsed| parsed.query_pairs().map(|(key, value)| QueryPair {
        key: key.into_owned(),
        value: value.into_owned(),
    }).collect())
}

/// Whether a character separates the words of a line: the characters with the
/// Unicode property `White_Space`.
pub open spec fn is_space(c: char) -> bool {
    let n = c as u32;
    (0x09 <= n <= 0x0D) || n == 0x20 || n == 0x85 || n == 0xA0 || n == 0x1680 || (0x2000 <= n
        <= 0x200A) || n == 0x2028 || n == 0x2029 || n == 0x202F || n == 0x205F || n == 0x3000
}

/// Decides `is_space`.
pub fn is_space_char(c: char) -> (space: bool)
    ensures
        space == is_space(c),
{
    let n: u32 = c as u32;
    (0x09 <= n && n <= 0x0D) || n == 0x20 || n == 0x85 || n == 0xA0 || n == 0x1680 || (0x2000 <= n
        && n <= 0x200A) || n == 0x2028 || n == 0x2029 || n == 0x202F || n == 0x205F || n == 0x3000
}

/// The end of the first line: the index of the first line feed, or the
/// text's length.
pub open spec fn line_end(s: Seq<char>, from: int) -> int
    decreases s.len() - from,
{
    if from < 0 || from >= s.len() {
        s.len() as int
    } else if s[from] == '\n' {
        from
    } else {
        line_end(s, from + 1)
    }
}

/// The first index in `from..end` whose character is a space (or is none, as
/// `want_space` says), or `end`.
pub open spec fn scan(s: Seq<char>, from: int, end: int, want_space: bool) -> int
    decreases end - from,
{
    if from < 0 || from >= end || end > s.len() {
        end
    } else if is_space(s[from]) == want_space {
        from
    } else {
        scan(s, from + 1, end, want_space)
    }
}

/// The request target: the second word of the request's first line.
pub open spec fn request_target(request: Seq<char>) -> Option<Seq<char>> {
    let end = line_end(request, 0);
    let first = scan(request, 0, end, false);
    let gap = scan(request, first, end, true);
    let start = scan(request, gap, end, false);
    let stop = scan(request, start, end, true);
    if start < end {
        Some(request.subrange(start, stop))
    } else {
        None
    }
}

/// Finds the end of the first line of a text of `len` characters.
fn find_line_end(s: &str, len: usize) -> (end: usize)
    requires
        len == s@.len(),
    ensures
        end == line_end(s@, 0),
        end <= len,
{
    let mut i: usize = 0;
    while i < len
        invariant
            i <= len,
            len == s@.len(),
            line_end(s@, 0) == line_end(s@, i as int),
        decreases len - i,
    {
        if s.get_char(i) == '\n' {
            return i;
        }
        i += 1;
    }
    i
}

/// Finds the first character in `from..end` that is a space, or is none.
fn find(s: &str, from: usize, end: usize, want_space: bool) -> (at: usize)
    requires
        from <= end <= s@.len(),
    ensures
        at == scan(s@, from as int, end as int, want_space),
        from <= at <= end,
{
    let mut i: usize = from;
    while i < end
        invariant
            from <= i <= end <= s@.len(),
            scan(s@, from as int, end as int, want_space) == scan(s@, i as int, end as int, want_space),
        decreases end - i,
    {
        if is_space_char(s.get_char(i)) == want_space {
            return i;
        }
        i += 1;
    }
    i
}

/// Reads the request target off a request: the second word of its first
/// line, or nothing where the line has fewer than two words.
pub fn read_request_target(request: &str) -> (target: Option<String>)
    ensures
        opt_view(target) == request_target(request@),
{
    let len = request.unicode_len();
    let end = find_line_end(request, len);
    let first = find(request, 0, end, false);
    let gap = find(request, first, end, true);
    let start = find(request, gap, end, false);
    let stop = find(request, start, end, true);
    if start < end {
        Some(String::from_str(request.substring_char(start, stop)))
    } else {
        None
    }
}

/// The index of the first pair from `from` on whose key is `code`, or the
/// number of pairs.
pub open spec fn first_code(pairs: Seq<(Seq<char>, Seq<char>)>, from: int) -> int
    decreases pairs.len() - from,
{
    if from < 0 || from >= pairs.len() {
        pairs.len() as int
    } else if pairs[from].0 == "code"@ {
        from
    } else {
        first_code(pairs, from + 1)
    }
}

/// The authorization code among the pairs: the value of the first pair named
/// `code`.
pub open spec fn code_among(pairs: Seq<(Seq<char>, Seq<char>)>) -> Option<Seq<char>> {
    let i = first_code(pairs, 0);
    if i < pairs.len() {
        Some(pairs[i].1)
    } else {
        None
    }
}

/// The address that a request target stands for on the callback listener.
pub open spec fn callback_address(target: Seq<char>) -> Seq<char> {
    "http://localhost:8888"@ + target
}

/// The authorization code that a callback request carries, if any.
pub open spec fn code_of_request(request: Seq<char>) -> Option<Seq<char>> {
    match request_target(request) {
        None => None,
        Some(target) => match url_query_pairs(callback_address(target)) {
            None => None,
            Some(pairs) => code_among(pairs),
        },
    }
}

/// Finds the authorization code among decoded query pairs.
pub fn find_code(pairs: &Vec<QueryPair>) -> (code: Option<String>)
    ensures
        opt_view(code) == code_among(pair_texts(pairs@)),
{
    let mut i: usize = 0;
    while i < pairs.len()
        invariant
            i <= pairs@.len(),
            first_code(pair_texts(pairs@), 0) == first_code(pair_texts(pairs@), i as int),
        decreases pairs@.len() - i,
    {
        if crate::text::same_text(pairs[i].key.as_str(), "code") {
            return Some(pairs[i].value.clone());
        }
        i += 1;
    }
    None
}

/// Extracts the authorization code from the text of a callback request.
pub fn extract_code(request: &str) -> (code: Option<String>)
    ensures
        opt_view(code) == code_of_request(request@),
{
    match read_request_target(request) {
        None => None,
        Some(target) => {
            let address = String::from_str("http://localhost:8888").concat(target.as_str());
            match parse_query_pairs(address.as_str()) {
                None => None,
                Some(pairs) => find_code(&pairs),
            }
        },
    }
}

/// `line_end` stays within the text.
pub proof fn line_end_bounds(s: Seq<char>, from: int)
    requires
        0 <= from <= s.len(),
    ensures
        from <= line_end(s, from) <= s.len(),
    decreases s.len() - from,
{
    if from < s.len() && s[from] != '\n' {
        line_end_bounds(s, from + 1);
    }
}

/// A stretch without a line feed does not end the line.
pub proof fn line_end_skips(s: Seq<char>, from: int, to: int)
    requires
        0 <= from <= to <= s.len(),
        forall|k: int| from <= k < to ==> s[k] != '\n',
    ensures
        line_end(s, from) == line_end(s, to),
    decreases to - from,
{
    if from < to {
        line_end_skips(s, from + 1, to);
    }
}

/// `scan` passes over a stretch of characters of the other kind and stops at
/// the first character of the kind it looks for, or at the end.
pub proof fn scan_skips(s: Seq<char>, from: int, to: int, end: int, want_space: bool)
    requires
        0 <= from <= to <= end <= s.len(),
        forall|k: int| from <= k < to ==> is_space(s[k]) != want_space,
        to < end ==> is_space(s[to]) == want_space,
    ensures
        scan(s, from, end, want_space) == to,
    decreases to - from,
{
    if from < to {
        scan_skips(s, from + 1, to, end, want_space);
    }
}

/// Whether a text holds no space at all.
pub open spec fn is_word(w: Seq<char>) -> bool {
    w.len() > 0 && forall|k: int| 0 <= k < w.len() ==> !is_space(#[trigger] w[k])
}

/// A request that opens with a method, one blank, a target and one blank has
/// that target as its request target, whatever follows; the code it carries is
/// then the code among the query pairs of the target's address.
pub proof fn request_line_yields_target(method: Seq<char>, target: Seq<char>, rest: Seq<char>)
    requires
        is_word(method),
        is_word(target),
    ensures
        request_target(method + seq![' '] + target + seq![' '] + rest) == Some(target),
        code_of_request(method + seq![' '] + target + seq![' '] + rest) == match url_query_pairs(
            callback_address(target),
        ) {
            Some(pairs) => code_among(pairs),
            None => None,
        },
{
    let s = method + seq![' '] + target + seq![' '] + rest;
    let a = method.len() as int;
    let c = a + 1;
    let d = c + target.len();
    assert(s.len() == d + 1 + rest.len());
    assert forall|k: int| 0 <= k < a implies !is_space(#[trigger] s[k]) by {
        assert(s[k] == method[k]);
    }
    assert forall|k: int| c <= k < d implies !is_space(#[trigger] s[k]) by {
        assert(s[k] == target[k - c]);
    }
    assert(s[a] == ' ');
    assert(s[d] == ' ');
    assert(is_space(' '));
    assert(is_space('\n'));
    assert forall|k: int| 0 <= k < d + 1 implies s[k] != '\n' by {
        if k != a && k != d {
            assert(!is_space(s[k]));
        }
    }
    line_end_skips(s, 0, d + 1);
    line_end_bounds(s, d + 1);
    let end = line_end(s, 0);
    scan_skips(s, 0, 0, end, false);
    scan_skips(s, 0, a, end, true);
    scan_skips(s, a, c, end, false);
    scan_skips(s, c, d, end, true);
    assert(s.subrange(c, d) =~= target);
}

/// `first_code` returns an index whose key is `code` and before which no key
/// is, or the number of pairs where no key is `code`.
pub proof fn first_code_is_first(pairs: Seq<(Seq<char>, Seq<char>)>, from: int)
    requires
        0 <= from <= pairs.len(),
    ensures
        from <= first_code(pairs, from) <= pairs.len(),
        first_code(pairs, from) < pairs.len() ==> pairs[first_code(pairs, from)].0 == "code"@,
        forall|j: int| from <= j < first_code(pairs, from) ==> (#[trigger] pairs[j]).0 != "code"@,
    decreases pairs.len() - from,
{
    if from < pairs.len() && pairs[from].0 != "code"@ {
        first_code_is_first(pairs, from + 1);
    }
}

/// Where exactly one pair is named `code`, its value is the code that is
/// found, wherever it stands among the other pairs and whatever they hold.
pub proof fn code_found_among_unrelated(pairs: Seq<(Seq<char>, Seq<char>)>, at: int)
    requires
        0 <= at < pairs.len(),
        pairs[at].0 == "code"@,
        forall|j: int| 0 <= j < pairs.len() && j != at ==> (#[trigger] pairs[j]).0 != "code"@,
    ensures
        code_among(pairs) == Some(pairs[at].1),
{
    first_code_is_first(pairs, 0);
}

/// Where some pair is named `code`, a code is found; where none is, none.
pub proof fn code_found_iff_present(pairs: Seq<(Seq<char>, Seq<char>)>)
    ensures
        code_among(pairs) is Some <==> exists|j: int|
            0 <= j < pairs.len() && (#[trigger] pairs[j]).0 == "code"@,
{
    first_code_is_first(pairs, 0);
}

} // verus!
