//! Routing of the speed-test server's requests and its responses.

use vstd::prelude::*;
use vstd::string::StrSliceExecFns;
use crate::text::{ascii_bytes, decimal, push_bytes, push_decimal, push_str};

verus! {

/// What `String::from_utf8_lossy` makes of the bytes.
pub uninterp spec fn utf8_lossy(bytes: Seq<u8>) -> Seq<char>;

/// The characters of ASCII bytes.
pub open spec fn ascii_chars(bytes: Seq<u8>) -> Seq<char> {
    bytes.map_values(|b: u8| b as char)
}

/// Calls `String::from_utf8_lossy`. Claimed: the result is named by
/// `utf8_lossy`, and ASCII input comes out as the same characters (ASCII is
/// valid UTF-8, which the call keeps). What it does with other input is not
/// stated.
#[verifier::external_body]
fn decode_lossy(bytes: &[u8]) -> (s: String)
    ensures
        s@ == utf8_lossy(bytes@),
        (forall|i: int| 0 <= i < bytes@.len() ==> bytes@[i] < 128) ==> s@ == ascii_chars(bytes@),
{
    String::from_utf8_lossy(bytes).into_owned()
}

/// Unicode's `White_Space` characters, on which request lines are split.
pub open spec fn is_white_space(c: char) -> bool {
    ||| ('\t' <= c && c <= '\r')
    ||| c == ' '
    ||| c == '\u{85}'
    ||| c == '\u{a0}'
    ||| c == '\u{1680}'
    ||| ('\u{2000}' <= c && c <= '\u{200a}')
    ||| c == '\u{2028}'
    ||| c == '\u{2029}'
    ||| c == '\u{202f}'
    ||| c == '\u{205f}'
    ||| c == '\u{3000}'
}

/// Whether `c` is a `White_Space` character.
pub fn white_space(c: char) -> (b: bool)
    ensures
        b == is_white_space(c),
{
    ('\t' <= c && c <= '\r') || c == ' ' || c == '\u{85}' || c == '\u{a0}' || c == '\u{1680}' || (
    '\u{2000}' <= c && c <= '\u{200a}') || c == '\u{2028}' || c == '\u{2029}' || c == '\u{202f}'
        || c == '\u{205f}' || c == '\u{3000}'
}

/// The first index at or after `i` whose character is (`want`) or is not
/// (`!want`) equal to `c`; the length when there is none.
pub open spec fn find_char(t: Seq<char>, i: nat, c: char, want: bool) -> nat
    decreases t.len() - i,
{
    if i >= t.len() {
        t.len()
    } else if (t[i as int] == c) == want {
        i
    } else {
        find_char(t, i + 1, c, want)
    }
}

/// The first index at or after `i` whose character is (`want`) or is not
/// (`!want`) white space; the length when there is none.
pub open spec fn find_space(t: Seq<char>, i: nat, want: bool) -> nat
    decreases t.len() - i,
{
    if i >= t.len() {
        t.len()
    } else if is_white_space(t[i as int]) == want {
        i
    } else {
        find_space(t, i + 1, want)
    }
}

/// The first line of a text: up to the first `\n`, without a `\r` just
/// before it; `None` for an empty text.
pub open spec fn first_line(t: Seq<char>) -> Option<Seq<char>> {
    if t.len() == 0 {
        None
    } else {
        let k = find_char(t, 0, '\n', true);
        if k < t.len() && k > 0 && t[k - 1] == '\r' {
            Some(t.take(k - 1))
        } else {
            Some(t.take(k as int))
        }
    }
}

/// The second white-space separated word of a line, if any.
pub open spec fn second_word(line: Seq<char>) -> Option<Seq<char>> {
    let a0 = find_space(line, 0, false);
    let e0 = find_space(line, a0, true);
    let a1 = find_space(line, e0, false);
    let e1 = find_space(line, a1, true);
    if a1 >= line.len() {
        None
    } else {
        Some(line.subrange(a1 as int, e1 as int))
    }
}

/// The path of a request target: before any `?`, without leading `/`.
pub open spec fn route_path(target: Seq<char>) -> Seq<char> {
    let p = target.take(find_char(target, 0, '?', true) as int);
    p.skip(find_char(p, 0, '/', false) as int)
}

/// What the server does with a request.
#[derive(PartialEq, Eq, Structural, Clone, Copy, Debug)]
pub enum Route {
    /// No request line with a target: nothing is answered.
    Ignore,
    /// `/`: the server's name.
    Name,
    /// `/nj`: the server's justified name.
    NameJustified,
    /// `/download`: a fixed-size body of zeros.
    Download,
    /// `/upload`: the body is read and dropped, then `OK`.
    Upload,
    /// Anything else: 404.
    NotFound,
}

/// The route of a request target path.
pub open spec fn route_of_path(p: Seq<char>) -> Route {
    if p == Seq::<char>::empty() {
        Route::Name
    } else if p == "nj"@ {
        Route::NameJustified
    } else if p == "download"@ {
        Route::Download
    } else if p == "upload"@ {
        Route::Upload
    } else {
        Route::NotFound
    }
}

/// The route of a request text.
pub open spec fn route_of(text: Seq<char>) -> Route {
    match first_line(text) {
        None => Route::Ignore,
        Some(line) => match second_word(line) {
            None => Route::Ignore,
            Some(target) => route_of_path(route_path(target)),
        },
    }
}

/// The characters of a text.
fn chars_of(text: &str) -> (v: Vec<char>)
    ensures
        v@ == text@,
{
    let n = text.unicode_len();
    let mut v: Vec<char> = Vec::new();
    let mut i: usize = 0;
    while i < n
        invariant
            n == text@.len(),
            i <= n,
            v@ == text@.take(i as int),
        decreases n - i,
    {
        v.push(text.get_char(i));
        i += 1;
        proof {
            assert(v@ =~= text@.take(i as int));
        }
    }
    proof {
        assert(text@.take(n as int) =~= text@);
    }
    v
}

/// `find_char` over a vector, from `i` up to `end`.
fn find_char_exec(t: &Vec<char>, i: usize, c: char, want: bool) -> (k: usize)
    requires
        i <= t@.len(),
    ensures
        k == find_char(t@, i as nat, c, want),
    decreases t@.len() - i,
{
    if i >= t.len() {
        t.len()
    } else if (t[i] == c) == want {
        i
    } else {
        find_char_exec(t, i + 1, c, want)
    }
}

/// `find_space` over a vector.
fn find_space_exec(t: &Vec<char>, i: usize, want: bool) -> (k: usize)
    requires
        i <= t@.len(),
    ensures
        k == find_space(t@, i as nat, want),
    decreases t@.len() - i,
{
    if i >= t.len() {
        t.len()
    } else if white_space(t[i]) == want {
        i
    } else {
        find_space_exec(t, i + 1, want)
    }
}

proof fn lemma_find_char_range(t: Seq<char>, i: nat, c: char, want: bool)
    requires
        i <= t.len(),
    ensures
        i <= find_char(t, i, c, want) <= t.len(),
    decreases t.len() - i,
{
    if i < t.len() && (t[i as int] == c) != want {
        lemma_find_char_range(t, i + 1, c, want);
    }
}

proof fn lemma_find_space_range(t: Seq<char>, i: nat, want: bool)
    requires
        i <= t.len(),
    ensures
        i <= find_space(t, i, want) <= t.len(),
    decreases t.len() - i,
{
    if i < t.len() && is_white_space(t[i as int]) != want {
        lemma_find_space_range(t, i + 1, want);
    }
}

/// Copies `v[from..to]`.
fn sub_chars(v: &Vec<char>, from: usize, to: usize) -> (r: Vec<char>)
    requires
        from <= to <= v@.len(),
    ensures
        r@ == v@.subrange(from as int, to as int),
{
    let mut r: Vec<char> = Vec::new();
    let mut i = from;
    while i < to
        invariant
            from <= i <= to,
            to <= v@.len(),
            r@ == v@.subrange(from as int, i as int),
        decreases to - i,
    {
        r.push(v[i]);
        i += 1;
        proof {
            assert(r@ =~= v@.subrange(from as int, i as int));
        }
    }
    r
}

/// Whether the characters are those of the text `s`.
fn chars_are(v: &Vec<char>, s: &str) -> (b: bool)
    ensures
        b == (v@ == s@),
{
    let w = chars_of(s);
    if v.len() != w.len() {
        return false;
    }
    let n = v.len();
    let mut i: usize = 0;
    while i < n
        invariant
            n == v@.len(),
            n == w@.len(),
            w@ == s@,
            i <= n,
            forall|k: int| 0 <= k < i ==> v@[k] == w@[k],
        decreases n - i,
    {
        if v[i] != w[i] {
            return false;
        }
        i += 1;
    }
    proof {
        assert(v@ =~= w@);
    }
    true
}

/// The route of a request text (see `route_of`).
pub fn route_text(text: &str) -> (r: Route)
    ensures
        r == route_of(text@),
{
    let t = chars_of(text);
    if t.len() == 0 {
        return Route::Ignore;
    }
    let k = find_char_exec(&t, 0, '\n', true);
    proof {
        lemma_find_char_range(t@, 0, '\n', true);
    }
    let line_len = if k < t.len() && k > 0 && t[k - 1] == '\r' { k - 1 } else { k };
    let line = sub_chars(&t, 0, line_len);
    proof {
        assert(line@ =~= first_line(text@).unwrap());
    }
    let a0 = find_space_exec(&line, 0, false);
    proof {
        lemma_find_space_range(line@, 0, false);
    }
    let e0 = find_space_exec(&line, a0, true);
    proof {
        lemma_find_space_range(line@, a0 as nat, true);
    }
    let a1 = find_space_exec(&line, e0, false);
    proof {
        lemma_find_space_range(line@, e0 as nat, false);
    }
    if a1 >= line.len() {
        return Route::Ignore;
    }
    let e1 = find_space_exec(&line, a1, true);
    proof {
        lemma_find_space_range(line@, a1 as nat, true);
    }
    let target = sub_chars(&line, a1, e1);
    let q = find_char_exec(&target, 0, '?', true);
    proof {
        lemma_find_char_range(target@, 0, '?', true);
    }
    let before_query = sub_chars(&target, 0, q);
    let s = find_char_exec(&before_query, 0, '/', false);
    proof {
        lemma_find_char_range(before_query@, 0, '/', false);
    }
    let p = sub_chars(&before_query, s, before_query.len());
    proof {
        assert(before_query@ =~= target@.take(q as int));
        assert(p@ =~= route_path(target@));
    }
    if p.len() == 0 {
        proof {
            assert(p@ =~= Seq::<char>::empty());
        }
        Route::Name
    } else if chars_are(&p, "nj") {
        Route::NameJustified
    } else if chars_are(&p, "download") {
        Route::Download
    } else if chars_are(&p, "upload") {
        Route::Upload
    } else {
        Route::NotFound
    }
}

/// The route of the bytes the server read (see `route_of` and `utf8_lossy`).
pub fn route_request(request: &[u8]) -> (r: Route)
    ensures
        r == route_of(utf8_lossy(request@)),
        (forall|i: int| 0 <= i < request@.len() ==> request@[i] < 128) ==> r == route_of(
            ascii_chars(request@),
        ),
{
    let text = decode_lossy(request);
    route_text(text.as_str())
}

/// Bytes the download route sends in each write.
pub const DOWNLOAD_BLOCK_LEN: usize = 1024;

/// Writes of `DOWNLOAD_BLOCK_LEN` zero bytes that make the download body.
pub const DOWNLOAD_BLOCKS: usize = 16384;

/// The `200 OK` head announcing a body of `len` bytes.
pub open spec fn ok_head(len: nat) -> Seq<u8> {
    ascii_bytes("HTTP/1.1 200 OK\r\nContent-Length: "@) + decimal(len) + ascii_bytes("\r\n\r\n"@)
}

/// What the server writes for a route before any streamed body: the head
/// and, for fixed answers, the body.
pub open spec fn response_of(route: Route, name: Seq<u8>, name_just: Seq<u8>) -> Seq<u8> {
    match route {
        Route::Ignore => Seq::empty(),
        Route::Name => ok_head(name.len()) + name,
        Route::NameJustified => ok_head(name_just.len()) + name_just,
        Route::Download => ok_head(16777216),
        Route::Upload => ok_head(2) + ascii_bytes("OK"@),
        Route::NotFound => ascii_bytes("HTTP/1.1 404 NOT FOUND\r\nContent-Length: 9\r\n\r\nNot Found"@),
    }
}

/// Appends the `200 OK` head for a body of `len` bytes.
fn push_ok_head(v: &mut Vec<u8>, len: usize)
    ensures
        final(v)@ == old(v)@ + ok_head(len as nat),
{
    proof {
        reveal_strlit("HTTP/1.1 200 OK\r\nContent-Length: ");
        reveal_strlit("\r\n\r\n");
    }
    push_str(v, "HTTP/1.1 200 OK\r\nContent-Length: ");
    push_decimal(v, len as u128);
    push_str(v, "\r\n\r\n");
    proof {
        assert(v@ =~= old(v)@ + ok_head(len as nat));
    }
}

/// What the server writes for a route (see `response_of`); for the download
/// route the body follows as `DOWNLOAD_BLOCKS` writes of
/// `DOWNLOAD_BLOCK_LEN` zero bytes.
pub fn response(route: Route, name: &[u8], name_just: &[u8]) -> (v: Vec<u8>)
    ensures
        v@ == response_of(route, name@, name_just@),
{
    let mut v: Vec<u8> = Vec::new();
    match route {
        Route::Ignore => {},
        Route::Name => {
            push_ok_head(&mut v, name.len());
            push_bytes(&mut v, name);
        },
        Route::NameJustified => {
            push_ok_head(&mut v, name_just.len());
            push_bytes(&mut v, name_just);
        },
        Route::Download => {
            push_ok_head(&mut v, DOWNLOAD_BLOCK_LEN * DOWNLOAD_BLOCKS);
        },
        Route::Upload => {
            push_ok_head(&mut v, 2);
            proof {
                reveal_strlit("OK");
            }
            push_str(&mut v, "OK");
        },
        Route::NotFound => {
            proof {
                reveal_strlit("HTTP/1.1 404 NOT FOUND\r\nContent-Length: 9\r\n\r\nNot Found");
            }
            push_str(&mut v, "HTTP/1.1 404 NOT FOUND\r\nContent-Length: 9\r\n\r\nNot Found");
        },
    }
    proof {
        assert(v@ =~= response_of(route, name@, name_just@));
    }
    v
}

proof fn lemma_find_char_prefix(x: Seq<char>, t: Seq<char>, i: nat, c: char, want: bool)
    requires
        i <= t.len(),
    ensures
        find_char(x + t, i + x.len(), c, want) == x.len() + find_char(t, i, c, want),
    decreases t.len() - i,
{
    if i < t.len() {
        assert((x + t)[(i + x.len()) as int] == t[i as int]);
        if (t[i as int] == c) != want {
            lemma_find_char_prefix(x, t, i + 1, c, want);
        }
    }
}

proof fn lemma_find_char_skip_prefix(x: Seq<char>, t: Seq<char>, i: nat, c: char, want: bool)
    requires
        i <= x.len(),
        forall|k: int| 0 <= k < x.len() ==> (x[k] == c) != want,
    ensures
        find_char(x + t, i, c, want) == find_char(x + t, x.len(), c, want),
    decreases x.len() - i,
{
    if i < x.len() {
        assert((x + t)[i as int] == x[i as int]);
        lemma_find_char_skip_prefix(x, t, i + 1, c, want);
    }
}

proof fn lemma_find_char_at_end(t: Seq<char>, y: Seq<char>, i: nat, c: char, want: bool)
    requires
        i <= t.len(),
        find_char(t, i, c, want) == t.len(),
    ensures
        find_char(t + y, i, c, want) == t.len() + find_char(y, 0, c, want),
    decreases t.len() - i,
{
    if i < t.len() {
        assert((t + y)[i as int] == t[i as int]);
        lemma_find_char_at_end(t, y, i + 1, c, want);
    } else {
        lemma_find_char_prefix(t, y, 0, c, want);
    }
}

/// A query string never changes the route: the path is taken before `?`.
pub proof fn law_query_ignored(target: Seq<char>, query: Seq<char>)
    requires
        find_char(target, 0, '?', true) == target.len(),
    ensures
        route_path(target + seq!['?'] + query) == route_path(target),
{
    let full = target + (seq!['?'] + query);
    assert(target + seq!['?'] + query =~= full);
    lemma_find_char_at_end(target, seq!['?'] + query, 0, '?', true);
    assert(find_char(seq!['?'] + query, 0, '?', true) == 0);
    assert(full.take(target.len() as int) =~= target);
    assert(target.take(target.len() as int) =~= target);
}

/// Leading slashes never change the route.
pub proof fn law_leading_slash_ignored(target: Seq<char>)
    ensures
        route_path(seq!['/'] + target) == route_path(target),
{
    let x = seq!['/'];
    let full = x + target;
    lemma_find_char_prefix(x, target, 0, '?', true);
    lemma_find_char_skip_prefix(x, target, 0, '?', true);
    let k = find_char(target, 0, '?', true);
    lemma_find_char_range(target, 0, '?', true);
    let p = full.take(k + 1int);
    let q = target.take(k as int);
    assert(p =~= x + q);
    lemma_find_char_prefix(x, q, 0, '/', false);
    lemma_find_char_skip_prefix(x, q, 0, '/', false);
    let j = find_char(q, 0, '/', false);
    lemma_find_char_range(q, 0, '/', false);
    assert(p.skip(j + 1int) =~= q.skip(j as int));
}

/// Every fixed answer announces the length of the body it carries, and the
/// download route announces exactly what its blocks add up to.
pub proof fn law_content_lengths(name: Seq<u8>, name_just: Seq<u8>)
    ensures
        response_of(Route::Name, name, name_just) == ok_head(name.len()) + name,
        response_of(Route::NameJustified, name, name_just) == ok_head(name_just.len()) + name_just,
        response_of(Route::Upload, name, name_just) == ok_head(2) + ascii_bytes("OK"@),
        ascii_bytes("OK"@).len() == 2,
        ascii_bytes("Not Found"@).len() == 9,
        response_of(Route::Download, name, name_just) == ok_head(
            (DOWNLOAD_BLOCK_LEN * DOWNLOAD_BLOCKS) as nat,
        ),
{
    reveal_strlit("OK");
    reveal_strlit("Not Found");
}


proof fn lemma_scan_to_space(t: Seq<char>, i: nat, j: nat)
    requires
        i <= j < t.len(),
        forall|k: int| i <= k < j ==> !is_white_space(#[trigger] t[k]),
        is_white_space(t[j as int]),
    ensures
        find_space(t, i, true) == j,
    decreases j - i,
{
    if i < j {
        lemma_scan_to_space(t, i + 1, j);
    }
}

proof fn lemma_scan_to_char(t: Seq<char>, i: nat, j: nat, c: char)
    requires
        i <= j < t.len(),
        forall|k: int| i <= k < j ==> #[trigger] t[k] != c,
        t[j as int] == c,
    ensures
        find_char(t, i, c, true) == j,
    decreases j - i,
{
    if i < j {
        lemma_scan_to_char(t, i + 1, j, c);
    }
}

/// A request whose first line is a method, a space, a target, a space and a
/// version, ended by `\r\n`, where the method and target are non-empty and
/// none of the three holds white space, is routed by its target alone,
/// whatever follows the first line.
pub proof fn law_routed_by_target(
    method: Seq<char>,
    target: Seq<char>,
    version: Seq<char>,
    rest: Seq<char>,
)
    requires
        method.len() > 0,
        target.len() > 0,
        forall|k: int| 0 <= k < method.len() ==> !is_white_space(#[trigger] method[k]),
        forall|k: int| 0 <= k < target.len() ==> !is_white_space(#[trigger] target[k]),
        forall|k: int| 0 <= k < version.len() ==> !is_white_space(#[trigger] version[k]),
    ensures
        route_of(method + seq![' '] + target + seq![' '] + version + seq!['\r', '\n'] + rest)
            == route_of_path(route_path(target)),
{
    let line = method + seq![' '] + target + seq![' '] + version;
    let text = line + seq!['\r', '\n'] + rest;
    assert(method + seq![' '] + target + seq![' '] + version + seq!['\r', '\n'] + rest =~= text);
    let m = method.len() as int;
    let n = target.len() as int;
    let ln = line.len() as int;
    assert forall|k: int| 0 <= k < ln implies #[trigger] text[k] != '\n' by {
        assert(text[k] == line[k]);
        if k < m {
            assert(line[k] == method[k]);
        } else if k == m {
        } else if k < m + 1 + n {
            assert(line[k] == target[k - m - 1]);
        } else if k == m + 1 + n {
        } else {
            assert(line[k] == version[k - m - 2 - n]);
        }
    }
    assert(text[ln] == '\r');
    assert(text[ln + 1] == '\n');
    lemma_scan_to_char(text, 0, (ln + 1) as nat, '\n');
    assert(first_line(text) == Some(text.take(ln)));
    assert(text.take(ln) =~= line);
    assert(!is_white_space(line[0])) by {
        assert(line[0] == method[0]);
    }
    assert(find_space(line, 0, false) == 0);
    assert forall|k: int| 0 <= k < m implies !is_white_space(#[trigger] line[k]) by {
        assert(line[k] == method[k]);
    }
    assert(line[m] == ' ');
    lemma_scan_to_space(line, 0, m as nat);
    assert(line[m + 1] == target[0]);
    assert(find_space(line, (m + 1) as nat, false) == m + 1);
    assert(find_space(line, m as nat, false) == m + 1);
    assert forall|k: int| m + 1 <= k < m + 1 + n implies !is_white_space(#[trigger] line[k]) by {
        assert(line[k] == target[k - m - 1]);
    }
    assert(line[m + 1 + n] == ' ');
    lemma_scan_to_space(line, (m + 1) as nat, (m + 1 + n) as nat);
    assert(line.subrange(m + 1, m + 1 + n) =~= target);
}
} // verus!
