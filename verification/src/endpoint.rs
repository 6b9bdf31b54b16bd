use vstd::prelude::*;

verus! {

// The diagnostic stream of a Chromium-family browser announces its remote
// debugging server once, on a line holding a loopback WebSocket endpoint:
// the scheme `ws`, the loopback host, a numeric port, the fixed DevTools
// path prefix, and an opaque trailing identifier of word characters and
// hyphens. This module recognises that shape: the first occurrence in a
// line, greedy in the port digits and in the identifier, exactly as the
// fixed pattern reads.

/// An ASCII decimal digit.
pub open spec fn is_digit_char(c: char) -> bool {
    ('0' as u32) <= (c as u32) && (c as u32) <= ('9' as u32)
}

/// An ASCII word character: a letter, a digit, or an underscore.
pub open spec fn is_word_char(c: char) -> bool {
    ||| ('a' as u32) <= (c as u32) && (c as u32) <= ('z' as u32)
    ||| ('A' as u32) <= (c as u32) && (c as u32) <= ('Z' as u32)
    ||| is_digit_char(c)
    ||| c == '_'
}

/// A character allowed in the trailing endpoint identifier.
pub open spec fn is_id_char(c: char) -> bool {
    is_word_char(c) || c == '-'
}

/// The fixed scheme-and-host prefix of an endpoint, up to the port digits.
pub open spec fn ws_prefix() -> Seq<char> {
    seq!['w', 's', ':', '/', '/', '1', '2', '7', '.', '0', '.', '0', '.', '1', ':']
}

/// The fixed path segment between the port digits and the identifier.
pub open spec fn devtools_infix() -> Seq<char> {
    seq!['/', 'd', 'e', 'v', 't', 'o', 'o', 'l', 's', '/', 'b', 'r', 'o', 'w', 's', 'e', 'r', '/']
}

/// The length of the maximal run of digits starting at `j`.
pub open spec fn digit_run(s: Seq<char>, j: int) -> int
    decreases s.len() - j when 0 <= j <= s.len()
{
    if j < s.len() && is_digit_char(s[j]) {
        1 + digit_run(s, j + 1)
    } else {
        0
    }
}

/// The length of the maximal run of identifier characters starting at `j`.
pub open spec fn id_run(s: Seq<char>, j: int) -> int
    decreases s.len() - j when 0 <= j <= s.len()
{
    if j < s.len() && is_id_char(s[j]) {
        1 + id_run(s, j + 1)
    } else {
        0
    }
}

/// An endpoint occurrence starts at position `i` of `s`: the fixed prefix,
/// one or more port digits, the fixed path segment, and at least one
/// identifier character.
pub open spec fn match_at(s: Seq<char>, i: int) -> bool {
    let d = digit_run(s, i + 15);
    &&& 0 <= i
    &&& i + 15 <= s.len()
    &&& s.subrange(i, i + 15) == ws_prefix()
    &&& d >= 1
    &&& i + 15 + d + 18 <= s.len()
    &&& s.subrange(i + 15 + d, i + 15 + d + 18) == devtools_infix()
    &&& id_run(s, i + 15 + d + 18) >= 1
}

/// Where the occurrence starting at `i` ends: after the maximal digit run,
/// the path segment, and the maximal identifier run.
pub open spec fn match_end(s: Seq<char>, i: int) -> int {
    let d = digit_run(s, i + 15);
    i + 15 + d + 18 + id_run(s, i + 15 + d + 18)
}

/// The first position at or after `j` where an occurrence starts, or
/// `s.len()` where there is none.
pub open spec fn first_match_from(s: Seq<char>, j: int) -> int
    decreases s.len() - j when 0 <= j <= s.len()
{
    if j >= s.len() {
        j
    } else if match_at(s, j) {
        j
    } else {
        first_match_from(s, j + 1)
    }
}

/// What scanning one line yields: the first endpoint occurrence in the
/// line, or nothing where the line holds none.
pub open spec fn spec_find_endpoint(s: Seq<char>) -> Option<Seq<char>> {
    let i = first_match_from(s, 0);
    if i < s.len() && match_at(s, i) {
        Some(s.subrange(i, match_end(s, i)))
    } else {
        None
    }
}

/// What scanning a whole stream of lines yields: the first endpoint of the
/// first line that holds one.
pub open spec fn spec_scan(lines: Seq<Seq<char>>) -> Option<Seq<char>>
    decreases lines.len()
{
    if lines.len() == 0 {
        None
    } else if spec_find_endpoint(lines[0]) is Some {
        spec_find_endpoint(lines[0])
    } else {
        spec_scan(lines.drop_first())
    }
}

proof fn lemma_digit_run(s: Seq<char>, j: int)
    requires
        0 <= j <= s.len(),
    ensures
        0 <= digit_run(s, j),
        j + digit_run(s, j) <= s.len(),
    decreases s.len() - j,
{
    if j < s.len() && is_digit_char(s[j]) {
        lemma_digit_run(s, j + 1);
    }
}

proof fn lemma_id_run(s: Seq<char>, j: int)
    requires
        0 <= j <= s.len(),
    ensures
        0 <= id_run(s, j),
        j + id_run(s, j) <= s.len(),
    decreases s.len() - j,
{
    if j < s.len() && is_id_char(s[j]) {
        lemma_id_run(s, j + 1);
    }
}

/// Skipping over positions without an occurrence does not move the first
/// occurrence.
proof fn lemma_first_match_skip(s: Seq<char>, j: int, i: int)
    requires
        0 <= j <= i <= s.len(),
        forall|k: int| j <= k < i ==> !match_at(s, k),
    ensures
        first_match_from(s, j) == first_match_from(s, i),
    decreases i - j,
{
    if j < i {
        assert(!match_at(s, j));
        lemma_first_match_skip(s, j + 1, i);
    }
}

fn is_digit_exec(c: char) -> (b: bool)
    ensures
        b == is_digit_char(c),
{
    ('0' as u32) <= (c as u32) && (c as u32) <= ('9' as u32)
}

fn is_id_exec(c: char) -> (b: bool)
    ensures
        b == is_id_char(c),
{
    let u = c as u32;
    (('a' as u32) <= u && u <= ('z' as u32)) || (('A' as u32) <= u && u <= ('Z' as u32)) || (('0'
        as u32) <= u && u <= ('9' as u32)) || c == '_' || c == '-'
}

fn ws_prefix_chars() -> (v: Vec<char>)
    ensures
        v@ == ws_prefix(),
{
    let mut v: Vec<char> = Vec::new();
    v.push('w');
    v.push('s');
    v.push(':');
    v.push('/');
    v.push('/');
    v.push('1');
    v.push('2');
    v.push('7');
    v.push('.');
    v.push('0');
    v.push('.');
    v.push('0');
    v.push('.');
    v.push('1');
    v.push(':');
    proof {
        assert(v@ =~= ws_prefix());
    }
    v
}

fn devtools_infix_chars() -> (v: Vec<char>)
    ensures
        v@ == devtools_infix(),
{
    let mut v: Vec<char> = Vec::new();
    v.push('/');
    v.push('d');
    v.push('e');
    v.push('v');
    v.push('t');
    v.push('o');
    v.push('o');
    v.push('l');
    v.push('s');
    v.push('/');
    v.push('b');
    v.push('r');
    v.push('o');
    v.push('w');
    v.push('s');
    v.push('e');
    v.push('r');
    v.push('/');
    proof {
        assert(v@ =~= devtools_infix());
    }
    v
}

/// The end of the maximal digit run starting at `j`.
fn scan_digits(line: &str, j: usize, n: usize) -> (e: usize)
    requires
        n == line@.len(),
        j <= n,
    ensures
        j <= e <= n,
        e as int == j + digit_run(line@, j as int),
{
    let mut k: usize = j;
    while k < n && is_digit_exec(line.get_char(k))
        invariant
            n == line@.len(),
            j <= k <= n,
            digit_run(line@, j as int) == (k - j) + digit_run(line@, k as int),
        decreases n - k,
    {
        k = k + 1;
    }
    proof {
        assert(digit_run(line@, k as int) == 0);
    }
    k
}

/// The end of the maximal identifier run starting at `j`.
fn scan_id(line: &str, j: usize, n: usize) -> (e: usize)
    requires
        n == line@.len(),
        j <= n,
    ensures
        j <= e <= n,
        e as int == j + id_run(line@, j as int),
{
    let mut k: usize = j;
    while k < n && is_id_exec(line.get_char(k))
        invariant
            n == line@.len(),
            j <= k <= n,
            id_run(line@, j as int) == (k - j) + id_run(line@, k as int),
        decreases n - k,
    {
        k = k + 1;
    }
    proof {
        assert(id_run(line@, k as int) == 0);
    }
    k
}

/// Checks the fixed character sequence `expect` against `line` at `i`.
fn matches_fixed_at(line: &str, i: usize, n: usize, expect: &Vec<char>) -> (b: bool)
    requires
        n == line@.len(),
        i + expect@.len() <= n,
    ensures
        b == (line@.subrange(i as int, i + expect@.len()) == expect@),
{
    let m: usize = expect.len();
    let mut k: usize = 0;
    while k < m
        invariant
            n == line@.len(),
            m == expect@.len(),
            i + m <= n,
            k <= m,
            forall|q: int| 0 <= q < k ==> line@[i + q] == expect@[q],
        decreases m - k,
    {
        if line.get_char(i + k) != expect[k] {
            proof {
                assert(line@.subrange(i as int, i + expect@.len())[k as int] != expect@[k as int]);
            }
            return false;
        }
        k = k + 1;
    }
    proof {
        assert(line@.subrange(i as int, i + expect@.len()) =~= expect@);
    }
    true
}

/// Decides whether an endpoint occurrence starts at `i`, and where it ends.
fn try_match_at(line: &str, i: usize, n: usize) -> (r: Option<usize>)
    requires
        n == line@.len(),
        i <= n,
    ensures
        r is Some <==> match_at(line@, i as int),
        r matches Some(e) ==> i < e <= n && e as int == match_end(line@, i as int),
{
    if n - i < 15 {
        return None;
    }
    let pre = ws_prefix_chars();
    if !matches_fixed_at(line, i, n, &pre) {
        return None;
    }
    let dend: usize = scan_digits(line, i + 15, n);
    proof {
        lemma_digit_run(line@, i + 15);
    }
    if dend == i + 15 {
        return None;
    }
    if n - dend < 18 {
        return None;
    }
    let infix = devtools_infix_chars();
    if !matches_fixed_at(line, dend, n, &infix) {
        return None;
    }
    let idend: usize = scan_id(line, dend + 18, n);
    proof {
        lemma_id_run(line@, dend + 18);
    }
    if idend == dend + 18 {
        return None;
    }
    Some(idend)
}

/// Scans one diagnostic line for a debugging endpoint. Returns the first
/// occurrence in the line — a later occurrence on the same line is ignored —
/// or nothing where the line holds none.
pub fn find_endpoint(line: &str) -> (r: Option<String>)
    ensures
        match r {
            Some(u) => spec_find_endpoint(line@) == Some(u@),
            None => spec_find_endpoint(line@) is None,
        },
{
    let n: usize = line.unicode_len();
    let mut i: usize = 0;
    while i < n
        invariant
            n == line@.len(),
            i <= n,
            forall|k: int| 0 <= k < i ==> !match_at(line@, k),
        decreases n - i,
    {
        match try_match_at(line, i, n) {
            Some(e) => {
                proof {
                    lemma_first_match_skip(line@, 0, i as int);
                    assert(first_match_from(line@, i as int) == i as int);
                }
                let u = line.substring_char(i, e);
                return Some(u.to_owned());
            },
            None => {},
        }
        i = i + 1;
    }
    proof {
        lemma_first_match_skip(line@, 0, n as int);
        assert(first_match_from(line@, n as int) == n as int);
    }
    None
}

/// Replaying the scan over a recorded stream: the first endpoint of the
/// first line that announces one, exactly what the concurrent extractor
/// publishes to the shared slot.
pub fn scan_lines(lines: &Vec<String>) -> (r: Option<String>)
    ensures
        match r {
            Some(u) => spec_scan(lines@.map_values(|l: String| l@)) == Some(u@),
            None => spec_scan(lines@.map_values(|l: String| l@)) is None,
        },
{
    let ghost views = lines@.map_values(|l: String| l@);
    let m: usize = lines.len();
    let mut i: usize = 0;
    while i < m
        invariant
            m == lines@.len(),
            i <= m,
            views == lines@.map_values(|l: String| l@),
            forall|k: int| 0 <= k < i ==> spec_find_endpoint(views[k]) is None,
        decreases m - i,
    {
        match find_endpoint(lines[i].as_str()) {
            Some(u) => {
                proof {
                    lemma_scan_skip(views, i as int);
                }
                return Some(u);
            },
            None => {},
        }
        i = i + 1;
    }
    proof {
        lemma_scan_skip(views, m as int);
    }
    None
}

/// Lines without an endpoint at the head of the stream do not change what
/// the scan yields.
proof fn lemma_scan_skip(lines: Seq<Seq<char>>, i: int)
    requires
        0 <= i <= lines.len(),
        forall|k: int| 0 <= k < i ==> spec_find_endpoint(lines[k]) is None,
    ensures
        spec_scan(lines) == spec_scan(lines.subrange(i, lines.len() as int)),
    decreases i,
{
    if i > 0 {
        assert(spec_find_endpoint(lines[0]) is None);
        let rest = lines.drop_first();
        assert(spec_scan(lines) == spec_scan(rest));
        assert(forall|k: int| 0 <= k < i - 1 ==> spec_find_endpoint(rest[k]) is None);
        lemma_scan_skip(rest, i - 1);
        assert(rest.subrange(i - 1, rest.len() as int) =~= lines.subrange(i, lines.len() as int));
    } else {
        assert(lines.subrange(0, lines.len() as int) =~= lines);
    }
}

/// First match wins across the stream: where line `i` announces an endpoint
/// and no earlier line does, the scan yields line `i`'s first endpoint —
/// whatever any later line, endpoint-bearing or not, holds.
pub proof fn lemma_first_endpoint_wins(lines: Seq<Seq<char>>, i: int)
    requires
        0 <= i < lines.len(),
        spec_find_endpoint(lines[i]) is Some,
        forall|k: int| 0 <= k < i ==> spec_find_endpoint(lines[k]) is None,
    ensures
        spec_scan(lines) == spec_find_endpoint(lines[i]),
{
    lemma_scan_skip(lines, i);
    let rest = lines.subrange(i, lines.len() as int);
    assert(rest[0] == lines[i]);
    assert(spec_scan(rest) == spec_find_endpoint(lines[i]));
}

} // verus!

