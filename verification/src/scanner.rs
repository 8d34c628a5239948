//! Scanning remote output for the process-identifier announcement.
//!
//! The remote program is expected to print, on its standard output, a line
//! matching the pattern `server is on host (.*) on pid (\d+)`, compared
//! case-insensitively. Each received chunk is case-folded to lowercase
//! (bytewise ASCII) and scanned independently. The second capture group — the
//! digit run after the last ` on pid ` marker reachable on the matched line —
//! is the process identifier.
//!
//! The match is the leftmost one: the scan starts at the first occurrence of
//! the `server is on host ` prefix from which a marker and a digit can still
//! be reached on the same line. The host capture (`.*`) is greedy and does
//! not cross a line break, so the marker chosen is the last one on that line
//! that is followed by a digit, and the digit run is maximal.

use vstd::prelude::*;
use vstd::string::StringExecFns;

verus! {

/// Lowercase folding of one byte, ASCII-only.
pub open spec fn ascii_lower(b: u8) -> u8 {
    if 65 <= b && b <= 90 {
        (b + 32) as u8
    } else {
        b
    }
}

/// Bytewise ASCII lowercase folding of a chunk.
pub open spec fn lower_bytes(s: Seq<u8>) -> Seq<u8> {
    s.map_values(|b: u8| ascii_lower(b))
}

/// An ASCII decimal digit.
pub open spec fn is_ascii_digit(b: u8) -> bool {
    48 <= b && b <= 57
}

/// The fixed announcement prefix, already lowercase: `server is on host `.
pub open spec fn announce_prefix() -> Seq<u8> {
    seq![
        115, 101, 114, 118, 101, 114, 32, 105, 115, 32, 111, 110, 32, 104, 111,
        115, 116, 32,
    ]
}

/// The marker between the host capture and the digits: ` on pid `.
pub open spec fn pid_marker() -> Seq<u8> {
    seq![32, 111, 110, 32, 112, 105, 100, 32]
}

/// For a match starting at `i`: the marker stands at `j`, a digit follows
/// it, and the host gap from `i + 18` (the end of the prefix) up to `j`
/// stays on one line.
pub open spec fn tail_at(s: Seq<u8>, i: int, j: int) -> bool {
    &&& i + 18 <= j
    &&& j + 8 < s.len()
    &&& (forall|k: int| i + 18 <= k < j ==> s[k] != 10)
    &&& s.subrange(j, j + 8) == pid_marker()
    &&& is_ascii_digit(s[j + 8])
}

/// A full announcement can be matched starting at `i`.
pub open spec fn match_at(s: Seq<u8>, i: int) -> bool {
    &&& 0 <= i
    &&& i + 18 <= s.len()
    &&& s.subrange(i, i + 18) == announce_prefix()
    &&& exists|j: int| tail_at(s, i, j)
}

/// The chunk contains an announcement.
pub open spec fn has_match(s: Seq<u8>) -> bool {
    exists|i: int| match_at(s, i)
}

/// The capture taken from the chunk: the match starts at the leftmost
/// possible `i`, the marker at the greediest (largest) possible `j`, and the
/// digit run extends maximally up to `k`.
pub open spec fn capture_at(s: Seq<u8>, i: int, j: int, k: int) -> bool {
    &&& match_at(s, i)
    &&& (forall|i2: int| 0 <= i2 < i ==> !match_at(s, i2))
    &&& tail_at(s, i, j)
    &&& (forall|j2: int| j < j2 ==> !tail_at(s, i, j2))
    &&& j + 8 < k <= s.len()
    &&& (forall|t: int| j + 8 <= t < k ==> is_ascii_digit(s[t]))
    &&& (k == s.len() || !is_ascii_digit(s[k]))
}

/// The announced identifier: the digits of the capture.
pub open spec fn pid_bytes_of(s: Seq<u8>) -> Seq<u8> {
    let t = choose|t: (int, int, int)| capture_at(s, t.0, t.1, t.2);
    s.subrange(t.1 + 8, t.2)
}

/// The capture positions are unique: leftmost start, greediest marker,
/// maximal digit run.
pub proof fn lemma_capture_unique(s: Seq<u8>, a: (int, int, int), b: (int, int, int))
    requires
        capture_at(s, a.0, a.1, a.2),
        capture_at(s, b.0, b.1, b.2),
    ensures
        a == b,
{
    if a.0 < b.0 {
        assert(!match_at(s, a.0));
        assert(false);
    }
    if b.0 < a.0 {
        assert(!match_at(s, b.0));
        assert(false);
    }
    if a.1 < b.1 {
        assert(!tail_at(s, a.0, b.1));
        assert(false);
    }
    if b.1 < a.1 {
        assert(!tail_at(s, b.0, a.1));
        assert(false);
    }
    if a.2 < b.2 {
        assert(is_ascii_digit(s[a.2]));
        assert(false);
    }
    if b.2 < a.2 {
        assert(is_ascii_digit(s[b.2]));
        assert(false);
    }
}

/// No announcement fits when fewer than 27 bytes remain: the prefix, the
/// marker and one digit need that much room.
proof fn lemma_no_match_near_end(s: Seq<u8>, i: int)
    requires
        i + 27 > s.len(),
    ensures
        !match_at(s, i),
{
    if match_at(s, i) {
        let j = choose|j: int| tail_at(s, i, j);
        assert(tail_at(s, i, j));
        assert(false);
    }
}

fn lower_byte(b: u8) -> (r: u8)
    ensures
        r == ascii_lower(b),
{
    if b >= 65 && b <= 90 {
        b + 32
    } else {
        b
    }
}

/// Bytewise ASCII lowercase fold of a chunk.
pub fn lower_vec(data: &Vec<u8>) -> (r: Vec<u8>)
    ensures
        r@ == lower_bytes(data@),
{
    let mut out: Vec<u8> = Vec::new();
    let mut i: usize = 0;
    while i < data.len()
        invariant
            i <= data@.len(),
            out@.len() == i,
            forall|t: int| 0 <= t < i ==> out@[t] == ascii_lower(data@[t]),
        decreases data@.len() - i,
    {
        out.push(lower_byte(data[i]));
        i += 1;
    }
    proof {
        assert(out@ =~= lower_bytes(data@));
    }
    out
}

fn is_digit_byte(b: u8) -> (r: bool)
    ensures
        r == is_ascii_digit(b),
{
    b >= 48 && b <= 57
}

fn prefix_vec() -> (v: Vec<u8>)
    ensures
        v@ == announce_prefix(),
{
    let mut v: Vec<u8> = Vec::new();
    v.push(115);
    v.push(101);
    v.push(114);
    v.push(118);
    v.push(101);
    v.push(114);
    v.push(32);
    v.push(105);
    v.push(115);
    v.push(32);
    v.push(111);
    v.push(110);
    v.push(32);
    v.push(104);
    v.push(111);
    v.push(115);
    v.push(116);
    v.push(32);
    proof {
        assert(v@ =~= announce_prefix());
    }
    v
}

fn marker_vec() -> (v: Vec<u8>)
    ensures
        v@ == pid_marker(),
{
    let mut v: Vec<u8> = Vec::new();
    v.push(32);
    v.push(111);
    v.push(110);
    v.push(32);
    v.push(112);
    v.push(105);
    v.push(100);
    v.push(32);
    proof {
        assert(v@ =~= pid_marker());
    }
    v
}

/// Whether `pat` stands in `s` at position `i`.
fn matches_pat_at(s: &Vec<u8>, i: usize, pat: &Vec<u8>) -> (b: bool)
    requires
        i + pat@.len() <= s@.len(),
    ensures
        b == (s@.subrange(i as int, i as int + pat@.len() as int) == pat@),
{
    let sn = s.len();
    let n = pat.len();
    let mut k: usize = 0;
    while k < n
        invariant
            n == pat@.len(),
            sn == s@.len(),
            i + n <= sn,
            k <= n,
            forall|t: int| 0 <= t < k ==> s@[i + t] == pat@[t],
        decreases n - k,
    {
        if s[i + k] != pat[k] {
            proof {
                assert(s@.subrange(i as int, i as int + n as int)[k as int] == s@[i + k]);
            }
            return false;
        }
        k += 1;
    }
    proof {
        assert(s@.subrange(i as int, i as int + n as int) =~= pat@);
    }
    true
}

/// The end of the digit run that starts at `start`.
fn digit_run_end(s: &Vec<u8>, start: usize) -> (k: usize)
    requires
        start <= s@.len(),
    ensures
        start <= k <= s@.len(),
        forall|t: int| start <= t < k ==> is_ascii_digit(s@[t]),
        k == s@.len() || !is_ascii_digit(s@[k as int]),
{
    let n = s.len();
    let mut k = start;
    while k < n && is_digit_byte(s[k])
        invariant
            start <= k <= n,
            n == s@.len(),
            forall|t: int| start <= t < k ==> is_ascii_digit(s@[t]),
        decreases n - k,
    {
        k += 1;
    }
    k
}

/// The greediest marker position for a match whose prefix ends at `i + 18`,
/// where `e` is the end of that line (the first newline at or past `i + 18`,
/// or the end of the chunk).
fn search_marker(s: &Vec<u8>, i: usize, e: usize, mar: &Vec<u8>) -> (r: Option<usize>)
    requires
        i + 27 <= s@.len(),
        i + 18 <= e <= s@.len(),
        forall|k: int| i + 18 <= k < e ==> s@[k] != 10,
        e == s@.len() || s@[e as int] == 10,
        mar@ == pid_marker(),
    ensures
        r matches Some(j) ==> i + 18 <= j && tail_at(s@, i as int, j as int) && (forall|
            j2: int,
        |
            j < j2 ==> !tail_at(s@, i as int, j2)),
        r is None ==> forall|j2: int| !tail_at(s@, i as int, j2),
{
    let n = s.len();
    let jmax: usize = if e <= n - 9 {
        e
    } else {
        n - 9
    };
    proof {
        assert(pid_marker().len() == 8);
        assert forall|j2: int| jmax < j2 implies !tail_at(s@, i as int, j2) by {
            if tail_at(s@, i as int, j2) {
                if j2 > n - 9 {
                    assert(j2 + 8 < n);
                    assert(false);
                } else {
                    assert(e < j2);
                    assert(s@[e as int] != 10);
                    assert(false);
                }
            }
        }
    }
    let mut j: usize = jmax;
    loop
        invariant
            n == s@.len(),
            i + 27 <= n,
            i + 18 <= j <= jmax,
            jmax <= n - 9,
            i + 18 <= e <= n,
            mar@ == pid_marker(),
            forall|k: int| i + 18 <= k < e ==> s@[k] != 10,
            jmax <= e,
            forall|j2: int| j < j2 ==> !tail_at(s@, i as int, j2),
        decreases j,
    {
        if matches_pat_at(s, j, mar) && is_digit_byte(s[j + 8]) {
            proof {
                assert(tail_at(s@, i as int, j as int));
            }
            return Some(j);
        }
        proof {
            assert(!tail_at(s@, i as int, j as int));
        }
        if j == i + 18 {
            proof {
                assert forall|j2: int| !tail_at(s@, i as int, j2) by {
                    if tail_at(s@, i as int, j2) {
                        assert(i as int + 18 <= j2);
                        assert(false);
                    }
                }
            }
            return None;
        }
        j -= 1;
    }
}

/// Finds the capture in an already lowercased chunk and returns the digit
/// range of the identifier.
pub fn find_announcement(s: &Vec<u8>) -> (r: Option<(usize, usize)>)
    ensures
        r is Some <==> has_match(s@),
        r matches Some(p) ==> p.0 < p.1 <= s@.len() && s@.subrange(p.0 as int, p.1 as int)
            == pid_bytes_of(s@) && (forall|t: int| p.0 <= t < p.1 ==> is_ascii_digit(s@[t])),
{
    let n = s.len();
    proof {
        assert(announce_prefix().len() == 18);
    }
    if n < 27 {
        proof {
            assert forall|i2: int| !match_at(s@, i2) by {
                if 0 <= i2 {
                    lemma_no_match_near_end(s@, i2);
                }
            }
        }
        return None;
    }
    let pre = prefix_vec();
    let mar = marker_vec();
    let mut i: usize = 0;
    while i <= n - 27
        invariant
            n == s@.len(),
            27 <= n,
            i <= n,
            pre@ == announce_prefix(),
            mar@ == pid_marker(),
            forall|i2: int| 0 <= i2 < i ==> !match_at(s@, i2),
        decreases n - i,
    {
        if matches_pat_at(s, i, &pre) {
            let mut e: usize = i + 18;
            while e < n && s[e] != 10
                invariant
                    n == s@.len(),
                    i + 18 <= e <= n,
                    forall|k: int| i + 18 <= k < e ==> s@[k] != 10,
                decreases n - e,
            {
                e += 1;
            }
            match search_marker(s, i, e, &mar) {
                Some(j) => {
                    let k = digit_run_end(s, j + 9);
                    proof {
                        assert(match_at(s@, i as int));
                        let tt: (int, int, int) = (i as int, j as int, k as int);
                        assert(capture_at(s@, tt.0, tt.1, tt.2));
                        let c = choose|t: (int, int, int)| capture_at(s@, t.0, t.1, t.2);
                        lemma_capture_unique(s@, c, tt);
                        assert(pid_bytes_of(s@) =~= s@.subrange(j as int + 8, k as int));
                    }
                    return Some((j + 8, k));
                },
                None => {
                    proof {
                        assert(!match_at(s@, i as int));
                    }
                },
            }
        } else {
            proof {
                assert(!match_at(s@, i as int));
            }
        }
        i += 1;
    }
    proof {
        assert forall|i2: int| !match_at(s@, i2) by {
            if 0 <= i2 < i {
                assert(!match_at(s@, i2));
            } else if i2 >= i {
                lemma_no_match_near_end(s@, i2);
            }
        }
    }
    None
}

/// Scans one raw chunk: case-folds it and extracts the announced identifier,
/// if the chunk holds an announcement.
pub fn scan_chunk(data: &Vec<u8>) -> (r: Option<Vec<u8>>)
    ensures
        r is Some <==> has_match(lower_bytes(data@)),
        r matches Some(p) ==> p@ == pid_bytes_of(lower_bytes(data@)) && p@.len() > 0 && (forall|
            t: int,
        |
            0 <= t < p@.len() ==> is_ascii_digit(p@[t])),
{
    let low = lower_vec(data);
    match find_announcement(&low) {
        None => None,
        Some((a, b)) => {
            let mut out: Vec<u8> = Vec::new();
            let mut t = a;
            while t < b
                invariant
                    a <= t <= b,
                    b <= low@.len(),
                    out@ == low@.subrange(a as int, t as int),
                decreases b - t,
            {
                let x = low[t];
                out.push(x);
                proof {
                    assert(out@ =~= low@.subrange(a as int, t as int + 1));
                }
                t += 1;
            }
            Some(out)
        },
    }
}

/// A digit byte as the character it prints as.
pub open spec fn digit_char(b: u8) -> char {
    if b == 48 {
        '0'
    } else if b == 49 {
        '1'
    } else if b == 50 {
        '2'
    } else if b == 51 {
        '3'
    } else if b == 52 {
        '4'
    } else if b == 53 {
        '5'
    } else if b == 54 {
        '6'
    } else if b == 55 {
        '7'
    } else if b == 56 {
        '8'
    } else {
        '9'
    }
}

/// The characters of a digit-byte run.
pub open spec fn pid_chars(s: Seq<u8>) -> Seq<char> {
    s.map_values(|b: u8| digit_char(b))
}

/// A decimal-digit character.
pub open spec fn is_digit_char(c: char) -> bool {
    c == '0' || c == '1' || c == '2' || c == '3' || c == '4' || c == '5' || c == '6' || c == '7'
        || c == '8' || c == '9'
}

/// Renders a run of digit bytes as the decimal string they spell.
pub fn pid_to_string(digits: &Vec<u8>) -> (r: String)
    requires
        forall|t: int| 0 <= t < digits@.len() ==> is_ascii_digit(digits@[t]),
    ensures
        r@ == pid_chars(digits@),
        r@.len() == digits@.len(),
        forall|t: int| 0 <= t < r@.len() ==> is_digit_char(r@[t]),
{
    let mut out = String::new();
    let mut i: usize = 0;
    while i < digits.len()
        invariant
            i <= digits@.len(),
            forall|t: int| 0 <= t < digits@.len() ==> is_ascii_digit(digits@[t]),
            out@.len() == i,
            forall|t: int| 0 <= t < i ==> out@[t] == digit_char(digits@[t]),
        decreases digits@.len() - i,
    {
        let b = digits[i];
        if b == 48 {
            out.append("0");
        } else if b == 49 {
            out.append("1");
        } else if b == 50 {
            out.append("2");
        } else if b == 51 {
            out.append("3");
        } else if b == 52 {
            out.append("4");
        } else if b == 53 {
            out.append("5");
        } else if b == 54 {
            out.append("6");
        } else if b == 55 {
            out.append("7");
        } else if b == 56 {
            out.append("8");
        } else {
            out.append("9");
        }
        proof {
            reveal_strlit("0");
            reveal_strlit("1");
            reveal_strlit("2");
            reveal_strlit("3");
            reveal_strlit("4");
            reveal_strlit("5");
            reveal_strlit("6");
            reveal_strlit("7");
            reveal_strlit("8");
            reveal_strlit("9");
        }
        i += 1;
    }
    proof {
        assert(out@ =~= pid_chars(digits@));
    }
    out
}

/// Two chunks that differ only in ASCII letter case.
pub open spec fn same_up_to_case(a: Seq<u8>, b: Seq<u8>) -> bool {
    a.len() == b.len() && (forall|i: int| 0 <= i < a.len() ==> ascii_lower(a[i]) == ascii_lower(
        b[i],
    ))
}

/// Law: scanning is case-insensitive. Two chunks that are byte-identical
/// except for ASCII letter case fold to the same bytes, so one holds an
/// announcement exactly when the other does, and they announce the same
/// identifier.
pub proof fn lemma_scan_ignores_case(a: Seq<u8>, b: Seq<u8>)
    requires
        same_up_to_case(a, b),
    ensures
        lower_bytes(a) == lower_bytes(b),
        has_match(lower_bytes(a)) == has_match(lower_bytes(b)),
        pid_bytes_of(lower_bytes(a)) == pid_bytes_of(lower_bytes(b)),
{
    assert(lower_bytes(a) =~= lower_bytes(b));
}

} // verus!
