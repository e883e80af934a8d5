//! Parsing of the remote move service's reply. The reply is a JSON object
//! whose `bestmove` field holds text of the shape
//! `"bestmove <from><to>... <continuation...>"`; only the second
//! space-separated token's first four characters (two two-character square
//! codes) are consumed. Any deviation from this shape is a parse failure,
//! reported as `None` rather than aborting the session.

use vstd::prelude::*;

verus! {

/// The byte `"`.
pub const QUOTE: u8 = 34;

/// The byte `:`.
pub const COLON: u8 = 58;

/// The byte of a space.
pub const SPACE: u8 = 32;

/// The byte `a`.
pub const LOWER_A: u8 = 97;

/// The byte `h`.
pub const LOWER_H: u8 = 104;

/// The byte `1`.
pub const DIGIT_1: u8 = 49;

/// The byte `8`.
pub const DIGIT_8: u8 = 56;


/// JSON whitespace.
pub open spec fn is_ws(c: u8) -> bool {
    c == 32 || c == 9 || c == 10 || c == 13
}

/// Whether the ten bytes of the quoted key `"bestmove"` stand at `i`.
pub open spec fn key_at(s: Seq<u8>, i: int) -> bool {
    &&& 0 <= i && i + 10 <= s.len()
    &&& s[i] == QUOTE && s[i + 1] == 98 && s[i + 2] == 101 && s[i + 3] == 115 && s[i + 4]
        == 116
    &&& s[i + 5] == 109 && s[i + 6] == 111 && s[i + 7] == 118 && s[i + 8] == 101 && s[i + 9]
        == QUOTE
}

/// The first position at or after `i` where the quoted key stands.
pub open spec fn find_key_from(s: Seq<u8>, i: int) -> Option<int>
    decreases s.len() - i,
{
    if i + 10 > s.len() {
        None
    } else if key_at(s, i) {
        Some(i)
    } else {
        find_key_from(s, i + 1)
    }
}

/// The first position at or after `i` holding a byte that is not JSON
/// whitespace (the length if none is).
pub open spec fn skip_ws_from(s: Seq<u8>, i: int) -> int
    decreases s.len() - i,
{
    if 0 <= i < s.len() && is_ws(s[i]) {
        skip_ws_from(s, i + 1)
    } else {
        i
    }
}

/// The first position at or after `i` holding the byte `c`.
pub open spec fn find_byte_from(s: Seq<u8>, c: u8, i: int) -> Option<int>
    decreases s.len() - i,
{
    if i >= s.len() {
        None
    } else if s[i] == c {
        Some(i)
    } else {
        find_byte_from(s, c, i + 1)
    }
}

/// The raw bytes of the `bestmove` field's string value: after the first
/// occurrence of the quoted key come optional whitespace, a colon, optional
/// whitespace and a quoted string, which runs to the next quote.
pub open spec fn bestmove_value(s: Seq<u8>) -> Option<Seq<u8>> {
    match find_key_from(s, 0) {
        None => None,
        Some(k) => {
            let c = skip_ws_from(s, k + 10);
            if c < s.len() && s[c] == COLON {
                let q = skip_ws_from(s, c + 1);
                if q < s.len() && s[q] == QUOTE {
                    match find_byte_from(s, QUOTE, q + 1) {
                        None => None,
                        Some(e) => Some(s.subrange(q + 1, e)),
                    }
                } else {
                    None
                }
            } else {
                None
            }
        },
    }
}

/// The second token of a space-separated text: from just after the first
/// space to the next space or the end. `None` when there is no space.
pub open spec fn second_token(v: Seq<u8>) -> Option<Seq<u8>> {
    match find_byte_from(v, SPACE, 0) {
        None => None,
        Some(sp) => {
            let end = match find_byte_from(v, SPACE, sp + 1) {
                None => v.len() as int,
                Some(e) => e,
            };
            Some(v.subrange(sp + 1, end))
        },
    }
}

/// Whether two bytes spell a board square: a file letter `a..h` then a rank
/// digit `1..8`.
pub open spec fn is_square_text(c0: u8, c1: u8) -> bool {
    LOWER_A <= c0 <= LOWER_H && DIGIT_1 <= c1 <= DIGIT_8
}

/// The index of the square spelled by two such bytes.
pub open spec fn square_index(c0: u8, c1: u8) -> int {
    (c1 - DIGIT_1) * 8 + (c0 - LOWER_A)
}

/// What a reply body parses to: the source and destination square indexes of
/// the first four characters of the second token of the `bestmove` value, or
/// `None` wherever the body deviates from that shape.
pub open spec fn spec_parse_response(s: Seq<u8>) -> Option<(int, int)> {
    match bestmove_value(s) {
        None => None,
        Some(v) => match second_token(v) {
            None => None,
            Some(t) => {
                if t.len() >= 4 && is_square_text(t[0], t[1]) && is_square_text(t[2], t[3]) {
                    Some((square_index(t[0], t[1]), square_index(t[2], t[3])))
                } else {
                    None
                }
            },
        },
    }
}

/// Find the first occurrence of the quoted `bestmove` key.
fn find_key(s: &[u8]) -> (r: Option<usize>)
    ensures
        r matches Some(i) ==> find_key_from(s@, 0) == Some(i as int) && key_at(s@, i as int),
        r is None ==> find_key_from(s@, 0) is None,
{
    let n = s.len();
    let mut i: usize = 0;
    while n >= 10 && i <= n - 10
        invariant
            n == s@.len(),
            i <= n,
            find_key_from(s@, 0) == find_key_from(s@, i as int),
        decreases n - i,
    {
        if s[i] == QUOTE && s[i + 1] == 98 && s[i + 2] == 101 && s[i + 3] == 115 && s[i + 4]
            == 116 && s[i + 5] == 109 && s[i + 6] == 111 && s[i + 7] == 118 && s[i + 8] == 101
            && s[i + 9] == QUOTE {
            assert(key_at(s@, i as int));
            return Some(i);
        }
        assert(!key_at(s@, i as int));
        assert(find_key_from(s@, i as int) == find_key_from(s@, i + 1));
        i += 1;
    }
    assert(i + 10 > n);
    assert(find_key_from(s@, i as int) is None);
    None
}

/// Skip JSON whitespace from `from`.
fn skip_ws(s: &[u8], from: usize) -> (r: usize)
    requires
        from <= s@.len(),
    ensures
        r as int == skip_ws_from(s@, from as int),
        from <= r <= s@.len(),
{
    let n = s.len();
    let mut i: usize = from;
    while i < n && (s[i] == 32 || s[i] == 9 || s[i] == 10 || s[i] == 13)
        invariant
            n == s@.len(),
            from <= i <= n,
            skip_ws_from(s@, from as int) == skip_ws_from(s@, i as int),
        decreases n - i,
    {
        assert(is_ws(s@[i as int]));
        assert(skip_ws_from(s@, i as int) == skip_ws_from(s@, i + 1));
        i += 1;
    }
    assert(skip_ws_from(s@, i as int) == i as int);
    i
}

/// Find the first occurrence of `c` at or after `from`.
fn find_byte(s: &[u8], c: u8, from: usize) -> (r: Option<usize>)
    requires
        from <= s@.len(),
    ensures
        r matches Some(i) ==> find_byte_from(s@, c, from as int) == Some(i as int) && from <= i
            < s@.len(),
        r is None ==> find_byte_from(s@, c, from as int) is None,
{
    let n = s.len();
    let mut i: usize = from;
    while i < n
        invariant
            n == s@.len(),
            from <= i <= n,
            find_byte_from(s@, c, from as int) == find_byte_from(s@, c, i as int),
        decreases n - i,
    {
        if s[i] == c {
            return Some(i);
        }
        assert(find_byte_from(s@, c, i as int) == find_byte_from(s@, c, i + 1));
        i += 1;
    }
    None
}

/// Copy the byte range `[from, to)` out of a slice.
fn copy_range(s: &[u8], from: usize, to: usize) -> (r: Vec<u8>)
    requires
        from <= to <= s@.len(),
    ensures
        r@ == s@.subrange(from as int, to as int),
{
    let mut v: Vec<u8> = Vec::new();
    let mut i: usize = from;
    while i < to
        invariant
            from <= i <= to <= s@.len(),
            v@ == s@.subrange(from as int, i as int),
        decreases to - i,
    {
        v.push(s[i]);
        assert(v@ =~= s@.subrange(from as int, i + 1));
        i += 1;
    }
    v
}

/// Parse a two-character square code into its square index.
fn parse_square(c0: u8, c1: u8) -> (r: Option<u8>)
    ensures
        r matches Some(i) ==> is_square_text(c0, c1) && i as int == square_index(c0, c1) && i < 64,
        r is None ==> !is_square_text(c0, c1),
{
    if LOWER_A <= c0 && c0 <= LOWER_H && DIGIT_1 <= c1 && c1 <= DIGIT_8 {
        Some((c1 - DIGIT_1) * 8 + (c0 - LOWER_A))
    } else {
        None
    }
}

/// Parse a reply body into the (source, destination) square indexes of the
/// move it carries; `None` exactly when the body deviates from the expected
/// shape.
pub fn parse_engine_response(body: &[u8]) -> (r: Option<(u8, u8)>)
    ensures
        r matches Some(m) ==> spec_parse_response(body@) == Some((m.0 as int, m.1 as int)) && m.0
            < 64 && m.1 < 64,
        r is None ==> spec_parse_response(body@) is None,
{
    let n = body.len();
    let k = match find_key(body) {
        None => {
            return None;
        },
        Some(k) => k,
    };
    assert(k + 10 <= n);
    let c = skip_ws(body, k + 10);
    if c >= body.len() || body[c] != COLON {
        return None;
    }
    let q = skip_ws(body, c + 1);
    if q >= body.len() || body[q] != QUOTE {
        return None;
    }
    let e = match find_byte(body, QUOTE, q + 1) {
        None => {
            return None;
        },
        Some(e) => e,
    };
    let value = copy_range(body, q + 1, e);
    let ghost v = body@.subrange(q + 1, e as int);
    assert(bestmove_value(body@) == Some(v));
    let sp = match find_byte(value.as_slice(), SPACE, 0) {
        None => {
            return None;
        },
        Some(sp) => sp,
    };
    let end = match find_byte(value.as_slice(), SPACE, sp + 1) {
        None => value.len(),
        Some(e2) => e2,
    };
    let tok = copy_range(value.as_slice(), sp + 1, end);
    let ghost t = v.subrange(sp + 1, end as int);
    assert(second_token(v) == Some(t));
    assert(tok@ == t);
    if tok.len() < 4 {
        return None;
    }
    let from = match parse_square(tok[0], tok[1]) {
        None => {
            return None;
        },
        Some(f) => f,
    };
    let to = match parse_square(tok[2], tok[3]) {
        None => {
            return None;
        },
        Some(t2) => t2,
    };
    Some((from, to))
}

} // verus!
