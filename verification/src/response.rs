//! Verified parsing of completed AT response frames.
//!
//! A completed frame (as the digester hands it over) is matched against
//! the exact shape each negotiation step expects: an identifier echo, or
//! a `"\r\n<NAME>: "` prefix, parameters, and the `"\r\n\r\nOK\r\n"`
//! tail. Integer parameters are decimal digit runs of at most nine
//! digits, so every accepted value fits comfortably in an `i32`.

use vstd::prelude::*;

verus! {

/// `s` starts with `t`.
pub open spec fn starts_with(s: Seq<u8>, t: Seq<u8>) -> bool {
    t.len() <= s.len() && s.take(t.len() as int) == t
}

/// An ASCII decimal digit.
pub open spec fn is_digit(b: u8) -> bool {
    48 <= b <= 57
}

/// The value of a digit run, most significant digit first.
pub open spec fn digits_val(s: Seq<u8>) -> int
    decreases s.len(),
{
    if s.len() == 0 {
        0
    } else {
        digits_val(s.drop_last()) * 10 + (s.last() - 48)
    }
}

/// How many digits `s` opens with.
pub open spec fn digit_run(s: Seq<u8>) -> int
    decreases s.len(),
{
    if s.len() == 0 || !is_digit(s[0]) {
        0
    } else {
        1 + digit_run(s.skip(1))
    }
}

/// Ten to the `n`th.
pub open spec fn pow10(n: nat) -> int
    decreases n,
{
    if n == 0 {
        1
    } else {
        10 * pow10((n - 1) as nat)
    }
}

/// The tail every information response ends in: `"\r\n\r\nOK\r\n"`.
pub open spec fn info_tail() -> Seq<u8> {
    seq![13u8, 10u8, 13u8, 10u8, 79u8, 75u8, 13u8, 10u8]
}

/// The two-integer information frame `prefix ++ d1 "," d2 ++ tail`, e.g.
/// `"\r\n+CSQ: 22,0\r\n\r\nOK\r\n"`: the values of the two digit runs,
/// or nothing if the frame has any other shape.
pub open spec fn parse_two_int_frame(resp: Seq<u8>, prefix: Seq<u8>) -> Option<(int, int)> {
    if !starts_with(resp, prefix) {
        None
    } else {
        let rest = resp.skip(prefix.len() as int);
        let n1: int = digit_run(rest);
        if n1 == 0 || n1 > 9 {
            None
        } else {
            let after1 = rest.skip(n1);
            if after1.len() == 0 || after1[0] != 44 {
                None
            } else {
                let rest2 = after1.skip(1);
                let n2: int = digit_run(rest2);
                if n2 == 0 || n2 > 9 {
                    None
                } else if rest2.skip(n2) != info_tail() {
                    None
                } else {
                    Some((digits_val(rest.take(n1)), digits_val(rest2.take(n2))))
                }
            }
        }
    }
}

/// The string information frame `prefix ++ payload ++ tail`, e.g.
/// `"\r\n+ICCID: 89882390xxx\r\n\r\nOK\r\n"`: the non-empty payload, or
/// nothing if the frame has any other shape.
pub open spec fn parse_payload_frame(resp: Seq<u8>, prefix: Seq<u8>) -> Option<Seq<u8>> {
    if starts_with(resp, prefix) && resp.len() > prefix.len() + info_tail().len() && resp.skip(
        resp.len() - info_tail().len(),
    ) == info_tail() {
        Some(resp.subrange(prefix.len() as int, resp.len() - info_tail().len()))
    } else {
        None
    }
}

proof fn lemma_digit_run_char(s: Seq<u8>, k: int)
    requires
        0 <= k <= s.len(),
        forall|m: int| 0 <= m < k ==> is_digit(#[trigger] s[m]),
        k == s.len() || !is_digit(s[k]),
    ensures
        digit_run(s) == k,
    decreases k,
{
    if k > 0 {
        lemma_digit_run_char(s.skip(1), k - 1);
    }
}

proof fn lemma_digits_val_bound(s: Seq<u8>)
    requires
        forall|m: int| 0 <= m < s.len() ==> is_digit(#[trigger] s[m]),
    ensures
        0 <= digits_val(s) < pow10(s.len()),
    decreases s.len(),
{
    if s.len() > 0 {
        lemma_digits_val_bound(s.drop_last());
    }
}

proof fn lemma_pow10_le(i: nat, j: nat)
    requires
        i <= j,
    ensures
        1 <= pow10(i) <= pow10(j),
    decreases j,
{
    if i == j {
        lemma_pow10_pos(i);
    } else {
        lemma_pow10_le(i, (j - 1) as nat);
    }
}

proof fn lemma_pow10_pos(n: nat)
    ensures
        pow10(n) >= 1,
    decreases n,
{
    if n > 0 {
        lemma_pow10_pos((n - 1) as nat);
    }
}

/// Whether `s` opens with `t`, compared bytewise.
fn has_prefix(s: &[u8], t: &[u8]) -> (b: bool)
    ensures
        b == starts_with(s@, t@),
{
    let tlen: usize = t.len();
    if tlen > s.len() {
        return false;
    }
    let mut i: usize = 0;
    while i < tlen
        invariant
            i <= tlen,
            tlen == t@.len(),
            tlen <= s@.len(),
            forall|k: int| 0 <= k < i ==> s@[k] == t@[k],
        decreases tlen - i,
    {
        if s[i] != t[i] {
            proof {
                assert(!starts_with(s@, t@)) by {
                    if starts_with(s@, t@) {
                        assert(s@.take(t@.len() as int)[i as int] == t@[i as int]);
                    }
                }
            }
            return false;
        }
        i += 1;
    }
    proof {
        assert(s@.take(t@.len() as int) =~= t@);
    }
    true
}

/// Whether the bytes of `s` from `from` on equal `t` exactly.
fn skip_equals(s: &[u8], from: usize, t: &[u8]) -> (b: bool)
    requires
        from <= s@.len(),
    ensures
        b == (s@.skip(from as int) == t@),
{
    let slen: usize = s.len();
    let tlen: usize = t.len();
    if slen - from != tlen {
        proof {
            assert(s@.skip(from as int).len() != t@.len());
        }
        return false;
    }
    let mut i: usize = 0;
    while i < tlen
        invariant
            i <= tlen,
            tlen == t@.len(),
            slen == s@.len(),
            from + tlen == slen,
            forall|k: int| 0 <= k < i ==> s@[from + k] == t@[k],
        decreases tlen - i,
    {
        if s[from + i] != t[i] {
            proof {
                assert(!(s@.skip(from as int) == t@)) by {
                    if s@.skip(from as int) == t@ {
                        assert(s@.skip(from as int)[i as int] == t@[i as int]);
                    }
                }
            }
            return false;
        }
        i += 1;
    }
    proof {
        assert(s@.skip(from as int) =~= t@);
    }
    true
}

/// The length of the digit run opening at `from`.
fn scan_digits(s: &[u8], from: usize) -> (k: usize)
    requires
        from <= s@.len(),
    ensures
        from + k <= s@.len(),
        k == digit_run(s@.skip(from as int)),
{
    let slen: usize = s.len();
    let mut k: usize = 0;
    while from + k < slen && 48 <= s[from + k] && s[from + k] <= 57
        invariant
            from + k <= slen,
            slen == s@.len(),
            forall|m: int| 0 <= m < k ==> is_digit(#[trigger] s@.skip(from as int)[m]),
        decreases slen - from - k,
    {
        k += 1;
    }
    proof {
        lemma_digit_run_char(s@.skip(from as int), k as int);
    }
    k
}

/// The value of the digit run `s[from .. from + n]`.
fn read_value(s: &[u8], from: usize, n: usize) -> (v: i32)
    requires
        from + n <= s@.len(),
        n <= 9,
        forall|m: int| from <= m < from + n ==> is_digit(#[trigger] s@[m]),
    ensures
        0 <= v == digits_val(s@.subrange(from as int, from + n)),
{
    let ghost d = s@.subrange(from as int, from + n);
    let slen: usize = s.len();
    let mut v: i32 = 0;
    let mut j: usize = 0;
    while j < n
        invariant
            j <= n,
            n <= 9,
            slen == s@.len(),
            from + n <= s@.len(),
            forall|m: int| from <= m < from + n ==> is_digit(#[trigger] s@[m]),
            d == s@.subrange(from as int, from + n),
            v == digits_val(d.take(j as int)),
            0 <= v,
        decreases n - j,
    {
        proof {
            assert forall|m: int| 0 <= m < d.len() implies is_digit(#[trigger] d[m]) by {
                assert(d[m] == s@[from + m]);
            }
            lemma_digits_val_bound(d.take(j as int));
            lemma_pow10_le((j as nat), 8nat);
            reveal_with_fuel(pow10, 10);
            assert(v < 100000000);
        }
        let b: u8 = s[from + j];
        proof {
            assert(d.take(j as int + 1).drop_last() =~= d.take(j as int));
            assert(d.take(j as int + 1).last() == d[j as int] == s@[from + j]);
        }
        v = v * 10 + ((b - 48) as i32);
        j += 1;
    }
    proof {
        assert(d.take(n as int) =~= d);
    }
    v
}

/// Parse a two-integer information frame, exactly as
/// [`parse_two_int_frame`] reads it.
pub fn parse_two_ints(resp: &[u8], prefix: &[u8]) -> (r: Option<(i32, i32)>)
    ensures
        r is None <==> parse_two_int_frame(resp@, prefix@) is None,
        r matches Some(p) ==> parse_two_int_frame(resp@, prefix@) matches Some(q) && p.0 == q.0
            && p.1 == q.1,
{
    let ghost rest = resp@.skip(prefix@.len() as int);
    if !has_prefix(resp, prefix) {
        return None;
    }
    let rlen: usize = resp.len();
    let plen: usize = prefix.len();
    let n1: usize = scan_digits(resp, plen);
    proof {
        assert(resp@.skip(plen as int) == rest);
    }
    if n1 == 0 || n1 > 9 {
        return None;
    }
    proof {
        assert(plen + n1 <= rlen);
    }
    let pos1: usize = plen + n1;
    proof {
        assert(rest.skip(n1 as int) =~= resp@.skip(pos1 as int));
    }
    let ghost after1 = rest.skip(n1 as int);
    if pos1 >= resp.len() || resp[pos1] != 44 {
        proof {
            assert(after1.len() == 0 || after1[0] != 44);
        }
        return None;
    }
    proof {
        assert(after1[0] == resp@[pos1 as int]);
        assert(after1.skip(1) =~= resp@.skip(pos1 + 1));
    }
    let ghost rest2 = after1.skip(1);
    let n2: usize = scan_digits(resp, pos1 + 1);
    if n2 == 0 || n2 > 9 {
        return None;
    }
    let pos2: usize = pos1 + 1 + n2;
    proof {
        assert(rest2.skip(n2 as int) =~= resp@.skip(pos2 as int));
    }
    let mut tail: Vec<u8> = Vec::new();
    tail.push(13);
    tail.push(10);
    tail.push(13);
    tail.push(10);
    tail.push(79);
    tail.push(75);
    tail.push(13);
    tail.push(10);
    proof {
        assert(tail@ =~= info_tail());
    }
    if !skip_equals(resp, pos2, tail.as_slice()) {
        return None;
    }
    proof {
        assert forall|m: int| plen <= m < plen + n1 implies is_digit(#[trigger] resp@[m]) by {
            assert(rest[m - plen] == resp@[m]);
            assert(0 <= m - plen < digit_run(rest));
            lemma_digit_run_digits(rest, m - plen);
        }
        assert forall|m: int| pos1 + 1 <= m < pos1 + 1 + n2 implies is_digit(
            #[trigger] resp@[m],
        ) by {
            assert(rest2[m - (pos1 + 1)] == resp@[m]);
            assert(0 <= m - (pos1 + 1) < digit_run(rest2));
            lemma_digit_run_digits(rest2, m - (pos1 + 1));
        }
    }
    let v1: i32 = read_value(resp, plen, n1);
    let v2: i32 = read_value(resp, pos1 + 1, n2);
    proof {
        assert(rest.take(n1 as int) =~= resp@.subrange(plen as int, plen + n1));
        assert(rest2.take(n2 as int) =~= resp@.subrange(pos1 + 1, pos1 + 1 + n2));
    }
    Some((v1, v2))
}

proof fn lemma_digit_run_le(s: Seq<u8>)
    ensures
        0 <= digit_run(s) <= s.len(),
    decreases s.len(),
{
    if s.len() > 0 && is_digit(s[0]) {
        lemma_digit_run_le(s.skip(1));
    }
}

proof fn lemma_digit_run_digits(s: Seq<u8>, m: int)
    requires
        0 <= m < digit_run(s),
    ensures
        m < s.len(),
        is_digit(s[m]),
    decreases m,
{
    lemma_digit_run_le(s);
    if m > 0 {
        lemma_digit_run_digits(s.skip(1), m - 1);
        assert(s.skip(1)[m - 1] == s[m]);
    }
}

/// Parse a string information frame, exactly as [`parse_payload_frame`]
/// reads it.
pub fn parse_payload(resp: &[u8], prefix: &[u8]) -> (r: Option<Vec<u8>>)
    ensures
        r is None <==> parse_payload_frame(resp@, prefix@) is None,
        r matches Some(v) ==> parse_payload_frame(resp@, prefix@) matches Some(p) && v@ == p,
{
    if !has_prefix(resp, prefix) {
        return None;
    }
    let plen: usize = prefix.len();
    let rlen: usize = resp.len();
    if rlen - plen <= 8 {
        return None;
    }
    let mut tail: Vec<u8> = Vec::new();
    tail.push(13);
    tail.push(10);
    tail.push(13);
    tail.push(10);
    tail.push(79);
    tail.push(75);
    tail.push(13);
    tail.push(10);
    proof {
        assert(tail@ =~= info_tail());
    }
    if !skip_equals(resp, rlen - 8, tail.as_slice()) {
        return None;
    }
    let mut payload: Vec<u8> = Vec::new();
    let mut i: usize = plen;
    let end: usize = rlen - 8;
    while i < end
        invariant
            plen <= i <= end,
            end == rlen - 8,
            rlen == resp@.len(),
            plen + 8 < rlen,
            payload@ == resp@.subrange(plen as int, i as int),
        decreases end - i,
    {
        payload.push(resp[i]);
        proof {
            assert(resp@.subrange(plen as int, i as int) + seq![resp@[i as int]] =~= resp@.subrange(
                plen as int,
                i + 1,
            ));
        }
        i += 1;
    }
    Some(payload)
}

/// Whether the frame is exactly the expected byte sequence (used for the
/// reset step's identifier echo plus OK terminator).
pub fn frame_equals(resp: &[u8], expected: &[u8]) -> (b: bool)
    ensures
        b == (resp@ == expected@),
{
    proof {
        assert(resp@.skip(0) =~= resp@);
    }
    skip_equals(resp, 0, expected)
}

} // verus!
