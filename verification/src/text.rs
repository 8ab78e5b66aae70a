//! Text forms of numbers and byte strings: decimal, lowercase hex and base58.
use base64::Engine;
use vstd::prelude::*;
use vstd::string::{StrSliceExecFns, StringExecFns};
use vstd::utf8::is_ascii_chars;

verus! {

/// The character of a decimal digit.
pub open spec fn decimal_digit(d: int) -> char {
    (48 + d) as char
}

/// The decimal digits of `n`, most significant first, with no leading zero
/// (`"0"` for zero).
pub open spec fn spec_decimal(n: nat) -> Seq<char>
    decreases n,
{
    if n < 10 {
        seq![decimal_digit(n as int)]
    } else {
        spec_decimal(n / 10).push(decimal_digit((n % 10) as int))
    }
}

/// The lowercase character of a hex digit.
pub open spec fn hex_digit(d: int) -> char {
    if d < 10 {
        (48 + d) as char
    } else {
        (87 + d) as char
    }
}

/// Two lowercase hex digits per byte, most significant digit first.
pub open spec fn spec_hex_lower(b: Seq<u8>) -> Seq<char>
    decreases b.len(),
{
    if b.len() == 0 {
        Seq::empty()
    } else {
        seq![hex_digit((b[0] / 16) as int), hex_digit((b[0] % 16) as int)] + spec_hex_lower(b.drop_first())
    }
}

/// Whether `c` is a hex digit of either case.
pub open spec fn is_hex_char(c: char) -> bool {
    ('0' <= c && c <= '9') || ('a' <= c && c <= 'f') || ('A' <= c && c <= 'F')
}

/// The value of a hex digit.
pub open spec fn hex_value(c: char) -> int {
    if '0' <= c && c <= '9' {
        c as int - 48
    } else if 'a' <= c && c <= 'f' {
        c as int - 87
    } else {
        c as int - 55
    }
}

/// Whether `s` is an even number of hex digits.
pub open spec fn spec_hex_valid(s: Seq<char>) -> bool {
    s.len() % 2 == 0 && forall|i: int| 0 <= i < s.len() ==> is_hex_char(#[trigger] s[i])
}

/// The bytes that the hex digits `s` spell, two digits per byte.
pub open spec fn spec_hex_bytes(s: Seq<char>) -> Seq<u8>
    decreases s.len(),
{
    if s.len() < 2 {
        Seq::empty()
    } else {
        seq![(hex_value(s[0]) * 16 + hex_value(s[1])) as u8] + spec_hex_bytes(s.skip(2))
    }
}

/// The message of the error `hex::decode` returns for the text `s`.
pub uninterp spec fn spec_hex_decode_error(s: Seq<char>) -> Seq<char>;

/// What `bs58::decode(..).into_vec()` gives for a text: the bytes, or the
/// message of its error.
pub uninterp spec fn spec_bs58_decode(s: Seq<char>) -> Result<Seq<u8>, Seq<char>>;

/// The one-character text of the decimal digit `d`.
fn digit_text(d: u128) -> (r: &'static str)
    requires
        d < 10,
    ensures
        r@ == seq![decimal_digit(d as int)],
{
    proof {
        reveal_strlit("0");
        reveal_strlit("1");
        reveal_strlit("2");
        reveal_strlit("3");
        reveal_strlit("4");
        reveal_strlit("5");
        reveal_strlit("6");
        reveal_strlit("7");
        reveal_strlit("8");
        reveal_strlit("9");
    }
    match d {
        0 => "0",
        1 => "1",
        2 => "2",
        3 => "3",
        4 => "4",
        5 => "5",
        6 => "6",
        7 => "7",
        8 => "8",
        _ => "9",
    }
}

/// Appends the decimal digits of `n` to `out`.
fn append_decimal(n: u128, out: &mut String)
    ensures
        final(out)@ == old(out)@ + spec_decimal(n as nat),
    decreases n,
{
    if n >= 10 {
        append_decimal(n / 10, out);
    }
    out.append(digit_text(n % 10));
    assert(out@ =~= old(out)@ + spec_decimal(n as nat));
}

/// The decimal text of `n`, as `to_string` writes it.
pub(crate) fn u128_to_decimal(n: u128) -> (s: String)
    ensures
        s@ == spec_decimal(n as nat),
{
    let mut out = String::new();
    append_decimal(n, &mut out);
    assert(out@ =~= spec_decimal(n as nat));
    out
}

/// Calls `hex::encode` on a byte string.
/// Trusted: the text is two lowercase hex digits per byte, in order.
#[verifier::external_body]
pub(crate) fn hex_encode(data: &[u8]) -> (s: String)
    ensures
        s@ == spec_hex_lower(data@),
{
    hex::encode(data)
}

/// The number of bytes that hex digits spell: one per two digits.
pub proof fn lemma_hex_bytes_len(s: Seq<char>)
    ensures
        spec_hex_bytes(s).len() == s.len() / 2,
    decreases s.len(),
{
    if s.len() >= 2 {
        lemma_hex_bytes_len(s.skip(2));
    }
}

/// Hex digits are ASCII: their UTF-8 bytes are as many as the characters,
/// and they spell half as many bytes.
pub proof fn lemma_hex_text(t: &str)
    requires
        spec_hex_valid(t@),
    ensures
        vstd::utf8::encode_utf8(t@).len() == t@.len(),
        spec_hex_bytes(t@).len() == t@.len() / 2,
{
    assert(vstd::string::is_ascii(t));
    vstd::string::is_ascii_spec_bytes(t);
    lemma_hex_bytes_len(t@);
}

/// Calls `hex::decode` on a text.
/// Trusted: it succeeds exactly on an even number of hex digits (either
/// case), giving the bytes they spell; the error's message is the one named
/// `spec_hex_decode_error` of the text.
#[verifier::external_body]
pub(crate) fn hex_decode(s: &str) -> (r: Result<Vec<u8>, String>)
    ensures
        r is Ok <==> spec_hex_valid(s@),
        r matches Ok(b) ==> b@ == spec_hex_bytes(s@),
        r matches Err(m) ==> m@ == spec_hex_decode_error(s@),
{
    hex::decode(s).map_err(|e| e.to_string())
}

/// Calls `bs58::decode(..).into_vec()` on a text (Bitcoin alphabet).
/// Trusted: the bytes or the error message are the ones named
/// `spec_bs58_decode` of the text; which texts decode is not stated.
#[verifier::external_body]
pub(crate) fn bs58_decode(s: &str) -> (r: Result<Vec<u8>, String>)
    ensures
        match r {
            Ok(b) => spec_bs58_decode(s@) == Ok::<Seq<u8>, Seq<char>>(b@),
            Err(m) => spec_bs58_decode(s@) == Err::<Seq<u8>, Seq<char>>(m@),
        },
{
    bs58::decode(s).into_vec().map_err(|e| e.to_string())
}

/// The character of a base64 digit in the standard alphabet.
pub open spec fn base64_digit(v: int) -> char {
    if v < 26 {
        (65 + v) as char
    } else if v < 52 {
        (71 + v) as char
    } else if v < 62 {
        (v - 4) as char
    } else if v == 62 {
        '+'
    } else {
        '/'
    }
}

/// Standard base64 with padding: four digits per three bytes, the last
/// group padded with `=`.
pub open spec fn spec_base64(b: Seq<u8>) -> Seq<char>
    decreases b.len(),
{
    if b.len() == 0 {
        Seq::empty()
    } else {
        let x = b[0] as int;
        let y = if b.len() > 1 { b[1] as int } else { 0 };
        let z = if b.len() > 2 { b[2] as int } else { 0 };
        if b.len() == 1 {
            seq![base64_digit(x / 4), base64_digit((x % 4) * 16), '=', '=']
        } else if b.len() == 2 {
            seq![base64_digit(x / 4), base64_digit((x % 4) * 16 + y / 16), base64_digit((y % 16) * 4), '=']
        } else {
            seq![
                base64_digit(x / 4),
                base64_digit((x % 4) * 16 + y / 16),
                base64_digit((y % 16) * 4 + z / 64),
                base64_digit(z % 64),
            ] + spec_base64(b.skip(3))
        }
    }
}

proof fn lemma_base64_digit_not_pad(v: int)
    requires
        0 <= v < 64,
    ensures
        base64_digit(v) != '=',
{
}

proof fn lemma_base64_nonempty(b: Seq<u8>)
    requires
        b.len() > 0,
    ensures
        spec_base64(b).len() >= 4,
{
    if b.len() >= 3 {
        assert(spec_base64(b).len() == 4 + spec_base64(b.skip(3)).len());
    }
}

/// Two byte strings with the same base64 text have the same length: the
/// text's length and padding fix it.
pub proof fn lemma_base64_len(a: Seq<u8>, b: Seq<u8>)
    requires
        spec_base64(a) == spec_base64(b),
    ensures
        a.len() == b.len(),
    decreases a.len(),
{
    if a.len() == 0 || b.len() == 0 {
        if a.len() != b.len() {
            if a.len() > 0 {
                lemma_base64_nonempty(a);
                assert(spec_base64(b) =~= Seq::<char>::empty());
            } else {
                lemma_base64_nonempty(b);
                assert(spec_base64(a) =~= Seq::<char>::empty());
            }
        }
    } else {
        let xa = a[0] as int;
        let ya = if a.len() > 1 { a[1] as int } else { 0 };
        let za = if a.len() > 2 { a[2] as int } else { 0 };
        let xb = b[0] as int;
        let yb = if b.len() > 1 { b[1] as int } else { 0 };
        let zb = if b.len() > 2 { b[2] as int } else { 0 };
        lemma_base64_digit_not_pad((xa % 4) * 16 + ya / 16);
        lemma_base64_digit_not_pad((xb % 4) * 16 + yb / 16);
        lemma_base64_digit_not_pad((ya % 16) * 4 + za / 64);
        lemma_base64_digit_not_pad((yb % 16) * 4 + zb / 64);
        lemma_base64_digit_not_pad(za % 64);
        lemma_base64_digit_not_pad(zb % 64);
        lemma_base64_digit_not_pad((ya % 16) * 4);
        lemma_base64_digit_not_pad((yb % 16) * 4);
        let ea = spec_base64(a);
        let eb = spec_base64(b);
        assert(ea[2] == eb[2]);
        assert(ea[3] == eb[3]);
        if a.len() >= 3 && b.len() >= 3 {
            assert(spec_base64(a.skip(3)) =~= ea.skip(4));
            assert(spec_base64(b.skip(3)) =~= eb.skip(4));
            lemma_base64_len(a.skip(3), b.skip(3));
        }
    }
}

proof fn lemma_hex_digit(d: int)
    requires
        0 <= d < 16,
    ensures
        is_hex_char(hex_digit(d)),
        hex_value(hex_digit(d)) == d,
        '\0' <= hex_digit(d) <= '\u{7f}',
{
}

/// Lowercase hex is two hex digits per byte, all ASCII, and reads back as
/// the bytes it was written from.
pub proof fn lemma_hex_lower(b: Seq<u8>)
    ensures
        spec_hex_lower(b).len() == 2 * b.len(),
        spec_hex_valid(spec_hex_lower(b)),
        is_ascii_chars(spec_hex_lower(b)),
        spec_hex_bytes(spec_hex_lower(b)) == b,
    decreases b.len(),
{
    if b.len() > 0 {
        let x = b[0];
        let h = spec_hex_lower(b);
        let rest = spec_hex_lower(b.drop_first());
        lemma_hex_lower(b.drop_first());
        lemma_hex_digit((x / 16) as int);
        lemma_hex_digit((x % 16) as int);
        assert(h =~= seq![hex_digit((x / 16) as int), hex_digit((x % 16) as int)] + rest);
        assert(h.skip(2) =~= rest);
        assert forall|i: int| 0 <= i < h.len() implies is_hex_char(#[trigger] h[i]) by {
            if i >= 2 {
                assert(h[i] == rest[i - 2]);
            }
        }
        assert forall|i: int| 0 <= i < h.len() implies '\0' <= #[trigger] h[i] <= '\u{7f}' by {
            if i >= 2 {
                assert(h[i] == rest[i - 2]);
            }
        }
        assert(((x / 16) as int) * 16 + (x % 16) as int == x as int);
        assert(spec_hex_bytes(h) =~= seq![x] + b.drop_first());
        assert(seq![x] + b.drop_first() =~= b);
    } else {
        assert(spec_hex_lower(b) =~= Seq::<char>::empty());
    }
}

/// Calls `encode` of the standard base64 engine.
/// Trusted: the text is the padded standard base64 of the bytes.
#[verifier::external_body]
pub(crate) fn base64_encode(data: &[u8]) -> (s: String)
    ensures
        s@ == spec_base64(data@),
{
    base64::engine::general_purpose::STANDARD.encode(data)
}

/// Calls `decode` of the standard base64 engine.
/// Trusted: the engine requires canonical padding and no trailing bits, so
/// it succeeds exactly on texts that are the standard base64 of some bytes,
/// and gives those bytes.
#[verifier::external_body]
pub(crate) fn base64_decode(s: &str) -> (r: Result<Vec<u8>, String>)
    ensures
        r matches Ok(v) ==> spec_base64(v@) == s@,
        r is Err ==> forall|b: Seq<u8>| #[trigger] spec_base64(b) != s@,
{
    base64::engine::general_purpose::STANDARD.decode(s).map_err(|e| e.to_string())
}

/// Whether every character of `s` is a decimal digit.
pub open spec fn all_decimal(s: Seq<char>) -> bool {
    forall|i: int| 0 <= i < s.len() ==> '0' <= #[trigger] s[i] && s[i] <= '9'
}

/// The number that the decimal digits `s` spell.
pub open spec fn decimal_value(s: Seq<char>) -> nat
    decreases s.len(),
{
    if s.len() == 0 {
        0
    } else {
        decimal_value(s.drop_last()) * 10 + (s.last() as nat - 48) as nat
    }
}

/// What `str::parse::<u128>` accepts: an optional `+`, then one or more
/// decimal digits whose value fits in a `u128`.
pub open spec fn spec_parse_u128(s: Seq<char>) -> Option<u128> {
    let t = if s.len() > 0 && s[0] == '+' {
        s.drop_first()
    } else {
        s
    };
    if t.len() > 0 && all_decimal(t) && decimal_value(t) <= u128::MAX {
        Some(decimal_value(t) as u128)
    } else {
        None
    }
}

proof fn lemma_decimal_value_step(s: Seq<char>, i: int)
    requires
        0 <= i < s.len(),
    ensures
        decimal_value(s.take(i + 1)) == decimal_value(s.take(i)) * 10 + (s[i] as nat - 48) as nat,
{
    assert(s.take(i + 1).drop_last() =~= s.take(i));
}

/// Reads a decimal `u128` as `str::parse::<u128>` does: an optional `+`,
/// then one or more decimal digits whose value fits in a `u128`.
pub(crate) fn parse_u128(s: &str) -> (r: Option<u128>)
    ensures
        r == spec_parse_u128(s@),
{
    let n = s.unicode_len();
    let start: usize = if n > 0 && s.get_char(0) == '+' {
        1
    } else {
        0
    };
    let ghost t = if s@.len() > 0 && s@[0] == '+' {
        s@.drop_first()
    } else {
        s@
    };
    assert(t =~= s@.skip(start as int));
    if start == n {
        return None;
    }
    let mut acc: u128 = 0;
    let mut overflow = false;
    let mut i = start;
    while i < n
        invariant
            n == s@.len(),
            start <= i <= n,
            start < n,
            t =~= s@.skip(start as int),
            t == (if s@.len() > 0 && s@[0] == '+' {
                s@.drop_first()
            } else {
                s@
            }),
            all_decimal(t.take(i - start)),
            !overflow ==> acc == decimal_value(t.take(i - start)),
            overflow ==> decimal_value(t.take(i - start)) > u128::MAX,
        decreases n - i,
    {
        let c = s.get_char(i);
        let ghost k: int = i - start;
        assert(t[k] == c);
        if !('0' <= c && c <= '9') {
            assert(!all_decimal(t));
            return None;
        }
        proof {
            lemma_decimal_value_step(t, k);
            assert(t.take(k + 1).drop_last() =~= t.take(k));
            assert forall|j: int| 0 <= j < k + 1 implies '0' <= #[trigger] t.take(k + 1)[j] && t.take(k + 1)[j] <= '9' by {
                if j < k {
                    assert(t.take(k + 1)[j] == t.take(k)[j]);
                }
            }
        }
        let d = (c as u32 - 48) as u128;
        if !overflow {
            match acc.checked_mul(10) {
                Some(m) => match m.checked_add(d) {
                    Some(v) => {
                        acc = v;
                    },
                    None => {
                        overflow = true;
                    },
                },
                None => {
                    overflow = true;
                    assert(decimal_value(t.take(k)) * 10 > u128::MAX);
                },
            }
        } else {
            assert(decimal_value(t.take(k)) * 10 + (c as nat - 48) as nat >= decimal_value(t.take(k))) by (nonlinear_arith);
        }
        i = i + 1;
    }
    assert(t.take((n - start) as int) =~= t);
    if overflow {
        None
    } else {
        Some(acc)
    }
}

/// A `String` holding the given text.
pub fn string_of(s: &str) -> (r: String)
    ensures
        r@ == s@,
{
    String::from_str(s)
}

/// `prefix` followed by `rest`.
pub fn concat_str(prefix: &str, rest: &str) -> (r: String)
    ensures
        r@ == prefix@ + rest@,
{
    let mut out = String::from_str(prefix);
    out.append(rest);
    out
}

/// Whether two texts are equal.
pub fn str_equal(a: &str, b: &str) -> (eq: bool)
    ensures
        eq == (a@ == b@),
{
    let x = String::from_str(a);
    let y = String::from_str(b);
    x == y
}

} // verus!
