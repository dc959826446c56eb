//! Plain-text helpers for the command console: exact string comparison,
//! splitting a line on spaces, and the decimal and hexadecimal argument
//! parsing the handlers rely on. A malformed number is reported, never
//! silently coerced.

use vstd::prelude::*;
use vstd::string::StrSliceExecFns;

verus! {

/// The bytes an ASCII character sequence is transmitted as, one byte per
/// character.
pub open spec fn ascii_bytes(s: Seq<char>) -> Seq<u8> {
    Seq::new(s.len(), |i: int| s[i] as u8)
}

/// Exact, case-sensitive string equality.
pub fn str_eq(a: &str, b: &str) -> (r: bool)
    ensures
        r == (a@ == b@),
{
    let alen = a.unicode_len();
    let blen = b.unicode_len();
    if alen != blen {
        return false;
    }
    let mut i: usize = 0;
    while i < alen
        invariant
            i <= alen,
            alen == a@.len(),
            blen == b@.len(),
            alen == blen,
            forall|j: int| 0 <= j < i ==> a@[j] == b@[j],
        decreases alen - i,
    {
        if a.get_char(i) != b.get_char(i) {
            return false;
        }
        i += 1;
    }
    proof {
        assert(a@ =~= b@);
    }
    true
}

/// Index of the first space of `s`, or its length when it has none.
pub open spec fn first_space(s: Seq<char>) -> int
    decreases s.len(),
{
    if s.len() == 0 {
        0
    } else if s[0] == ' ' {
        0
    } else {
        1 + first_space(s.drop_first())
    }
}

/// `first_space` is the least space position: no space before `k`, and a
/// space (or the end) at `k`, pin it down.
pub proof fn lemma_first_space_at(s: Seq<char>, k: int)
    requires
        0 <= k <= s.len(),
        forall|j: int| 0 <= j < k ==> s[j] != ' ',
        k < s.len() ==> s[k] == ' ',
    ensures
        first_space(s) == k,
    decreases k,
{
    if k == 0 {
    } else {
        assert(s[0] != ' ');
        assert(forall|j: int| 0 <= j < k - 1 ==> s.drop_first()[j] != ' ');
        lemma_first_space_at(s.drop_first(), k - 1);
    }
}

/// What splitting on a single space yields: the run up to each space in
/// turn, empty runs included, and the (possibly empty) tail after the last
/// space. A whole line with no space is one token.
pub open spec fn spec_split(s: Seq<char>) -> Seq<Seq<char>>
    decreases s.len(),
{
    if 0 <= first_space(s) < s.len() {
        seq![s.take(first_space(s))] + spec_split(s.skip(first_space(s) + 1))
    } else {
        seq![s]
    }
}

/// Split a line into its space-separated tokens, exactly as the splitting
/// specification describes.
pub fn split_spaces<'a>(line: &'a str) -> (tokens: Vec<&'a str>)
    requires
        line.is_ascii(),
    ensures
        tokens@.map_values(|t: &str| t@) == spec_split(line@),
        forall|k: int| 0 <= k < tokens@.len() ==> (#[trigger] tokens@[k]).is_ascii(),
        tokens@.len() > 0,
{
    let len = line.unicode_len();
    let mut tokens: Vec<&'a str> = Vec::new();
    let mut start: usize = 0;
    let mut i: usize = 0;
    proof {
        assert(line@.skip(0) =~= line@);
        assert(tokens@.map_values(|t: &str| t@) =~= Seq::<Seq<char>>::empty());
        assert(Seq::<Seq<char>>::empty() + spec_split(line@) =~= spec_split(line@));
    }
    while i < len
        invariant
            start <= i <= len,
            len == line@.len(),
            line.is_ascii(),
            forall|j: int| start <= j < i ==> line@[j] != ' ',
            spec_split(line@) == tokens@.map_values(|t: &str| t@) + spec_split(
                line@.skip(start as int),
            ),
            forall|k: int| 0 <= k < tokens@.len() ==> (#[trigger] tokens@[k]).is_ascii(),
        decreases len - i,
    {
        if line.get_char(i) == ' ' {
            let tok = line.substring_ascii(start, i);
            let ghost pre = tokens@;
            tokens.push(tok);
            proof {
                let rest = line@.skip(start as int);
                assert(forall|j: int| 0 <= j < i - start ==> rest[j] != ' ');
                lemma_first_space_at(rest, i - start);
                assert(rest.take(i - start) =~= tok@);
                assert(rest.skip(i - start + 1) =~= line@.skip(i + 1));
                assert(tokens@.map_values(|t: &str| t@) =~= pre.map_values(|t: &str| t@)
                    + seq![tok@]);
                assert(spec_split(line@) =~= tokens@.map_values(|t: &str| t@) + spec_split(
                    line@.skip(i + 1),
                ));
            }
            start = i + 1;
        }
        i += 1;
    }
    let tok = line.substring_ascii(start, len);
    let ghost pre = tokens@;
    tokens.push(tok);
    proof {
        let rest = line@.skip(start as int);
        assert(forall|j: int| 0 <= j < rest.len() ==> rest[j] != ' ');
        lemma_first_space_at(rest, rest.len() as int);
        assert(rest =~= tok@);
        assert(spec_split(rest) == seq![rest]);
        assert(tokens@.map_values(|t: &str| t@) =~= pre.map_values(|t: &str| t@) + seq![tok@]);
        assert(tokens@.map_values(|t: &str| t@) =~= spec_split(line@));
    }
    tokens
}

/// Whether a character is a decimal digit.
pub open spec fn is_dec_digit(c: char) -> bool {
    48 <= c as u32 <= 57
}

/// Value of a decimal digit.
pub open spec fn dec_digit_val(c: char) -> int {
    c as u32 - 48
}

/// Whether every character of `s` is a decimal digit.
pub open spec fn all_dec_digits(s: Seq<char>) -> bool {
    forall|i: int| 0 <= i < s.len() ==> is_dec_digit(#[trigger] s[i])
}

/// The number a string of decimal digits denotes.
pub open spec fn dec_value(s: Seq<char>) -> int
    decreases s.len(),
{
    if s.len() == 0 {
        0
    } else {
        dec_value(s.drop_last()) * 10 + dec_digit_val(s.last())
    }
}

/// Whether a character is a hexadecimal digit, either case.
pub open spec fn is_hex_digit(c: char) -> bool {
    48 <= c as u32 <= 57 || 97 <= c as u32 <= 102 || 65 <= c as u32 <= 70
}

/// Value of a hexadecimal digit.
pub open spec fn hex_digit_val(c: char) -> int {
    if 48 <= c as u32 <= 57 {
        c as u32 - 48
    } else if 97 <= c as u32 <= 102 {
        c as u32 - 87
    } else if 65 <= c as u32 <= 70 {
        c as u32 - 55
    } else {
        0
    }
}

/// Whether every character of `s` is a hexadecimal digit.
pub open spec fn all_hex_digits(s: Seq<char>) -> bool {
    forall|i: int| 0 <= i < s.len() ==> is_hex_digit(#[trigger] s[i])
}

/// The number a string of hexadecimal digits denotes.
pub open spec fn hex_value(s: Seq<char>) -> int
    decreases s.len(),
{
    if s.len() == 0 {
        0
    } else {
        hex_value(s.drop_last()) * 16 + hex_digit_val(s.last())
    }
}

/// Appending digits never shrinks the denoted number.
pub proof fn lemma_dec_value_extend(s: Seq<char>, t: Seq<char>)
    requires
        dec_value(s) >= 0,
        all_dec_digits(t),
    ensures
        dec_value(s + t) >= dec_value(s),
    decreases t.len(),
{
    if t.len() == 0 {
        assert(s + t =~= s);
    } else {
        let t2 = t.drop_last();
        assert(all_dec_digits(t2));
        lemma_dec_value_extend(s, t2);
        assert((s + t).drop_last() =~= s + t2);
        assert((s + t).last() == t.last());
        assert(dec_value(s + t) == dec_value(s + t2) * 10 + dec_digit_val(t.last()));
    }
}

/// Appending hexadecimal digits never shrinks the denoted number.
pub proof fn lemma_hex_value_extend(s: Seq<char>, t: Seq<char>)
    requires
        hex_value(s) >= 0,
        all_hex_digits(t),
    ensures
        hex_value(s + t) >= hex_value(s),
    decreases t.len(),
{
    if t.len() == 0 {
        assert(s + t =~= s);
    } else {
        let t2 = t.drop_last();
        assert(all_hex_digits(t2));
        lemma_hex_value_extend(s, t2);
        assert((s + t).drop_last() =~= s + t2);
        assert((s + t).last() == t.last());
        assert(hex_value(s + t) == hex_value(s + t2) * 16 + hex_digit_val(t.last()));
    }
}

/// The digits of a number, an optional leading plus sign stripped.
pub open spec fn plus_body(s: Seq<char>) -> Seq<char> {
    if s.len() > 0 && s[0] == '+' {
        s.drop_first()
    } else {
        s
    }
}

/// Parse an unsigned decimal byte, as the standard library's parsing of a
/// `u8` does: an optional plus sign, then at least one decimal digit, the
/// whole denoting a number up to 255. Anything else is rejected.
pub fn parse_u8_dec(s: &str) -> (r: Option<u8>)
    ensures
        r is Some <==> (plus_body(s@).len() > 0 && all_dec_digits(plus_body(s@)) && dec_value(
            plus_body(s@),
        ) <= 255),
        r matches Some(v) ==> v as int == dec_value(plus_body(s@)),
{
    let len = s.unicode_len();
    let mut i: usize = 0;
    if len > 0 && s.get_char(0) == '+' {
        i = 1;
    }
    let ghost body = plus_body(s@);
    assert(body =~= s@.skip(i as int));
    if i >= len {
        return None;
    }
    let mut acc: u32 = 0;
    let ghost start = i;
    while i < len
        invariant
            start <= i <= len,
            len == s@.len(),
            body == plus_body(s@),
            body =~= s@.skip(start as int),
            acc <= 255,
            all_dec_digits(body.take(i - start)),
            acc as int == dec_value(body.take(i - start)),
        decreases len - i,
    {
        let cv = s.get_char(i) as u32;
        if cv < 48 || cv > 57 {
            // A non-digit: the token is not a number.
            assert(!is_dec_digit(body[i - start]));
            return None;
        }
        proof {
            assert(body.take(i - start + 1).drop_last() =~= body.take(i - start));
            assert(body.take(i - start + 1).last() == body[i - start]);
        }
        acc = acc * 10 + (cv - 48);
        if acc > 255 {
            // The digits so far already exceed a byte; more digits can only
            // grow the number.
            proof {
                if all_dec_digits(body) {
                    lemma_dec_value_extend(body.take(i - start + 1), body.skip(i - start + 1));
                    assert(body.take(i - start + 1) + body.skip(i - start + 1) =~= body);
                }
            }
            return None;
        }
        i += 1;
    }
    proof {
        assert(body.take(i - start) =~= body);
    }
    Some(acc as u8)
}

/// Parse an unsigned hexadecimal byte, as the standard library's radix-16
/// parsing of a `u8` does.
pub fn parse_u8_hex(s: &str) -> (r: Option<u8>)
    ensures
        r is Some <==> (plus_body(s@).len() > 0 && all_hex_digits(plus_body(s@)) && hex_value(
            plus_body(s@),
        ) <= 255),
        r matches Some(v) ==> v as int == hex_value(plus_body(s@)),
{
    let len = s.unicode_len();
    let mut i: usize = 0;
    if len > 0 && s.get_char(0) == '+' {
        i = 1;
    }
    let ghost body = plus_body(s@);
    assert(body =~= s@.skip(i as int));
    if i >= len {
        return None;
    }
    let mut acc: u32 = 0;
    let ghost start = i;
    while i < len
        invariant
            start <= i <= len,
            len == s@.len(),
            body == plus_body(s@),
            body =~= s@.skip(start as int),
            acc <= 255,
            all_hex_digits(body.take(i - start)),
            acc as int == hex_value(body.take(i - start)),
        decreases len - i,
    {
        let cv = s.get_char(i) as u32;
        let d: u32;
        if 48 <= cv && cv <= 57 {
            d = cv - 48;
        } else if 97 <= cv && cv <= 102 {
            d = cv - 87;
        } else if 65 <= cv && cv <= 70 {
            d = cv - 55;
        } else {
            assert(!is_hex_digit(body[i - start]));
            return None;
        }
        proof {
            assert(body.take(i - start + 1).drop_last() =~= body.take(i - start));
            assert(body.take(i - start + 1).last() == body[i - start]);
        }
        acc = acc * 16 + d;
        if acc > 255 {
            proof {
                if all_hex_digits(body) {
                    lemma_hex_value_extend(body.take(i - start + 1), body.skip(i - start + 1));
                    assert(body.take(i - start + 1) + body.skip(i - start + 1) =~= body);
                }
            }
            return None;
        }
        i += 1;
    }
    proof {
        assert(body.take(i - start) =~= body);
    }
    Some(acc as u8)
}

/// The digits of a signed number, a leading plus or minus sign stripped.
pub open spec fn sign_body(s: Seq<char>) -> Seq<char> {
    if s.len() > 0 && (s[0] == '+' || s[0] == '-') {
        s.drop_first()
    } else {
        s
    }
}

/// Whether a signed number string denotes a negative number.
pub open spec fn is_negative(s: Seq<char>) -> bool {
    s.len() > 0 && s[0] == '-'
}

/// The number a signed hexadecimal string denotes.
pub open spec fn signed_hex_value(s: Seq<char>) -> int {
    if is_negative(s) {
        -hex_value(sign_body(s))
    } else {
        hex_value(sign_body(s))
    }
}

/// Whether a signed hexadecimal string denotes a number an `i32` holds.
pub open spec fn valid_i32_hex(s: Seq<char>) -> bool {
    sign_body(s).len() > 0 && all_hex_digits(sign_body(s)) && (if is_negative(s) {
        hex_value(sign_body(s)) <= 0x8000_0000
    } else {
        hex_value(sign_body(s)) <= 0x7fff_ffff
    })
}

/// Parse a signed 32-bit hexadecimal number, as the standard library's
/// radix-16 parsing of an `i32` does: an optional sign, then at least one
/// hexadecimal digit, the whole within the range of an `i32`.
pub fn parse_i32_hex(s: &str) -> (r: Option<i32>)
    ensures
        r is Some <==> valid_i32_hex(s@),
        r matches Some(v) ==> v as int == signed_hex_value(s@),
{
    let len = s.unicode_len();
    let mut i: usize = 0;
    let mut negative = false;
    if len > 0 {
        let c0 = s.get_char(0);
        if c0 == '+' {
            i = 1;
        } else if c0 == '-' {
            i = 1;
            negative = true;
        }
    }
    let ghost body = sign_body(s@);
    assert(body =~= s@.skip(i as int));
    assert(negative == is_negative(s@));
    if i >= len {
        return None;
    }
    let limit: u64 = if negative {
        0x8000_0000
    } else {
        0x7fff_ffff
    };
    let mut acc: u64 = 0;
    let ghost start = i;
    while i < len
        invariant
            start <= i <= len,
            len == s@.len(),
            body == sign_body(s@),
            negative == is_negative(s@),
            body =~= s@.skip(start as int),
            limit == if negative {
                0x8000_0000u64
            } else {
                0x7fff_ffffu64
            },
            acc <= limit,
            all_hex_digits(body.take(i - start)),
            acc as int == hex_value(body.take(i - start)),
        decreases len - i,
    {
        let cv = s.get_char(i) as u32;
        let d: u32;
        if 48 <= cv && cv <= 57 {
            d = cv - 48;
        } else if 97 <= cv && cv <= 102 {
            d = cv - 87;
        } else if 65 <= cv && cv <= 70 {
            d = cv - 55;
        } else {
            assert(!is_hex_digit(body[i - start]));
            return None;
        }
        proof {
            assert(body.take(i - start + 1).drop_last() =~= body.take(i - start));
            assert(body.take(i - start + 1).last() == body[i - start]);
        }
        acc = acc * 16 + (d as u64);
        if acc > limit {
            proof {
                if all_hex_digits(body) {
                    lemma_hex_value_extend(body.take(i - start + 1), body.skip(i - start + 1));
                    assert(body.take(i - start + 1) + body.skip(i - start + 1) =~= body);
                }
            }
            return None;
        }
        i += 1;
    }
    proof {
        assert(body.take(i - start) =~= body);
    }
    if negative {
        if acc == 0x8000_0000 {
            Some(-0x7fff_ffffi32 - 1)
        } else {
            Some(-((acc as u32) as i32))
        }
    } else {
        Some(acc as i32)
    }
}

/// The decimal digits of a number, as console bytes.
pub open spec fn dec_bytes(v: u32) -> Seq<u8>
    decreases v,
{
    if v < 10 {
        seq![(48 + v) as u8]
    } else {
        dec_bytes(v / 10).push((48 + v % 10) as u8)
    }
}

/// One hexadecimal digit, lower case, as a console byte.
pub open spec fn hex_digit(d: u32) -> u8 {
    if d < 10 {
        (48 + d) as u8
    } else {
        (87 + d) as u8
    }
}

/// A byte in the shortest lower-case hexadecimal form, as console bytes.
pub open spec fn hex_byte_bytes(v: u8) -> Seq<u8> {
    if v < 16 {
        seq![hex_digit(v as u32)]
    } else {
        seq![hex_digit(v as u32 / 16), hex_digit(v as u32 % 16)]
    }
}

/// What parsing an unsigned decimal byte yields.
pub open spec fn spec_parse_u8_dec(t: Seq<char>) -> Option<u8> {
    if plus_body(t).len() > 0 && all_dec_digits(plus_body(t)) && dec_value(plus_body(t)) <= 255 {
        Some(dec_value(plus_body(t)) as u8)
    } else {
        None
    }
}

/// What parsing an unsigned hexadecimal byte yields.
pub open spec fn spec_parse_u8_hex(t: Seq<char>) -> Option<u8> {
    if plus_body(t).len() > 0 && all_hex_digits(plus_body(t)) && hex_value(plus_body(t)) <= 255 {
        Some(hex_value(plus_body(t)) as u8)
    } else {
        None
    }
}

/// What parsing a signed 32-bit hexadecimal number yields.
pub open spec fn spec_parse_i32_hex(t: Seq<char>) -> Option<i32> {
    if valid_i32_hex(t) {
        Some(signed_hex_value(t) as i32)
    } else {
        None
    }
}

/// Index of the first NUL of `s`, or its length when it has none.
pub open spec fn first_nul(s: Seq<char>) -> int
    decreases s.len(),
{
    if s.len() == 0 {
        0
    } else if s[0] == '\0' {
        0
    } else {
        1 + first_nul(s.drop_first())
    }
}

/// The line up to its first NUL: what remains of a fixed buffer once the
/// unwritten tail is cut away.
pub open spec fn before_nul(s: Seq<char>) -> Seq<char> {
    s.take(first_nul(s))
}

/// `first_nul` is the least NUL position.
pub proof fn lemma_first_nul_at(s: Seq<char>, k: int)
    requires
        0 <= k <= s.len(),
        forall|j: int| 0 <= j < k ==> s[j] != '\0',
        k < s.len() ==> s[k] == '\0',
    ensures
        first_nul(s) == k,
    decreases k,
{
    if k == 0 {
    } else {
        assert(s[0] != '\0');
        assert(forall|j: int| 0 <= j < k - 1 ==> s.drop_first()[j] != '\0');
        lemma_first_nul_at(s.drop_first(), k - 1);
    }
}

/// Cut a fixed-size line buffer at its first NUL.
pub fn trim_at_nul<'a>(line: &'a str) -> (r: &'a str)
    requires
        line.is_ascii(),
    ensures
        r@ == before_nul(line@),
        r.is_ascii(),
{
    let len = line.unicode_len();
    let mut i: usize = 0;
    while i < len && line.get_char(i) != '\0'
        invariant
            i <= len,
            len == line@.len(),
            line.is_ascii(),
            forall|j: int| 0 <= j < i ==> line@[j] != '\0',
        decreases len - i,
    {
        i += 1;
    }
    proof {
        lemma_first_nul_at(line@, i as int);
    }
    line.substring_ascii(0, i)
}

} // verus!
