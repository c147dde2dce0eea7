use vstd::prelude::*;
use crate::encoding::{hex_char, lower_hex, prefixed_hex};
use crate::json::{Json, JsonValue, string_content, string_array_content};

verus! {

/// The value of a hexadecimal digit, or -1 for a character that is not one.
pub open spec fn hex_digit_value(c: char) -> int {
    let n = c as u32;
    if 0x30 <= n <= 0x39 {
        n - 0x30
    } else if 0x61 <= n <= 0x66 {
        n - 0x61 + 10
    } else if 0x41 <= n <= 0x46 {
        n - 0x41 + 10
    } else {
        -1
    }
}

/// Whether every character of `s` is a hexadecimal digit (either case).
pub open spec fn all_hex_digits(s: Seq<char>) -> bool {
    forall|i: int| 0 <= i < s.len() ==> hex_digit_value(#[trigger] s[i]) >= 0
}

/// The number that the hexadecimal digits `s` denote, most significant first.
pub open spec fn hex_digits_value(s: Seq<char>) -> int
    decreases s.len(),
{
    if s.len() == 0 {
        0
    } else {
        16 * hex_digits_value(s.drop_last()) + hex_digit_value(s.last())
    }
}

/// `s` without its `0x` (or `0X`) prefix, when it has one.
pub open spec fn hex_body(s: Seq<char>) -> Seq<char> {
    if s.len() >= 2 && s[0] == '0' && (s[1] == 'x' || s[1] == 'X') {
        s.skip(2)
    } else {
        s
    }
}

/// The number a hexadecimal text denotes: an optional `0x`/`0X` prefix followed
/// by at least one hexadecimal digit, with a value that fits in 32 bits; every
/// other text reads as 0.
pub open spec fn hex_u32_value(s: Seq<char>) -> u32 {
    let body = hex_body(s);
    if body.len() > 0 && all_hex_digits(body) && hex_digits_value(body) <= u32::MAX {
        hex_digits_value(body) as u32
    } else {
        0
    }
}

proof fn lemma_hex_value_nonneg(s: Seq<char>)
    requires
        all_hex_digits(s),
    ensures
        hex_digits_value(s) >= 0,
    decreases s.len(),
{
    if s.len() > 0 {
        assert(all_hex_digits(s.drop_last())) by {
            assert forall|i: int| 0 <= i < s.drop_last().len() implies hex_digit_value(
                #[trigger] s.drop_last()[i],
            ) >= 0 by {
                assert(s.drop_last()[i] == s[i]);
            }
        }
        lemma_hex_value_nonneg(s.drop_last());
        assert(hex_digit_value(s[s.len() - 1]) >= 0);
    }
}

/// A prefix of a run of hexadecimal digits denotes no more than the whole run.
proof fn lemma_hex_prefix_le(s: Seq<char>, k: int)
    requires
        all_hex_digits(s),
        0 <= k <= s.len(),
    ensures
        hex_digits_value(s.take(k)) <= hex_digits_value(s),
    decreases s.len(),
{
    if k == s.len() {
        assert(s.take(k) =~= s);
    } else {
        let t = s.drop_last();
        assert(all_hex_digits(t)) by {
            assert forall|i: int| 0 <= i < t.len() implies hex_digit_value(#[trigger] t[i]) >= 0 by {
                assert(t[i] == s[i]);
            }
        }
        lemma_hex_prefix_le(t, k);
        lemma_hex_value_nonneg(t);
        assert(t.take(k) =~= s.take(k));
        assert(hex_digit_value(s[s.len() - 1]) >= 0);
    }
}

fn hex_digit(c: char) -> (r: u64)
    ensures
        hex_digit_value(c) >= 0 ==> r == hex_digit_value(c),
        hex_digit_value(c) < 0 ==> r == 16,
{
    let n = c as u32;
    if 0x30 <= n && n <= 0x39 {
        (n - 0x30) as u64
    } else if 0x61 <= n && n <= 0x66 {
        (n - 0x61 + 10) as u64
    } else if 0x41 <= n && n <= 0x46 {
        (n - 0x41 + 10) as u64
    } else {
        16
    }
}

/// Reads a hexadecimal number such as a block number `"0x1a2b"`: an optional
/// `0x`/`0X` prefix followed by hexadecimal digits of either case. A text that
/// is not of that form, or whose value does not fit in 32 bits, reads as 0.
pub fn convert_hex_str_to_u32(text: &str) -> (r: u32)
    ensures
        r == hex_u32_value(text@),
{
    let n = text.unicode_len();
    let mut start: usize = 0;
    if n >= 2 && text.get_char(0) == '0' {
        let second = text.get_char(1);
        if second == 'x' || second == 'X' {
            start = 2;
        }
    }
    let ghost body = hex_body(text@);
    assert(body =~= text@.skip(start as int));
    if start == n {
        return 0;
    }
    let mut acc: u64 = 0;
    let mut i: usize = start;
    assert(body.take(0) =~= Seq::<char>::empty());
    while i < n
        invariant
            start <= i <= n,
            start < n,
            n == text@.len(),
            body =~= text@.skip(start as int),
            body == hex_body(text@),
            all_hex_digits(body.take(i - start)),
            acc == hex_digits_value(body.take(i - start)),
            acc <= u32::MAX,
        decreases n - i,
    {
        let c = text.get_char(i);
        let d = hex_digit(c);
        let ghost k = i - start;
        assert(body[k] == c);
        if d == 16 {
            assert(!all_hex_digits(body)) by {
                assert(hex_digit_value(body[k]) < 0);
            }
            return 0;
        }
        let next = acc * 16 + d;
        assert(body.take(k + 1).drop_last() =~= body.take(k));
        assert(body.take(k + 1).last() == c);
        assert(all_hex_digits(body.take(k + 1))) by {
            assert forall|j: int| 0 <= j < k + 1 implies hex_digit_value(
                #[trigger] body.take(k + 1)[j],
            ) >= 0 by {
                if j < k {
                    assert(body.take(k + 1)[j] == body.take(k)[j]);
                }
            }
        }
        assert(next == hex_digits_value(body.take(k + 1)));
        if next > 0xffff_ffff {
            proof {
                if all_hex_digits(body) {
                    lemma_hex_prefix_le(body, k + 1);
                }
            }
            return 0;
        }
        acc = next;
        i = i + 1;
    }
    assert(body.take(body.len() as int) =~= body);
    acc as u32
}

/// The text a response holds when it is a JSON string, and the empty text for
/// any other response.
pub fn parse_json_string(value: &JsonValue) -> (r: String)
    ensures
        r@ == string_content(value@),
        value matches JsonValue::String(text) ==> r@ == text@,
        !(value is String) ==> r@.len() == 0,
{
    match value {
        JsonValue::String(s) => s.clone(),
        _ => String::new(),
    }
}

/// The texts of a response that is a JSON array, element by element (each read
/// as by `parse_json_string`); no text for a response that is not an array.
pub fn parse_json_string_array(value: &JsonValue) -> (r: Vec<String>)
    ensures
        r@.map_values(|s: String| s@) == string_array_content(value@),
        value matches JsonValue::Array(items) ==> {
            &&& r@.len() == items@.len()
            &&& forall|i: int| 0 <= i < items@.len() ==> (#[trigger] r@[i])@ == string_content(items@[i]@)
        },
        !(value is Array) ==> r@.len() == 0,
{
    match value {
        JsonValue::Array(items) => {
            let mut out: Vec<String> = Vec::new();
            let mut i: usize = 0;
            while i < items.len()
                invariant
                    i <= items@.len(),
                    out@.len() == i,
                    forall|j: int|
                        0 <= j < i ==> (#[trigger] out@[j])@ == string_content(items@[j]@),
                decreases items@.len() - i,
            {
                out.push(parse_json_string(&items[i]));
                i = i + 1;
            }
            proof {
                let m = value@->Array_0;
                assert(out@.map_values(|s: String| s@) =~= m.map_values(
                    |item: Json| string_content(item),
                ));
            }
            out
        },
        _ => Vec::new(),
    }
}

} // verus!

verus! {

/// The number that `bytes` denote, most significant byte first.
pub open spec fn big_endian_value(bytes: Seq<u8>) -> int
    decreases bytes.len(),
{
    if bytes.len() == 0 {
        0
    } else {
        256 * big_endian_value(bytes.drop_last()) + bytes.last()
    }
}

proof fn lemma_hex_char_value(d: int)
    requires
        0 <= d < 16,
    ensures
        hex_digit_value(hex_char(d)) == d,
{
}

proof fn lemma_lower_hex_last(bytes: Seq<u8>)
    requires
        bytes.len() > 0,
    ensures
        lower_hex(bytes) =~= lower_hex(bytes.drop_last()) + seq![
            hex_char((bytes.last() / 16) as int),
            hex_char((bytes.last() % 16) as int),
        ],
{
    let n = bytes.len() - 1;
    let front = lower_hex(bytes.drop_last());
    assert forall|i: int| 0 <= i < 2 * n implies #[trigger] lower_hex(bytes)[i] == front[i] by {
        assert(i / 2 < n) by (nonlinear_arith)
            requires
                0 <= i < 2 * n,
        ;
        assert(bytes.drop_last()[i / 2] == bytes[i / 2]);
    }
    assert((2 * n) / 2 == n && (2 * n) % 2 == 0) by (nonlinear_arith);
    assert((2 * n + 1) / 2 == n && (2 * n + 1) % 2 == 1) by (nonlinear_arith);
}

proof fn lemma_lower_hex_value(bytes: Seq<u8>)
    ensures
        all_hex_digits(lower_hex(bytes)),
        hex_digits_value(lower_hex(bytes)) == big_endian_value(bytes),
    decreases bytes.len(),
{
    if bytes.len() == 0 {
        assert(lower_hex(bytes) =~= Seq::<char>::empty());
    } else {
        let front = bytes.drop_last();
        let b = bytes.last();
        let hi = (b / 16) as int;
        let lo = (b % 16) as int;
        lemma_lower_hex_value(front);
        lemma_lower_hex_last(bytes);
        lemma_hex_char_value(hi);
        lemma_hex_char_value(lo);
        let s = lower_hex(bytes);
        let t = lower_hex(front);
        assert(s.drop_last() =~= t.push(hex_char(hi)));
        assert(s.drop_last().drop_last() =~= t);
        assert(all_hex_digits(s)) by {
            assert forall|i: int| 0 <= i < s.len() implies hex_digit_value(#[trigger] s[i]) >= 0 by {
                if i < t.len() {
                    assert(s[i] == t[i]);
                }
            }
        }
        assert(hex_digits_value(s) == 16 * hex_digits_value(s.drop_last()) + lo);
        assert(hex_digits_value(s.drop_last()) == 16 * hex_digits_value(t) + hi);
        assert(b == 16 * hi + lo);
    }
}

/// What `to_prefixed_hex` writes, `convert_hex_str_to_u32` reads back: the
/// `0x`-prefixed lowercase hexadecimal text of some bytes reads as the number
/// those bytes denote, whenever that number fits in 32 bits.
pub proof fn lemma_prefixed_hex_reads_back(bytes: Seq<u8>)
    requires
        big_endian_value(bytes) <= u32::MAX,
    ensures
        hex_u32_value(prefixed_hex(bytes)) == big_endian_value(bytes),
{
    reveal_strlit("0x");
    let text = prefixed_hex(bytes);
    lemma_lower_hex_value(bytes);
    assert(text[0] == '0' && text[1] == 'x');
    assert(text.skip(2) =~= lower_hex(bytes));
    assert(hex_body(text) == lower_hex(bytes));
    if bytes.len() == 0 {
        assert(lower_hex(bytes).len() == 0);
        assert(big_endian_value(bytes) == 0);
    } else {
        assert(lower_hex(bytes).len() > 0);
        lemma_hex_value_nonneg(lower_hex(bytes));
    }
}

} // verus!

verus! {

/// A string reply reads as its whole text, whatever its length.
pub proof fn lemma_string_reply_reads_whole(text: Seq<char>)
    ensures
        string_content(Json::String(text)) == text,
{
}

/// A reply that is not a string reads as the empty text.
pub proof fn lemma_non_string_reply_reads_empty(doc: Json)
    requires
        !(doc is String),
    ensures
        string_content(doc).len() == 0,
{
}

/// An array reply reads as exactly one text per element, in order, each
/// element read as a single string reply is.
pub proof fn lemma_string_array_reply_one_per_element(items: Seq<Json>)
    ensures
        string_array_content(Json::Array(items)).len() == items.len(),
        forall|i: int|
            0 <= i < items.len() ==> #[trigger] string_array_content(Json::Array(items))[i]
                == string_content(items[i]),
{
}

/// The number `16` raised to `n`.
pub open spec fn pow16(n: nat) -> int
    decreases n,
{
    if n == 0 {
        1
    } else {
        16 * pow16((n - 1) as nat)
    }
}

proof fn lemma_hex_value_below_pow16(s: Seq<char>)
    requires
        all_hex_digits(s),
    ensures
        0 <= hex_digits_value(s) < pow16(s.len()),
    decreases s.len(),
{
    if s.len() > 0 {
        let t = s.drop_last();
        assert(all_hex_digits(t)) by {
            assert forall|i: int| 0 <= i < t.len() implies hex_digit_value(#[trigger] t[i]) >= 0 by {
                assert(t[i] == s[i]);
            }
        }
        lemma_hex_value_below_pow16(t);
        assert(hex_digit_value(s[s.len() - 1]) >= 0);
        assert(pow16(s.len()) == 16 * pow16(t.len()));
    }
}

/// The hexadecimal digits of the characters a block number is written with.
pub proof fn lemma_hex_digit_values(c: char)
    ensures
        0x30 <= c as u32 <= 0x39 ==> hex_digit_value(c) == c as u32 - 0x30,
        0x61 <= c as u32 <= 0x66 ==> hex_digit_value(c) == c as u32 - 0x61 + 10,
        0x41 <= c as u32 <= 0x46 ==> hex_digit_value(c) == c as u32 - 0x41 + 10,
        !(0x30 <= c as u32 <= 0x39 || 0x61 <= c as u32 <= 0x66 || 0x41 <= c as u32 <= 0x46)
            ==> hex_digit_value(c) < 0,
{
}

/// `0x` followed by a single hexadecimal digit reads as that digit's value.
pub proof fn lemma_hex_single_digit(c: char)
    requires
        hex_digit_value(c) >= 0,
    ensures
        hex_u32_value("0x"@ + seq![c]) == hex_digit_value(c),
{
    reveal_strlit("0x");
    let text = "0x"@ + seq![c];
    assert(text[0] == '0' && text[1] == 'x');
    assert(hex_body(text) =~= seq![c]);
    assert(seq![c].drop_last() =~= Seq::<char>::empty());
    assert(seq![c].last() == c);
    assert(hex_digits_value(Seq::<char>::empty()) == 0);
    assert(hex_digits_value(seq![c]) == hex_digit_value(c));
    assert(hex_digit_value(c) <= 15);
    assert(all_hex_digits(seq![c]));
}

/// Appending a digit to a `0x` number of at most seven digits (so, one that
/// always fits in 32 bits, odd lengths included) multiplies its reading by 16
/// and adds the digit's value.
pub proof fn lemma_hex_append_digit(s: Seq<char>, c: char)
    requires
        s.len() <= 7,
        all_hex_digits(s),
        hex_digit_value(c) >= 0,
    ensures
        hex_u32_value("0x"@ + s.push(c)) == 16 * hex_u32_value("0x"@ + s) + hex_digit_value(c),
{
    reveal_strlit("0x");
    let short = "0x"@ + s;
    let long = "0x"@ + s.push(c);
    assert(short[0] == '0' && short[1] == 'x');
    assert(long[0] == '0' && long[1] == 'x');
    assert(hex_body(short) =~= s);
    assert(hex_body(long) =~= s.push(c));
    assert(s.push(c).drop_last() =~= s);
    assert(all_hex_digits(s.push(c))) by {
        assert forall|i: int| 0 <= i < s.push(c).len() implies hex_digit_value(
            #[trigger] s.push(c)[i],
        ) >= 0 by {
            if i < s.len() {
                assert(s.push(c)[i] == s[i]);
            }
        }
    }
    lemma_hex_value_below_pow16(s);
    assert(pow16(7) == 268435456) by {
        reveal_with_fuel(pow16, 8);
    }
    if s.len() < 7 {
        lemma_pow16_monotone(s.len(), 7);
    }
    if s.len() == 0 {
        assert(hex_digits_value(s) == 0);
    }
}

proof fn lemma_pow16_monotone(a: nat, b: nat)
    requires
        a <= b,
    ensures
        pow16(a) <= pow16(b),
    decreases b - a,
{
    if a < b {
        lemma_pow16_monotone(a, (b - 1) as nat);
        lemma_pow16_positive((b - 1) as nat);
    }
}

proof fn lemma_pow16_positive(n: nat)
    ensures
        pow16(n) >= 1,
    decreases n,
{
    if n > 0 {
        lemma_pow16_positive((n - 1) as nat);
    }
}

/// `0x` followed by one or more hexadecimal digits, of any number, odd
/// included, reads as the number those digits denote whenever it fits in 32
/// bits.
pub proof fn lemma_hex_reads_any_digit_count(s: Seq<char>)
    requires
        s.len() > 0,
        all_hex_digits(s),
        hex_digits_value(s) <= u32::MAX,
    ensures
        hex_u32_value("0x"@ + s) == hex_digits_value(s),
{
    reveal_strlit("0x");
    let text = "0x"@ + s;
    assert(text[0] == '0' && text[1] == 'x');
    assert(hex_body(text) =~= s);
    lemma_hex_value_nonneg(s);
}

} // verus!

verus! {

/// Whether `text` is `0x` followed by two lowercase hexadecimal digits per
/// byte of `bytes`, the high half of each byte first, in order.
pub open spec fn writes_hex_of(text: Seq<char>, bytes: Seq<u8>) -> bool {
    &&& text.len() == 2 + 2 * bytes.len()
    &&& text[0] == '0'
    &&& text[1] == 'x'
    &&& forall|i: int|
        0 <= i < bytes.len() ==> hex_digit_value(#[trigger] text[2 + 2 * i]) == bytes[i] / 16
            && hex_digit_value(text[3 + 2 * i]) == bytes[i] % 16
    &&& forall|k: int|
        2 <= k < text.len() ==> (0x30 <= (#[trigger] text[k]) as u32 <= 0x39 || 0x61 <= text[k] as u32
            <= 0x66)
}

/// The `0x` text of some bytes holds every byte, as two lowercase digits.
pub proof fn lemma_prefixed_hex_writes_every_byte(bytes: Seq<u8>)
    ensures
        writes_hex_of(prefixed_hex(bytes), bytes),
{
    reveal_strlit("0x");
    let text = prefixed_hex(bytes);
    let digits = lower_hex(bytes);
    assert(text.len() == 2 + 2 * bytes.len());
    assert forall|i: int| 0 <= i < bytes.len() implies hex_digit_value(#[trigger] text[2 + 2 * i])
        == bytes[i] / 16 && hex_digit_value(text[3 + 2 * i]) == bytes[i] % 16 by {
        assert((2 * i) / 2 == i && (2 * i) % 2 == 0) by (nonlinear_arith);
        assert((2 * i + 1) / 2 == i && (2 * i + 1) % 2 == 1) by (nonlinear_arith);
        assert(text[2 + 2 * i] == digits[2 * i]);
        assert(text[3 + 2 * i] == digits[2 * i + 1]);
        lemma_hex_char_value((bytes[i] / 16) as int);
        lemma_hex_char_value((bytes[i] % 16) as int);
    }
    assert forall|k: int| 2 <= k < text.len() implies (0x30 <= (#[trigger] text[k]) as u32 <= 0x39
        || 0x61 <= text[k] as u32 <= 0x66) by {
        let j = k - 2;
        assert(0 <= j / 2 < bytes.len()) by (nonlinear_arith)
            requires
                0 <= j < 2 * bytes.len(),
        ;
        assert(text[k] == digits[j]);
    }
}

} // verus!

verus! {

/// The prefix may be written `0x` or `0X`, or left out, with the same reading.
pub proof fn lemma_hex_prefix_forms(s: Seq<char>)
    requires
        s.len() > 0,
        all_hex_digits(s),
    ensures
        hex_u32_value("0X"@ + s) == hex_u32_value("0x"@ + s),
        hex_u32_value(s) == hex_u32_value("0x"@ + s),
{
    reveal_strlit("0x");
    reveal_strlit("0X");
    let lower = "0x"@ + s;
    let upper = "0X"@ + s;
    assert(lower[0] == '0' && lower[1] == 'x');
    assert(upper[0] == '0' && upper[1] == 'X');
    assert(hex_body(lower) =~= s);
    assert(hex_body(upper) =~= s);
    if s.len() >= 2 && s[0] == '0' {
        assert(hex_digit_value(s[1]) >= 0);
    }
    assert(hex_body(s) == s);
}

} // verus!
