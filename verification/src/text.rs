//! Character-level helpers shared by every grammar: comparison of string slices,
//! hyphen-joined token sequences, and decimal numerals.

use vstd::prelude::*;
use vstd::string::*;
use vstd::utf8::*;

verus! {

/// The characters of each token of a token sequence.
pub open spec fn words(tokens: Seq<&str>) -> Seq<Seq<char>> {
    tokens.map_values(|t: &str| t@)
}

/// The characters of each string of a list.
pub open spec fn texts(strings: Seq<String>) -> Seq<Seq<char>> {
    strings.map_values(|s: String| s@)
}

/// The tokens written one after another with a hyphen between neighbours.
pub open spec fn joined(tokens: Seq<Seq<char>>) -> Seq<char>
    decreases tokens.len(),
{
    if tokens.len() == 0 {
        Seq::empty()
    } else if tokens.len() == 1 {
        tokens[0]
    } else {
        joined(tokens.drop_last()) + seq!['-'] + tokens.last()
    }
}

/// Whether `c` is one of the ten decimal digits.
pub open spec fn is_digit(c: char) -> bool {
    '0' <= c <= '9'
}

/// The number a decimal digit stands for.
pub open spec fn digit_value(c: char) -> nat {
    (c as int - '0' as int) as nat
}

/// The digit that stands for a number below ten.
pub open spec fn digit_char(d: nat) -> char {
    if d == 0 {
        '0'
    } else if d == 1 {
        '1'
    } else if d == 2 {
        '2'
    } else if d == 3 {
        '3'
    } else if d == 4 {
        '4'
    } else if d == 5 {
        '5'
    } else if d == 6 {
        '6'
    } else if d == 7 {
        '7'
    } else if d == 8 {
        '8'
    } else {
        '9'
    }
}

/// A numeral is a non-empty run of decimal digits.
pub open spec fn is_numeral(s: Seq<char>) -> bool {
    s.len() > 0 && forall|i: int| 0 <= i < s.len() ==> is_digit(#[trigger] s[i])
}

/// The number a run of digits denotes, most significant digit first.
pub open spec fn numeral_value(s: Seq<char>) -> nat
    decreases s.len(),
{
    if s.len() == 0 {
        0
    } else {
        numeral_value(s.drop_last()) * 10 + digit_value(s.last())
    }
}

/// The shortest numeral that denotes `n`.
pub open spec fn numeral(n: nat) -> Seq<char>
    decreases n,
{
    if n < 10 {
        seq![digit_char(n)]
    } else {
        numeral(n / 10).push(digit_char(n % 10))
    }
}

/// A token spells a number with a superfluous zero in front.
pub open spec fn has_leading_zero(s: Seq<char>) -> bool {
    s.len() >= 2 && s[0] == '0' && is_digit(s[1])
}

/// How many digits stand at the front of `s`.
pub open spec fn digit_run(s: Seq<char>) -> nat
    decreases s.len(),
{
    if s.len() > 0 && is_digit(s[0]) {
        1 + digit_run(s.drop_first())
    } else {
        0
    }
}

/// What `parse_u32` reads from a token.
pub open spec fn numeral_u32(s: Seq<char>) -> Option<u32> {
    if is_numeral(s) && numeral_value(s) <= u32::MAX {
        Some(numeral_value(s) as u32)
    } else {
        None
    }
}

/// What `parse_i32` reads from a token: a numeral with an optional minus sign in
/// front, within the range of `i32`.
pub open spec fn integer_i32(s: Seq<char>) -> Option<i32> {
    if s.len() > 0 && s[0] == '-' {
        let magnitude = s.drop_first();
        if is_numeral(magnitude) && numeral_value(magnitude) <= 0x8000_0000 {
            Some((-(numeral_value(magnitude) as int)) as i32)
        } else {
            None
        }
    } else if is_numeral(s) && numeral_value(s) <= i32::MAX {
        Some(numeral_value(s) as i32)
    } else {
        None
    }
}

/// A prefix of a run of digits never denotes more than the whole run.
pub proof fn lemma_prefix_value(s: Seq<char>, k: int)
    requires
        0 <= k <= s.len(),
    ensures
        numeral_value(s.take(k)) <= numeral_value(s),
    decreases s.len() - k,
{
    if k == s.len() {
        assert(s.take(k) =~= s);
    } else {
        lemma_prefix_value(s, k + 1);
        assert(s.take(k + 1).drop_last() =~= s.take(k));
    }
}

/// `numeral(n)` is a numeral without a superfluous zero, and it denotes `n`.
pub proof fn lemma_numeral_denotes(n: nat)
    ensures
        is_numeral(numeral(n)),
        !has_leading_zero(numeral(n)),
        numeral_value(numeral(n)) == n,
        n > 0 ==> numeral(n)[0] != '0',
    decreases n,
{
    if n < 10 {
        let s = numeral(n);
        assert(s.drop_last() =~= Seq::<char>::empty());
        assert(numeral_value(s.drop_last()) == 0);
    } else {
        lemma_numeral_denotes(n / 10);
        let head = numeral(n / 10);
        let s = head.push(digit_char(n % 10));
        assert(s.drop_last() =~= head);
        assert(s[0] == head[0]);
        assert forall|i: int| 0 <= i < s.len() implies is_digit(#[trigger] s[i]) by {
            if i < head.len() {
                assert(s[i] == head[i]);
            }
        }
    }
}

/// A numeral without a superfluous zero is the shortest numeral of its value.
pub proof fn lemma_numeral_canonical(s: Seq<char>)
    requires
        is_numeral(s),
        !has_leading_zero(s),
    ensures
        numeral(numeral_value(s)) == s,
    decreases s.len(),
{
    let head = s.drop_last();
    let d = digit_value(s.last());
    assert(digit_char(d) == s.last());
    if s.len() == 1 {
        assert(head =~= Seq::<char>::empty());
        assert(numeral_value(head) == 0);
        assert(seq![digit_char(d)] =~= s);
    } else {
        assert(is_digit(s[1]));
        assert(s[0] != '0');
        assert(head[0] == s[0]);
        assert forall|i: int| 0 <= i < head.len() implies is_digit(#[trigger] head[i]) by {
            assert(head[i] == s[i]);
        }
        lemma_numeral_canonical(head);
        lemma_leading_digit(head);
        let v = numeral_value(head);
        assert(v >= 1);
        assert(numeral_value(s) == v * 10 + d);
        assert((v * 10 + d) / 10 == v && (v * 10 + d) % 10 == d) by (nonlinear_arith)
            requires
                d < 10,
        ;
        assert(numeral(v).push(digit_char(d)) =~= s);
    }
}

/// A numeral whose first digit is not zero denotes a positive number.
pub proof fn lemma_leading_digit(s: Seq<char>)
    requires
        is_numeral(s),
        s[0] != '0',
    ensures
        numeral_value(s) >= 1,
    decreases s.len(),
{
    if s.len() == 1 {
        assert(s.drop_last() =~= Seq::<char>::empty());
        assert(numeral_value(s.drop_last()) == 0);
    } else {
        let head = s.drop_last();
        assert(head[0] == s[0]);
        assert forall|i: int| 0 <= i < head.len() implies is_digit(#[trigger] head[i]) by {
            assert(head[i] == s[i]);
        }
        lemma_leading_digit(head);
    }
}

/// The digits at the front of `s` are exactly its first `k` characters.
pub proof fn lemma_digit_run(s: Seq<char>, k: int)
    requires
        0 <= k <= s.len(),
        forall|j: int| 0 <= j < k ==> is_digit(#[trigger] s[j]),
        k == s.len() || !is_digit(s[k]),
    ensures
        digit_run(s) == k,
    decreases k,
{
    if k > 0 {
        let rest = s.drop_first();
        assert forall|j: int| 0 <= j < k - 1 implies is_digit(#[trigger] rest[j]) by {
            assert(rest[j] == s[j + 1]);
        }
        lemma_digit_run(rest, k - 1);
    }
}

/// The digits at the front of `s` are digits, and what follows them is none.
pub proof fn lemma_digit_run_bounds(s: Seq<char>)
    ensures
        digit_run(s) <= s.len(),
        forall|j: int| 0 <= j < digit_run(s) ==> is_digit(#[trigger] s[j]),
        digit_run(s) < s.len() ==> !is_digit(s[digit_run(s) as int]),
    decreases s.len(),
{
    if s.len() > 0 && is_digit(s[0]) {
        let rest = s.drop_first();
        lemma_digit_run_bounds(rest);
        assert forall|j: int| 0 <= j < digit_run(s) implies is_digit(#[trigger] s[j]) by {
            if j > 0 {
                assert(s[j] == rest[j - 1]);
            }
        }
        if digit_run(s) < s.len() {
            assert(s[digit_run(s) as int] == rest[digit_run(rest) as int]);
        }
    }
}

/// Exact comparison of two string slices, character by character.
pub fn str_eq(a: &str, b: &str) -> (same: bool)
    ensures
        same == (a@ == b@),
{
    let x = a.as_bytes();
    let y = b.as_bytes();
    proof {
        encode_utf8_decode_utf8(a@);
        encode_utf8_decode_utf8(b@);
    }
    if x.len() != y.len() {
        return false;
    }
    let mut i: usize = 0;
    while i < x.len()
        invariant
            i <= x.len(),
            x.len() == y.len(),
            x@ == encode_utf8(a@),
            y@ == encode_utf8(b@),
            forall|j: int| 0 <= j < i ==> x@[j] == y@[j],
        decreases x.len() - i,
    {
        if x[i] != y[i] {
            return false;
        }
        i += 1;
    }
    assert(x@ =~= y@);
    true
}

/// The tokens of a pattern, joined by hyphens into one string.
pub fn join_tokens(tokens: &[&str]) -> (out: String)
    ensures
        out@ == joined(words(tokens@)),
{
    let mut out = String::new();
    let mut i: usize = 0;
    while i < tokens.len()
        invariant
            i <= tokens.len(),
            out@ == joined(words(tokens@).take(i as int)),
        decreases tokens.len() - i,
    {
        let ghost before = words(tokens@).take(i as int);
        let ghost after = words(tokens@).take(i + 1);
        proof {
            reveal_strlit("-");
            assert(after.drop_last() =~= before);
            assert(after.last() == tokens@[i as int]@);
        }
        if i > 0 {
            out.append("-");
        }
        out.append(tokens[i]);
        proof {
            if i == 0 {
                assert(out@ =~= after[0]);
            }
        }
        i += 1;
    }
    proof {
        assert(words(tokens@).take(tokens@.len() as int) =~= words(tokens@));
    }
    out
}

/// Reads a token as a decimal number that fits in 32 bits.
pub fn parse_u32(s: &str) -> (value: Option<u32>)
    ensures
        value == numeral_u32(s@),
{
    if !s.is_ascii() {
        return None;
    }
    let bytes = s.as_bytes();
    proof {
        is_ascii_chars_encode_utf8(s@);
    }
    if bytes.len() == 0 {
        return None;
    }
    let mut acc: u64 = 0;
    let mut i: usize = 0;
    while i < bytes.len()
        invariant
            i <= bytes.len(),
            bytes@.len() == s@.len(),
            forall|j: int| 0 <= j < s@.len() ==> s@[j] as u8 == #[trigger] bytes@[j],
            is_ascii_chars(s@),
            forall|j: int| 0 <= j < i ==> is_digit(#[trigger] s@[j]),
            acc == numeral_value(s@.take(i as int)),
            acc <= u32::MAX,
        decreases bytes.len() - i,
    {
        let b = bytes[i];
        proof {
            assert(s@[i as int] as u8 == bytes@[i as int]);
            assert('\0' <= s@[i as int] <= '\u{7f}');
        }
        if b < 48 || b > 57 {
            assert(!is_digit(s@[i as int]));
            return None;
        }
        proof {
            assert(s@.take(i + 1).drop_last() =~= s@.take(i as int));
            assert(s@.take(i + 1).last() == s@[i as int]);
            assert(digit_value(s@[i as int]) == b - 48);
        }
        acc = acc * 10 + (b - 48) as u64;
        i += 1;
        if acc > 0xffff_ffff {
            proof {
                lemma_prefix_value(s@, i as int);
            }
            return None;
        }
    }
    proof {
        assert(s@.take(i as int) =~= s@);
    }
    Some(acc as u32)
}

/// Reads a token as a decimal integer, with an optional minus sign in front, that
/// fits in 32 bits.
pub fn parse_i32(s: &str) -> (value: Option<i32>)
    ensures
        value == integer_i32(s@),
{
    if !s.is_ascii() {
        proof {
            if s@.len() > 0 && s@[0] == '-' {
                let m = s@.drop_first();
                if is_numeral(m) {
                    assert forall|i: int| 0 <= i < s@.len() implies '\0' <= #[trigger] s@[i]
                        <= '\u{7f}' by {
                        if i > 0 {
                            assert(is_digit(m[i - 1]));
                        }
                    }
                }
            }
        }
        return None;
    }
    let n = s.unicode_len();
    if n > 0 && s.get_ascii(0) == 45 {
        let rest = s.substring_ascii(1, n);
        proof {
            assert(s@[0] == '-');
            assert(rest@ =~= s@.drop_first());
        }
        match parse_u32(rest) {
            Some(m) => {
                if m <= 0x8000_0000 {
                    Some((-(m as i64)) as i32)
                } else {
                    None
                }
            },
            None => None,
        }
    } else {
        proof {
            if s@.len() > 0 {
                assert(s@[0] != '-');
            }
        }
        match parse_u32(s) {
            Some(m) => {
                if m <= 0x7fff_ffff {
                    Some(m as i32)
                } else {
                    None
                }
            },
            None => None,
        }
    }
}

/// The one-character string of a digit.
fn digit_str(d: u32) -> (s: &'static str)
    requires
        d < 10,
    ensures
        s@ == seq![digit_char(d as nat)],
{
    proof {
        reveal_strlit("0");
        reveal_strlit("1");
        reveal_strlit("2");
        reveal_strlit("3");
        reveal_strlit("4");
        reveal_strlit("5");
        reveal_strlit("6");
        reveal_strlit("7");
        reveal_strlit("8");
        reveal_strlit("9");
    }
    let s = if d == 0 {
        "0"
    } else if d == 1 {
        "1"
    } else if d == 2 {
        "2"
    } else if d == 3 {
        "3"
    } else if d == 4 {
        "4"
    } else if d == 5 {
        "5"
    } else if d == 6 {
        "6"
    } else if d == 7 {
        "7"
    } else if d == 8 {
        "8"
    } else {
        "9"
    };
    assert(s@ =~= seq![digit_char(d as nat)]);
    s
}

/// Appends the shortest numeral of `n` to `out`.
pub fn push_u32(out: &mut String, n: u32)
    ensures
        final(out)@ == old(out)@ + numeral(n as nat),
    decreases n,
{
    if n >= 10 {
        push_u32(out, n / 10);
    }
    out.append(digit_str(n % 10));
    proof {
        if n >= 10 {
            assert(old(out)@ + numeral((n / 10) as nat) + seq![digit_char((n % 10) as nat)]
                =~= old(out)@ + numeral(n as nat));
        }
    }
}

} // verus!
