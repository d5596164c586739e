//! Decimal rendering and parsing of the integer generation parameters, with
//! the textual form pinned down as a sequence of characters.

use vstd::prelude::*;

verus! {

/// The character for a single decimal digit.
pub open spec fn digit_char(d: nat) -> char {
    if d == 0 {
        '0'
    } else if d == 1 {
        '1'
    } else if d == 2 {
        '2'
    } else if d == 3 {
        '3'
    } else if d == 4 {
        '4'
    } else if d == 5 {
        '5'
    } else if d == 6 {
        '6'
    } else if d == 7 {
        '7'
    } else if d == 8 {
        '8'
    } else {
        '9'
    }
}

/// Decimal representation of a natural number, most significant digit first,
/// with no leading zeros (zero itself is "0").
pub open spec fn dec_seq(n: nat) -> Seq<char>
    decreases n,
{
    if n < 10 {
        seq![digit_char(n)]
    } else {
        dec_seq(n / 10) + seq![digit_char(n % 10)]
    }
}

/// Decimal representation of a signed number: the magnitude, preceded by a
/// minus sign when the number is negative.
pub open spec fn dec_seq_signed(n: int) -> Seq<char> {
    if n >= 0 {
        dec_seq(n as nat)
    } else {
        seq!['-'] + dec_seq((-n) as nat)
    }
}

fn digit_str(d: u32) -> (r: &'static str)
    requires
        d < 10,
    ensures
        r@ == seq![digit_char(d as nat)],
{
    proof {
        reveal_strlit("0");
        reveal_strlit("1");
        reveal_strlit("2");
        reveal_strlit("3");
        reveal_strlit("4");
        reveal_strlit("5");
        reveal_strlit("6");
        reveal_strlit("7");
        reveal_strlit("8");
        reveal_strlit("9");
    }
    let r = match d {
        0 => "0",
        1 => "1",
        2 => "2",
        3 => "3",
        4 => "4",
        5 => "5",
        6 => "6",
        7 => "7",
        8 => "8",
        _ => "9",
    };
    proof {
        assert(r@ =~= seq![digit_char(d as nat)]);
    }
    r
}

fn append_dec_u64(s: &mut String, n: u64)
    ensures
        final(s)@ == old(s)@ + dec_seq(n as nat),
    decreases n,
{
    if n >= 10 {
        proof {
            assert(n / 10 < n) by (nonlinear_arith)
                requires
                    n >= 10,
            ;
        }
        append_dec_u64(s, n / 10);
        s.append(digit_str((n % 10) as u32));
        proof {
            assert(final(s)@ =~= old(s)@ + dec_seq(n as nat));
        }
    } else {
        s.append(digit_str(n as u32));
        proof {
            assert(final(s)@ =~= old(s)@ + dec_seq(n as nat));
        }
    }
}

/// The decimal text of an unsigned 64-bit value.
pub fn u64_to_dec(n: u64) -> (r: String)
    ensures
        r@ == dec_seq(n as nat),
{
    let mut s = String::new();
    append_dec_u64(&mut s, n);
    proof {
        assert(s@ =~= dec_seq(n as nat));
    }
    s
}

/// The decimal text of an unsigned 32-bit value.
pub fn u32_to_dec(n: u32) -> (r: String)
    ensures
        r@ == dec_seq(n as nat),
{
    u64_to_dec(n as u64)
}

/// The decimal text of a signed 64-bit value.
pub fn i64_to_dec(n: i64) -> (r: String)
    ensures
        r@ == dec_seq_signed(n as int),
{
    if n >= 0 {
        u64_to_dec(n as u64)
    } else {
        // Compute the magnitude without overflowing at i64::MIN.
        let m: u64 = ((-(n + 1)) as u64) + 1;
        proof {
            reveal_strlit("-");
        }
        let mut s = String::from_str("-");
        append_dec_u64(&mut s, m);
        proof {
            assert(s@ =~= dec_seq_signed(n as int));
        }
        s
    }
}

/// The decimal text of a signed 32-bit value.
pub fn i32_to_dec(n: i32) -> (r: String)
    ensures
        r@ == dec_seq_signed(n as int),
{
    i64_to_dec(n as i64)
}

/// Whether the character is a decimal digit.
pub open spec fn is_dec_digit(c: char) -> bool {
    48 <= c as u32 && c as u32 <= 57
}

/// The numeric value of a decimal digit character.
pub open spec fn digit_val(c: char) -> int {
    c as u32 - 48
}

/// Whether every character of the sequence is a decimal digit.
pub open spec fn all_dec_digits(s: Seq<char>) -> bool {
    forall|i: int| 0 <= i < s.len() ==> is_dec_digit(#[trigger] s[i])
}

/// The value of a sequence of decimal digit characters, read base ten.
pub open spec fn dec_val(s: Seq<char>) -> int
    decreases s.len(),
{
    if s.len() == 0 {
        0
    } else {
        dec_val(s.drop_last()) * 10 + digit_val(s.last())
    }
}

proof fn lemma_dec_val_nonneg(s: Seq<char>)
    requires
        all_dec_digits(s),
    ensures
        dec_val(s) >= 0,
    decreases s.len(),
{
    if s.len() > 0 {
        assert(all_dec_digits(s.drop_last()));
        lemma_dec_val_nonneg(s.drop_last());
    }
}

proof fn lemma_dec_val_prefix_le(s: Seq<char>, k: int)
    requires
        all_dec_digits(s),
        0 <= k <= s.len(),
    ensures
        dec_val(s.subrange(0, k)) <= dec_val(s),
    decreases s.len() - k,
{
    if k < s.len() {
        let p = s.subrange(0, k);
        let q = s.subrange(0, k + 1);
        assert(q.drop_last() =~= p);
        assert(all_dec_digits(p));
        lemma_dec_val_nonneg(p);
        assert(dec_val(q) == dec_val(p) * 10 + digit_val(q.last()));
        lemma_dec_val_prefix_le(s, k + 1);
    } else {
        assert(s.subrange(0, k) =~= s);
    }
}

/// The result of reading the text as an unsigned 32-bit decimal number: an
/// optional leading plus sign, then at least one digit, with the value in
/// range; anything else is rejected.
pub open spec fn spec_parse_u32(s: Seq<char>) -> Option<u32> {
    let t = if s.len() > 0 && s[0] == '+' {
        s.subrange(1, s.len() as int)
    } else {
        s
    };
    if t.len() > 0 && all_dec_digits(t) && dec_val(t) <= u32::MAX {
        Some(dec_val(t) as u32)
    } else {
        None
    }
}

/// Reads the text as an unsigned 32-bit decimal number.
pub fn parse_u32(s: &str) -> (r: Option<u32>)
    ensures
        r == spec_parse_u32(s@),
{
    let n = s.unicode_len();
    let mut start: usize = 0;
    if n > 0 && s.get_char(0) == '+' {
        start = 1;
    }
    let ghost t = s@.subrange(start as int, n as int);
    proof {
        if start == 0 {
            assert(t =~= s@);
        }
    }
    if start >= n {
        return None;
    }
    let mut i: usize = start;
    let mut acc: u64 = 0;
    while i < n
        invariant
            start <= i <= n,
            n == s@.len(),
            if s@.len() > 0 && s@[0] == '+' {
                start == 1
            } else {
                start == 0
            },
            t == s@.subrange(start as int, n as int),
            all_dec_digits(s@.subrange(start as int, i as int)),
            acc == dec_val(s@.subrange(start as int, i as int)),
            acc <= u32::MAX,
        decreases n - i,
    {
        let c = s.get_char(i);
        let v = c as u32;
        let ghost p = s@.subrange(start as int, i as int);
        let ghost q = s@.subrange(start as int, i + 1 as int);
        proof {
            assert(q.drop_last() =~= p);
        }
        if v < 48 || v > 57 {
            proof {
                assert(!is_dec_digit(t[i - start]));
            }
            return None;
        }
        let d = (v - 48) as u64;
        let acc2 = acc * 10 + d;
        if acc2 > 0xffff_ffff {
            proof {
                if start == 0 {
                    assert(t =~= s@);
                }
                if all_dec_digits(t) {
                    assert(q.last() == s@[i as int]);
                    assert(dec_val(q) == dec_val(p) * 10 + digit_val(q.last()));
                    assert(dec_val(q) == acc2);
                    assert(q =~= t.subrange(0, i + 1 - start));
                    lemma_dec_val_prefix_le(t, i + 1 - start);
                    assert(dec_val(t) >= acc2);
                }
            }
            return None;
        }
        acc = acc2;
        i = i + 1;
    }
    proof {
        assert(s@.subrange(start as int, i as int) =~= t);
    }
    Some(acc as u32)
}

/// Whether the sequence holds exactly one occurrence of the character.
pub open spec fn exactly_one_at(s: Seq<char>, c: char, i: int) -> bool {
    &&& 0 <= i < s.len()
    &&& s[i] == c
    &&& forall|j: int| 0 <= j < s.len() && #[trigger] s[j] == c ==> j == i
}

/// The result of reading the text as a `<width>x<height>` size descriptor:
/// the text must hold exactly one `x`, and each half must read as an
/// unsigned 32-bit decimal number.
pub open spec fn spec_parse_size(s: Seq<char>) -> Option<(u32, u32)> {
    if exists|i: int| exactly_one_at(s, 'x', i) {
        let i = choose|i: int| exactly_one_at(s, 'x', i);
        match (spec_parse_u32(s.subrange(0, i)), spec_parse_u32(s.subrange(i + 1, s.len() as int))) {
            (Some(w), Some(h)) => Some((w, h)),
            _ => None,
        }
    } else {
        None
    }
}

/// Reads the text as a `<width>x<height>` size descriptor.
pub fn parse_size_text(s: &str) -> (r: Option<(u32, u32)>)
    ensures
        r == spec_parse_size(s@),
{
    let n = s.unicode_len();
    let mut sep: usize = 0;
    let mut found = false;
    let mut i: usize = 0;
    while i < n
        invariant
            0 <= i <= n,
            n == s@.len(),
            found ==> sep < i && s@[sep as int] == 'x',
            forall|j: int|
                0 <= j < i && #[trigger] s@[j] == 'x' ==> (found && j == sep as int),
        decreases n - i,
    {
        if s.get_char(i) == 'x' {
            if found {
                proof {
                    assert(forall|k: int| !exactly_one_at(s@, 'x', k)) by {
                        assert forall|k: int| !exactly_one_at(s@, 'x', k) by {
                            if exactly_one_at(s@, 'x', k) {
                                assert(s@[sep as int] == 'x');
                                assert(s@[i as int] == 'x');
                            }
                        }
                    }
                }
                return None;
            }
            sep = i;
            found = true;
        }
        i = i + 1;
    }
    if !found {
        proof {
            assert(forall|k: int| !exactly_one_at(s@, 'x', k)) by {
                assert forall|k: int| !exactly_one_at(s@, 'x', k) by {
                    if exactly_one_at(s@, 'x', k) {
                        assert(s@[k] == 'x');
                    }
                }
            }
        }
        return None;
    }
    proof {
        assert(exactly_one_at(s@, 'x', sep as int));
        let w = choose|k: int| exactly_one_at(s@, 'x', k);
        assert(w == sep as int);
    }
    let left = s.substring_char(0, sep);
    let right = s.substring_char(sep + 1, n);
    let lw = parse_u32(left);
    let rh = parse_u32(right);
    match (lw, rh) {
        (Some(w), Some(h)) => Some((w, h)),
        _ => None,
    }
}

} // verus!
