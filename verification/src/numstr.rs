//! Decimal renderings of integers, and parsing them back.
//!
//! URL query parameters carry page numbers and block numbers in decimal,
//! and the upstream API presents numeric fields either as JSON numbers or
//! as decimal strings; both directions are verified against the same
//! mathematical rendering.

use vstd::prelude::*;

verus! {

/// The character for a single decimal digit.
pub open spec fn dchar(d: nat) -> char {
    if d == 0 {
        '0'
    } else if d == 1 {
        '1'
    } else if d == 2 {
        '2'
    } else if d == 3 {
        '3'
    } else if d == 4 {
        '4'
    } else if d == 5 {
        '5'
    } else if d == 6 {
        '6'
    } else if d == 7 {
        '7'
    } else if d == 8 {
        '8'
    } else {
        '9'
    }
}

/// The decimal rendering of a natural number, without leading zeros.
pub open spec fn dec_str(n: nat) -> Seq<char>
    decreases n,
{
    if n < 10 {
        seq![dchar(n)]
    } else {
        dec_str(n / 10).push(dchar(n % 10))
    }
}

/// The decimal rendering of an integer: a minus sign for negatives.
pub open spec fn dec_str_int(v: int) -> Seq<char> {
    if v >= 0 {
        dec_str(v as nat)
    } else {
        seq!['-'].add(dec_str((-v) as nat))
    }
}

/// Whether `c` is a decimal digit.
pub open spec fn is_digit(c: char) -> bool {
    48 <= c as u32 <= 57
}

/// The value of a decimal digit character.
pub open spec fn digit_of(c: char) -> nat {
    (c as u32 - 48) as nat
}

/// Whether every character of `s` is a decimal digit.
pub open spec fn all_digits(s: Seq<char>) -> bool {
    forall|i: int| 0 <= i < s.len() ==> is_digit(#[trigger] s[i])
}

/// The number a digit string denotes.
pub open spec fn digits_val(s: Seq<char>) -> nat
    decreases s,
{
    if s.len() == 0 {
        0
    } else {
        digits_val(s.drop_last()) * 10 + digit_of(s.last())
    }
}

/// Renders `n` in decimal.
pub fn u64_to_dec(n: u64) -> (r: String)
    ensures
        r@ == dec_str(n as nat),
{
    let digits = "0123456789";
    proof {
        reveal_strlit("0123456789");
    }
    let mut stack: Vec<u8> = Vec::new();
    let mut m: u64 = n;
    loop
        invariant
            m <= n,
            forall|i: int| 0 <= i < stack@.len() ==> #[trigger] stack@[i] < 10,
            (m == 0 && stack@.len() == 0) ==> n == 0,
            m > 0 ==> dec_str(n as nat) =~= dec_str(m as nat).add(render_rev(stack@)),
            (m == 0 && stack@.len() > 0) ==> dec_str(n as nat) =~= render_rev(stack@),
        ensures
            dec_str(n as nat) =~= render_rev(stack@),
        decreases m, (if stack@.len() == 0 { 1int } else { 0int }),
    {
        if m == 0 && stack.len() > 0 {
            break;
        }
        let d: u8 = (m % 10) as u8;
        let m2: u64 = m / 10;
        proof {
            let ghost old_stack = stack@;
            assert(old_stack.push(d).drop_last() =~= old_stack);
            assert(render_rev(old_stack.push(d)) =~= seq![dchar(d as nat)].add(
                render_rev(old_stack),
            ));
            if m >= 10 {
                assert(dec_str(m as nat) =~= dec_str((m as nat) / 10).add(
                    seq![dchar((m as nat) % 10)],
                ));
            } else if m > 0 {
                assert(dec_str(m as nat) =~= seq![dchar(m as nat)]);
            }
        }
        stack.push(d);
        m = m2;
    }
    let mut out = String::new();
    let mut i: usize = stack.len();
    while i > 0
        invariant
            i <= stack@.len(),
            forall|k: int| 0 <= k < stack@.len() ==> #[trigger] stack@[k] < 10,
            out@ =~= render_rev(stack@.subrange(i as int, stack@.len() as int)),
            digits@ == "0123456789"@,
            digits.is_ascii(),
            digits@.len() == 10,
            forall|d: int| 0 <= d < 10 ==> #[trigger] digits@[d] == dchar(d as nat),
        decreases i,
    {
        i = i - 1;
        let d = stack[i];
        let piece = digits.substring_ascii(d as usize, d as usize + 1);
        proof {
            assert(piece@ =~= seq![dchar(d as nat)]);
            let ghost tail = stack@.subrange(i as int + 1, stack@.len() as int);
            let ghost cur = stack@.subrange(i as int, stack@.len() as int);
            assert(cur.drop_first() =~= tail);
            assert(render_rev(cur) == render_rev(tail).add(seq![dchar(stack@[i as int] as nat)]))
                by {
                lemma_render_rev_unfold(cur);
            }
        }
        out.append(piece);
    }
    proof {
        assert(stack@.subrange(0, stack@.len() as int) =~= stack@);
        assert(out@ =~= render_rev(stack@));
    }
    out
}

/// The characters of a digit stack, most recently pushed first.
pub open spec fn render_rev(stack: Seq<u8>) -> Seq<char>
    decreases stack,
{
    if stack.len() == 0 {
        Seq::empty()
    } else {
        seq![dchar(stack.last() as nat)].add(render_rev(stack.drop_last()))
    }
}

/// Peeling the first (most significant) digit off a rendered stack.
proof fn lemma_render_rev_unfold(stack: Seq<u8>)
    requires
        stack.len() > 0,
    ensures
        render_rev(stack) == render_rev(stack.drop_first()).add(
            seq![dchar(stack.first() as nat)],
        ),
    decreases stack.len(),
{
    if stack.len() == 1 {
        assert(render_rev(stack.drop_first()) =~= Seq::<char>::empty());
        assert(stack.drop_last().len() == 0);
        assert(render_rev(stack.drop_last()) =~= Seq::<char>::empty());
        assert(stack.last() == stack.first());
        assert(render_rev(stack) == seq![dchar(stack.last() as nat)].add(
            render_rev(stack.drop_last()),
        ));
        assert(render_rev(stack) =~= seq![dchar(stack.first() as nat)]);
        assert(render_rev(stack.drop_first()).add(seq![dchar(stack.first() as nat)]) =~= seq![
            dchar(stack.first() as nat),
        ]);
    } else {
        lemma_render_rev_unfold(stack.drop_last());
        assert(stack.drop_last().drop_first() =~= stack.drop_first().drop_last());
        assert(stack.drop_last().first() == stack.first());
        assert(stack.drop_first().last() == stack.last());
        assert(render_rev(stack) == seq![dchar(stack.last() as nat)].add(
            render_rev(stack.drop_last()),
        ));
        assert(render_rev(stack.drop_first()) == seq![dchar(stack.last() as nat)].add(
            render_rev(stack.drop_first().drop_last()),
        ));
        assert(render_rev(stack.drop_first()).add(seq![dchar(stack.first() as nat)]) =~= seq![
            dchar(stack.last() as nat),
        ].add(render_rev(stack.drop_last().drop_first()).add(seq![dchar(stack.first() as nat)])));
    }
}

/// Renders `v` in decimal, with a minus sign when negative.
pub fn i64_to_dec(v: i64) -> (r: String)
    ensures
        r@ == dec_str_int(v as int),
{
    if v >= 0 {
        u64_to_dec(v as u64)
    } else {
        let mag: u64 = if v == i64::MIN {
            9223372036854775808u64
        } else {
            (-v) as u64
        };
        let mut out = "-".to_owned();
        proof {
            reveal_strlit("-");
            assert("-"@ =~= seq!['-']);
        }
        let digits = u64_to_dec(mag);
        out.append(digits.as_str());
        proof {
            assert(out@ =~= dec_str_int(v as int));
        }
        out
    }
}

/// Whether `s` is a decimal integer: digits, optionally after a minus sign.
pub open spec fn is_int_str(s: Seq<char>) -> bool {
    if s.len() > 0 && s[0] == '-' {
        s.len() > 1 && all_digits(s.drop_first())
    } else {
        s.len() > 0 && all_digits(s)
    }
}

/// The integer a decimal string denotes.
pub open spec fn int_str_val(s: Seq<char>) -> int {
    if s.len() > 0 && s[0] == '-' {
        -(digits_val(s.drop_first()) as int)
    } else {
        digits_val(s) as int
    }
}

/// A digit string denotes at least as much as any of its prefixes.
proof fn lemma_digits_val_prefix(s: Seq<char>, i: int)
    requires
        0 <= i <= s.len(),
    ensures
        digits_val(s.subrange(0, i)) <= digits_val(s),
    decreases s.len() - i,
{
    if i < s.len() {
        let t = s.subrange(0, i + 1);
        assert(t.drop_last() =~= s.subrange(0, i));
        assert(digits_val(t) == digits_val(s.subrange(0, i)) * 10 + digit_of(t.last()));
        assert(digits_val(s.subrange(0, i)) * 10 >= digits_val(s.subrange(0, i)));
        lemma_digits_val_prefix(s, i + 1);
    } else {
        assert(s.subrange(0, i) =~= s);
    }
}

/// Parses a string of decimal digits into the number it denotes.
///
/// Fails exactly on the empty string, on any non-digit character, and on
/// a value that does not fit in a `u64`.
pub fn parse_u64(s: &str) -> (r: Option<u64>)
    ensures
        r is Some <==> s@.len() > 0 && all_digits(s@) && digits_val(s@) <= u64::MAX,
        r is Some ==> r->0 == digits_val(s@),
{
    let len = s.unicode_len();
    if len == 0 {
        return None;
    }
    let mut val: u64 = 0;
    let mut i: usize = 0;
    while i < len
        invariant
            i <= len,
            len == s@.len(),
            forall|k: int| 0 <= k < i ==> is_digit(#[trigger] s@[k]),
            val == digits_val(s@.subrange(0, i as int)),
        decreases len - i,
    {
        let c = s.get_char(i);
        let u = c as u32;
        if u < 48 || u > 57 {
            return None;
        }
        let d = (u - 48) as u64;
        let wide: u128 = (val as u128) * 10 + (d as u128);
        proof {
            let pre = s@.subrange(0, i as int);
            let ext = s@.subrange(0, i as int + 1);
            assert(ext.drop_last() =~= pre);
            assert(digits_val(ext) == digits_val(pre) * 10 + digit_of(s@[i as int]));
        }
        if wide > u64::MAX as u128 {
            proof {
                lemma_digits_val_prefix(s@, i as int + 1);
            }
            return None;
        }
        val = wide as u64;
        i = i + 1;
    }
    proof {
        assert(s@.subrange(0, len as int) =~= s@);
    }
    Some(val)
}

/// Parses a decimal integer, optionally signed.
///
/// Fails exactly when the string is not a decimal integer or its value
/// does not fit in an `i64`.
pub fn parse_i64(s: &str) -> (r: Option<i64>)
    ensures
        r is Some <==> is_int_str(s@) && i64::MIN <= int_str_val(s@) <= i64::MAX,
        r is Some ==> r->0 == int_str_val(s@),
{
    let len = s.unicode_len();
    if len == 0 {
        return None;
    }
    let c0 = s.get_char(0);
    if c0 == '-' {
        let rest = s.substring_char(1, len);
        proof {
            assert(rest@ =~= s@.drop_first());
        }
        match parse_u64(rest) {
            Some(mag) => {
                if mag > 9223372036854775808u64 {
                    None
                } else if mag == 9223372036854775808u64 {
                    Some(i64::MIN)
                } else {
                    Some(-(mag as i64))
                }
            },
            None => None,
        }
    } else {
        match parse_u64(s) {
            Some(v) => {
                if v > i64::MAX as u64 {
                    None
                } else {
                    Some(v as i64)
                }
            },
            None => None,
        }
    }
}

/// Parses a decimal integer and checks it lies in `lo..=hi`.
pub fn parse_int_ranged(s: &str, lo: i64, hi: i64) -> (r: Option<i64>)
    ensures
        r is Some <==> is_int_str(s@) && lo <= int_str_val(s@) <= hi,
        r is Some ==> r->0 == int_str_val(s@),
{
    match parse_i64(s) {
        Some(v) => {
            if lo <= v && v <= hi {
                Some(v)
            } else {
                None
            }
        },
        None => {
            proof {
                if is_int_str(s@) && lo <= int_str_val(s@) <= hi {
                    assert(i64::MIN <= int_str_val(s@) <= i64::MAX);
                }
            }
            None
        },
    }
}

/// Parses a decimal integer and checks it lies in `0..=cap`.
pub fn parse_uint_capped(s: &str, cap: u64) -> (r: Option<u64>)
    ensures
        r is Some <==> is_int_str(s@) && 0 <= int_str_val(s@) <= cap,
        r is Some ==> r->0 == int_str_val(s@),
{
    let len = s.unicode_len();
    if len == 0 {
        return None;
    }
    let c0 = s.get_char(0);
    if c0 == '-' {
        let rest = s.substring_char(1, len);
        proof {
            assert(rest@ =~= s@.drop_first());
        }
        match parse_u64(rest) {
            Some(mag) => {
                if mag == 0 {
                    Some(0)
                } else {
                    None
                }
            },
            None => None,
        }
    } else {
        match parse_u64(s) {
            Some(v) => {
                if v <= cap {
                    Some(v)
                } else {
                    None
                }
            },
            None => None,
        }
    }
}

} // verus!
