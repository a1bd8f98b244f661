//! Small verified string utilities shared by the rest of the library:
//! character-wise string equality, rendering integers as decimal strings, and
//! parsing bounded decimal numbers.

use vstd::prelude::*;
use vstd::string::StrSliceExecFns;
use vstd::string::StringExecFns;

verus! {

/// Compares two string slices character by character.
pub fn str_eq(a: &str, b: &str) -> (r: bool)
    ensures
        r == (a@ == b@),
{
    let an = a.unicode_len();
    let bn = b.unicode_len();
    if an != bn {
        return false;
    }
    let mut i: usize = 0;
    while i < an
        invariant
            an == a@.len(),
            an == b@.len(),
            i <= an,
            forall|j: int| 0 <= j < i ==> a@[j] == b@[j],
        decreases an - i,
    {
        if a.get_char(i) != b.get_char(i) {
            return false;
        }
        i = i + 1;
    }
    proof {
        assert(a@ =~= b@);
    }
    true
}

/// Whether `p` is a prefix of `t`.
pub open spec fn starts_with(t: Seq<char>, p: Seq<char>) -> bool {
    t.len() >= p.len() && t.subrange(0, p.len() as int) == p
}

/// Runtime test for [`starts_with`].
pub fn str_starts_with(t: &str, p: &str) -> (r: bool)
    ensures
        r == starts_with(t@, p@),
{
    let tn = t.unicode_len();
    let pn = p.unicode_len();
    if tn < pn {
        return false;
    }
    let mut j: usize = 0;
    while j < pn
        invariant
            j <= pn,
            pn <= tn,
            tn == t@.len(),
            pn == p@.len(),
            forall|k: int| 0 <= k < j ==> t@[k] == p@[k],
        decreases pn - j,
    {
        if t.get_char(j) != p.get_char(j) {
            proof {
                assert(t@.subrange(0, pn as int)[j as int] != p@[j as int]);
            }
            return false;
        }
        j = j + 1;
    }
    proof {
        assert(t@.subrange(0, pn as int) =~= p@);
    }
    true
}

/// What remains of `t` after its prefix `p`.
pub fn suffix_after(t: &str, p: &str) -> (r: String)
    requires
        starts_with(t@, p@),
    ensures
        r@ == t@.subrange(p@.len() as int, t@.len() as int),
{
    let tn = t.unicode_len();
    let pn = p.unicode_len();
    t.substring_char(pn, tn).to_owned()
}

/// The value attached to a short option: what follows the option name inside
/// the same word, with one leading `=` stripped (so `-p21` and `-p=21` both
/// carry `21`).
pub open spec fn attached_value(t: Seq<char>, p: Seq<char>) -> Seq<char> {
    let raw = t.subrange(p.len() as int, t.len() as int);
    if raw.len() > 0 && raw[0] == '=' {
        raw.drop_first()
    } else {
        raw
    }
}

/// Extracts the attached value of a short option.
pub fn attached_value_tok(t: &str, p: &str) -> (r: String)
    requires
        starts_with(t@, p@),
    ensures
        r@ == attached_value(t@, p@),
{
    let raw = suffix_after(t, p);
    if raw.as_str().unicode_len() > 0 && raw.as_str().get_char(0) == '=' {
        proof {
            reveal_strlit("=");
            assert(raw@.subrange(0, 1) =~= "="@);
        }
        let r = suffix_after(raw.as_str(), "=");
        proof {
            assert(r@ =~= attached_value(t@, p@));
        }
        r
    } else {
        raw
    }
}

/// The character for a single decimal digit.
pub open spec fn digit_char(d: int) -> char {
    if d == 0 {
        '0'
    } else if d == 1 {
        '1'
    } else if d == 2 {
        '2'
    } else if d == 3 {
        '3'
    } else if d == 4 {
        '4'
    } else if d == 5 {
        '5'
    } else if d == 6 {
        '6'
    } else if d == 7 {
        '7'
    } else if d == 8 {
        '8'
    } else {
        '9'
    }
}

/// The decimal representation of a natural number, most significant digit
/// first, with no leading zeros (except for the number zero itself).
pub open spec fn dec_rep(n: nat) -> Seq<char>
    decreases n,
{
    if n < 10 {
        seq![digit_char(n as int)]
    } else {
        dec_rep(n / 10).push(digit_char((n % 10) as int))
    }
}

fn digit_str(d: u64) -> (r: &'static str)
    requires
        d < 10,
    ensures
        r@ == seq![digit_char(d as int)],
{
    proof {
        reveal_strlit("0");
        reveal_strlit("1");
        reveal_strlit("2");
        reveal_strlit("3");
        reveal_strlit("4");
        reveal_strlit("5");
        reveal_strlit("6");
        reveal_strlit("7");
        reveal_strlit("8");
        reveal_strlit("9");
    }
    let r: &'static str = if d == 0 {
        "0"
    } else if d == 1 {
        "1"
    } else if d == 2 {
        "2"
    } else if d == 3 {
        "3"
    } else if d == 4 {
        "4"
    } else if d == 5 {
        "5"
    } else if d == 6 {
        "6"
    } else if d == 7 {
        "7"
    } else if d == 8 {
        "8"
    } else {
        "9"
    };
    proof {
        assert(r@ =~= seq![digit_char(d as int)]);
    }
    r
}

/// Renders an integer as its decimal string.
pub fn u64_to_dec(n: u64) -> (r: String)
    ensures
        r@ == dec_rep(n as nat),
    decreases n,
{
    if n < 10 {
        String::from_str(digit_str(n))
    } else {
        proof {
            assert(n / 10 < n) by (nonlinear_arith)
                requires
                    n >= 10,
            ;
        }
        let mut s = u64_to_dec(n / 10);
        s.append(digit_str(n % 10));
        proof {
            assert(s@ =~= dec_rep(n as nat));
        }
        s
    }
}

/// Renders a `usize` as its decimal string.
pub fn usize_to_dec(n: usize) -> (r: String)
    ensures
        r@ == dec_rep(n as nat),
{
    u64_to_dec(n as u64)
}

/// Whether a character is an ASCII decimal digit.
pub open spec fn is_digit_char(c: char) -> bool {
    48 <= c as int <= 57
}

/// Whether every character of the sequence is an ASCII decimal digit.
pub open spec fn all_digits(s: Seq<char>) -> bool {
    forall|i: int| 0 <= i < s.len() ==> is_digit_char(s[i])
}

/// The value of a sequence of decimal digits, most significant first.
pub open spec fn dec_val(s: Seq<char>) -> int
    decreases s.len(),
{
    if s.len() == 0 {
        0
    } else {
        dec_val(s.drop_last()) * 10 + (s.last() as int - 48)
    }
}

proof fn lemma_dec_val_nonneg(s: Seq<char>)
    requires
        all_digits(s),
    ensures
        dec_val(s) >= 0,
    decreases s.len(),
{
    if s.len() > 0 {
        assert(all_digits(s.drop_last()));
        lemma_dec_val_nonneg(s.drop_last());
    }
}

/// Appending digits to a digit string never decreases its value.
proof fn lemma_dec_val_prefix_le(s: Seq<char>, t: Seq<char>)
    requires
        all_digits(s),
        all_digits(t),
    ensures
        dec_val(s) <= dec_val(s + t),
    decreases t.len(),
{
    if t.len() == 0 {
        assert(s + t =~= s);
    } else {
        lemma_dec_val_prefix_le(s, t.drop_last());
        assert((s + t).drop_last() =~= s + t.drop_last());
        lemma_dec_val_nonneg(s);
        assert(all_digits(s + t.drop_last()));
        lemma_dec_val_nonneg(s + t.drop_last());
    }
}

/// What parsing an optionally `+`-signed, bounded decimal number returns:
/// the numeric value if the input is a nonempty all-digit string (after an
/// optional leading `+`) whose value is at most `max`, and nothing otherwise.
pub open spec fn spec_parse_dec(s: Seq<char>, max: int) -> Option<u64> {
    let body = if s.len() > 0 && s[0] == '+' {
        s.drop_first()
    } else {
        s
    };
    if body.len() > 0 && all_digits(body) && dec_val(body) <= max {
        Some(dec_val(body) as u64)
    } else {
        None
    }
}

/// Parses an optionally `+`-signed decimal number of value at most `max`.
pub fn parse_bounded_dec(s: &str, max: u64) -> (r: Option<u64>)
    requires
        max <= 0xFFFF_FFFF,
    ensures
        r == spec_parse_dec(s@, max as int),
{
    let n = s.unicode_len();
    let start: usize = if n > 0 && s.get_char(0) == '+' {
        1
    } else {
        0
    };
    let ghost body = if s@.len() > 0 && s@[0] == '+' {
        s@.drop_first()
    } else {
        s@
    };
    proof {
        assert(body =~= s@.subrange(start as int, n as int));
    }
    if start >= n {
        return None;
    }
    let mut acc: u64 = 0;
    let mut j: usize = start;
    while j < n
        invariant
            start <= j <= n,
            n == s@.len(),
            start < n,
            max <= 0xFFFF_FFFF,
            body == s@.subrange(start as int, n as int),
            body == (if s@.len() > 0 && s@[0] == '+' {
                s@.drop_first()
            } else {
                s@
            }),
            all_digits(s@.subrange(start as int, j as int)),
            acc as int == dec_val(s@.subrange(start as int, j as int)),
            acc <= max,
        decreases n - j,
    {
        let c = s.get_char(j);
        let cu = c as u32;
        if cu < 48 || cu > 57 {
            proof {
                assert(!is_digit_char(s@[j as int]));
                assert(body[j - start] == s@[j as int]);
                assert(!all_digits(body));
            }
            return None;
        }
        let d = (cu - 48) as u64;
        let next = acc * 10 + d;
        proof {
            assert(s@.subrange(start as int, j + 1).drop_last() =~= s@.subrange(
                start as int,
                j as int,
            ));
            assert(next as int == dec_val(s@.subrange(start as int, j + 1)));
        }
        if next > max {
            proof {
                let pre = s@.subrange(start as int, j + 1);
                let rest = s@.subrange(j + 1, n as int);
                assert(body =~= pre + rest);
                if all_digits(body) {
                    assert forall|i: int| 0 <= i < pre.len() implies is_digit_char(pre[i]) by {
                        assert(pre[i] == body[i]);
                    }
                    assert forall|i: int| 0 <= i < rest.len() implies is_digit_char(rest[i]) by {
                        assert(rest[i] == body[i + (j + 1 - start)]);
                    }
                    lemma_dec_val_prefix_le(pre, rest);
                    assert(dec_val(body) >= dec_val(pre));
                }
            }
            return None;
        }
        acc = next;
        j = j + 1;
    }
    proof {
        assert(body =~= s@.subrange(start as int, n as int));
    }
    Some(acc)
}

} // verus!
