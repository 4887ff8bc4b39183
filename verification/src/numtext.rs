//! Decimal text: the spec-level meaning of decimal digit strings, a verified
//! formatter from `u32` to its decimal digits, and a verified parser that
//! accepts exactly what `u32::from_str` on trimmed text accepts: optional
//! leading `+`, then one or more decimal digits whose value fits in `u32`,
//! with surrounding white space ignored.

use vstd::prelude::*;
use vstd::string::*;

verus! {

/// The Unicode white-space characters (the set that trimming removes).
pub open spec fn is_space(c: char) -> bool {
    let u = c as u32;
    (9 <= u && u <= 13) || u == 32 || u == 0x85 || u == 0xa0 || u == 0x1680 || (0x2000 <= u
        && u <= 0x200a) || u == 0x2028 || u == 0x2029 || u == 0x202f || u == 0x205f || u == 0x3000
}

pub open spec fn is_dec_digit(c: char) -> bool {
    '0' as u32 <= c as u32 && c as u32 <= '9' as u32
}

/// The numeric value of a single decimal digit character.
pub open spec fn digit_val(c: char) -> int {
    c as u32 - '0' as u32
}

/// The digit character for a value in 0..10.
pub open spec fn digit_char(d: int) -> char {
    if d == 0 {
        '0'
    } else if d == 1 {
        '1'
    } else if d == 2 {
        '2'
    } else if d == 3 {
        '3'
    } else if d == 4 {
        '4'
    } else if d == 5 {
        '5'
    } else if d == 6 {
        '6'
    } else if d == 7 {
        '7'
    } else if d == 8 {
        '8'
    } else {
        '9'
    }
}

pub open spec fn all_dec_digits(s: Seq<char>) -> bool {
    forall|i: int| 0 <= i < s.len() ==> is_dec_digit(#[trigger] s[i])
}

/// The numeric value of a digit string, most significant digit first.
pub open spec fn seq_value(s: Seq<char>) -> int
    decreases s.len(),
{
    if s.len() == 0 {
        0
    } else {
        seq_value(s.drop_last()) * 10 + digit_val(s.last())
    }
}

/// The decimal digits of `n`, most significant first, with no sign and no
/// leading zero (except for `n == 0` itself).
pub open spec fn dec_digits(n: nat) -> Seq<char>
    decreases n,
{
    if n < 10 {
        seq![digit_char(n as int)]
    } else {
        dec_digits(n / 10) + seq![digit_char((n % 10) as int)]
    }
}

pub proof fn lemma_digit_char_val(d: int)
    requires
        0 <= d < 10,
    ensures
        is_dec_digit(digit_char(d)),
        digit_val(digit_char(d)) == d,
{
}

/// A decimal digit is neither white space nor a sign character.
pub proof fn lemma_digit_plain(c: char)
    requires
        is_dec_digit(c),
    ensures
        !is_space(c),
        c != '+',
{
}

/// `dec_digits` yields a nonempty digit string whose value is `n`.
pub proof fn lemma_dec_digits(n: nat)
    ensures
        dec_digits(n).len() >= 1,
        all_dec_digits(dec_digits(n)),
        seq_value(dec_digits(n)) == n,
    decreases n,
{
    let s = dec_digits(n);
    if n < 10 {
        lemma_digit_char_val(n as int);
        assert(s.drop_last() =~= Seq::<char>::empty());
        assert(seq_value(s.drop_last()) == 0);
        assert(s.last() == digit_char(n as int));
        assert(seq_value(s) == 0 * 10 + digit_val(s.last()));
    } else {
        let p = dec_digits(n / 10);
        lemma_dec_digits(n / 10);
        lemma_digit_char_val((n % 10) as int);
        assert(s.drop_last() =~= p);
        assert(s.last() == digit_char((n % 10) as int));
        assert forall|i: int| 0 <= i < s.len() implies is_dec_digit(#[trigger] s[i]) by {
            if i < p.len() {
                assert(s[i] == p[i]);
            } else {
                assert(s[i] == s.last());
            }
        }
        assert(seq_value(s) == seq_value(p) * 10 + digit_val(s.last()));
        vstd::arithmetic::div_mod::lemma_fundamental_div_mod(n as int, 10);
        assert(seq_value(s) == n);
    }
}

/// `s` with its leading white space removed.
pub open spec fn trim_front(s: Seq<char>) -> Seq<char>
    decreases s.len(),
{
    if s.len() > 0 && is_space(s[0]) {
        trim_front(s.drop_first())
    } else {
        s
    }
}

/// `s` with its trailing white space removed.
pub open spec fn trim_back(s: Seq<char>) -> Seq<char>
    decreases s.len(),
{
    if s.len() > 0 && is_space(s.last()) {
        trim_back(s.drop_last())
    } else {
        s
    }
}

/// What `str::trim` leaves of `s`.
pub open spec fn trim_spec(s: Seq<char>) -> Seq<char> {
    trim_back(trim_front(s))
}

/// What parsing `s` as a `u32` yields: white space is trimmed, an optional
/// leading `+` is allowed, and then at least one decimal digit must follow,
/// with a value that fits in `u32`; anything else is rejected.
pub open spec fn parse_u32_spec(s: Seq<char>) -> Option<u32> {
    let t = trim_spec(s);
    let d = if t.len() > 0 && t[0] == '+' {
        t.drop_first()
    } else {
        t
    };
    if d.len() > 0 && all_dec_digits(d) && seq_value(d) <= u32::MAX {
        Some(seq_value(d) as u32)
    } else {
        None
    }
}

proof fn lemma_trim_front_skip(s: Seq<char>, k: int)
    requires
        0 <= k <= s.len(),
        forall|j: int| 0 <= j < k ==> is_space(#[trigger] s[j]),
        k == s.len() || !is_space(s[k]),
    ensures
        trim_front(s) == s.skip(k),
    decreases k,
{
    if k == 0 {
        assert(s.skip(0) =~= s);
    } else {
        let s1 = s.drop_first();
        assert(is_space(s[0]));
        assert forall|j: int| 0 <= j < k - 1 implies is_space(#[trigger] s1[j]) by {
            assert(s1[j] == s[j + 1]);
        }
        assert(k - 1 == s1.len() || !is_space(s1[k - 1]));
        lemma_trim_front_skip(s1, k - 1);
        assert(s1.skip(k - 1) =~= s.skip(k));
    }
}

proof fn lemma_trim_back_take(s: Seq<char>, k: int)
    requires
        0 <= k <= s.len(),
        forall|j: int| k <= j < s.len() ==> is_space(#[trigger] s[j]),
        k == 0 || !is_space(s[k - 1]),
    ensures
        trim_back(s) == s.take(k),
    decreases s.len(),
{
    if k == s.len() {
        if s.len() > 0 {
            assert(!is_space(s.last()));
        }
        assert(s.take(k) =~= s);
    } else {
        assert(is_space(s.last()));
        let s1 = s.drop_last();
        assert forall|j: int| k <= j < s1.len() implies is_space(#[trigger] s1[j]) by {
            assert(s1[j] == s[j]);
        }
        lemma_trim_back_take(s1, k);
        assert(s1.take(k) =~= s.take(k));
    }
}

proof fn lemma_seq_value_nonneg(s: Seq<char>)
    requires
        all_dec_digits(s),
    ensures
        seq_value(s) >= 0,
    decreases s.len(),
{
    if s.len() > 0 {
        let s1 = s.drop_last();
        assert forall|i: int| 0 <= i < s1.len() implies is_dec_digit(#[trigger] s1[i]) by {
            assert(s1[i] == s[i]);
        }
        lemma_seq_value_nonneg(s1);
        assert(is_dec_digit(s.last()));
    }
}

/// One more digit at the end multiplies the value by ten and adds the digit.
proof fn lemma_seq_value_snoc(s: Seq<char>, i: int, j: int)
    requires
        0 <= i <= j < s.len(),
    ensures
        seq_value(s.subrange(i, j + 1)) == seq_value(s.subrange(i, j)) * 10 + digit_val(s[j]),
{
    assert(s.subrange(i, j + 1).drop_last() =~= s.subrange(i, j));
    assert(s.subrange(i, j + 1).last() == s[j]);
}

/// The value of a digit string is at least the value of any of its prefixes.
proof fn lemma_seq_value_prefix_le(s: Seq<char>, k: int)
    requires
        all_dec_digits(s),
        0 <= k <= s.len(),
    ensures
        seq_value(s.take(k)) <= seq_value(s),
    decreases s.len() - k,
{
    if k == s.len() {
        assert(s.take(k) =~= s);
    } else {
        assert(s.take(k + 1).drop_last() =~= s.take(k));
        assert(s.take(k + 1).last() == s[k]);
        let tk = s.take(k);
        assert forall|i: int| 0 <= i < tk.len() implies is_dec_digit(#[trigger] tk[i]) by {
            assert(tk[i] == s[i]);
        }
        lemma_seq_value_nonneg(tk);
        assert(is_dec_digit(s[k]));
        assert(seq_value(s.take(k + 1)) == seq_value(s.take(k)) * 10 + digit_val(s[k]));
        lemma_seq_value_prefix_le(s, k + 1);
    }
}

fn is_space_char(c: char) -> (b: bool)
    ensures
        b == is_space(c),
{
    let u = c as u32;
    (9 <= u && u <= 13) || u == 32 || u == 0x85 || u == 0xa0 || u == 0x1680 || (0x2000 <= u
        && u <= 0x200a) || u == 0x2028 || u == 0x2029 || u == 0x202f || u == 0x205f || u == 0x3000
}

fn is_digit_char(c: char) -> (b: bool)
    ensures
        b == is_dec_digit(c),
{
    let u = c as u32;
    ('0' as u32) <= u && u <= ('9' as u32)
}

/// Parses `s` as `u32::from_str` on `str::trim(s)` does: the result is
/// `Some` exactly when the trimmed text is an optional `+` followed by one
/// or more decimal digits whose value fits in `u32`.
pub fn parse_u32(s: &str) -> (r: Option<u32>)
    ensures
        r == parse_u32_spec(s@),
{
    let len = s.unicode_len();
    let mut lo: usize = 0;
    while lo < len && is_space_char(s.get_char(lo))
        invariant
            0 <= lo <= len,
            len == s@.len(),
            forall|j: int| 0 <= j < lo ==> is_space(#[trigger] s@[j]),
        decreases len - lo,
    {
        lo = lo + 1;
    }
    let mut hi: usize = len;
    while hi > lo && is_space_char(s.get_char(hi - 1))
        invariant
            lo <= hi <= len,
            len == s@.len(),
            forall|j: int| hi <= j < len ==> is_space(#[trigger] s@[j]),
        decreases hi,
    {
        hi = hi - 1;
    }
    let ghost t = s@.subrange(lo as int, hi as int);
    proof {
        lemma_trim_front_skip(s@, lo as int);
        let t0 = s@.skip(lo as int);
        assert forall|j: int| hi - lo <= j < t0.len() implies is_space(#[trigger] t0[j]) by {
            assert(t0[j] == s@[j + lo]);
        }
        if hi > lo {
            assert(t0[hi - lo - 1] == s@[hi - 1]);
        }
        lemma_trim_back_take(t0, hi - lo);
        assert(t0.take(hi - lo) =~= t);
        assert(trim_spec(s@) == t);
    }
    let mut i: usize = lo;
    if i < hi && s.get_char(i) == '+' {
        i = i + 1;
    }
    let ghost d = s@.subrange(i as int, hi as int);
    proof {
        if t.len() > 0 && t[0] == '+' {
            assert(t.drop_first() =~= d);
        } else {
            assert(t =~= d);
        }
    }
    if i == hi {
        return None;
    }
    let mut acc: u64 = 0;
    let mut j: usize = i;
    while j < hi
        invariant
            i <= j <= hi <= len,
            len == s@.len(),
            d == s@.subrange(i as int, hi as int),
            d == (if trim_spec(s@).len() > 0 && trim_spec(s@)[0] == '+' {
                trim_spec(s@).drop_first()
            } else {
                trim_spec(s@)
            }),
            i < hi,
            acc <= u32::MAX,
            forall|p: int| i <= p < j ==> is_dec_digit(#[trigger] s@[p]),
            acc == seq_value(s@.subrange(i as int, j as int)),
        decreases hi - j,
    {
        let c = s.get_char(j);
        if !is_digit_char(c) {
            proof {
                assert(d[j - i] == s@[j as int]);
                assert(!all_dec_digits(d));
            }
            return None;
        }
        let dv = (c as u32) - ('0' as u32);
        let next: u64 = acc * 10 + (dv as u64);
        proof {
            lemma_seq_value_snoc(s@, i as int, j as int);
            assert(seq_value(s@.subrange(i as int, j + 1)) == next);
        }
        if next > (u32::MAX as u64) {
            proof {
                if all_dec_digits(d) {
                    assert(d.take(j + 1 - i) =~= s@.subrange(i as int, j + 1));
                    lemma_seq_value_prefix_le(d, j + 1 - i);
                    assert(seq_value(d) > u32::MAX);
                }
            }
            return None;
        }
        acc = next;
        j = j + 1;
    }
    proof {
        assert(s@.subrange(i as int, j as int) =~= d);
        assert forall|p: int| 0 <= p < d.len() implies is_dec_digit(#[trigger] d[p]) by {
            assert(d[p] == s@[p + i]);
        }
        assert(seq_value(d) == acc);
    }
    Some(acc as u32)
}

/// Parsing the decimal rendering of `n` gives back exactly `n`: the digit
/// string has nothing to trim, no sign, and the value it denotes is `n`.
pub proof fn lemma_parse_dec_digits(n: nat)
    requires
        n <= u32::MAX,
    ensures
        parse_u32_spec(dec_digits(n)) == Some(n as u32),
{
    lemma_dec_digits(n);
    let d = dec_digits(n);
    assert(is_dec_digit(d[0]));
    assert(is_dec_digit(d.last()));
    lemma_digit_plain(d[0]);
    lemma_digit_plain(d.last());
    assert(trim_front(d) == d);
    assert(trim_back(d) == d);
    assert(trim_spec(d) == d);
}

/// A one-character string slice holding the digit character for `d`.
fn digit_str(d: u32) -> (r: &'static str)
    requires
        d < 10,
    ensures
        r@ == seq![digit_char(d as int)],
{
    if d == 0 {
        proof {
            reveal_strlit("0");
            assert("0"@ =~= seq![digit_char(0)]);
        }
        "0"
    } else if d == 1 {
        proof {
            reveal_strlit("1");
            assert("1"@ =~= seq![digit_char(1)]);
        }
        "1"
    } else if d == 2 {
        proof {
            reveal_strlit("2");
            assert("2"@ =~= seq![digit_char(2)]);
        }
        "2"
    } else if d == 3 {
        proof {
            reveal_strlit("3");
            assert("3"@ =~= seq![digit_char(3)]);
        }
        "3"
    } else if d == 4 {
        proof {
            reveal_strlit("4");
            assert("4"@ =~= seq![digit_char(4)]);
        }
        "4"
    } else if d == 5 {
        proof {
            reveal_strlit("5");
            assert("5"@ =~= seq![digit_char(5)]);
        }
        "5"
    } else if d == 6 {
        proof {
            reveal_strlit("6");
            assert("6"@ =~= seq![digit_char(6)]);
        }
        "6"
    } else if d == 7 {
        proof {
            reveal_strlit("7");
            assert("7"@ =~= seq![digit_char(7)]);
        }
        "7"
    } else if d == 8 {
        proof {
            reveal_strlit("8");
            assert("8"@ =~= seq![digit_char(8)]);
        }
        "8"
    } else {
        proof {
            reveal_strlit("9");
            assert("9"@ =~= seq![digit_char(9)]);
        }
        "9"
    }
}

/// Renders `n` in decimal, as `u32::to_string` does.
pub fn u32_to_decimal(n: u32) -> (r: String)
    ensures
        r@ == dec_digits(n as nat),
    decreases n,
{
    if n < 10 {
        String::from_str(digit_str(n))
    } else {
        let mut r = u32_to_decimal(n / 10);
        r.append(digit_str(n % 10));
        proof {
            assert(r@ =~= dec_digits(n as nat));
        }
        r
    }
}

} // verus!
