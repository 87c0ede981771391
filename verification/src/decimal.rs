use vstd::prelude::*;
use crate::text::{dec_str, dec_str_pad, u64_to_string, u64_to_string_pad};

verus! {

/// A number kept as an exact decimal: `(-1)^neg * mant / 10^scale`.
///
/// Library code only builds canonical values (see [`Num::wf`]): zero is
/// `+0/10^0`, and a nonzero mantissa never ends in a zero digit while the
/// scale is positive, so every numeric value has one representation and
/// structural equality coincides with numeric equality.
#[derive(Clone, Copy, PartialEq, Eq, Structural, Debug)]
pub struct Num {
    pub neg: bool,
    pub mant: u64,
    pub scale: u32,
}

/// 10^e.
pub open spec fn pow10(e: nat) -> nat
    decreases e,
{
    if e == 0 {
        1
    } else {
        10 * pow10((e - 1) as nat)
    }
}

/// The canonical representative: trailing zero digits of the fraction are
/// dropped and zero loses its sign.
pub open spec fn canon(neg: bool, mant: nat, scale: nat) -> Num
    decreases scale,
{
    if mant == 0 {
        Num { neg: false, mant: 0, scale: 0 }
    } else if scale > 0 && mant % 10 == 0 {
        canon(neg, mant / 10, (scale - 1) as nat)
    } else {
        Num { neg, mant: mant as u64, scale: scale as u32 }
    }
}

impl Num {
    /// Canonical form with a bounded scale; every constructor establishes it.
    pub open spec fn wf(self) -> bool {
        &&& (self.mant == 0 ==> !self.neg && self.scale == 0)
        &&& (self.scale > 0 ==> self.mant % 10 != 0)
        &&& self.scale <= 18
    }

    /// True of the value zero.
    pub open spec fn spec_is_zero(self) -> bool {
        self.mant == 0
    }

    /// True of values strictly above zero.
    pub open spec fn spec_is_positive(self) -> bool {
        !self.neg && self.mant != 0
    }

    /// Builds the canonical decimal for `(-1)^neg * mant / 10^scale`.
    pub fn new(neg: bool, mant: u64, scale: u32) -> (r: Num)
        requires
            scale <= 18,
        ensures
            r == canon(neg, mant as nat, scale as nat),
            r.wf(),
    {
        let mut m: u64 = mant;
        let mut sc: u32 = scale;
        while sc > 0 && m % 10 == 0 && m != 0
            invariant
                sc <= 18,
                canon(neg, m as nat, sc as nat) == canon(neg, mant as nat, scale as nat),
            decreases sc,
        {
            m = m / 10;
            sc = sc - 1;
        }
        if m == 0 {
            Num { neg: false, mant: 0, scale: 0 }
        } else {
            Num { neg, mant: m, scale: sc }
        }
    }

    /// The canonical decimal of an integer.
    pub fn from_int(i: i64) -> (r: Num)
        ensures
            r == canon(i < 0, (if i < 0 { -(i as int) } else { i as int }) as nat, 0),
            r.wf(),
    {
        let m: u64 = if i < 0 {
            (-(i as i128)) as u64
        } else {
            i as u64
        };
        Num::new(i < 0, m, 0)
    }

    /// True when the value is zero.
    pub fn is_zero(&self) -> (r: bool)
        ensures
            r == self.spec_is_zero(),
    {
        self.mant == 0
    }

    /// True when the value is strictly positive.
    pub fn is_positive(&self) -> (r: bool)
        ensures
            r == self.spec_is_positive(),
    {
        !self.neg && self.mant != 0
    }
}

/// The canonical decimal nearest to `n`, rounding halves away from zero.
pub open spec fn spec_round(n: Num) -> Num {
    if n.scale == 0 {
        n
    } else {
        let p = pow10(n.scale as nat);
        let ip = n.mant as nat / p;
        let fr = n.mant as nat % p;
        if 2 * fr >= p {
            canon(n.neg, ip + 1, 0)
        } else {
            canon(n.neg, ip, 0)
        }
    }
}

/// Twice the value; a mantissa that no longer fits saturates at the largest
/// representable one.
pub open spec fn spec_double(n: Num) -> Num {
    if 2 * (n.mant as nat) > u64::MAX as nat {
        canon(n.neg, u64::MAX as nat, n.scale as nat)
    } else {
        canon(n.neg, 2 * (n.mant as nat), n.scale as nat)
    }
}

/// The plain decimal text of the value: sign, integer digits, and the
/// fraction digits after `'.'` only when the value is not integral.
pub open spec fn num_str(n: Num) -> Seq<char> {
    let sign = if n.neg { seq!['-'] } else { Seq::<char>::empty() };
    if n.scale == 0 {
        sign + dec_str(n.mant as nat)
    } else {
        let p = pow10(n.scale as nat);
        sign + dec_str(n.mant as nat / p) + seq!['.'] + dec_str_pad(n.mant as nat % p, n.scale as nat)
    }
}

/// The debug text of the value: like [`num_str`], but an integral value
/// still shows one zero fraction digit.
pub open spec fn num_dbg_str(n: Num) -> Seq<char> {
    if n.scale == 0 {
        num_str(n) + seq!['.', '0']
    } else {
        num_str(n)
    }
}

/// Whether `c` is a decimal digit.
pub open spec fn is_digit(c: char) -> bool {
    48 <= c as int <= 57
}

/// The value of one decimal digit character.
pub open spec fn digit_val(c: char) -> nat {
    (c as int - 48) as nat
}

/// Whether every character of `s` is a decimal digit.
pub open spec fn all_digits(s: Seq<char>) -> bool {
    forall|k: int| 0 <= k < s.len() ==> is_digit(#[trigger] s[k])
}

/// The number denoted by a sequence of decimal digits (zero when empty).
pub open spec fn digits_val(s: Seq<char>) -> nat
    decreases s.len(),
{
    if s.len() == 0 {
        0
    } else {
        digits_val(s.drop_last()) * 10 + digit_val(s.last())
    }
}

/// The index of the first `'.'` in `s`, if any.
pub open spec fn dot_at(s: Seq<char>) -> Option<int>
    decreases s.len(),
{
    if s.len() == 0 {
        None
    } else if s[0] == '.' {
        Some(0int)
    } else {
        match dot_at(s.drop_first()) {
            Some(d) => Some(d + 1),
            None => None,
        }
    }
}

/// The body of a numeric literal: the text after an optional leading sign.
pub open spec fn num_body(s: Seq<char>) -> Seq<char> {
    if s.len() > 0 && (s[0] == '-' || s[0] == '+') {
        s.drop_first()
    } else {
        s
    }
}

/// Whether the numeric literal carries a leading minus sign.
pub open spec fn num_neg(s: Seq<char>) -> bool {
    s.len() > 0 && s[0] == '-'
}

/// The digits before the first `'.'` of the body (all of it without one).
pub open spec fn int_part(b: Seq<char>) -> Seq<char> {
    match dot_at(b) {
        Some(d) => b.take(d),
        None => b,
    }
}

/// The digits after the first `'.'` of the body (empty without one).
pub open spec fn frac_part(b: Seq<char>) -> Seq<char> {
    match dot_at(b) {
        Some(d) => b.skip(d + 1),
        None => Seq::empty(),
    }
}

/// The digit string of the body: integer and fraction digits joined.
pub open spec fn sig_digits(b: Seq<char>) -> Seq<char> {
    int_part(b) + frac_part(b)
}

/// The numeric grammar this library accepts: an optional sign, then decimal
/// digits with at most one `'.'` among them, at least one digit in all, at
/// most 18 fraction digits, and a digit string whose value fits in 64 bits.
pub open spec fn parse_ok(s: Seq<char>) -> bool {
    let b = num_body(s);
    &&& all_digits(int_part(b))
    &&& all_digits(frac_part(b))
    &&& sig_digits(b).len() > 0
    &&& frac_part(b).len() <= 18
    &&& digits_val(sig_digits(b)) <= u64::MAX
}

/// The number denoted by a numeric literal, canonicalized; `None` when the
/// text is outside the grammar.
pub open spec fn spec_parse_num(s: Seq<char>) -> Option<Num> {
    if parse_ok(s) {
        let b = num_body(s);
        Some(canon(num_neg(s), digits_val(sig_digits(b)), frac_part(b).len()))
    } else {
        None
    }
}

proof fn lemma_dot_at_char(s: Seq<char>)
    ensures
        match dot_at(s) {
            Some(d) => 0 <= d < s.len() && s[d] == '.' && (forall|k: int|
                0 <= k < d ==> #[trigger] s[k] != '.'),
            None => forall|k: int| 0 <= k < s.len() ==> #[trigger] s[k] != '.',
        },
    decreases s.len(),
{
    if s.len() > 0 && s[0] != '.' {
        lemma_dot_at_char(s.drop_first());
        match dot_at(s.drop_first()) {
            Some(d2) => {
                assert(s[d2 + 1] == s.drop_first()[d2]);
                assert forall|k: int| 0 <= k < d2 + 1 implies #[trigger] s[k] != '.' by {
                    if k > 0 {
                        assert(s.drop_first()[k - 1] != '.');
                    }
                }
            },
            None => {
                assert forall|k: int| 0 <= k < s.len() implies #[trigger] s[k] != '.' by {
                    if k > 0 {
                        assert(s.drop_first()[k - 1] != '.');
                    }
                }
            },
        }
    }
}

proof fn lemma_digits_val_concat(u: Seq<char>, v: Seq<char>)
    ensures
        digits_val(u + v) == digits_val(u) * pow10(v.len()) + digits_val(v),
    decreases v.len(),
{
    if v.len() == 0 {
        assert(u + v =~= u);
        assert(digits_val(u) * pow10(v.len()) == digits_val(u)) by (nonlinear_arith)
            requires
                pow10(v.len()) == 1,
        ;
    } else {
        lemma_digits_val_concat(u, v.drop_last());
        assert((u + v).drop_last() =~= u + v.drop_last());
        assert((u + v).last() == v.last());
        assert(digits_val(u + v) == digits_val(u) * pow10(v.len()) + digits_val(v))
            by (nonlinear_arith)
            requires
                digits_val(u + v) == digits_val(u + v.drop_last()) * 10 + digit_val(v.last()),
                digits_val(u + v.drop_last()) == digits_val(u) * pow10((v.len() - 1) as nat)
                    + digits_val(v.drop_last()),
                pow10(v.len()) == 10 * pow10((v.len() - 1) as nat),
                digits_val(v) == digits_val(v.drop_last()) * 10 + digit_val(v.last()),
        ;
    }
}

proof fn lemma_digits_val_prefix(u: Seq<char>, v: Seq<char>)
    ensures
        digits_val(u + v) >= digits_val(u),
{
    lemma_digits_val_concat(u, v);
    lemma_pow10_pos(v.len());
    vstd::arithmetic::mul::lemma_mul_inequality(1, pow10(v.len()) as int, digits_val(u) as int);
}

proof fn lemma_pow10_18()
    ensures
        pow10(18) == 1000000000000000000,
{
    reveal_with_fuel(pow10, 19);
}

fn pow10_u64(e: u32) -> (r: u64)
    requires
        e <= 18,
    ensures
        r as nat == pow10(e as nat),
{
    let mut r: u64 = 1;
    let mut i: u32 = 0;
    while i < e
        invariant
            i <= e <= 18,
            r as nat == pow10(i as nat),
        decreases e - i,
    {
        proof {
            lemma_pow10_18();
            lemma_pow10_mono(i as nat + 1, 18);
        }
        r = r * 10;
        i = i + 1;
    }
    r
}

proof fn lemma_pow10_pos(e: nat)
    ensures
        pow10(e) >= 1,
        e >= 1 ==> pow10(e) >= 10,
    decreases e,
{
    if e >= 1 {
        lemma_pow10_pos((e - 1) as nat);
    }
}

proof fn lemma_pow10_mono(a: nat, b: nat)
    requires
        a <= b,
    ensures
        pow10(a) <= pow10(b),
    decreases b,
{
    if a < b {
        lemma_pow10_mono(a, (b - 1) as nat);
    }
}

/// Reads a numeric literal (see [`parse_ok`] for the grammar) into its
/// canonical decimal, scanning the characters one by one.
#[verifier::rlimit(60)]
pub fn parse_num(s: &str) -> (r: Option<Num>)
    ensures
        r == spec_parse_num(s@),
        r matches Some(n) ==> n.wf(),
{
    let len = s.unicode_len();
    let mut start: usize = 0;
    let mut neg = false;
    if len > 0 {
        let c0 = s.get_char(0);
        if c0 == '-' {
            neg = true;
            start = 1;
        } else if c0 == '+' {
            start = 1;
        }
    }
    let ghost b = num_body(s@);
    proof {
        assert(b =~= s@.skip(start as int));
    }
    let mut j: usize = start;
    let mut mant: u64 = 0;
    let mut seen_dot = false;
    let mut fdigits: u32 = 0;
    let mut ndigits: usize = 0;
    let ghost mut dpos: int = 0;
    while j < len
        invariant
            s@.len() == len,
            start <= j <= len,
            start <= 1,
            neg == num_neg(s@),
            b == num_body(s@),
            b =~= s@.skip(start as int),
            b.len() == len - start,
            !seen_dot ==> {
                &&& forall|k: int|
                    0 <= k < j - start ==> #[trigger] b[k] != '.' && is_digit(b[k])
                &&& mant == digits_val(b.take(j - start))
                &&& fdigits == 0
                &&& ndigits == j - start
            },
            seen_dot ==> {
                &&& 0 <= dpos < j - start
                &&& b[dpos] == '.'
                &&& forall|k: int|
                    0 <= k < j - start && k != dpos ==> is_digit(#[trigger] b[k])
                &&& mant == digits_val(b.take(dpos) + b.subrange(dpos + 1, j - start))
                &&& fdigits == j - start - dpos - 1
                &&& fdigits <= 18
                &&& ndigits == j - start - 1
            },
        decreases len - j,
    {
        let ghost p = j - start;
        let c = s.get_char(j);
        let u = c as u32;
        if u >= 48 && u <= 57 {
            let d = (u - 48) as u64;
            proof {
                assert(is_digit(c) && digit_val(c) == d);
            }
            if mant > (u64::MAX - d) / 10 {
                // The digit string already exceeds what a mantissa can hold,
                // so the whole literal is outside the grammar.
                proof {
                    lemma_dot_at_char(b);
                    let digs1 = if seen_dot {
                        b.take(dpos) + b.subrange(dpos + 1, p + 1)
                    } else {
                        b.take(p + 1)
                    };
                    if seen_dot {
                        assert(digs1.drop_last() =~= b.take(dpos) + b.subrange(dpos + 1, p));
                    } else {
                        assert(digs1.drop_last() =~= b.take(p));
                    }
                    assert(digits_val(digs1) == mant * 10 + d);
                    if parse_ok(s@) {
                        match dot_at(b) {
                            Some(dd) => {
                                if seen_dot {
                                    assert(dd == dpos);
                                    assert(frac_part(b) =~= b.subrange(dpos + 1, p + 1) + b.skip(
                                        p + 1,
                                    ));
                                    assert(sig_digits(b) =~= digs1 + b.skip(p + 1));
                                    lemma_digits_val_prefix(digs1, b.skip(p + 1));
                                } else {
                                    assert(dd > p);
                                    assert(int_part(b) =~= b.take(p + 1) + b.subrange(p + 1, dd));
                                    assert(sig_digits(b) =~= digs1 + (b.subrange(p + 1, dd)
                                        + frac_part(b)));
                                    lemma_digits_val_prefix(
                                        digs1,
                                        b.subrange(p + 1, dd) + frac_part(b),
                                    );
                                }
                            },
                            None => {
                                assert(!seen_dot);
                                assert(sig_digits(b) =~= digs1 + b.skip(p + 1));
                                lemma_digits_val_prefix(digs1, b.skip(p + 1));
                            },
                        }
                        assert(false);
                    }
                }
                return None;
            }
            mant = mant * 10 + d;
            ndigits = ndigits + 1;
            if seen_dot {
                if fdigits >= 18 {
                    // A 19th fraction digit puts the literal outside the grammar.
                    proof {
                        lemma_dot_at_char(b);
                        if parse_ok(s@) {
                            assert(dot_at(b) == Some(dpos));
                            assert(frac_part(b) =~= b.subrange(dpos + 1, p + 1) + b.skip(p + 1));
                            assert(false);
                        }
                    }
                    return None;
                }
                fdigits = fdigits + 1;
                proof {
                    assert(b.take(dpos) + b.subrange(dpos + 1, p + 1) =~= (b.take(dpos)
                        + b.subrange(dpos + 1, p)).push(b[p]));
                    assert((b.take(dpos) + b.subrange(dpos + 1, p)).push(b[p]).drop_last() =~= b.take(
                        dpos,
                    ) + b.subrange(dpos + 1, p));
                }
            } else {
                proof {
                    assert(b.take(p + 1) =~= b.take(p).push(b[p]));
                    assert(b.take(p).push(b[p]).drop_last() =~= b.take(p));
                }
            }
        } else if c == '.' {
            if seen_dot {
                // A second dot lands among the fraction digits, which the
                // grammar requires to be digits.
                proof {
                    lemma_dot_at_char(b);
                    if parse_ok(s@) {
                        assert(dot_at(b) == Some(dpos));
                        assert(frac_part(b)[p - dpos - 1] == '.');
                        assert(false);
                    }
                }
                return None;
            }
            seen_dot = true;
            proof {
                dpos = p;
                assert(b.take(dpos) + b.subrange(dpos + 1, p + 1) =~= b.take(p));
            }
        } else {
            // A character that is neither a digit, a dot, nor a leading sign.
            proof {
                lemma_dot_at_char(b);
                if parse_ok(s@) {
                    if seen_dot {
                        assert(dot_at(b) == Some(dpos));
                        assert(frac_part(b)[p - dpos - 1] == b[p]);
                    } else {
                        match dot_at(b) {
                            Some(dd) => {
                                assert(dd > p);
                                assert(int_part(b)[p] == b[p]);
                            },
                            None => {
                                assert(int_part(b)[p] == b[p]);
                            },
                        }
                    }
                    assert(false);
                }
            }
            return None;
        }
        j = j + 1;
    }
    proof {
        assert(b.take(len - start) =~= b);
        lemma_dot_at_char(b);
    }
    if ndigits == 0 {
        // No digit at all: an empty body, a bare sign, or a lone dot.
        proof {
            if parse_ok(s@) {
                if seen_dot {
                    assert(int_part(b) =~= b.take(dpos));
                    assert(frac_part(b) =~= b.skip(dpos + 1));
                    assert(sig_digits(b).len() == 0);
                } else {
                    assert(sig_digits(b).len() == 0);
                }
                assert(false);
            }
        }
        return None;
    }
    proof {
        if seen_dot {
            assert(dot_at(b) == Some(dpos));
            assert(frac_part(b) =~= b.subrange(dpos + 1, b.len() as int));
            assert(sig_digits(b) =~= b.take(dpos) + b.subrange(dpos + 1, b.len() as int));
        } else {
            assert(dot_at(b) is None);
            assert(sig_digits(b) =~= b.take(b.len() as int));
        }
        assert(parse_ok(s@));
    }
    Some(Num::new(neg, mant, fdigits))
}

impl Num {
    /// The nearest integer, halves rounding away from zero.
    pub fn round(&self) -> (r: Num)
        requires
            self.wf(),
        ensures
            r == spec_round(*self),
            r.wf(),
    {
        if self.scale == 0 {
            *self
        } else {
            let p = pow10_u64(self.scale);
            proof {
                lemma_pow10_pos(self.scale as nat);
                vstd::arithmetic::div_mod::lemma_div_is_ordered_by_denominator(
                    self.mant as int,
                    10,
                    p as int,
                );
            }
            let ip = self.mant / p;
            let fr = self.mant % p;
            if fr > u64::MAX / 2 || 2 * fr >= p {
                Num::new(self.neg, ip + 1, 0)
            } else {
                Num::new(self.neg, ip, 0)
            }
        }
    }

    /// Twice the value, saturating when the mantissa no longer fits.
    pub fn double(&self) -> (r: Num)
        requires
            self.wf(),
        ensures
            r == spec_double(*self),
            r.wf(),
    {
        if self.mant > u64::MAX / 2 {
            Num::new(self.neg, u64::MAX, self.scale)
        } else {
            Num::new(self.neg, 2 * self.mant, self.scale)
        }
    }

    /// Renders the plain decimal text of the value.
    pub fn to_text(&self) -> (r: String)
        requires
            self.wf(),
        ensures
            r@ == num_str(*self),
    {
        let mut r = if self.neg {
            String::from_str("-")
        } else {
            String::new()
        };
        proof {
            reveal_strlit("-");
            if self.neg {
                assert(r@ =~= seq!['-']);
            } else {
                assert(r@ =~= Seq::<char>::empty());
            }
        }
        if self.scale == 0 {
            let digits = u64_to_string(self.mant);
            r.append(digits.as_str());
            proof { assert(r@ =~= num_str(*self)); }
            r
        } else {
            let p = pow10_u64(self.scale);
            proof { lemma_pow10_pos(self.scale as nat); }
            let ip = u64_to_string(self.mant / p);
            let fr = u64_to_string_pad(self.mant % p, self.scale);
            r.append(ip.as_str());
            r.append(".");
            r.append(fr.as_str());
            proof {
                reveal_strlit(".");
                assert("."@ =~= seq!['.']);
                assert(r@ =~= num_str(*self));
            }
            r
        }
    }

    /// Renders the debug text of the value (integral values keep `.0`).
    pub fn to_debug_text(&self) -> (r: String)
        requires
            self.wf(),
        ensures
            r@ == num_dbg_str(*self),
    {
        let mut r = self.to_text();
        if self.scale == 0 {
            r.append(".0");
            proof {
                reveal_strlit(".0");
                assert(r@ =~= num_dbg_str(*self));
            }
        }
        r
    }
}

} // verus!
