//! Decimal numerals.
//!
//! Rates and percentages live in micro-units: one millionth of the
//! nominal unit.  This module renders integers as decimal text and parses
//! decimal numerals (an integer part, optionally a dot and a fraction)
//! into micro-units, truncating fraction digits beyond the sixth.  Both
//! directions carry exact character-level contracts.

use vstd::prelude::*;

verus! {

/// Micro-units per nominal unit.
pub const MICRO: u64 = 1000000;

/// Fraction digits carried by a micro-unit value.
pub const FRAC_DIGITS: usize = 6;

/// The character of one decimal digit.
pub open spec fn spec_digit_char(d: int) -> char {
    if d == 0 {
        '0'
    } else if d == 1 {
        '1'
    } else if d == 2 {
        '2'
    } else if d == 3 {
        '3'
    } else if d == 4 {
        '4'
    } else if d == 5 {
        '5'
    } else if d == 6 {
        '6'
    } else if d == 7 {
        '7'
    } else if d == 8 {
        '8'
    } else {
        '9'
    }
}

/// Whether a character is a decimal digit.
pub open spec fn is_dec_digit(c: char) -> bool {
    '0' <= c && c <= '9'
}

/// The value of one digit character.
pub open spec fn digit_val(c: char) -> int {
    c as int - '0' as int
}

/// The value of a digit string, most significant first.
pub open spec fn spec_dec_val(s: Seq<char>) -> int
    decreases s.len(),
{
    if s.len() == 0 {
        0
    } else {
        spec_dec_val(s.drop_last()) * 10 + digit_val(s.last())
    }
}

/// The decimal numeral of a nonnegative integer, without leading zeros.
pub open spec fn spec_dec_of(n: int) -> Seq<char>
    decreases n,
{
    if n < 10 {
        seq![spec_digit_char(n)]
    } else {
        spec_dec_of(n / 10) + seq![spec_digit_char(n % 10)]
    }
}

/// The decimal numeral of an integer, with a leading minus sign when
/// negative.
pub open spec fn spec_dec_of_signed(n: int) -> Seq<char> {
    if n < 0 {
        seq!['-'] + spec_dec_of(-n)
    } else {
        spec_dec_of(n)
    }
}

/// The numeral of `n` padded with leading zeros to exactly `w` digits.
pub open spec fn spec_pad_dec(n: int, w: int) -> Seq<char>
    decreases w,
{
    if w <= 1 {
        seq![spec_digit_char(n % 10)]
    } else {
        spec_pad_dec(n / 10, w - 1) + seq![spec_digit_char(n % 10)]
    }
}

/// A digit string without its trailing zeros.
pub open spec fn trim_trailing_zeros(s: Seq<char>) -> Seq<char>
    decreases s.len(),
{
    if s.len() == 0 {
        s
    } else if s.last() == '0' {
        trim_trailing_zeros(s.drop_last())
    } else {
        s
    }
}

/// The rendering of a micro-unit amount: the integer part, then — when
/// the fraction is not zero — a dot and the fraction digits with the
/// trailing zeros removed.
pub open spec fn spec_amount(n: u64) -> Seq<char> {
    let whole = n as int / MICRO as int;
    let frac = n as int % MICRO as int;
    if frac == 0 {
        spec_dec_of(whole)
    } else {
        spec_dec_of(whole) + seq!['.'] + trim_trailing_zeros(spec_pad_dec(frac, FRAC_DIGITS as int))
    }
}

/// One digit as a string slice.
fn digit_str(d: u64) -> (r: &'static str)
    requires
        d < 10,
    ensures
        r@ =~= seq![spec_digit_char(d as int)],
        r.is_ascii(),
{
    proof {
        reveal_strlit("0");
        reveal_strlit("1");
        reveal_strlit("2");
        reveal_strlit("3");
        reveal_strlit("4");
        reveal_strlit("5");
        reveal_strlit("6");
        reveal_strlit("7");
        reveal_strlit("8");
        reveal_strlit("9");
    }
    match d {
        0 => "0",
        1 => "1",
        2 => "2",
        3 => "3",
        4 => "4",
        5 => "5",
        6 => "6",
        7 => "7",
        8 => "8",
        _ => "9",
    }
}

/// Append the decimal numeral of `n` to `out`.
pub fn push_dec_u64(n: u64, out: &mut String)
    ensures
        final(out)@ == old(out)@ + spec_dec_of(n as int),
    decreases n,
{
    if n < 10 {
        out.append(digit_str(n));
    } else {
        push_dec_u64(n / 10, out);
        out.append(digit_str(n % 10));
    }
}

/// The decimal numeral of an unsigned integer.
pub fn dec_u64(n: u64) -> (r: String)
    ensures
        r@ == spec_dec_of(n as int),
{
    let mut out = String::new();
    push_dec_u64(n, &mut out);
    out
}

/// The decimal numeral of a signed integer.
pub fn dec_i64(n: i64) -> (r: String)
    ensures
        r@ == spec_dec_of_signed(n as int),
{
    let mut out = String::new();
    if n >= 0 {
        push_dec_u64(n as u64, &mut out);
    } else {
        proof {
            reveal_strlit("-");
        }
        out.append("-");
        let mag: u64 = if n == i64::MIN {
            9223372036854775808u64
        } else {
            (-n) as u64
        };
        push_dec_u64(mag, &mut out);
    }
    out
}

/// Append `n` as exactly `w` digits, zero padded.
pub fn push_pad_dec(n: u64, w: u64, out: &mut String)
    requires
        1 <= w,
    ensures
        final(out)@ == old(out)@ + spec_pad_dec(n as int, w as int),
    decreases w,
{
    if w <= 1 {
        out.append(digit_str(n % 10));
    } else {
        push_pad_dec(n / 10, w - 1, out);
        out.append(digit_str(n % 10));
    }
}

/// Removing the factor `10` from the padded numeral removes one trailing
/// zero.
proof fn lemma_pad_shift(m: int, w: int)
    requires
        w >= 2,
        m >= 0,
    ensures
        spec_pad_dec(m * 10, w) == spec_pad_dec(m, w - 1) + seq![spec_digit_char(0)],
{
    assert(m * 10 % 10 == 0) by (nonlinear_arith);
    assert(m * 10 / 10 == m) by (nonlinear_arith);
}

/// The padded numeral of a number not divisible by ten has no trailing
/// zero to trim.
proof fn lemma_trim_ends(m: int, w: int)
    requires
        w >= 1,
        m % 10 != 0,
    ensures
        trim_trailing_zeros(spec_pad_dec(m, w)) == spec_pad_dec(m, w),
{
    assert(spec_pad_dec(m, w).last() == spec_digit_char(m % 10));
    assert(spec_digit_char(m % 10) != '0');
}

/// Trimming the padded six-digit fraction equals padding the fraction
/// with its factors of ten removed.
proof fn lemma_trim_pad(m: int, k: int, w: int)
    requires
        1 <= w,
        0 <= k,
        m % 10 != 0,
        m >= 0,
    ensures
        trim_trailing_zeros(spec_pad_dec(m * vstd::arithmetic::power::pow(10, k as nat), w + k))
            == spec_pad_dec(m, w),
    decreases k,
{
    let p = vstd::arithmetic::power::pow(10, k as nat);
    if k == 0 {
        assert(p == 1) by {
            vstd::arithmetic::power::lemma_pow0(10);
        }
        assert(m * 1 == m) by (nonlinear_arith);
        lemma_trim_ends(m, w);
    } else {
        let p1 = vstd::arithmetic::power::pow(10, (k - 1) as nat);
        assert(p == 10 * p1) by {
            vstd::arithmetic::power::lemma_pow_adds(10, (k - 1) as nat, 1);
            vstd::arithmetic::power::lemma_pow1(10);
        }
        assert(p1 >= 1) by {
            vstd::arithmetic::power::lemma_pow_positive(10, (k - 1) as nat);
        }
        assert(m * p == (m * p1) * 10) by (nonlinear_arith)
            requires
                p == 10 * p1,
        ;
        assert(m * p1 >= 0) by (nonlinear_arith)
            requires
                m >= 0,
                p1 >= 1,
        ;
        lemma_pad_shift(m * p1, w + k);
        lemma_trim_pad(m, k - 1, w);
        let padded = spec_pad_dec(m * p1, w + k - 1) + seq![spec_digit_char(0)];
        assert(trim_trailing_zeros(padded) == trim_trailing_zeros(padded.drop_last()));
        assert(padded.drop_last() =~= spec_pad_dec(m * p1, w + k - 1));
    }
}

/// Powers of ten up to the micro scale.
pub open spec fn pow10_small(e: int) -> int {
    if e <= 0 {
        1
    } else if e == 1 {
        10
    } else if e == 2 {
        100
    } else if e == 3 {
        1000
    } else if e == 4 {
        10000
    } else if e == 5 {
        100000
    } else {
        1000000
    }
}

/// A position `i` splits a decimal numeral into a nonempty all-digit
/// integer part and, when `i` is not the end, a dot followed by a
/// nonempty all-digit fraction.
pub open spec fn valid_split(s: Seq<char>, i: int) -> bool {
    &&& 1 <= i <= s.len()
    &&& forall|j: int| 0 <= j < i ==> is_dec_digit(#[trigger] s[j])
    &&& (i == s.len() || (s[i] == '.' && i + 1 < s.len() && forall|j: int|
        i < j < s.len() ==> is_dec_digit(#[trigger] s[j])))
}

/// A well-formed decimal numeral: digits, optionally a dot and more
/// digits.  No sign, no exponent.
pub open spec fn wf_numeral(s: Seq<char>) -> bool {
    exists|i: int| valid_split(s, i)
}

/// The split position of a well-formed numeral.
pub open spec fn split_of(s: Seq<char>) -> int {
    choose|i: int| valid_split(s, i)
}

/// The fraction digits of a numeral, empty when there is no dot.
pub open spec fn frac_digits_of(s: Seq<char>) -> Seq<char> {
    if split_of(s) == s.len() {
        Seq::empty()
    } else {
        s.skip(split_of(s) + 1)
    }
}

/// Micro-unit value of a fraction digit string: the first six digits,
/// scaled; further digits are truncated away.
pub open spec fn spec_frac_micro(f: Seq<char>) -> int {
    let c = if f.len() <= FRAC_DIGITS {
        f.len() as int
    } else {
        FRAC_DIGITS as int
    };
    spec_dec_val(f.take(c)) * pow10_small(FRAC_DIGITS - c)
}

/// The micro-unit value of a well-formed numeral.
pub open spec fn spec_micro_val(s: Seq<char>) -> int {
    spec_dec_val(s.take(split_of(s))) * MICRO + spec_frac_micro(frac_digits_of(s))
}

/// The split position of a numeral is the one valid position: knowing a
/// valid split pins `split_of`.
pub proof fn lemma_split_of(s: Seq<char>, i: int)
    requires
        valid_split(s, i),
    ensures
        split_of(s) == i,
{
    lemma_split_unique(s, split_of(s), i);
}

/// A numeral has only one valid split position.
proof fn lemma_split_unique(s: Seq<char>, i: int, j: int)
    requires
        valid_split(s, i),
        valid_split(s, j),
    ensures
        i == j,
{
    if i < j {
        assert(is_dec_digit(s[i]));
        assert(s[i] == '.');
    }
    if j < i {
        assert(is_dec_digit(s[j]));
        assert(s[j] == '.');
    }
}

/// Appending a digit multiplies the value by ten and adds the digit.
proof fn lemma_dec_val_snoc(s: Seq<char>, c: char)
    ensures
        spec_dec_val(s.push(c)) == spec_dec_val(s) * 10 + digit_val(c),
{
    assert(s.push(c).drop_last() =~= s);
    assert(s.push(c).last() == c);
}

/// The value of a digit string is nonnegative.
proof fn lemma_dec_val_nonneg(s: Seq<char>)
    requires
        forall|j: int| 0 <= j < s.len() ==> is_dec_digit(#[trigger] s[j]),
    ensures
        spec_dec_val(s) >= 0,
    decreases s.len(),
{
    if s.len() > 0 {
        assert(forall|j: int|
            0 <= j < s.drop_last().len() ==> is_dec_digit(#[trigger] s.drop_last()[j]));
        lemma_dec_val_nonneg(s.drop_last());
    }
}

/// Render a micro-unit amount as decimal text, dropping a zero fraction
/// and trailing fraction zeros.
pub fn format_amount(n: u64) -> (r: String)
    ensures
        r@ == spec_amount(n),
{
    let whole = n / MICRO;
    let frac = n % MICRO;
    let mut out = String::new();
    push_dec_u64(whole, &mut out);
    if frac != 0 {
        proof {
            reveal_strlit(".");
        }
        out.append(".");
        let mut m = frac;
        let mut k: u64 = 0;
        proof {
            vstd::arithmetic::power::lemma_pow0(10);
            assert(frac == frac * vstd::arithmetic::power::pow(10, 0)) by (nonlinear_arith)
                requires
                    vstd::arithmetic::power::pow(10, 0) == 1,
            ;
        }
        while m % 10 == 0 && k < 5
            invariant
                frac == m * vstd::arithmetic::power::pow(10, k as nat),
                1 <= frac < MICRO,
                0 <= k <= 5,
                m >= 1,
            decreases 5 - k,
        {
            proof {
                let p = vstd::arithmetic::power::pow(10, k as nat);
                let p2 = vstd::arithmetic::power::pow(10, (k + 1) as nat);
                assert(p >= 1) by {
                    vstd::arithmetic::power::lemma_pow_positive(10, k as nat);
                }
                assert(p2 == 10 * p) by {
                    vstd::arithmetic::power::lemma_pow_adds(10, k as nat, 1);
                    vstd::arithmetic::power::lemma_pow1(10);
                }
                assert((m / 10) * (10 * p) == m * p) by (nonlinear_arith)
                    requires
                        m % 10 == 0,
                        m >= 1,
                        p >= 1,
                ;
            }
            m = m / 10;
            k = k + 1;
        }
        proof {
            let p = vstd::arithmetic::power::pow(10, k as nat);
            assert(p >= 1) by {
                vstd::arithmetic::power::lemma_pow_positive(10, k as nat);
            }
            assert(m % 10 != 0 || k == 5);
            if k == 5 && m % 10 == 0 {
                // frac = m * 10^5 < 10^6 forces m < 10; m % 10 == 0 then
                // forces m == 0, against m >= 1.
                assert(p == 100000) by {
                    reveal_with_fuel(vstd::arithmetic::power::pow, 6);
                }
                assert(m < 10) by (nonlinear_arith)
                    requires
                        frac == m * p,
                        frac < 1000000,
                        p == 100000,
                        m >= 1,
                ;
                assert(false);
            }
            lemma_trim_pad(m as int, k as int, FRAC_DIGITS - k as int);
        }
        push_pad_dec(m, 6 - k, &mut out);
    }
    out
}

/// Exec table of the small powers of ten.
fn pow10_exec(e: u64) -> (r: u64)
    requires
        e <= 6,
    ensures
        r == pow10_small(e as int),
{
    if e == 0 {
        1
    } else if e == 1 {
        10
    } else if e == 2 {
        100
    } else if e == 3 {
        1000
    } else if e == 4 {
        10000
    } else if e == 5 {
        100000
    } else {
        1000000
    }
}

/// Parse a decimal numeral — digits, optionally a dot and further digits
/// — into micro-units.  Fraction digits beyond the sixth are truncated.
/// Returns nothing exactly when the text is not such a numeral or its
/// value does not fit.
pub fn parse_decimal_micro(s: &str) -> (r: Option<u64>)
    ensures
        r is Some <==> (wf_numeral(s@) && spec_micro_val(s@) <= u64::MAX),
        r is Some ==> r->0 == spec_micro_val(s@),
{
    let n = s.unicode_len();
    let mut i: usize = 0;
    let mut acc: u64 = 0;
    let mut ovf: bool = false;
    loop
        invariant
            0 <= i <= n,
            n == s@.len(),
            forall|j: int| 0 <= j < i ==> is_dec_digit(#[trigger] s@[j]),
            ovf ==> spec_dec_val(s@.take(i as int)) > u64::MAX,
            !ovf ==> acc == spec_dec_val(s@.take(i as int)),
        ensures
            0 <= i <= n,
            forall|j: int| 0 <= j < i ==> is_dec_digit(#[trigger] s@[j]),
            ovf ==> spec_dec_val(s@.take(i as int)) > u64::MAX,
            !ovf ==> acc == spec_dec_val(s@.take(i as int)),
            i == n || !is_dec_digit(s@[i as int]),
        decreases n - i,
    {
        if i >= n {
            break;
        }
        let c = s.get_char(i);
        if c < '0' || c > '9' {
            break;
        }
        let d: u64 = (c as u32 - 48) as u64;
        proof {
            assert(s@.take(i as int + 1) =~= s@.take(i as int).push(s@[i as int]));
            lemma_dec_val_snoc(s@.take(i as int), s@[i as int]);
        }
        if !ovf {
            if acc <= (u64::MAX - d) / 10 {
                acc = acc * 10 + d;
            } else {
                ovf = true;
            }
        }
        i = i + 1;
    }
    if i == 0 {
        proof {
            assert forall|i0: int| !#[trigger] valid_split(s@, i0) by {
                if valid_split(s@, i0) {
                    assert(is_dec_digit(s@[0]));
                }
            }
        }
        return None;
    }
    if i == n {
        // A pure integer numeral.
        proof {
            assert(valid_split(s@, n as int));
            lemma_split_of(s@, n as int);
            assert(frac_digits_of(s@) =~= Seq::<char>::empty());
            assert(Seq::<char>::empty().take(0) =~= Seq::<char>::empty());
        }
        if ovf {
            proof {
                lemma_micro_exceeds(spec_dec_val(s@.take(n as int)), 0);
            }
            return None;
        }
        if acc <= u64::MAX / MICRO {
            return Some(acc * MICRO);
        } else {
            proof {
                lemma_micro_combine_bounds(acc as int, 0);
            }
            return None;
        }
    }
    let dot = s.get_char(i);
    if dot != '.' {
        proof {
            lemma_no_split_bad_char(s@, i as int);
        }
        return None;
    }
    if i + 1 >= n {
        proof {
            assert forall|i0: int| !#[trigger] valid_split(s@, i0) by {
                if valid_split(s@, i0) {
                    if i0 < i {
                        assert(is_dec_digit(s@[i0]));
                    } else if i0 > i {
                        assert(is_dec_digit(s@[i as int]));
                    }
                }
            }
        }
        return None;
    }
    let ghost fd = s@.skip(i as int + 1);
    let mut j: usize = i + 1;
    let mut f: u64 = 0;
    let mut cnt: u64 = 0;
    proof {
        assert(fd.take(0) =~= Seq::<char>::empty());
    }
    loop
        invariant
            i + 1 <= j <= n,
            1 <= i < n,
            n == s@.len(),
            fd == s@.skip(i as int + 1),
            s@[i as int] == '.',
            forall|j1: int| 0 <= j1 < i ==> is_dec_digit(#[trigger] s@[j1]),
            forall|j1: int| i < j1 < j ==> is_dec_digit(#[trigger] s@[j1]),
            cnt == if j - (i + 1) <= FRAC_DIGITS {
                (j - (i + 1)) as int
            } else {
                FRAC_DIGITS as int
            },
            f == spec_dec_val(fd.take(cnt as int)),
            f < pow10_small(cnt as int),
        ensures
            j == n,
            forall|j1: int| i < j1 < n ==> is_dec_digit(#[trigger] s@[j1]),
            cnt == if n - (i + 1) <= FRAC_DIGITS {
                (n - (i + 1)) as int
            } else {
                FRAC_DIGITS as int
            },
            f == spec_dec_val(fd.take(cnt as int)),
            f < pow10_small(cnt as int),
        decreases n - j,
    {
        if j >= n {
            break;
        }
        let c = s.get_char(j);
        if c < '0' || c > '9' {
            proof {
                lemma_no_split_bad_frac(s@, i as int, j as int);
            }
            return None;
        }
        let d: u64 = (c as u32 - 48) as u64;
        if cnt < 6 {
            proof {
                assert(fd.take(cnt as int + 1) =~= fd.take(cnt as int).push(fd[cnt as int]));
                assert(fd[cnt as int] == s@[j as int]);
                lemma_dec_val_snoc(fd.take(cnt as int), fd[cnt as int]);
            }
            f = f * 10 + d;
            cnt = cnt + 1;
        }
        j = j + 1;
    }
    let p = pow10_exec(6 - cnt);
    proof {
        assert(pow10_small(cnt as int) * pow10_small(6 - cnt as int) == 1000000);
        assert(f * p <= (pow10_small(cnt as int) - 1) * p) by (nonlinear_arith)
            requires
                f < pow10_small(cnt as int),
                p >= 1,
        ;
        assert((pow10_small(cnt as int) - 1) * p == 1000000 - p) by (nonlinear_arith)
            requires
                pow10_small(cnt as int) * p == 1000000,
        ;
    }
    let fm = f * p;
    proof {
        assert(valid_split(s@, i as int));
        lemma_split_of(s@, i as int);
        assert(frac_digits_of(s@) == fd);
        lemma_dec_val_nonneg(fd.take(cnt as int));
        assert(spec_frac_micro(fd) == fm);
    }
    if ovf {
        proof {
            lemma_micro_exceeds(spec_dec_val(s@.take(i as int)), fm as int);
        }
        return None;
    }
    if acc <= (u64::MAX - fm) / MICRO {
        return Some(acc * MICRO + fm);
    } else {
        proof {
            lemma_micro_combine_bounds(acc as int, fm as int);
        }
        return None;
    }
}

/// A decimal numeral with an optional leading minus sign.
pub open spec fn wf_signed_numeral(s: Seq<char>) -> bool {
    if s.len() > 0 && s[0] == '-' {
        wf_numeral(s.skip(1))
    } else {
        wf_numeral(s)
    }
}

/// The signed micro-unit value of such a numeral.
pub open spec fn spec_signed_micro_val(s: Seq<char>) -> int {
    if s.len() > 0 && s[0] == '-' {
        -spec_micro_val(s.skip(1))
    } else {
        spec_micro_val(s)
    }
}

/// Parse a possibly negative decimal numeral into signed micro-units.
/// Returns nothing exactly when the text is malformed or out of range.
pub fn parse_signed_decimal_micro(s: &str) -> (r: Option<i64>)
    ensures
        r is Some <==> (wf_signed_numeral(s@) && i64::MIN <= spec_signed_micro_val(s@)
            <= i64::MAX),
        r is Some ==> r->0 == spec_signed_micro_val(s@),
{
    let n = s.unicode_len();
    if n > 0 && s.get_char(0) == '-' {
        let rest = s.substring_char(1, n);
        proof {
            assert(rest@ =~= s@.skip(1));
        }
        match parse_decimal_micro(rest) {
            Some(v) => {
                if v <= 9223372036854775808u64 {
                    if v == 9223372036854775808u64 {
                        Some(i64::MIN)
                    } else {
                        Some(-(v as i64))
                    }
                } else {
                    None
                }
            },
            None => {
                proof {
                    if wf_numeral(rest@) {
                        // The magnitude exceeds `u64`, so it exceeds `i64` too.
                        lemma_wf_val_nonneg(rest@);
                    }
                }
                None
            },
        }
    } else {
        match parse_decimal_micro(s) {
            Some(v) => {
                if v <= i64::MAX as u64 {
                    Some(v as i64)
                } else {
                    None
                }
            },
            None => {
                proof {
                    if wf_numeral(s@) {
                        lemma_wf_val_nonneg(s@);
                    }
                }
                None
            },
        }
    }
}

/// The value of a well-formed numeral is nonnegative.
proof fn lemma_wf_val_nonneg(s: Seq<char>)
    requires
        wf_numeral(s),
    ensures
        spec_micro_val(s) >= 0,
        spec_frac_micro(frac_digits_of(s)) >= 0,
{
    let i = split_of(s);
    assert(valid_split(s, i));
    assert(forall|j: int|
        0 <= j < s.take(i).len() ==> is_dec_digit(#[trigger] s.take(i)[j]));
    lemma_dec_val_nonneg(s.take(i));
    let fd = frac_digits_of(s);
    let c = if fd.len() <= FRAC_DIGITS {
        fd.len() as int
    } else {
        FRAC_DIGITS as int
    };
    assert(forall|j: int|
        0 <= j < fd.take(c).len() ==> is_dec_digit(#[trigger] fd.take(c)[j]));
    lemma_dec_val_nonneg(fd.take(c));
    assert(spec_dec_val(fd.take(c)) * pow10_small(FRAC_DIGITS - c) >= 0) by (nonlinear_arith)
        requires
            spec_dec_val(fd.take(c)) >= 0,
            pow10_small(FRAC_DIGITS - c) >= 1,
    ;
    assert(spec_dec_val(s.take(i)) * MICRO >= 0) by (nonlinear_arith)
        requires
            spec_dec_val(s.take(i)) >= 0,
    ;
}

/// An integer part beyond `u64` puts the whole value beyond `u64`.
proof fn lemma_micro_exceeds(whole: int, fm: int)
    requires
        whole > u64::MAX,
        fm >= 0,
    ensures
        whole * MICRO + fm > u64::MAX,
{
    assert(whole * 1000000 >= whole) by (nonlinear_arith)
        requires
            whole > 0,
    ;
}

/// The combined value fits in `u64` exactly when the integer part stays
/// under the quotient bound.
proof fn lemma_micro_combine_bounds(whole: int, fm: int)
    requires
        0 <= whole,
        0 <= fm <= 999999,
    ensures
        whole <= (u64::MAX - fm) / (MICRO as int) <==> whole * MICRO + fm <= u64::MAX,
{
    let q = (u64::MAX - fm) / (MICRO as int);
    assert(q * (MICRO as int) <= u64::MAX - fm < (q + 1) * (MICRO as int)) by (nonlinear_arith)
        requires
            q == (u64::MAX - fm) / (MICRO as int),
            0 <= fm <= 999999,
    ;
    if whole <= q {
        assert(whole * (MICRO as int) <= q * (MICRO as int)) by (nonlinear_arith)
            requires
                whole <= q,
        ;
    } else {
        assert(whole * (MICRO as int) >= (q + 1) * (MICRO as int)) by (nonlinear_arith)
            requires
                whole >= q + 1,
        ;
    }
}

/// No split exists when a non-digit, non-dot character follows the
/// leading digits.
proof fn lemma_no_split_bad_char(s: Seq<char>, i: int)
    requires
        0 <= i < s.len(),
        forall|j: int| 0 <= j < i ==> is_dec_digit(#[trigger] s[j]),
        !is_dec_digit(s[i]),
        s[i] != '.',
    ensures
        !wf_numeral(s),
{
    assert forall|i0: int| !#[trigger] valid_split(s, i0) by {
        if valid_split(s, i0) {
            if i0 < i {
                assert(is_dec_digit(s[i0]));
            } else if i0 == i {
                assert(s[i] == '.');
            } else {
                assert(is_dec_digit(s[i]));
            }
        }
    }
}

/// No split exists when a non-digit stands among the fraction digits.
proof fn lemma_no_split_bad_frac(s: Seq<char>, i: int, j: int)
    requires
        0 < i < j < s.len(),
        forall|j1: int| 0 <= j1 < i ==> is_dec_digit(#[trigger] s[j1]),
        forall|j1: int| i < j1 < j ==> is_dec_digit(#[trigger] s[j1]),
        s[i] == '.',
        !is_dec_digit(s[j]),
    ensures
        !wf_numeral(s),
{
    assert forall|i0: int| !#[trigger] valid_split(s, i0) by {
        if valid_split(s, i0) {
            if i0 < i {
                assert(is_dec_digit(s[i0]));
            } else if i0 == i {
                assert(is_dec_digit(s[j]));
            } else {
                assert(is_dec_digit(s[i]));
            }
        }
    }
}

} // verus!
