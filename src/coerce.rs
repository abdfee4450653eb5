use vstd::prelude::*;
use crate::errors::CoerceError;

verus! {

/// The text `s` with every occurrence of `c` taken out.
pub open spec fn without_char(s: Seq<char>, c: char) -> Seq<char>
    decreases s.len(),
{
    if s.len() == 0 {
        s
    } else if s.last() == c {
        without_char(s.drop_last(), c)
    } else {
        without_char(s.drop_last(), c).push(s.last())
    }
}

/// Removing a character commutes with concatenation.
pub proof fn lemma_without_char_append(a: Seq<char>, b: Seq<char>, c: char)
    ensures
        without_char(a + b, c) == without_char(a, c) + without_char(b, c),
    decreases b.len(),
{
    if b.len() == 0 {
        assert(a + b =~= a);
        assert(without_char(b, c) =~= Seq::<char>::empty());
        assert(without_char(a, c) + without_char(b, c) =~= without_char(a, c));
    } else {
        lemma_without_char_append(a, b.drop_last(), c);
        assert((a + b).drop_last() =~= a + b.drop_last());
        assert((a + b).last() == b.last());
        if b.last() != c {
            assert(without_char(a, c) + without_char(b.drop_last(), c).push(b.last())
                =~= (without_char(a, c) + without_char(b.drop_last(), c)).push(b.last()));
        }
    }
}

/// Copy of `s` with every `c` removed.
pub fn remove_char(s: &str, c: char) -> (r: String)
    ensures
        r@ == without_char(s@, c),
{
    let n = s.unicode_len();
    let mut out = String::new();
    let mut i: usize = 0;
    while i < n
        invariant
            n == s@.len(),
            i <= n,
            out@ == without_char(s@.subrange(0, i as int), c),
        decreases n - i,
    {
        let ch = s.get_char(i);
        assert(s@.subrange(0, i + 1).drop_last() =~= s@.subrange(0, i as int));
        if ch != c {
            out.append(s.substring_char(i, i + 1));
            assert(s@.subrange(i as int, i + 1) =~= seq![ch]);
        }
        i = i + 1;
    }
    assert(s@.subrange(0, n as int) =~= s@);
    out
}

/// Text cell with every space removed (the feed pads names with spaces).
pub fn strip_spaces(raw: &str) -> (r: String)
    ensures
        r@ == without_char(raw@, ' '),
{
    remove_char(raw, ' ')
}


/// An ASCII decimal digit.
pub open spec fn is_digit(c: char) -> bool {
    '0' <= c && c <= '9'
}

pub open spec fn all_digits(s: Seq<char>) -> bool {
    forall|i: int| 0 <= i < s.len() ==> is_digit(#[trigger] s[i])
}

/// Value of a string of decimal digits, most significant first.
pub open spec fn digits_value(s: Seq<char>) -> nat
    decreases s.len(),
{
    if s.len() == 0 {
        0
    } else {
        digits_value(s.drop_last()) * 10 + (s.last() as nat - '0' as nat) as nat
    }
}

/// The integer that a non-empty run of decimal digits denotes.
pub open spec fn decimal_value(s: Seq<char>) -> Option<nat> {
    if s.len() > 0 && all_digits(s) {
        Some(digits_value(s))
    } else {
        None
    }
}

/// What `coerce_unsigned` makes of a cell: commas dropped, then a decimal
/// integer that fits in 64 bits.
pub open spec fn unsigned_of(raw: Seq<char>) -> Option<u64> {
    match decimal_value(without_char(raw, ',')) {
        Some(n) => if n <= u64::MAX {
            Some(n as u64)
        } else {
            None
        },
        None => None,
    }
}

/// What `coerce_signed` makes of a cell: commas dropped, then an optional
/// leading minus sign and a decimal integer that fits in 64 signed bits.
pub open spec fn signed_of(raw: Seq<char>) -> Option<i64> {
    let t = without_char(raw, ',');
    if t.len() > 0 && t[0] == '-' {
        match decimal_value(t.drop_first()) {
            Some(n) => if n <= 0x8000_0000_0000_0000 {
                Some((-n) as i64)
            } else {
                None
            },
            None => None,
        }
    } else {
        match decimal_value(t) {
            Some(n) => if n <= i64::MAX {
                Some(n as i64)
            } else {
                None
            },
            None => None,
        }
    }
}

/// A digit string is worth at least as much as any of its prefixes.
pub proof fn lemma_digits_prefix_le(s: Seq<char>, k: int)
    requires
        0 <= k <= s.len(),
    ensures
        digits_value(s.subrange(0, k)) <= digits_value(s),
    decreases s.len(),
{
    if k < s.len() {
        lemma_digits_prefix_le(s.drop_last(), k);
        assert(s.drop_last().subrange(0, k) =~= s.subrange(0, k));
    } else {
        assert(s.subrange(0, k) =~= s);
    }
}

/// Parses a non-empty run of ASCII digits into a `u64`; `None` on anything
/// else, or when the value does not fit.
pub(crate) fn parse_decimal(t: &str) -> (r: Option<u64>)
    ensures
        r == (match decimal_value(t@) {
            Some(n) => if n <= u64::MAX {
                Some(n as u64)
            } else {
                None::<u64>
            },
            None => None,
        }),
{
    let n = t.unicode_len();
    if n == 0 {
        return None;
    }
    let mut acc: u64 = 0;
    let mut i: usize = 0;
    while i < n
        invariant
            n == t@.len(),
            i <= n,
            all_digits(t@.subrange(0, i as int)),
            acc as nat == digits_value(t@.subrange(0, i as int)),
        decreases n - i,
    {
        let ch = t.get_char(i);
        assert(t@.subrange(0, i + 1).drop_last() =~= t@.subrange(0, i as int));
        if ch < '0' || ch > '9' {
            assert(!is_digit(t@[i as int]));
            return None;
        }
        let d = (ch as u32 - '0' as u32) as u64;
        if acc > (u64::MAX - d) / 10 {
            proof {
                if all_digits(t@) {
                    lemma_digits_prefix_le(t@, i + 1);
                }
            }
            return None;
        }
        acc = acc * 10 + d;
        i = i + 1;
        assert(all_digits(t@.subrange(0, i as int)));
    }
    assert(t@.subrange(0, n as int) =~= t@);
    Some(acc)
}

/// Reads a comma-grouped non-negative integer cell such as `"87,532,849,369"`.
pub fn coerce_unsigned(raw: &str) -> (r: Result<u64, CoerceError>)
    ensures
        unsigned_of(raw@) matches Some(n) ==> r == Ok::<u64, CoerceError>(n),
        unsigned_of(raw@) is None ==> (r matches Err(CoerceError::BadNumber(s)) && s@ == raw@),
{
    let cleaned = remove_char(raw, ',');
    match parse_decimal(cleaned.as_str()) {
        Some(n) => Ok(n),
        None => Err(CoerceError::BadNumber(raw.to_owned())),
    }
}

/// Reads a comma-grouped integer cell with an optional leading minus sign,
/// such as `"-5,625,328,575"`.
pub fn coerce_signed(raw: &str) -> (r: Result<i64, CoerceError>)
    ensures
        signed_of(raw@) matches Some(n) ==> r == Ok::<i64, CoerceError>(n),
        signed_of(raw@) is None ==> (r matches Err(CoerceError::BadNumber(s)) && s@ == raw@),
{
    let cleaned = remove_char(raw, ',');
    let t = cleaned.as_str();
    let len = t.unicode_len();
    if len > 0 && t.get_char(0) == '-' {
        let magnitude = t.substring_char(1, len);
        assert(magnitude@ =~= t@.drop_first());
        match parse_decimal(magnitude) {
            Some(m) => {
                if m <= 0x8000_0000_0000_0000u64 {
                    if m == 0x8000_0000_0000_0000u64 {
                        Ok(i64::MIN)
                    } else {
                        Ok(-(m as i64))
                    }
                } else {
                    Err(CoerceError::BadNumber(raw.to_owned()))
                }
            },
            None => Err(CoerceError::BadNumber(raw.to_owned())),
        }
    } else {
        match parse_decimal(t) {
            Some(m) => {
                if m <= i64::MAX as u64 {
                    Ok(m as i64)
                } else {
                    Err(CoerceError::BadNumber(raw.to_owned()))
                }
            },
            None => Err(CoerceError::BadNumber(raw.to_owned())),
        }
    }
}

/// Ten to the power `w`.
pub open spec fn pow10(w: nat) -> nat
    decreases w,
{
    if w == 0 {
        1
    } else {
        10 * pow10((w - 1) as nat)
    }
}

/// The decimal digit character for `k` in 0 to 9.
pub open spec fn digit_char(k: int) -> char {
    if k == 0 {
        '0'
    } else if k == 1 {
        '1'
    } else if k == 2 {
        '2'
    } else if k == 3 {
        '3'
    } else if k == 4 {
        '4'
    } else if k == 5 {
        '5'
    } else if k == 6 {
        '6'
    } else if k == 7 {
        '7'
    } else if k == 8 {
        '8'
    } else {
        '9'
    }
}

/// The last `w` decimal digits of `n`, zero-padded on the left.
pub open spec fn padded(n: nat, w: nat) -> Seq<char>
    decreases w,
{
    if w == 0 {
        Seq::empty()
    } else {
        padded(n / 10, (w - 1) as nat).push(digit_char(n as int % 10))
    }
}

pub(crate) proof fn lemma_digit_char(c: char)
    requires
        is_digit(c),
    ensures
        digit_char(c as int - '0' as int) == c,
{
}

pub(crate) proof fn lemma_padded(n: nat, w: nat)
    requires
        n < pow10(w),
    ensures
        padded(n, w).len() == w,
        all_digits(padded(n, w)),
        digits_value(padded(n, w)) == n,
    decreases w,
{
    if w > 0 {
        lemma_padded(n / 10, (w - 1) as nat);
        let p = padded(n, w);
        assert(p.drop_last() == padded(n / 10, (w - 1) as nat));
        assert forall|i: int| 0 <= i < p.len() implies is_digit(#[trigger] p[i]) by {
            if i < p.len() - 1 {
                assert(p[i] == p.drop_last()[i]);
            }
        }
    }
}

pub(crate) proof fn lemma_digits_bound(s: Seq<char>)
    requires
        all_digits(s),
    ensures
        digits_value(s) < pow10(s.len()),
    decreases s.len(),
{
    if s.len() > 0 {
        assert(all_digits(s.drop_last()) ) by {
            assert forall|i: int| 0 <= i < s.len() - 1 implies is_digit(#[trigger] s.drop_last()[i]) by {
                assert(s.drop_last()[i] == s[i]);
            }
        }
        lemma_digits_bound(s.drop_last());
        assert(is_digit(s[s.len() - 1]));
    }
}

pub(crate) proof fn lemma_padded_of_digits(s: Seq<char>)
    requires
        all_digits(s),
    ensures
        padded(digits_value(s), s.len()) == s,
    decreases s.len(),
{
    if s.len() > 0 {
        let t = s.drop_last();
        assert(all_digits(t)) by {
            assert forall|i: int| 0 <= i < t.len() implies is_digit(#[trigger] t[i]) by {
                assert(t[i] == s[i]);
            }
        }
        lemma_padded_of_digits(t);
        assert(is_digit(s[s.len() - 1]));
        lemma_digit_char(s.last());
        let v = digits_value(s);
        assert(v / 10 == digits_value(t));
        assert(v as int % 10 == s.last() as int - '0' as int);
        assert(s =~= t.push(s.last()));
    }
}

/// `n` in decimal, without leading zeros.
pub open spec fn decimal_text(n: nat) -> Seq<char>
    decreases n,
{
    if n < 10 {
        seq![digit_char(n as int)]
    } else {
        decimal_text(n / 10).push(digit_char(n as int % 10))
    }
}

/// `n` in decimal with a `,` between groups of three digits, as the feed
/// writes amounts.
pub open spec fn grouped(n: nat) -> Seq<char>
    decreases n,
{
    if n < 1000 {
        decimal_text(n)
    } else {
        grouped(n / 1000) + seq![','] + padded(n % 1000, 3)
    }
}

proof fn lemma_all_digits_append(a: Seq<char>, b: Seq<char>)
    requires
        all_digits(a),
        all_digits(b),
    ensures
        all_digits(a + b),
{
    assert forall|i: int| 0 <= i < (a + b).len() implies is_digit(#[trigger] (a + b)[i]) by {
        if i < a.len() {
            assert((a + b)[i] == a[i]);
        } else {
            assert((a + b)[i] == b[i - a.len()]);
        }
    }
}

proof fn lemma_digits_append(a: Seq<char>, b: Seq<char>)
    ensures
        digits_value(a + b) == digits_value(a) * pow10(b.len()) + digits_value(b),
    decreases b.len(),
{
    if b.len() == 0 {
        assert(a + b =~= a);
        assert(pow10(0) == 1);
        assert(digits_value(b) == 0);
        assert(digits_value(a) * 1 == digits_value(a));
    } else {
        let b1 = b.drop_last();
        lemma_digits_append(a, b1);
        assert((a + b).drop_last() =~= a + b1);
        assert((a + b).last() == b.last());
        let e = (b.last() as nat - '0' as nat) as nat;
        let x = digits_value(a);
        let p = pow10(b1.len());
        let y = digits_value(b1);
        assert(pow10(b.len()) == 10 * p);
        assert(digits_value(b) == y * 10 + e);
        assert(digits_value(a + b) == digits_value(a + b1) * 10 + e);
        assert(digits_value(a + b1) == x * p + y);
        assert((x * p + y) * 10 + e == x * (10 * p) + (y * 10 + e)) by (nonlinear_arith);
    }
}

proof fn lemma_no_commas(s: Seq<char>)
    requires
        all_digits(s),
    ensures
        without_char(s, ',') == s,
    decreases s.len(),
{
    if s.len() > 0 {
        let t = s.drop_last();
        assert(all_digits(t)) by {
            assert forall|i: int| 0 <= i < t.len() implies is_digit(#[trigger] t[i]) by {
                assert(t[i] == s[i]);
            }
        }
        lemma_no_commas(t);
        assert(is_digit(s[s.len() - 1]));
        assert(s =~= t.push(s.last()));
    }
}

proof fn lemma_digit_char_value(k: int)
    requires
        0 <= k < 10,
    ensures
        is_digit(digit_char(k)),
        (digit_char(k) as nat - '0' as nat) as nat == k,
{
}

proof fn lemma_without_char_single(x: char, c: char)
    ensures
        without_char(seq![x], c) == (if x == c {
            Seq::<char>::empty()
        } else {
            seq![x]
        }),
{
    reveal_with_fuel(without_char, 2);
    assert(seq![x].drop_last() =~= Seq::<char>::empty());
    assert(Seq::<char>::empty().push(x) =~= seq![x]);
}

proof fn lemma_decimal_text(n: nat)
    ensures
        decimal_text(n).len() > 0,
        all_digits(decimal_text(n)),
        digits_value(decimal_text(n)) == n,
    decreases n,
{
    if n >= 10 {
        lemma_decimal_text(n / 10);
        lemma_digit_char_value(n as int % 10);
        let t = decimal_text(n);
        assert(t.last() == digit_char(n as int % 10));
        assert(digits_value(t) == digits_value(t.drop_last()) * 10 + (t.last() as nat - '0' as nat) as nat);
        assert(t.drop_last() == decimal_text(n / 10));
        assert forall|i: int| 0 <= i < t.len() implies is_digit(#[trigger] t[i]) by {
            if i < t.len() - 1 {
                assert(t[i] == t.drop_last()[i]);
            }
        }
    } else {
        lemma_digit_char_value(n as int);
        let t = decimal_text(n);
        assert(t.drop_last() =~= Seq::<char>::empty());
        assert(t.last() == digit_char(n as int));
        assert(digits_value(t) == digits_value(t.drop_last()) * 10 + (t.last() as nat - '0' as nat) as nat);
    }
}

proof fn lemma_grouped(n: nat)
    ensures
        without_char(grouped(n), ',').len() > 0,
        all_digits(without_char(grouped(n), ',')),
        digits_value(without_char(grouped(n), ',')) == n,
    decreases n,
{
    if n < 1000 {
        lemma_decimal_text(n);
        lemma_no_commas(decimal_text(n));
    } else {
        lemma_grouped(n / 1000);
        let head = grouped(n / 1000);
        let tail = padded(n % 1000, 3);
        assert(pow10(3) == 1000) by {
            reveal_with_fuel(pow10, 4);
        }
        lemma_padded(n % 1000, 3);
        lemma_no_commas(tail);
        lemma_without_char_append(head + seq![','], tail, ',');
        lemma_without_char_append(head, seq![','], ',');
        lemma_without_char_single(',', ',');
        let h = without_char(head, ',');
        assert(h + Seq::<char>::empty() =~= h);
        assert(without_char(grouped(n), ',') == h + tail);
        lemma_all_digits_append(h, tail);
        lemma_digits_append(h, tail);
    }
}

/// Writing an amount with `,` grouping and reading it back gives the amount;
/// with a minus sign in front it is no amount at all.
pub proof fn lemma_grouped_round_trip(n: u64)
    ensures
        unsigned_of(grouped(n as nat)) == Some(n),
        unsigned_of(seq!['-'] + grouped(n as nat)) is None,
{
    lemma_grouped(n as nat);
    lemma_without_char_append(seq!['-'], grouped(n as nat), ',');
    lemma_without_char_single('-', ',');
    assert((seq!['-'] + without_char(grouped(n as nat), ','))[0] == '-');
    assert(!is_digit('-'));
}

/// A grouped amount with or without a leading minus sign reads as the signed
/// value it writes.
pub proof fn lemma_signed_grouped_round_trip(n: nat)
    requires
        n <= 0x8000_0000_0000_0000,
    ensures
        signed_of(seq!['-'] + grouped(n)) == Some((-n) as i64),
        n <= i64::MAX ==> signed_of(grouped(n)) == Some(n as i64),
{
    lemma_grouped(n);
    let g = without_char(grouped(n), ',');
    lemma_without_char_append(seq!['-'], grouped(n), ',');
    lemma_without_char_single('-', ',');
    assert((seq!['-'] + g).drop_first() =~= g);
    assert(g[0] != '-') by {
        assert(is_digit(g[0]));
    }
}

} // verus!
