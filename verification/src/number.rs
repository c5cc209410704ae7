//! Fixed-point decimal numbers: how they are written and how they are read.
use vstd::prelude::*;
use vstd::string::*;

verus! {

/// Ten to the power `n`.
pub open spec fn pow10(n: nat) -> nat
    decreases n,
{
    if n == 0 {
        1
    } else {
        10 * pow10((n - 1) as nat)
    }
}

/// The character that writes the digit `d`.
pub open spec fn digit_char(d: int) -> char {
    if d == 0 {
        '0'
    } else if d == 1 {
        '1'
    } else if d == 2 {
        '2'
    } else if d == 3 {
        '3'
    } else if d == 4 {
        '4'
    } else if d == 5 {
        '5'
    } else if d == 6 {
        '6'
    } else if d == 7 {
        '7'
    } else if d == 8 {
        '8'
    } else {
        '9'
    }
}

/// Whether `c` is one of the ten decimal digits.
pub open spec fn is_digit(c: char) -> bool {
    c == '0' || c == '1' || c == '2' || c == '3' || c == '4' || c == '5' || c == '6' || c == '7'
        || c == '8' || c == '9'
}

/// The digit that `c` writes; zero where `c` is no digit.
pub open spec fn digit_of(c: char) -> nat {
    if c == '1' {
        1
    } else if c == '2' {
        2
    } else if c == '3' {
        3
    } else if c == '4' {
        4
    } else if c == '5' {
        5
    } else if c == '6' {
        6
    } else if c == '7' {
        7
    } else if c == '8' {
        8
    } else if c == '9' {
        9
    } else {
        0
    }
}

/// The decimal numeral of `n`, without leading zeros.
pub open spec fn nat_text(n: nat) -> Seq<char>
    decreases n,
{
    if n < 10 {
        seq![digit_char(n as int)]
    } else {
        nat_text(n / 10).push(digit_char((n % 10) as int))
    }
}

/// The last `width` decimal digits of `n`, leading zeros included.
pub open spec fn padded_text(n: nat, width: nat) -> Seq<char>
    decreases width,
{
    if width == 0 {
        Seq::empty()
    } else {
        padded_text(n / 10, (width - 1) as nat).push(digit_char((n % 10) as int))
    }
}

/// The magnitude of `v`.
pub open spec fn magnitude(v: int) -> nat {
    if v < 0 {
        (-v) as nat
    } else {
        v as nat
    }
}

/// The numeral of `v / 10^decimals` with exactly `decimals` places after the
/// point: a minus sign for a negative `v`, the whole part without leading
/// zeros, and the point with the places where there are any.
pub open spec fn fixed_text(v: int, decimals: nat) -> Seq<char> {
    let m = magnitude(v);
    let sign = if v < 0 {
        seq!['-']
    } else {
        Seq::<char>::empty()
    };
    let whole = nat_text(m / pow10(decimals));
    let places = if decimals == 0 {
        Seq::<char>::empty()
    } else {
        seq!['.'] + padded_text(m % pow10(decimals), decimals)
    };
    sign + whole + places
}

/// The numeral of one digit.
fn digit_str(d: u64) -> (s: &'static str)
    requires
        d < 10,
    ensures
        s@ == seq![digit_char(d as int)],
{
    proof {
        reveal_strlit("0");
        reveal_strlit("1");
        reveal_strlit("2");
        reveal_strlit("3");
        reveal_strlit("4");
        reveal_strlit("5");
        reveal_strlit("6");
        reveal_strlit("7");
        reveal_strlit("8");
        reveal_strlit("9");
    }
    let s = if d == 0 {
        "0"
    } else if d == 1 {
        "1"
    } else if d == 2 {
        "2"
    } else if d == 3 {
        "3"
    } else if d == 4 {
        "4"
    } else if d == 5 {
        "5"
    } else if d == 6 {
        "6"
    } else if d == 7 {
        "7"
    } else if d == 8 {
        "8"
    } else {
        "9"
    };
    s
}

/// Appends the numeral of `n` to `out`.
fn push_nat(out: &mut String, n: u64)
    ensures
        final(out)@ == old(out)@ + nat_text(n as nat),
    decreases n,
{
    if n < 10 {
        out.append(digit_str(n));
    } else {
        push_nat(out, n / 10);
        out.append(digit_str(n % 10));
    }
}

/// Appends the last `width` digits of `n` to `out`.
fn push_padded(out: &mut String, n: u64, width: u8)
    ensures
        final(out)@ == old(out)@ + padded_text(n as nat, width as nat),
    decreases width,
{
    if width == 0 {
    } else {
        push_padded(out, n / 10, width - 1);
        out.append(digit_str(n % 10));
    }
}

/// Ten to the power `n`, for the powers that fit.
pub fn ten_to(n: u8) -> (p: u64)
    requires
        n <= 18,
    ensures
        p == pow10(n as nat),
        1 <= p <= 1_000_000_000_000_000_000,
{
    let mut p: u64 = 1;
    let mut i: u8 = 0;
    proof {
        lemma_pow10_monotonic(0, 18);
    }
    while i < n
        invariant
            i <= n <= 18,
            p == pow10(i as nat),
            pow10(18) == 1_000_000_000_000_000_000,
        decreases n - i,
    {
        proof {
            lemma_pow10_monotonic((i + 1) as nat, 18);
        }
        p = p * 10;
        i = i + 1;
    }
    proof {
        lemma_pow10_monotonic(n as nat, 18);
    }
    p
}

/// The powers of ten grow with the exponent, and the largest that a 64-bit
/// word takes is the eighteenth.
pub proof fn lemma_pow10_monotonic(a: nat, b: nat)
    requires
        a <= b,
    ensures
        1 <= pow10(a) <= pow10(b),
        pow10(18) == 1_000_000_000_000_000_000,
    decreases b,
{
    reveal_with_fuel(pow10, 19);
    if a < b {
        lemma_pow10_monotonic(a, (b - 1) as nat);
    } else if a > 0 {
        lemma_pow10_monotonic((a - 1) as nat, (a - 1) as nat);
    }
}

/// The magnitude of a 64-bit integer.
pub fn magnitude_of(v: i64) -> (m: u64)
    ensures
        m == magnitude(v as int),
{
    if v >= 0 {
        v as u64
    } else {
        let w: i64 = -(v + 1);
        (w as u64) + 1
    }
}

/// Writes `value / 10^decimals` with exactly `decimals` places.
pub fn format_fixed(value: i64, decimals: u8) -> (s: String)
    ensures
        s@ == fixed_text(value as int, decimals as nat),
{
    let m = magnitude_of(value);
    let mut s = String::new();
    if value < 0 {
        proof {
            reveal_strlit("-");
        }
        s.append("-");
    }
    if decimals <= 18 {
        let scale = ten_to(decimals);
        push_nat(&mut s, m / scale);
        if decimals > 0 {
            proof {
                reveal_strlit(".");
            }
            s.append(".");
            push_padded(&mut s, m % scale, decimals);
        }
    } else {
        proof {
            reveal_strlit(".");
            lemma_pow10_monotonic(18, (decimals - 1) as nat);
            let mn = m as nat;
            let p = pow10(decimals as nat);
            assert(mn / p == 0) by (nonlinear_arith)
                requires
                    0 <= mn < p,
            ;
            assert(mn % p == mn) by (nonlinear_arith)
                requires
                    0 <= mn < p,
            ;
        }
        push_nat(&mut s, 0);
        s.append(".");
        push_padded(&mut s, m, decimals);
    }
    s
}

/// Whether every character of `s` is a decimal digit.
pub open spec fn all_digits(s: Seq<char>) -> bool {
    forall|i: int| 0 <= i < s.len() ==> is_digit(#[trigger] s[i])
}

/// The number that the digits of `s` write, read from the left.
pub open spec fn digits_value(s: Seq<char>) -> nat
    decreases s.len(),
{
    if s.len() == 0 {
        0
    } else {
        digits_value(s.drop_last()) * 10 + digit_of(s.last())
    }
}

/// Whether `s` opens with a sign.
pub open spec fn has_sign(s: Seq<char>) -> bool {
    s.len() > 0 && (s[0] == '-' || s[0] == '+')
}

/// Whether `s` opens with a minus sign.
pub open spec fn is_negative(s: Seq<char>) -> bool {
    s.len() > 0 && s[0] == '-'
}

/// What follows the sign of `s`, or all of `s` where it has none.
pub open spec fn after_sign(s: Seq<char>) -> Seq<char> {
    if has_sign(s) {
        s.subrange(1, s.len() as int)
    } else {
        s
    }
}

/// Where the first point of `s` stands; the length of `s` where it has none.
pub open spec fn point_at(s: Seq<char>) -> int
    decreases s.len(),
{
    if s.len() == 0 {
        0
    } else if s[0] == '.' {
        0
    } else {
        1 + point_at(s.drop_first())
    }
}

/// The digits before the point of an unsigned numeral.
pub open spec fn whole_part(u: Seq<char>) -> Seq<char> {
    u.subrange(0, point_at(u))
}

/// The digits after the point of an unsigned numeral; none where it has no
/// point.
pub open spec fn places_part(u: Seq<char>) -> Seq<char> {
    if point_at(u) < u.len() {
        u.subrange(point_at(u) + 1, u.len() as int)
    } else {
        Seq::empty()
    }
}

/// Whether `m` is the mantissa of a numeral: digits, and an optional point
/// followed by digits, with at least one digit in all.
pub open spec fn is_mantissa(m: Seq<char>) -> bool {
    &&& all_digits(whole_part(m))
    &&& all_digits(places_part(m))
    &&& whole_part(m).len() + places_part(m).len() > 0
}

/// Whether `c` opens the exponent of a numeral.
pub open spec fn is_mark(c: char) -> bool {
    c == 'e' || c == 'E'
}

/// Where the first exponent mark of `s` stands; the length of `s` where it
/// has none.
pub open spec fn mark_at(s: Seq<char>) -> int
    decreases s.len(),
{
    if s.len() == 0 {
        0
    } else if is_mark(s[0]) {
        0
    } else {
        1 + mark_at(s.drop_first())
    }
}

/// What stands before the exponent mark of an unsigned numeral.
pub open spec fn mantissa(u: Seq<char>) -> Seq<char> {
    u.subrange(0, mark_at(u))
}

/// What stands after the exponent mark of an unsigned numeral; nothing
/// where it has no mark.
pub open spec fn exponent_text(u: Seq<char>) -> Seq<char> {
    if mark_at(u) < u.len() {
        u.subrange(mark_at(u) + 1, u.len() as int)
    } else {
        Seq::empty()
    }
}

/// Whether `e` is an exponent: an optional sign and from one to eighteen
/// digits.
pub open spec fn is_exponent(e: Seq<char>) -> bool {
    0 < after_sign(e).len() <= 18 && all_digits(after_sign(e))
}

/// The value of the exponent `e`.
pub open spec fn exponent_value(e: Seq<char>) -> int {
    if is_negative(e) {
        -(digits_value(after_sign(e)) as int)
    } else {
        digits_value(after_sign(e)) as int
    }
}

/// Whether `u` is an unsigned decimal numeral: a mantissa, and an optional
/// exponent after the mark `e` or `E`.
pub open spec fn is_unsigned_numeral(u: Seq<char>) -> bool {
    &&& is_mantissa(mantissa(u))
    &&& mark_at(u) < u.len() ==> is_exponent(exponent_text(u))
}

/// Whether `s` is a decimal numeral: an optional sign and an unsigned
/// numeral.
pub open spec fn is_numeral(s: Seq<char>) -> bool {
    is_unsigned_numeral(after_sign(s))
}

/// The exponent of an unsigned numeral; zero where it has none.
pub open spec fn exponent_of(u: Seq<char>) -> int {
    if mark_at(u) < u.len() {
        exponent_value(exponent_text(u))
    } else {
        0
    }
}

/// The digits of an unsigned numeral: those before the point and those
/// after it.
pub open spec fn digits_of(u: Seq<char>) -> Seq<char> {
    whole_part(mantissa(u)) + places_part(mantissa(u))
}

/// The number that the first `n` of the digits `d` write; where `d` has
/// fewer, zeros follow them; for no digits, zero.
pub open spec fn counted_value(d: Seq<char>, n: int) -> nat {
    if n <= 0 {
        0
    } else if n <= d.len() {
        digits_value(d.take(n))
    } else {
        digits_value(d) * pow10((n - d.len()) as nat)
    }
}

/// How many of the digits of an unsigned numeral stand before the point,
/// once the exponent has moved it and `decimals` places after it count too.
pub open spec fn digits_counted(u: Seq<char>, decimals: nat) -> int {
    whole_part(mantissa(u)).len() + exponent_of(u) + decimals
}

/// The magnitude of the numeral `s` in units of `10^-decimals`; places beyond
/// `decimals` are cut off.
pub open spec fn numeral_magnitude(s: Seq<char>, decimals: nat) -> nat {
    counted_value(digits_of(after_sign(s)), digits_counted(after_sign(s), decimals))
}

/// The value of the numeral `s` in units of `10^-decimals`, where `s` is a
/// numeral and the value fits a 64-bit integer.
pub open spec fn fixed_value(s: Seq<char>, decimals: nat) -> Option<int> {
    let value = if is_negative(s) {
        -(numeral_magnitude(s, decimals) as int)
    } else {
        numeral_magnitude(s, decimals) as int
    };
    if is_numeral(s) && i64::MIN <= value <= i64::MAX {
        Some(value)
    } else {
        None
    }
}

/// The part of `s` before position `p` holds no point, so the first point
/// stands at `p` or later, and at `p` where `s` ends or has a point there.
pub proof fn lemma_point_at(s: Seq<char>, p: int)
    requires
        0 <= p <= s.len(),
        forall|m: int| 0 <= m < p ==> s[m] != '.',
    ensures
        p <= point_at(s) <= s.len(),
        (p == s.len() || s[p] == '.') ==> point_at(s) == p,
    decreases s.len(),
{
    if s.len() > 0 && s[0] != '.' {
        let t = s.drop_first();
        if p > 0 {
            lemma_point_at(t, p - 1);
        } else {
            lemma_point_at(t, 0);
        }
    }
}

/// The part of `s` before position `p` holds no exponent mark, so the first
/// mark stands at `p` or later, and at `p` where `s` ends or has a mark
/// there.
pub proof fn lemma_mark_at(s: Seq<char>, p: int)
    requires
        0 <= p <= s.len(),
        forall|m: int| 0 <= m < p ==> !is_mark(s[m]),
    ensures
        p <= mark_at(s) <= s.len(),
        (p == s.len() || is_mark(s[p])) ==> mark_at(s) == p,
    decreases s.len(),
{
    if s.len() > 0 && !is_mark(s[0]) {
        let t = s.drop_first();
        if p > 0 {
            lemma_mark_at(t, p - 1);
        } else {
            lemma_mark_at(t, 0);
        }
    }
}

/// The digits `s` write a number below ten to the power of their count.
pub proof fn lemma_digits_bound(s: Seq<char>)
    ensures
        digits_value(s) < pow10(s.len()),
    decreases s.len(),
{
    if s.len() > 0 {
        lemma_digits_bound(s.drop_last());
    }
}

/// The characters of `text`, one by one.
pub fn chars_of(text: &str) -> (v: Vec<char>)
    ensures
        v@ == text@,
{
    let n = text.unicode_len();
    let mut v: Vec<char> = Vec::new();
    let mut i: usize = 0;
    while i < n
        invariant
            i <= n,
            n == text@.len(),
            v@ == text@.take(i as int),
        decreases n - i,
    {
        v.push(text.get_char(i));
        i = i + 1;
    }
    v
}

/// Whether `c` is a decimal digit.
pub fn digit_check(c: char) -> (b: bool)
    ensures
        b == is_digit(c),
{
    c == '0' || c == '1' || c == '2' || c == '3' || c == '4' || c == '5' || c == '6' || c == '7'
        || c == '8' || c == '9'
}

/// The digit that `c` writes.
fn digit_value(c: char) -> (d: u64)
    ensures
        d == digit_of(c),
        d < 10,
{
    if c == '1' {
        1
    } else if c == '2' {
        2
    } else if c == '3' {
        3
    } else if c == '4' {
        4
    } else if c == '5' {
        5
    } else if c == '6' {
        6
    } else if c == '7' {
        7
    } else if c == '8' {
        8
    } else if c == '9' {
        9
    } else {
        0
    }
}

/// The greatest magnitude of a 64-bit integer, that of the least.
pub const MAX_MAGNITUDE: u64 = 9_223_372_036_854_775_808;

/// A number that is being read digit by digit: `acc` holds it while it is no
/// more than `MAX_MAGNITUDE`, and `big` says that it has outgrown that.
struct Reading {
    acc: u64,
    big: bool,
}

impl Reading {
    /// Whether this reading stands for the number `n`.
    spec fn reads(&self, n: nat) -> bool {
        if self.big {
            n > MAX_MAGNITUDE
        } else {
            self.acc == n && n <= MAX_MAGNITUDE
        }
    }

    /// The reading of ten times the number, plus the digit `d`.
    fn shift(&self, d: u64, Ghost(n): Ghost<nat>) -> (r: Reading)
        requires
            self.reads(n),
            d < 10,
        ensures
            r.reads((n * 10 + d) as nat),
    {
        if self.big || self.acc > 922337203685477580 {
            Reading { acc: 0, big: true }
        } else {
            let next: u64 = self.acc * 10 + d;
            if next > MAX_MAGNITUDE {
                Reading { acc: 0, big: true }
            } else {
                Reading { acc: next, big: false }
            }
        }
    }
}

/// Reads digits of `chars` from `from` on, at most `max` of them, into
/// `reading`; returns where it stopped.
fn take_digits(
    chars: &Vec<char>,
    from: usize,
    max: usize,
    reading: Reading,
    Ghost(kept): Ghost<Seq<char>>,
) -> (r: (usize, Reading))
    requires
        from <= chars@.len(),
        reading.reads(digits_value(kept)),
    ensures
        from <= r.0 <= chars@.len(),
        r.0 - from <= max,
        all_digits(chars@.subrange(from as int, r.0 as int)),
        r.0 == chars@.len() || r.0 - from == max || !is_digit(chars@[r.0 as int]),
        r.1.reads(digits_value(kept + chars@.subrange(from as int, r.0 as int))),
{
    let n = chars.len();
    let mut i: usize = from;
    let mut reading = reading;
    while i < n && i - from < max && digit_check(chars[i])
        invariant
            from <= i <= n,
            n == chars@.len(),
            i - from <= max,
            all_digits(chars@.subrange(from as int, i as int)),
            reading.reads(digits_value(kept + chars@.subrange(from as int, i as int))),
        decreases n - i,
    {
        let ghost before = kept + chars@.subrange(from as int, i as int);
        reading = reading.shift(digit_value(chars[i]), Ghost(digits_value(before)));
        i = i + 1;
        proof {
            let after = kept + chars@.subrange(from as int, i as int);
            assert(after.drop_last() =~= before);
        }
    }
    (i, reading)
}

/// The characters of `chars` from `from` up to `to`.
pub fn slice(chars: &Vec<char>, from: usize, to: usize) -> (r: Vec<char>)
    requires
        from <= to <= chars@.len(),
    ensures
        r@ == chars@.subrange(from as int, to as int),
{
    let mut r: Vec<char> = Vec::new();
    let mut i: usize = from;
    while i < to
        invariant
            from <= i <= to <= chars@.len(),
            r@ == chars@.subrange(from as int, i as int),
        decreases to - i,
    {
        r.push(chars[i]);
        i = i + 1;
    }
    r
}

/// Where the first point of `chars` stands.
fn find_point(chars: &Vec<char>) -> (r: usize)
    ensures
        r == point_at(chars@),
        r <= chars@.len(),
{
    let n = chars.len();
    let mut i: usize = 0;
    while i < n && chars[i] != '.'
        invariant
            i <= n,
            n == chars@.len(),
            forall|m: int| 0 <= m < i ==> chars@[m] != '.',
        decreases n - i,
    {
        i = i + 1;
    }
    proof {
        lemma_point_at(chars@, i as int);
    }
    i
}

/// Where the first exponent mark of `chars` stands.
fn find_mark(chars: &Vec<char>) -> (r: usize)
    ensures
        r == mark_at(chars@),
        r <= chars@.len(),
{
    let n = chars.len();
    let mut i: usize = 0;
    while i < n && chars[i] != 'e' && chars[i] != 'E'
        invariant
            i <= n,
            n == chars@.len(),
            forall|m: int| 0 <= m < i ==> !is_mark(chars@[m]),
        decreases n - i,
    {
        i = i + 1;
    }
    proof {
        lemma_mark_at(chars@, i as int);
    }
    i
}

/// Whether `chars` are digits, all of them.
fn digits_only(chars: &Vec<char>) -> (b: bool)
    ensures
        b == all_digits(chars@),
{
    let n = chars.len();
    let mut i: usize = 0;
    while i < n
        invariant
            i <= n,
            n == chars@.len(),
            forall|m: int| 0 <= m < i ==> is_digit(#[trigger] chars@[m]),
        decreases n - i,
    {
        if !digit_check(chars[i]) {
            return false;
        }
        i = i + 1;
    }
    true
}

/// The digits of the mantissa `m` and how many of them stand before the
/// point. `None` where `m` is no mantissa.
fn scan_mantissa(m: &Vec<char>) -> (r: Option<(Vec<char>, usize)>)
    ensures
        match r {
            Some((digits, whole)) => {
                &&& is_mantissa(m@)
                &&& digits@ == whole_part(m@) + places_part(m@)
                &&& whole == whole_part(m@).len()
            },
            None => !is_mantissa(m@),
        },
{
    let n = m.len();
    let point = find_point(m);
    let whole = slice(m, 0, point);
    let mut places = if point < n {
        slice(m, point + 1, n)
    } else {
        Vec::new()
    };
    if !digits_only(&whole) || !digits_only(&places) || (point == 0 && places.len() == 0) {
        return None;
    }
    let mut digits = whole;
    digits.append(&mut places);
    Some((digits, point))
}

/// The value of the exponent `e`. `None` where `e` is no exponent.
fn scan_exponent(e: &Vec<char>) -> (r: Option<i64>)
    ensures
        match r {
            Some(v) => is_exponent(e@) && v == exponent_value(e@),
            None => !is_exponent(e@),
        },
{
    let n = e.len();
    let start: usize = if n > 0 && (e[0] == '-' || e[0] == '+') {
        1
    } else {
        0
    };
    let negative = n > 0 && e[0] == '-';
    let digits = slice(e, start, n);
    assert(digits@ =~= after_sign(e@));
    let len = digits.len();
    if len == 0 || len > 18 || !digits_only(&digits) {
        return None;
    }
    let mut value: i64 = 0;
    let mut i: usize = 0;
    while i < len
        invariant
            i <= len <= 18,
            len == digits@.len(),
            all_digits(digits@),
            value == digits_value(digits@.take(i as int)),
        decreases len - i,
    {
        proof {
            let before = digits@.take(i as int);
            let after = digits@.take(i + 1);
            assert(after.drop_last() =~= before);
            lemma_digits_bound(before);
            lemma_pow10_monotonic(i as nat, 17);
        }
        value = value * 10 + digit_value(digits[i]) as i64;
        i = i + 1;
    }
    assert(digits@.take(len as int) =~= digits@);
    if negative {
        Some(-value)
    } else {
        Some(value)
    }
}

/// The reading of the number that the first `count` of the digits `d`
/// write.
fn read_counted(d: &Vec<char>, count: i128) -> (r: Reading)
    requires
        all_digits(d@),
    ensures
        r.reads(counted_value(d@, count as int)),
{
    let len = d.len();
    if count <= 0 {
        return Reading { acc: 0, big: false };
    }
    let take: usize = if count <= len as i128 {
        count as usize
    } else {
        len
    };
    let nothing = Reading { acc: 0, big: false };
    let (_, reading) = take_digits(d, 0, take, nothing, Ghost(Seq::empty()));
    if count <= len as i128 {
        return reading;
    }
    assert(d@.take(len as int) =~= d@);
    let pad: i128 = count - len as i128;
    let steps: u8 = if pad > 19 {
        19
    } else {
        pad as u8
    };
    let padded = pad_places(reading, 0, steps, Ghost(digits_value(d@)));
    if pad <= 19 {
        padded
    } else {
        proof {
            let v = digits_value(d@);
            lemma_pow10_monotonic(19, pad as nat);
            if v > 0 {
                assert(v * pow10(pad as nat) >= pow10(pad as nat)) by (nonlinear_arith)
                    requires
                        v >= 1,
                        pow10(pad as nat) >= 1,
                ;
                assert(v * pow10(19) >= pow10(19)) by (nonlinear_arith)
                    requires
                        v >= 1,
                        pow10(19) >= 1,
                ;
            } else {
                assert(v * pow10(pad as nat) == 0) by (nonlinear_arith)
                    requires
                        v == 0,
                ;
                assert(v * pow10(19) == 0) by (nonlinear_arith)
                    requires
                        v == 0,
                ;
            }
        }
        if padded.big || padded.acc > 0 {
            Reading { acc: 0, big: true }
        } else {
            Reading { acc: 0, big: false }
        }
    }
}

/// The reading of `10^(decimals - taken)` times the number read.
fn pad_places(reading: Reading, taken: u8, decimals: u8, Ghost(n): Ghost<nat>) -> (r: Reading)
    requires
        taken <= decimals,
        reading.reads(n),
    ensures
        r.reads(n * pow10((decimals - taken) as nat)),
{
    let mut reading = reading;
    let mut padded: u8 = taken;
    assert(n * pow10(0) == n) by {
        assert(pow10(0) == 1);
    }
    while padded < decimals
        invariant
            taken <= padded <= decimals,
            reading.reads(n * pow10((padded - taken) as nat)),
        decreases decimals - padded,
    {
        reading = reading.shift(0, Ghost(n * pow10((padded - taken) as nat)));
        padded = padded + 1;
        proof {
            let e = (padded - taken) as nat;
            assert(n * pow10((e - 1) as nat) * 10 == n * pow10(e)) by (nonlinear_arith)
                requires
                    pow10(e) == 10 * pow10((e - 1) as nat),
            ;
        }
    }
    reading
}

/// Reads the decimal numeral that `chars` hold as a whole number of
/// `10^-decimals`. Places beyond `decimals` are cut off. `None` where the
/// characters are no numeral or the value does not fit.
pub fn parse_chars(chars: &Vec<char>, decimals: u8) -> (r: Option<i64>)
    ensures
        match r {
            Some(v) => fixed_value(chars@, decimals as nat) == Some(v as int),
            None => fixed_value(chars@, decimals as nat) is None,
        },
{
    let n = chars.len();
    let mut start: usize = 0;
    let mut negative = false;
    if n > 0 && (chars[0] == '-' || chars[0] == '+') {
        negative = chars[0] == '-';
        start = 1;
    }
    let u = slice(chars, start, n);
    assert(u@ =~= after_sign(chars@));
    let len = u.len();
    let mark = find_mark(&u);
    let m = slice(&u, 0, mark);
    let exponent: i64 = if mark < len {
        let e = slice(&u, mark + 1, len);
        match scan_exponent(&e) {
            Some(v) => v,
            None => {
                return None;
            },
        }
    } else {
        0
    };
    let (digits, whole) = match scan_mantissa(&m) {
        Some(found) => found,
        None => {
            return None;
        },
    };
    let count: i128 = whole as i128 + exponent as i128 + decimals as i128;
    let reading = read_counted(&digits, count);
    if reading.big {
        None
    } else if negative {
        if reading.acc == MAX_MAGNITUDE {
            Some(i64::MIN)
        } else {
            let v: i64 = reading.acc as i64;
            Some(-v)
        }
    } else if reading.acc == MAX_MAGNITUDE {
        None
    } else {
        Some(reading.acc as i64)
    }
}

/// Reads the decimal numeral `text` as a whole number of `10^-decimals`.
/// Places beyond `decimals` are cut off. `None` where `text` is no numeral or
/// the value does not fit.
pub fn parse_fixed(text: &str, decimals: u8) -> (r: Option<i64>)
    ensures
        match r {
            Some(v) => fixed_value(text@, decimals as nat) == Some(v as int),
            None => fixed_value(text@, decimals as nat) is None,
        },
{
    let chars = chars_of(text);
    parse_chars(&chars, decimals)
}

/// The value of the integer numeral `s`: an optional sign and digits, no
/// point and no exponent; `None` where `s` is none or the value does not
/// fit.
pub open spec fn integer_value(s: Seq<char>) -> Option<int> {
    if after_sign(s).len() > 0 && all_digits(after_sign(s)) {
        fixed_value(s, 0)
    } else {
        None
    }
}

/// Reads the integer numeral `text`. `None` where `text` is none or the value
/// does not fit.
pub fn parse_integer(text: &str) -> (r: Option<i64>)
    ensures
        match r {
            Some(v) => integer_value(text@) == Some(v as int),
            None => integer_value(text@) is None,
        },
{
    let chars = chars_of(text);
    let n = chars.len();
    let start: usize = if n > 0 && (chars[0] == '-' || chars[0] == '+') {
        1
    } else {
        0
    };
    let digits = slice(&chars, start, n);
    assert(digits@ =~= after_sign(text@));
    if digits.len() == 0 || !digits_only(&digits) {
        return None;
    }
    parse_chars(&chars, 0)
}

} // verus!
