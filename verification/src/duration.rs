//! Reading a duration such as `1h30m` as a number of seconds.

use vstd::prelude::*;
use vstd::string::*;
use crate::pattern::{regex_named_captures, regex_named_captures_of};
use crate::text::{decimal, digit_char, signed_decimal};

verus! {

/// The pattern that picks the amounts of each unit out of a duration text.
pub const DURATION_PATTERN: &'static str = r"((?P<years>\d+?)\s??y|year|years)?((?P<months>\d+?)\s??month|months)?((?P<weeks>\d+?)\s??w|week|weeks)?((?P<days>\d+?)\s??d|day|days)?((?P<hours>\d+?\s??)h|hour|hours)?((?P<minutes>\d+?)\s??m|min|minutes)?((?P<seconds>\d+?)\s??s|sec|second|seconds)?";

/// Whether `c` is one of the ASCII digits `0`..`9`.
pub open spec fn is_ascii_digit(c: char) -> bool {
    '0' <= c <= '9'
}

/// Whether every character of `s` is an ASCII digit.
pub open spec fn all_ascii_digits(s: Seq<char>) -> bool {
    forall|i: int| 0 <= i < s.len() ==> is_ascii_digit(#[trigger] s[i])
}

/// The value of a string of ASCII digits read in base ten.
pub open spec fn digits_value(s: Seq<char>) -> nat
    decreases s.len(),
{
    if s.len() == 0 {
        0
    } else {
        digits_value(s.drop_last()) * 10 + ((s.last() as int) - ('0' as int)) as nat
    }
}

/// `s` without its leading sign, if it has one.
pub open spec fn unsigned_part(s: Seq<char>) -> Seq<char> {
    if s.len() > 0 && (s[0] == '-' || s[0] == '+') {
        s.drop_first()
    } else {
        s
    }
}

/// What `str::parse::<i64>` gives for `s`: an optional sign (`+` or `-`)
/// followed by at least one ASCII digit, with a value in the range of `i64`.
pub open spec fn parse_i64_of(s: Seq<char>) -> Option<i64> {
    let body = unsigned_part(s);
    let magnitude = digits_value(body) as int;
    let value = if s.len() > 0 && s[0] == '-' {
        -magnitude
    } else {
        magnitude
    };
    if body.len() == 0 || !all_ascii_digits(body) || value < i64::MIN || value > i64::MAX {
        None
    } else {
        Some(value as i64)
    }
}

/// A longer run of digits is worth at least as much as its prefix.
proof fn lemma_digits_value_prefix(s: Seq<char>, k: int)
    requires
        0 <= k <= s.len(),
        all_ascii_digits(s),
    ensures
        digits_value(s.subrange(0, k)) <= digits_value(s),
    decreases s.len(),
{
    if k < s.len() {
        let t = s.drop_last();
        assert(all_ascii_digits(t)) by {
            assert forall|i: int| 0 <= i < t.len() implies is_ascii_digit(#[trigger] t[i]) by {
                assert(t[i] == s[i]);
            }
        }
        lemma_digits_value_prefix(t, k);
        assert(t.subrange(0, k) =~= s.subrange(0, k));
    } else {
        assert(s.subrange(0, k) =~= s);
    }
}

/// Parses a decimal `i64` as `str::parse::<i64>` does.
pub fn parse_i64(s: &str) -> (r: Option<i64>)
    ensures
        r == parse_i64_of(s@),
{
    let n = s.unicode_len();
    if n == 0 {
        return None;
    }
    let first = s.get_char(0);
    let negative = first == '-';
    let start: usize = if first == '-' || first == '+' {
        1
    } else {
        0
    };
    let ghost body = unsigned_part(s@);
    assert(body =~= s@.subrange(start as int, n as int));
    if start == n {
        return None;
    }
    let mut acc: u64 = 0;
    let mut i: usize = start;
    while i < n
        invariant
            start <= i <= n,
            n == s@.len(),
            body =~= s@.subrange(start as int, n as int),
            body == unsigned_part(s@),
            negative == (s@.len() > 0 && s@[0] == '-'),
            all_ascii_digits(s@.subrange(start as int, i as int)),
            acc as nat == digits_value(s@.subrange(start as int, i as int)),
            acc <= 9_223_372_036_854_775_808u64,
        decreases n - i,
    {
        let c = s.get_char(i);
        let ghost prefix = s@.subrange(start as int, i as int);
        let ghost next = s@.subrange(start as int, i + 1);
        assert(next.drop_last() =~= prefix);
        assert(next.last() == c);
        if !('0' <= c && c <= '9') {
            assert(body[i - start] == c);
            return None;
        }
        assert(all_ascii_digits(next)) by {
            assert forall|j: int| 0 <= j < next.len() implies is_ascii_digit(#[trigger] next[j]) by {
                if j < prefix.len() {
                    assert(next[j] == prefix[j]);
                }
            }
        }
        let d: u64 = (c as u32 - '0' as u32) as u64;
        assert(d as int == (c as int) - ('0' as int));
        assert(digits_value(next) == digits_value(prefix) * 10 + d);
        if acc > 922_337_203_685_477_580u64 || (acc == 922_337_203_685_477_580u64 && d > 8) {
            proof {
                assert(digits_value(next) > 9_223_372_036_854_775_808);
                if all_ascii_digits(body) {
                    lemma_digits_value_prefix(body, (i + 1 - start) as int);
                    assert(body.subrange(0, (i + 1 - start) as int) =~= next);
                }
            }
            return None;
        }
        acc = acc * 10 + d;
        i += 1;
    }
    if negative {
        if acc == 9_223_372_036_854_775_808u64 {
            Some(i64::MIN)
        } else {
            Some(-(acc as i64))
        }
    } else if acc > 9_223_372_036_854_775_807u64 {
        None
    } else {
        Some(acc as i64)
    }
}

/// How many seconds one of each unit is worth, the units in the order
/// years, months, weeks, days, hours, minutes, seconds.
pub open spec fn unit_seconds(k: int) -> int {
    if k == 0 {
        31_557_600
    } else if k == 1 {
        2_592_000
    } else if k == 2 {
        604_800
    } else if k == 3 {
        86_400
    } else if k == 4 {
        3_600
    } else if k == 5 {
        60
    } else {
        1
    }
}

fn unit_seconds_at(k: usize) -> (s: i64)
    requires
        k < 7,
    ensures
        s == unit_seconds(k as int),
{
    if k == 0 {
        31_557_600
    } else if k == 1 {
        2_592_000
    } else if k == 2 {
        604_800
    } else if k == 3 {
        86_400
    } else if k == 4 {
        3_600
    } else if k == 5 {
        60
    } else {
        1
    }
}

/// The names of the groups of `DURATION_PATTERN`, in the order of `unit_seconds`.
pub open spec fn duration_group_names() -> Seq<Seq<char>> {
    seq!["years"@, "months"@, "weeks"@, "days"@, "hours"@, "minutes"@, "seconds"@]
}

/// What the unit at position `k` contributes: its amount times its length.
pub open spec fn capture_term(caps: Seq<Option<Seq<char>>>, k: int) -> int {
    match caps[k] {
        Some(t) => parse_i64_of(t).unwrap() * unit_seconds(k),
        None => 0,
    }
}

/// The sum of the contributions of the first `k` units.
pub open spec fn captures_total(caps: Seq<Option<Seq<char>>>, k: nat) -> int
    decreases k,
{
    if k == 0 {
        0
    } else {
        captures_total(caps, (k - 1) as nat) + capture_term(caps, k - 1)
    }
}

/// Whether `v` lies in the range of `i64`.
pub open spec fn fits_i64(v: int) -> bool {
    i64::MIN <= v <= i64::MAX
}

/// Whether the seven captured amounts can be summed in `i64` as the unit
/// lengths say: every captured amount parses, and no product and no running
/// sum leaves the range of `i64`.
pub open spec fn captures_summable(caps: Seq<Option<Seq<char>>>) -> bool {
    &&& caps.len() == 7
    &&& forall|k: int|
        0 <= k < 7 && (#[trigger] caps[k]) is Some ==> {
            &&& parse_i64_of(caps[k].unwrap()) is Some
            &&& fits_i64(capture_term(caps, k))
            &&& fits_i64(captures_total(caps, (k + 1) as nat))
        }
}

/// Sums the seconds of the captured amounts, one per unit: `None` exactly when
/// an amount does not parse or the sum leaves the range of `i64`.
pub fn seconds_from_captures(caps: &Vec<Option<String>>) -> (r: Option<i64>)
    ensures
        r == (if captures_summable(caps.deep_view()) {
            Some(captures_total(caps.deep_view(), 7) as i64)
        } else {
            None
        }),
        r matches Some(v) ==> v == captures_total(caps.deep_view(), 7),
{
    let ghost cv = caps.deep_view();
    if caps.len() != 7 {
        return None;
    }
    let mut seconds: i64 = 0;
    let mut k: usize = 0;
    while k < 7
        invariant
            k <= 7,
            caps.len() == 7,
            cv == caps.deep_view(),
            seconds == captures_total(cv, k as nat),
            forall|j: int|
                0 <= j < k && (#[trigger] cv[j]) is Some ==> {
                    &&& parse_i64_of(cv[j].unwrap()) is Some
                    &&& fits_i64(capture_term(cv, j))
                    &&& fits_i64(captures_total(cv, (j + 1) as nat))
                },
        decreases 7 - k,
    {
        assert(cv[k as int] == caps@[k as int].deep_view());
        match &caps[k] {
            Some(t) => {
                let parsed = parse_i64(t.as_str());
                match parsed {
                    None => {
                        return None;
                    },
                    Some(time) => {
                        let unit = unit_seconds_at(k);
                        match time.checked_mul(unit) {
                            None => {
                                return None;
                            },
                            Some(term) => {
                                match seconds.checked_add(term) {
                                    None => {
                                        return None;
                                    },
                                    Some(sum) => {
                                        seconds = sum;
                                    },
                                }
                            },
                        }
                    },
                }
            },
            None => {},
        }
        k += 1;
    }
    Some(seconds)
}

/// What the duration pattern captures of `text`, by unit.
pub open spec fn duration_captures_of(text: Seq<char>) -> Option<Option<Seq<Option<Seq<char>>>>> {
    regex_named_captures_of(DURATION_PATTERN@, text, duration_group_names())
}

/// Whether reading `text` as a duration succeeds: the pattern compiles, and the
/// captured amounts, if any, can be summed.
pub open spec fn duration_text_readable(text: Seq<char>) -> bool {
    match duration_captures_of(text) {
        Some(Some(caps)) => captures_summable(caps),
        Some(None) => true,
        None => false,
    }
}

/// The seconds that `text` stands for: the sum over the units of amount times
/// unit length, and 0 where the pattern finds no match.
pub open spec fn duration_text_seconds(text: Seq<char>) -> int {
    match duration_captures_of(text) {
        Some(Some(caps)) => captures_total(caps, 7),
        _ => 0,
    }
}

fn duration_names() -> (names: Vec<&'static str>)
    ensures
        names.deep_view() == duration_group_names(),
{
    let mut names: Vec<&'static str> = Vec::new();
    names.push("years");
    names.push("months");
    names.push("weeks");
    names.push("days");
    names.push("hours");
    names.push("minutes");
    names.push("seconds");
    assert(names.deep_view() =~= duration_group_names());
    names
}

/// Reads a duration text such as `1h30m` or `2 days` as a number of seconds.
pub fn string_to_sec(raw_text: &str) -> (seconds: i64)
    requires
        duration_text_readable(raw_text@),
    ensures
        seconds == duration_text_seconds(raw_text@),
{
    let names = duration_names();
    let caps = regex_named_captures(DURATION_PATTERN, raw_text, &names);
    match caps {
        Some(Some(found)) => {
            match seconds_from_captures(&found) {
                Some(seconds) => seconds,
                None => 0,
            }
        },
        _ => 0,
    }
}

/// Reads a duration text as `string_to_sec` does, and gives `None` where that
/// reading fails (an amount that does not parse, or a sum out of range).
pub fn checked_string_to_sec(raw_text: &str) -> (r: Option<i64>)
    ensures
        r == (if duration_text_readable(raw_text@) {
            Some(duration_text_seconds(raw_text@) as i64)
        } else {
            None
        }),
{
    let names = duration_names();
    let caps = regex_named_captures(DURATION_PATTERN, raw_text, &names);
    let readable = match &caps {
        None => false,
        Some(None) => true,
        Some(Some(found)) => seconds_from_captures(found).is_some(),
    };
    if readable {
        Some(string_to_sec(raw_text))
    } else {
        None
    }
}

/// The amount a capture carries: its parsed value, or nothing when the unit
/// was not captured.
pub open spec fn captured_amount(c: Option<Seq<char>>) -> int {
    match c {
        Some(t) => parse_i64_of(t).unwrap() as int,
        None => 0,
    }
}

/// The duration is the plain sum, over the units, of the captured amount times
/// the unit's length in seconds (a year of 31 557 600, a month of 2 592 000, a
/// week of 604 800, a day of 86 400, an hour of 3 600, a minute of 60, a second
/// of 1): each unit counts on its own, whatever else was captured.
pub proof fn law_duration_is_weighted_sum(caps: Seq<Option<Seq<char>>>)
    requires
        caps.len() == 7,
    ensures
        captures_total(caps, 7) == captured_amount(caps[0]) * 31_557_600 + captured_amount(caps[1]) * 2_592_000
            + captured_amount(caps[2]) * 604_800 + captured_amount(caps[3]) * 86_400 + captured_amount(caps[4])
            * 3_600 + captured_amount(caps[5]) * 60 + captured_amount(caps[6]),
{
    reveal_with_fuel(captures_total, 8);
}

/// When only the unit at position `k` was captured, the duration is its amount
/// times the length of that unit.
pub proof fn law_single_unit_duration(caps: Seq<Option<Seq<char>>>, k: int)
    requires
        caps.len() == 7,
        0 <= k < 7,
        forall|j: int| 0 <= j < 7 && j != k ==> (#[trigger] caps[j]) is None,
    ensures
        captures_total(caps, 7) == capture_term(caps, k),
{
    lemma_total_single(caps, k, 7);
}

proof fn lemma_total_single(caps: Seq<Option<Seq<char>>>, k: int, m: nat)
    requires
        caps.len() == 7,
        0 <= k < 7,
        m <= 7,
        forall|j: int| 0 <= j < 7 && j != k ==> (#[trigger] caps[j]) is None,
    ensures
        captures_total(caps, m) == (if k < m {
            capture_term(caps, k)
        } else {
            0
        }),
    decreases m,
{
    if m > 0 {
        lemma_total_single(caps, k, (m - 1) as nat);
        if m - 1 != k {
            assert(caps[m - 1] is None);
        }
    }
}

/// When no unit was captured, the duration is zero seconds.
pub proof fn law_nothing_captured_is_zero(caps: Seq<Option<Seq<char>>>)
    requires
        caps.len() == 7,
        forall|j: int| 0 <= j < 7 ==> (#[trigger] caps[j]) is None,
    ensures
        captures_summable(caps),
        captures_total(caps, 7) == 0,
{
    lemma_total_none(caps, 7);
}

proof fn lemma_total_none(caps: Seq<Option<Seq<char>>>, m: nat)
    requires
        caps.len() == 7,
        m <= 7,
        forall|j: int| 0 <= j < 7 ==> (#[trigger] caps[j]) is None,
    ensures
        captures_total(caps, m) == 0,
    decreases m,
{
    if m > 0 {
        lemma_total_none(caps, (m - 1) as nat);
        assert(caps[m - 1] is None);
    }
}

/// The largest amount a unit can carry in at most nine digits.
pub open spec fn nine_digit_max() -> int {
    999_999_999
}

/// The sum of the lengths of the first `m` units.
pub open spec fn unit_seconds_sum(m: nat) -> int
    decreases m,
{
    if m == 0 {
        0
    } else {
        unit_seconds_sum((m - 1) as nat) + unit_seconds(m - 1)
    }
}

/// Whether a captured amount is one to nine ASCII digits.
pub open spec fn short_digit_amount(t: Seq<char>) -> bool {
    &&& 1 <= t.len() <= 9
    &&& all_ascii_digits(t)
}

proof fn lemma_digits_value_bound(s: Seq<char>)
    requires
        all_ascii_digits(s),
        s.len() <= 9,
    ensures
        digits_value(s) <= nine_digit_max(),
        s.len() <= 8 ==> digits_value(s) <= 99_999_999,
        s.len() <= 7 ==> digits_value(s) <= 9_999_999,
        s.len() <= 6 ==> digits_value(s) <= 999_999,
        s.len() <= 5 ==> digits_value(s) <= 99_999,
        s.len() <= 4 ==> digits_value(s) <= 9_999,
        s.len() <= 3 ==> digits_value(s) <= 999,
        s.len() <= 2 ==> digits_value(s) <= 99,
        s.len() <= 1 ==> digits_value(s) <= 9,
        s.len() == 0 ==> digits_value(s) == 0,
    decreases s.len(),
{
    if s.len() > 0 {
        let t = s.drop_last();
        assert(all_ascii_digits(t)) by {
            assert forall|i: int| 0 <= i < t.len() implies is_ascii_digit(#[trigger] t[i]) by {
                assert(t[i] == s[i]);
            }
        }
        lemma_digits_value_bound(t);
        assert(is_ascii_digit(s[s.len() - 1]));
    }
}

proof fn lemma_short_amount_parses(t: Seq<char>)
    requires
        short_digit_amount(t),
    ensures
        parse_i64_of(t) == Some(digits_value(t) as i64),
        0 <= digits_value(t) <= nine_digit_max(),
{
    lemma_digits_value_bound(t);
    assert(is_ascii_digit(t[0]));
    assert(unsigned_part(t) == t);
}

proof fn lemma_scaled_bound(v: int, u: int)
    requires
        0 <= v <= 999_999_999,
        0 <= u,
    ensures
        0 <= v * u <= 999_999_999 * u,
{
    assert(0 <= v * u <= 999_999_999 * u) by (nonlinear_arith)
        requires
            0 <= v <= 999_999_999,
            0 <= u,
    ;
}

proof fn lemma_total_bounded(caps: Seq<Option<Seq<char>>>, m: nat)
    requires
        caps.len() == 7,
        m <= 7,
        forall|j: int| 0 <= j < 7 && (#[trigger] caps[j]) is Some ==> short_digit_amount(caps[j].unwrap()),
    ensures
        0 <= captures_total(caps, m) <= 999_999_999 * unit_seconds_sum(m),
    decreases m,
{
    if m > 0 {
        let k = m - 1;
        lemma_total_bounded(caps, k as nat);
        if caps[k] is Some {
            lemma_short_amount_parses(caps[k].unwrap());
            lemma_scaled_bound(digits_value(caps[k].unwrap()) as int, unit_seconds(k));
        }
        assert(999_999_999 * unit_seconds_sum(m) == 999_999_999 * unit_seconds_sum(k as nat)
            + 999_999_999 * unit_seconds(k)) by (nonlinear_arith)
            requires
                unit_seconds_sum(m) == unit_seconds_sum(k as nat) + unit_seconds(k),
        ;
    }
}

proof fn lemma_unit_seconds_sum_bound(m: nat)
    requires
        m <= 7,
    ensures
        0 <= unit_seconds_sum(m) <= 34_844_461,
    decreases m,
{
    reveal_with_fuel(unit_seconds_sum, 8);
}

/// When every captured amount is one to nine ASCII digits, the amounts can be
/// summed, and the duration lies between 0 and 999 999 999 times the sum of the
/// unit lengths (34 844 461 seconds): each unit is counted at most once.
pub proof fn law_short_amounts_are_bounded(caps: Seq<Option<Seq<char>>>)
    requires
        caps.len() == 7,
        forall|j: int| 0 <= j < 7 && (#[trigger] caps[j]) is Some ==> short_digit_amount(caps[j].unwrap()),
    ensures
        captures_summable(caps),
        0 <= captures_total(caps, 7) <= 999_999_999 * 34_844_461,
{
    reveal_with_fuel(unit_seconds_sum, 8);
    lemma_total_bounded(caps, 7);
    assert forall|k: int| 0 <= k < 7 && (#[trigger] caps[k]) is Some implies {
        &&& parse_i64_of(caps[k].unwrap()) is Some
        &&& fits_i64(capture_term(caps, k))
        &&& fits_i64(captures_total(caps, (k + 1) as nat))
    } by {
        lemma_short_amount_parses(caps[k].unwrap());
        lemma_scaled_bound(digits_value(caps[k].unwrap()) as int, unit_seconds(k));
        lemma_total_bounded(caps, (k + 1) as nat);
        lemma_unit_seconds_sum_bound((k + 1) as nat);
        assert(999_999_999 * unit_seconds_sum((k + 1) as nat) <= 999_999_999 * 34_844_461) by (nonlinear_arith)
            requires
                unit_seconds_sum((k + 1) as nat) <= 34_844_461,
        ;
        assert(999_999_999 * unit_seconds(k) <= 999_999_999 * 31_557_600) by (nonlinear_arith)
            requires
                unit_seconds(k) <= 31_557_600,
        ;
    }
}

proof fn lemma_digit_char_value(d: nat)
    requires
        d < 10,
    ensures
        is_ascii_digit(digit_char(d)),
        (digit_char(d) as int) - ('0' as int) == d,
{
}

proof fn lemma_decimal_reads_back(n: nat)
    ensures
        decimal(n).len() >= 1,
        all_ascii_digits(decimal(n)),
        digits_value(decimal(n)) == n,
    decreases n,
{
    if n < 10 {
        lemma_digit_char_value(n);
        assert(decimal(n).drop_last() =~= Seq::<char>::empty());
        assert(digits_value(Seq::<char>::empty()) == 0);
        assert(decimal(n).last() == digit_char(n));
    } else {
        lemma_decimal_reads_back(n / 10);
        lemma_digit_char_value(n % 10);
        let s = decimal(n);
        assert(s.drop_last() =~= decimal(n / 10));
        assert(s.last() == digit_char(n % 10));
        assert(digits_value(s) == digits_value(decimal(n / 10)) * 10 + ((s.last() as int) - ('0' as int)) as nat);
        assert((n / 10) * 10 + n % 10 == n);
        assert forall|i: int| 0 <= i < s.len() implies is_ascii_digit(#[trigger] s[i]) by {
            if i < s.len() - 1 {
                assert(s[i] == decimal(n / 10)[i]);
            }
        }
    }
}

/// Reading back the decimal text of any `i64` gives that number: parsing
/// inverts the rendering used in the bot's messages.
pub proof fn law_parse_reads_back_decimal(n: i64)
    ensures
        parse_i64_of(signed_decimal(n as int)) == Some(n),
{
    if n < 0 {
        let m = (-(n as int)) as nat;
        lemma_decimal_reads_back(m);
        let s = signed_decimal(n as int);
        assert(s.drop_first() =~= decimal(m));
        assert(unsigned_part(s) == decimal(m));
    } else {
        lemma_decimal_reads_back(n as nat);
        let s = decimal(n as nat);
        assert(is_ascii_digit(s[0]));
        assert(unsigned_part(s) == s);
    }
}

} // verus!
