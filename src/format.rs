use vstd::arithmetic::div_mod::{lemma_div_denominator, lemma_fundamental_div_mod};
use vstd::prelude::*;
use vstd::string::*;
use vstd::utf8::{decode_utf8, encode_utf8, encode_utf8_decode_utf8, is_char_boundary};
use chrono::{Local, TimeZone, Utc};

verus! {

/// The character of a decimal digit.
pub open spec fn digit_char(d: nat) -> char {
    if d == 0 {
        '0'
    } else if d == 1 {
        '1'
    } else if d == 2 {
        '2'
    } else if d == 3 {
        '3'
    } else if d == 4 {
        '4'
    } else if d == 5 {
        '5'
    } else if d == 6 {
        '6'
    } else if d == 7 {
        '7'
    } else if d == 8 {
        '8'
    } else {
        '9'
    }
}

/// Decimal digits of `n`, most significant first, without leading zeros.
pub open spec fn decimal(n: nat) -> Seq<char>
    decreases n,
{
    if n < 10 {
        seq![digit_char(n)]
    } else {
        decimal(n / 10).push(digit_char(n % 10))
    }
}

/// `n / d` rounded to the nearest integer, ties to the even neighbour.
pub open spec fn round_div(n: nat, d: nat) -> nat {
    let q = n / d;
    let r = n % d;
    if 2 * r > d || (2 * r == d && q % 2 == 1) {
        q + 1
    } else {
        q
    }
}

/// `base` to the power `k`.
pub open spec fn pow(base: nat, k: nat) -> nat
    decreases k,
{
    if k == 0 {
        1
    } else {
        base * pow(base, (k - 1) as nat)
    }
}

/// How many times `n` can be divided by `base` while it stays at least `base`,
/// at most `limit` times: the index of the unit `n` is shown in.
pub open spec fn scale_steps(n: nat, base: nat, limit: nat) -> nat
    decreases limit,
{
    if limit == 0 || n < base || base < 2 {
        0
    } else {
        1 + scale_steps(n / base, base, (limit - 1) as nat)
    }
}

/// A number of tenths written with one decimal place (`15` is `1.5`).
pub open spec fn one_decimal(tenths: nat) -> Seq<char> {
    decimal(tenths / 10) + seq!['.'] + seq![digit_char(tenths % 10)]
}

/// A number of hundredths written with two decimal places (`1505` is `15.05`).
pub open spec fn two_decimals(hundredths: nat) -> Seq<char> {
    decimal(hundredths / 100) + seq!['.'] + seq![
        digit_char((hundredths % 100) / 10),
        digit_char(hundredths % 10),
    ]
}

/// Binary size units.
pub open spec fn size_unit(k: nat) -> Seq<char> {
    if k == 0 {
        seq!['B']
    } else if k == 1 {
        seq!['K', 'i', 'B']
    } else if k == 2 {
        seq!['M', 'i', 'B']
    } else if k == 3 {
        seq!['G', 'i', 'B']
    } else if k == 4 {
        seq!['T', 'i', 'B']
    } else {
        seq!['P', 'i', 'B']
    }
}

/// Decimal rate units.
pub open spec fn rate_unit(k: nat) -> Seq<char> {
    if k == 0 {
        seq!['B', '/', 's']
    } else if k == 1 {
        seq!['K', 'B', '/', 's']
    } else if k == 2 {
        seq!['M', 'B', '/', 's']
    } else if k == 3 {
        seq!['G', 'B', '/', 's']
    } else {
        seq!['T', 'B', '/', 's']
    }
}

/// Number shown scaled down by `base` for each unit step: whole below the
/// first step, else with one decimal place.
pub open spec fn scaled_number(n: nat, base: nat, limit: nat) -> Seq<char> {
    let k = scale_steps(n, base, limit);
    if k == 0 {
        decimal(n)
    } else {
        one_decimal(round_div(n * 10, pow(base, k)))
    }
}

/// Text of a byte count: `0 B`, `512 B`, `1.5 KiB`, up to PiB.
pub open spec fn size_text(bytes: nat) -> Seq<char> {
    scaled_number(bytes, 1024, 5) + seq![' '] + size_unit(scale_steps(bytes, 1024, 5))
}

/// Text of a byte rate: `0 B/s`, `500 B/s`, `1.5 KB/s`, up to TB/s.
pub open spec fn rate_text(rate: nat) -> Seq<char> {
    scaled_number(rate, 1000, 4) + seq![' '] + rate_unit(scale_steps(rate, 1000, 4))
}

/// Text of a frequency: two decimals in GHz, whole MHz or KHz, else Hz.
pub open spec fn frequency_text(hz: nat) -> Seq<char> {
    if hz >= 1_000_000_000 {
        two_decimals(round_div(hz * 100, 1_000_000_000)) + seq![' ', 'G', 'H', 'z']
    } else if hz >= 1_000_000 {
        decimal(round_div(hz, 1_000_000)) + seq![' ', 'M', 'H', 'z']
    } else if hz >= 1_000 {
        decimal(round_div(hz, 1_000)) + seq![' ', 'K', 'H', 'z']
    } else {
        decimal(hz) + seq![' ', 'H', 'z']
    }
}

/// Text of a duration: the two or three largest units that are present.
pub open spec fn duration_text(seconds: nat) -> Seq<char> {
    let days = seconds / 86400;
    let hours = (seconds % 86400) / 3600;
    let mins = (seconds % 3600) / 60;
    let secs = seconds % 60;
    if days > 0 {
        decimal(days) + seq!['d', ' '] + decimal(hours) + seq!['h', ' '] + decimal(mins) + seq![
            'm',
        ]
    } else if hours > 0 {
        decimal(hours) + seq!['h', ' '] + decimal(mins) + seq!['m', ' '] + decimal(secs) + seq![
            's',
        ]
    } else if mins > 0 {
        decimal(mins) + seq!['m', ' '] + decimal(secs) + seq!['s']
    } else {
        decimal(secs) + seq!['s']
    }
}

/// Text of a percentage given in hundredths of a percent: `12.34%`.
pub open spec fn percent_text(hundredths: nat) -> Seq<char> {
    two_decimals(hundredths) + seq!['%']
}

/// The text of one decimal digit.
fn digit_text(d: u128) -> (r: &'static str)
    requires
        d < 10,
    ensures
        r@ == seq![digit_char(d as nat)],
{
    proof {
        reveal_strlit("0");
        reveal_strlit("1");
        reveal_strlit("2");
        reveal_strlit("3");
        reveal_strlit("4");
        reveal_strlit("5");
        reveal_strlit("6");
        reveal_strlit("7");
        reveal_strlit("8");
        reveal_strlit("9");
    }
    let r = if d == 0 {
        "0"
    } else if d == 1 {
        "1"
    } else if d == 2 {
        "2"
    } else if d == 3 {
        "3"
    } else if d == 4 {
        "4"
    } else if d == 5 {
        "5"
    } else if d == 6 {
        "6"
    } else if d == 7 {
        "7"
    } else if d == 8 {
        "8"
    } else {
        "9"
    };
    assert(r@ =~= seq![digit_char(d as nat)]);
    r
}

/// Decimal digits of `n`, most significant first.
pub(crate) fn decimal_string(n: u128) -> (r: String)
    ensures
        r@ == decimal(n as nat),
    decreases n,
{
    if n < 10 {
        String::from_str(digit_text(n))
    } else {
        let mut s = decimal_string(n / 10);
        s.append(digit_text(n % 10));
        assert(s@ =~= decimal(n as nat));
        s
    }
}

/// `n / d` rounded to the nearest integer, ties to even.
pub fn div_round(n: u128, d: u128) -> (r: u128)
    requires
        d > 0,
    ensures
        r as nat == round_div(n as nat, d as nat),
{
    let q = n / d;
    let rem = n % d;
    if d >= 2 {
        assert(q * 2 <= n) by (nonlinear_arith)
            requires
                q == n / d,
                d >= 2,
                n >= 0,
        ;
    }
    if rem > d - rem || (rem == d - rem && q % 2 == 1) {
        q + 1
    } else {
        q
    }
}

/// Appends the text of `n` with one decimal place, given in tenths.
fn push_one_decimal(s: &mut String, tenths: u128)
    ensures
        final(s)@ == old(s)@ + one_decimal(tenths as nat),
{
    let whole = decimal_string(tenths / 10);
    let frac = decimal_string(tenths % 10);
    assert(decimal((tenths % 10) as nat) == seq![digit_char((tenths % 10) as nat)]);
    proof {
        reveal_strlit(".");
    }
    s.append(whole.as_str());
    s.append(".");
    s.append(frac.as_str());
    assert(final(s)@ =~= old(s)@ + one_decimal(tenths as nat));
}

/// Appends the text of `n` with two decimal places, given in hundredths.
fn push_two_decimals(s: &mut String, hundredths: u128)
    ensures
        final(s)@ == old(s)@ + two_decimals(hundredths as nat),
{
    let whole = decimal_string(hundredths / 100);
    let tens = decimal_string((hundredths % 100) / 10);
    let ones = decimal_string(hundredths % 10);
    assert(decimal(((hundredths % 100) / 10) as nat) == seq![
        digit_char(((hundredths % 100) / 10) as nat),
    ]);
    assert(decimal((hundredths % 10) as nat) == seq![digit_char((hundredths % 10) as nat)]);
    proof {
        reveal_strlit(".");
    }
    s.append(whole.as_str());
    s.append(".");
    s.append(tens.as_str());
    s.append(ones.as_str());
    assert(final(s)@ =~= old(s)@ + two_decimals(hundredths as nat));
}

/// Finds the unit step of `n` and `base` to that power.
fn scale(n: u64, base: u64, limit: u64) -> (r: (u64, u128))
    requires
        base >= 2,
    ensures
        r.0 as nat == scale_steps(n as nat, base as nat, limit as nat),
        r.1 as nat == pow(base as nat, r.0 as nat),
        r.1 > 0,
        r.1 <= u64::MAX,
{
    let mut k: u64 = 0;
    let mut div: u128 = 1;
    let mut m: u64 = n;
    while k < limit && m >= base
        invariant
            base >= 2,
            k <= limit,
            div as nat == pow(base as nat, k as nat),
            div > 0,
            div <= u64::MAX,
            m as nat == n as nat / (div as nat),
            div * m <= n,
            scale_steps(n as nat, base as nat, limit as nat) == k + scale_steps(
                m as nat,
                base as nat,
                (limit - k) as nat,
            ),
        decreases limit - k,
    {
        proof {
            lemma_div_denominator(n as int, div as int, base as int);
            lemma_fundamental_div_mod(m as int, base as int);
            assert(div * base <= div * m) by (nonlinear_arith)
                requires
                    base <= m,
                    div >= 0,
            ;
            assert(div * base * (m / base) <= div * m) by (nonlinear_arith)
                requires
                    base * (m / base) <= m,
                    div >= 0,
            ;
            assert(pow(base as nat, (k + 1) as nat) == base * pow(base as nat, k as nat));
            assert(div * base == base * div) by (nonlinear_arith);
        }
        m = m / base;
        div = div * (base as u128);
        k = k + 1;
    }
    (k, div)
}

/// Writes `n` scaled to its unit: whole below the first step, else one decimal.
fn push_scaled(s: &mut String, n: u64, base: u64, limit: u64) -> (k: u64)
    requires
        base >= 2,
    ensures
        k as nat == scale_steps(n as nat, base as nat, limit as nat),
        final(s)@ == old(s)@ + scaled_number(n as nat, base as nat, limit as nat),
{
    let (k, div) = scale(n, base, limit);
    if k == 0 {
        let digits = decimal_string(n as u128);
        s.append(digits.as_str());
    } else {
        let tenths = div_round((n as u128) * 10, div);
        push_one_decimal(s, tenths);
    }
    k
}


/// Human-readable byte count in binary units.
pub fn format_size(bytes: u64) -> (r: String)
    ensures
        r@ == size_text(bytes as nat),
{
    let mut s = String::new();
    let k = push_scaled(&mut s, bytes, 1024, 5);
    let unit: &str = if k == 0 {
        "B"
    } else if k == 1 {
        "KiB"
    } else if k == 2 {
        "MiB"
    } else if k == 3 {
        "GiB"
    } else if k == 4 {
        "TiB"
    } else {
        "PiB"
    };
    proof {
        reveal_strlit(" ");
        reveal_strlit("B");
        reveal_strlit("KiB");
        reveal_strlit("MiB");
        reveal_strlit("GiB");
        reveal_strlit("TiB");
        reveal_strlit("PiB");
        assert(unit@ =~= size_unit(k as nat));
    }
    s.append(" ");
    s.append(unit);
    assert(s@ =~= size_text(bytes as nat));
    s
}

/// Human-readable byte rate in decimal units.
pub fn format_rate(bytes_per_sec: u64) -> (r: String)
    ensures
        r@ == rate_text(bytes_per_sec as nat),
{
    let mut s = String::new();
    let k = push_scaled(&mut s, bytes_per_sec, 1000, 4);
    let unit: &str = if k == 0 {
        "B/s"
    } else if k == 1 {
        "KB/s"
    } else if k == 2 {
        "MB/s"
    } else if k == 3 {
        "GB/s"
    } else {
        "TB/s"
    };
    proof {
        reveal_strlit(" ");
        reveal_strlit("B/s");
        reveal_strlit("KB/s");
        reveal_strlit("MB/s");
        reveal_strlit("GB/s");
        reveal_strlit("TB/s");
        assert(unit@ =~= rate_unit(k as nat));
    }
    s.append(" ");
    s.append(unit);
    assert(s@ =~= rate_text(bytes_per_sec as nat));
    s
}

/// Human-readable clock frequency.
pub fn format_frequency(hz: u64) -> (r: String)
    ensures
        r@ == frequency_text(hz as nat),
{
    let mut s = String::new();
    proof {
        reveal_strlit(" GHz");
        reveal_strlit(" MHz");
        reveal_strlit(" KHz");
        reveal_strlit(" Hz");
    }
    if hz >= 1_000_000_000 {
        let h = div_round((hz as u128) * 100, 1_000_000_000);
        push_two_decimals(&mut s, h);
        s.append(" GHz");
    } else if hz >= 1_000_000 {
        let m = div_round(hz as u128, 1_000_000);
        let d = decimal_string(m);
        s.append(d.as_str());
        s.append(" MHz");
    } else if hz >= 1_000 {
        let k = div_round(hz as u128, 1_000);
        let d = decimal_string(k);
        s.append(d.as_str());
        s.append(" KHz");
    } else {
        let d = decimal_string(hz as u128);
        s.append(d.as_str());
        s.append(" Hz");
    }
    assert(s@ =~= frequency_text(hz as nat));
    s
}

/// Human-readable duration: days, hours and minutes; or hours, minutes and
/// seconds; or minutes and seconds; or seconds.
pub fn format_duration(seconds: u64) -> (r: String)
    ensures
        r@ == duration_text(seconds as nat),
{
    let days = seconds / 86400;
    let hours = (seconds % 86400) / 3600;
    let mins = (seconds % 3600) / 60;
    let secs = seconds % 60;
    let mut s = String::new();
    proof {
        reveal_strlit("d ");
        reveal_strlit("h ");
        reveal_strlit("m ");
        reveal_strlit("m");
        reveal_strlit("s");
    }
    if days > 0 {
        s.append(decimal_string(days as u128).as_str());
        s.append("d ");
        s.append(decimal_string(hours as u128).as_str());
        s.append("h ");
        s.append(decimal_string(mins as u128).as_str());
        s.append("m");
    } else if hours > 0 {
        s.append(decimal_string(hours as u128).as_str());
        s.append("h ");
        s.append(decimal_string(mins as u128).as_str());
        s.append("m ");
        s.append(decimal_string(secs as u128).as_str());
        s.append("s");
    } else if mins > 0 {
        s.append(decimal_string(mins as u128).as_str());
        s.append("m ");
        s.append(decimal_string(secs as u128).as_str());
        s.append("s");
    } else {
        s.append(decimal_string(secs as u128).as_str());
        s.append("s");
    }
    assert(s@ =~= duration_text(seconds as nat));
    s
}

/// A percentage given in hundredths of a percent, with two decimals: `12.34%`.
pub fn format_percentage(hundredths: u64) -> (r: String)
    ensures
        r@ == percent_text(hundredths as nat),
{
    let mut s = String::new();
    push_two_decimals(&mut s, hundredths as u128);
    proof {
        reveal_strlit("%");
    }
    s.append("%");
    assert(s@ =~= percent_text(hundredths as nat));
    s
}

/// Hundredths written with two decimals and no unit: `0.75`.
pub fn format_hundredths(hundredths: u64) -> (r: String)
    ensures
        r@ == two_decimals(hundredths as nat),
{
    let mut s = String::new();
    push_two_decimals(&mut s, hundredths as u128);
    assert(s@ =~= two_decimals(hundredths as nat));
    s
}

/// `value` limited to the range `[min, max]`.
pub fn clamp(value: u64, min: u64, max: u64) -> (r: u64)
    ensures
        value < min ==> r == min,
        min <= value && value > max ==> r == max,
        min <= value <= max ==> r == value,
{
    if value < min {
        min
    } else if value > max {
        max
    } else {
        value
    }
}

/// Bytes kept when a text is cut for `max_len`: room for `...` is left.
pub open spec fn kept_bytes(max_len: nat) -> int {
    if max_len >= 3 {
        max_len - 3
    } else {
        0
    }
}

/// Text cut to at most `max_len` bytes: unchanged when its UTF-8 form fits,
/// else its first `max_len - 3` bytes followed by `...`.
pub open spec fn truncated(s: Seq<char>, max_len: nat) -> Seq<char> {
    let b = encode_utf8(s);
    if b.len() <= max_len {
        s
    } else {
        decode_utf8(b.subrange(0, kept_bytes(max_len))) + seq!['.', '.', '.']
    }
}

/// `s` when its UTF-8 form has at most `max_len` bytes, else its first
/// `max_len - 3` bytes followed by `...`. The cut must fall between
/// characters.
pub fn truncate_string(s: &str, max_len: usize) -> (r: String)
    requires
        s.spec_bytes().len() > max_len ==> is_char_boundary(
            s.spec_bytes(),
            kept_bytes(max_len as nat),
        ),
    ensures
        r@ == truncated(s@, max_len as nat),
{
    let bytes = s.as_bytes();
    if bytes.len() <= max_len {
        String::from_str(s)
    } else {
        let keep: usize = if max_len >= 3 {
            max_len - 3
        } else {
            0
        };
        let (head, _) = s.split_at(keep);
        proof {
            encode_utf8_decode_utf8(head@);
            assert(head@ == decode_utf8(s.spec_bytes().subrange(0, keep as int)));
        }
        let mut r = String::from_str(head);
        proof {
            reveal_strlit("...");
        }
        r.append("...");
        assert(r@ =~= truncated(s@, max_len as nat));
        r
    }
}

/// `p` is a prefix of `s`.
pub open spec fn has_prefix(s: Seq<char>, p: Seq<char>) -> bool {
    p.len() <= s.len() && s.subrange(0, p.len() as int) == p
}

/// `p` occurs somewhere in `s`.
pub open spec fn has_substring(s: Seq<char>, p: Seq<char>) -> bool {
    exists|i: int| 0 <= i <= s.len() - p.len() && #[trigger] s.subrange(i, i + p.len()) == p
}

/// Relies on `str::starts_with` with a `&str` pattern: whether `p` is a prefix of `s`.
#[verifier::external_body]
fn str_starts_with(s: &str, p: &str) -> (r: bool)
    ensures
        r == has_prefix(s@, p@),
{
    s.starts_with(p)
}

/// Relies on `str::contains` with a `&str` pattern: whether `p` occurs in `s`.
#[verifier::external_body]
fn str_contains(s: &str, p: &str) -> (r: bool)
    ensures
        r == has_substring(s@, p@),
{
    s.contains(p)
}

/// Lower-case form of a text, as `str::to_lowercase` gives it.
pub uninterp spec fn lower_of(s: Seq<char>) -> Seq<char>;

/// Relies on `str::to_lowercase`: the result depends on the characters alone,
/// and an empty text stays empty.
#[verifier::external_body]
fn to_lower(s: &str) -> (r: String)
    ensures
        r@ == lower_of(s@),
        s@.len() == 0 ==> r@.len() == 0,
{
    s.to_lowercase()
}

/// Names of kernel threads and core system daemons start with one of these.
pub open spec fn is_system_name(name: Seq<char>) -> bool {
    has_prefix(name, "kthreadd"@) || has_prefix(name, "migration"@) || has_prefix(name, "rcu_"@)
        || has_prefix(name, "watchdog"@) || has_prefix(name, "systemd"@) || has_prefix(
        name,
        "kernel"@,
    ) || has_prefix(name, "kworker"@) || has_prefix(name, "ksoftirqd"@) || has_prefix(
        name,
        "init"@,
    ) || has_prefix(name, "swapper"@) || has_prefix(name, "["@) || has_prefix(name, "dbus"@)
        || has_prefix(name, "NetworkManager"@) || has_prefix(name, "systemd-"@)
}

/// Whether a process name belongs to the fixed table of system processes.
pub fn is_system_process(name: &str) -> (r: bool)
    ensures
        r == is_system_name(name@),
{
    str_starts_with(name, "kthreadd") || str_starts_with(name, "migration") || str_starts_with(
        name,
        "rcu_",
    ) || str_starts_with(name, "watchdog") || str_starts_with(name, "systemd") || str_starts_with(
        name,
        "kernel",
    ) || str_starts_with(name, "kworker") || str_starts_with(name, "ksoftirqd") || str_starts_with(
        name,
        "init",
    ) || str_starts_with(name, "swapper") || str_starts_with(name, "[") || str_starts_with(
        name,
        "dbus",
    ) || str_starts_with(name, "NetworkManager") || str_starts_with(name, "systemd-")
}

/// A search filter accepts a text when it is empty, or when its lower-case
/// form occurs in the text's lower-case form.
pub open spec fn filter_accepts(lower_text: Seq<char>, lower_filter: Seq<char>) -> bool {
    lower_filter.len() == 0 || has_substring(lower_text, lower_filter)
}

/// Filter decision on texts that are already lower-case.
pub fn matches_lowered(lower_text: &str, lower_filter: &str) -> (r: bool)
    ensures
        r == filter_accepts(lower_text@, lower_filter@),
{
    if lower_filter.is_empty() {
        true
    } else {
        str_contains(lower_text, lower_filter)
    }
}

/// Case-insensitive substring match; an empty filter matches everything.
pub fn matches_filter(text: &str, filter: &str) -> (r: bool)
    ensures
        filter@.len() == 0 ==> r,
        filter@.len() > 0 ==> r == filter_accepts(lower_of(text@), lower_of(filter@)),
{
    if filter.is_empty() {
        return true;
    }
    let t = to_lower(text);
    let f = to_lower(filter);
    matches_lowered(t.as_str(), f.as_str())
}

/// Relies on chrono: `Utc.timestamp_opt(secs, 0)`, then `with_timezone(&Local)`
/// and `format("%Y-%m-%d %H:%M:%S")`; none when chrono has no single instant
/// for `secs`. The text depends on the machine's time zone, so nothing is
/// stated of it.
#[verifier::external_body]
pub(crate) fn local_datetime_text(secs: i64) -> (r: Option<String>) {
    match Utc.timestamp_opt(secs, 0) {
        chrono::LocalResult::Single(dt) => Some(
            dt.with_timezone(&Local).format("%Y-%m-%d %H:%M:%S").to_string(),
        ),
        _ => None,
    }
}

} // verus!
