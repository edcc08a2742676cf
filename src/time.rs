//! Time systems and calendars, and the text by which the native time conversions know them.
use vstd::prelude::*;
use crate::string::{before_nul, host_text, text_before_nul};
use vstd::string::StringExecFns;

verus! {

/// A calendar the native time conversions can read and write dates in.
pub trait Calendar {
    /// The name of the calendar in an output picture.
    fn short_name() -> &'static str;

    /// The name of the calendar as a default setting.
    fn name() -> &'static str;
}

/// Uses the Julian calendar for dates prior to Oct 5, 1582, and the Gregorian calendar for dates
/// after Oct 15, 1582.
#[derive(Copy, Clone, Debug, PartialEq, Eq, Structural)]
pub struct Mixed;

/// The Gregorian calendar. Dates before the Gregorian calendar's inception in 1582 are defined via
/// extrapolation.
#[derive(Copy, Clone, Debug, PartialEq, Eq, Structural)]
pub struct Gregorian;

/// The Julian calendar.
#[derive(Copy, Clone, Debug, PartialEq, Eq, Structural)]
pub struct Julian;

impl Calendar for Mixed {
    fn short_name() -> &'static str {
        "MCAL"
    }

    fn name() -> &'static str {
        "MIXED"
    }
}

impl Calendar for Gregorian {
    fn short_name() -> &'static str {
        "GCAL"
    }

    fn name() -> &'static str {
        "GREGORIAN"
    }
}

impl Calendar for Julian {
    fn short_name() -> &'static str {
        "JCAL"
    }

    fn name() -> &'static str {
        "JULIAN"
    }
}

/// A time system the native time conversions support.
pub trait System {
    /// The name of the system.
    fn system_name() -> &'static str;

    /// The marker that tells the native side a time is given in this system.
    fn meta_marker(&self) -> String;
}

/// Terrestrial Dynamical Time (TDT).
///
/// Note: TDT and TT represent the same time system
#[derive(Copy, Clone, Debug, Default, PartialEq, Eq, Structural)]
pub struct Tdt;

/// Barycentric Dynamical Time (TDB).
#[derive(Copy, Clone, Debug, Default, PartialEq, Eq, Structural)]
pub struct Tdb;

/// Coordinated Universal Time (UTC), in a zone of the given offset.
#[derive(Copy, Clone, Debug, Default, PartialEq, Eq, Structural)]
pub struct Utc {
    pub zone_hours: i8,
    pub zone_minutes: u8,
}

/// The character of the decimal digit `d`.
pub open spec fn digit_char(d: int) -> char {
    if d == 0 {
        '0'
    } else if d == 1 {
        '1'
    } else if d == 2 {
        '2'
    } else if d == 3 {
        '3'
    } else if d == 4 {
        '4'
    } else if d == 5 {
        '5'
    } else if d == 6 {
        '6'
    } else if d == 7 {
        '7'
    } else if d == 8 {
        '8'
    } else {
        '9'
    }
}

/// `n` written in decimal, without leading zeros.
pub open spec fn decimal(n: nat) -> Seq<char>
    decreases n,
{
    if n < 10 {
        seq![digit_char(n as int)]
    } else {
        decimal(n / 10) + seq![digit_char((n % 10) as int)]
    }
}

/// The absolute value of `x`.
pub open spec fn abs(x: int) -> nat {
    if x < 0 {
        (-x) as nat
    } else {
        x as nat
    }
}

/// The zone marker of a UTC offset: `UTC`, the sign of the hours, the hours, `:` and the
/// minutes, as in `UTC+2:30`.
pub open spec fn zone_marker(hours: int, minutes: nat) -> Seq<char> {
    "UTC"@ + (if hours < 0 {
        "-"@
    } else {
        "+"@
    }) + decimal(abs(hours)) + ":"@ + decimal(minutes)
}

/// The offset in seconds of a zone `hours` and `minutes` from UTC. The sign of the hours is
/// the sign of the whole offset.
pub open spec fn zone_seconds(hours: int, minutes: int) -> int {
    if hours < 0 {
        -(abs(hours) * 3600 + minutes * 60)
    } else {
        hours * 3600 + minutes * 60
    }
}

/// The text of the decimal digit `d`.
fn digit(d: u32) -> (r: &'static str)
    requires
        d < 10,
    ensures
        r@ == seq![digit_char(d as int)],
{
    proof {
        reveal_strlit("0");
        reveal_strlit("1");
        reveal_strlit("2");
        reveal_strlit("3");
        reveal_strlit("4");
        reveal_strlit("5");
        reveal_strlit("6");
        reveal_strlit("7");
        reveal_strlit("8");
        reveal_strlit("9");
    }
    match d {
        0 => "0",
        1 => "1",
        2 => "2",
        3 => "3",
        4 => "4",
        5 => "5",
        6 => "6",
        7 => "7",
        8 => "8",
        _ => "9",
    }
}

/// `n` written in decimal.
pub fn decimal_text(n: u32) -> (r: String)
    ensures
        r@ == decimal(n as nat),
    decreases n,
{
    if n < 10 {
        digit(n).to_owned()
    } else {
        let high = decimal_text(n / 10);
        high.concat(digit(n % 10))
    }
}

impl System for Tdt {
    fn system_name() -> &'static str {
        "TDT"
    }

    fn meta_marker(&self) -> String {
        "TDT".to_owned()
    }
}

impl System for Tdb {
    fn system_name() -> &'static str {
        "TDB"
    }

    fn meta_marker(&self) -> String {
        "TDB".to_owned()
    }
}

impl System for Utc {
    fn system_name() -> &'static str {
        "UTC"
    }

    fn meta_marker(&self) -> String {
        self.zone_marker()
    }
}

impl Utc {
    /// The zone `zone_hours` and `zone_minutes` from UTC.
    pub fn new(zone_hours: i8, zone_minutes: u8) -> (r: Utc)
        ensures
            r.zone_hours == zone_hours,
            r.zone_minutes == zone_minutes,
    {
        Utc { zone_hours, zone_minutes }
    }

    /// The zone marker of the offset, as in `UTC+2:30`.
    pub fn zone_marker(&self) -> (r: String)
        ensures
            r@ == zone_marker(self.zone_hours as int, self.zone_minutes as nat),
    {
        let hours: i32 = self.zone_hours as i32;
        let sign = if hours < 0 {
            "-"
        } else {
            "+"
        };
        let magnitude: u32 = if hours < 0 {
            (-hours) as u32
        } else {
            hours as u32
        };
        let text = "UTC".to_owned().concat(sign).concat(decimal_text(magnitude).as_str()).concat(
            ":",
        ).concat(decimal_text(self.zone_minutes as u32).as_str());
        text
    }

    /// The offset from UTC in seconds; negative when the hours are.
    pub fn to_zone_seconds(&self) -> (r: i32)
        ensures
            r == zone_seconds(self.zone_hours as int, self.zone_minutes as int),
    {
        let hours: i32 = self.zone_hours as i32;
        let magnitude: i32 = if hours < 0 {
            -hours
        } else {
            hours
        };
        let sum = magnitude * 3600 + self.zone_minutes as i32 * 60;
        if hours < 0 {
            -sum
        } else {
            sum
        }
    }

    /// The zone of an offset of `seconds` from UTC, rounded to the nearest minute (a half
    /// minute rounds up).
    ///
    /// The hours must fit the zone's hour field.
    pub fn from_zone_seconds(seconds: i32) -> (r: Utc)
        requires
            -460800 < seconds < 460800,
        ensures
            r.zone_hours as int == (if seconds < 0 {
                -(abs(seconds as int) / 3600)
            } else {
                (abs(seconds as int) / 3600) as int
            }),
            r.zone_minutes as int == (abs(seconds as int) % 3600 + 30) / 60,
    {
        let magnitude: i32 = if seconds < 0 {
            -seconds
        } else {
            seconds
        };
        let hours = magnitude / 3600;
        let minutes = (magnitude % 3600 + 30) / 60;
        let signed_hours = if seconds < 0 {
            -hours
        } else {
            hours
        };
        Utc { zone_hours: signed_hours as i8, zone_minutes: minutes as u8 }
    }
}

/// The label of an astronomical year, in which 0 is 1 BC: the year itself when positive, and
/// otherwise the year before Christ, as in `600 BC` for -599.
pub open spec fn year_label(year: int) -> Seq<char> {
    if year > 0 {
        decimal(year as nat)
    } else {
        decimal((1 - year) as nat) + " BC"@
    }
}

/// The label of an astronomical year, in which 0 is 1 BC.
pub fn year_text(year: i16) -> (r: String)
    ensures
        r@ == year_label(year as int),
{
    if year > 0 {
        decimal_text(year as u32)
    } else {
        let before: i32 = 1 - year as i32;
        decimal_text(before as u32).concat(" BC")
    }
}

/// The text of a calendar date for the native parser: year label, month, day, time of day and
/// the time system's marker, as in `2000-1-1 12:0:0 TDB`.
pub open spec fn date_label(
    year: int,
    month: nat,
    day: nat,
    hour: nat,
    minute: nat,
    second: Seq<char>,
    marker: Seq<char>,
) -> Seq<char> {
    year_label(year) + "-"@ + decimal(month) + "-"@ + decimal(day) + " "@ + decimal(hour) + ":"@
        + decimal(minute) + ":"@ + second + " "@ + marker
}

/// The text of a calendar date for the native parser; `second` is the seconds as text.
pub fn date_text(
    year: i16,
    month: u8,
    day: u8,
    hour: u8,
    minute: u8,
    second: &str,
    marker: &str,
) -> (r: String)
    ensures
        r@ == date_label(
            year as int,
            month as nat,
            day as nat,
            hour as nat,
            minute as nat,
            second@,
            marker@,
        ),
{
    year_text(year).concat("-").concat(decimal_text(month as u32).as_str()).concat("-").concat(
        decimal_text(day as u32).as_str(),
    ).concat(" ").concat(decimal_text(hour as u32).as_str()).concat(":").concat(
        decimal_text(minute as u32).as_str(),
    ).concat(":").concat(second).concat(" ").concat(marker)
}

/// The output picture that asks the native side for era, year, month, day, hour, minute and
/// seconds, in the time system of `marker` and the calendar `calendar`.
pub open spec fn date_picture(marker: Seq<char>, calendar: Seq<char>) -> Seq<char> {
    "ERA:YYYY:MM:DD:HR:MN:SC.##### ::"@ + marker + " ::"@ + calendar
}

/// The output picture of a calendar date; see [`parse_date_output`] for what it produces.
pub fn date_picture_text(marker: &str, calendar: &str) -> (r: String)
    ensures
        r@ == date_picture(marker@, calendar@),
{
    "ERA:YYYY:MM:DD:HR:MN:SC.##### ::".to_owned().concat(marker).concat(" ::").concat(calendar)
}

/// The output picture that asks the native side for a Julian date in the time system `system`.
pub open spec fn julian_picture(system: Seq<char>) -> Seq<char> {
    "JULIAND.############# ::"@ + system
}

/// The output picture of a Julian date.
pub fn julian_picture_text(system: &str) -> (r: String)
    ensures
        r@ == julian_picture(system@),
{
    "JULIAND.############# ::".to_owned().concat(system)
}

/// The text of a Julian date for the native parser, as in `JD TDB 2451545`; `value` is the
/// date as text.
pub fn julian_date_text(system: &str, value: &str) -> (r: String)
    ensures
        r@ == "JD "@ + system@ + " "@ + value@,
{
    "JD ".to_owned().concat(system).concat(" ").concat(value)
}

/// `c` is an ASCII decimal digit.
pub open spec fn is_digit(c: u8) -> bool {
    48 <= c <= 57
}

/// The value of the decimal digits `s`.
pub open spec fn digits_value(s: Seq<u8>) -> int
    decreases s.len(),
{
    if s.len() == 0 {
        0
    } else {
        digits_value(s.drop_last()) * 10 + (s.last() - 48)
    }
}

/// Every byte of `s` is a digit.
pub open spec fn all_digits(s: Seq<u8>) -> bool {
    forall|i: int| 0 <= i < s.len() ==> is_digit(#[trigger] s[i])
}

/// The era `A.D.` in the native date output.
pub open spec fn era_ad() -> Seq<u8> {
    seq![65u8, 46, 68, 46]
}

/// The era `B.C.` in the native date output.
pub open spec fn era_bc() -> Seq<u8> {
    seq![66u8, 46, 67, 46]
}

/// The four bytes of a year field: `spaces` spaces, then digits.
pub open spec fn year_field(field: Seq<u8>, spaces: int) -> bool {
    &&& field.len() == 4
    &&& 0 <= spaces < 4
    &&& forall|i: int| 0 <= i < spaces ==> #[trigger] field[i] == 32
    &&& all_digits(field.skip(spaces))
}

/// The native date output in the layout of [`date_picture`]: era, `:`, a four-byte year field,
/// then `:`-separated two-digit month, day, hour and minute, `:` and the seconds.
pub open spec fn date_layout(t: Seq<u8>) -> bool {
    &&& t.len() >= 22
    &&& t.take(4) == era_ad() || t.take(4) == era_bc()
    &&& t[4] == 58 && t[9] == 58 && t[12] == 58 && t[15] == 58 && t[18] == 58 && t[21] == 58
    &&& exists|k: int| year_field(t.subrange(5, 9), k)
    &&& is_digit(t[10]) && is_digit(t[11]) && is_digit(t[13]) && is_digit(t[14])
    &&& is_digit(t[16]) && is_digit(t[17]) && is_digit(t[19]) && is_digit(t[20])
}

/// The value of the two digits of `t` at `i`.
pub open spec fn two_digits(t: Seq<u8>, i: int) -> int {
    (t[i] - 48) * 10 + (t[i + 1] - 48)
}

/// The fields of a calendar date as the native side writes it.
pub struct DateFields {
    /// The astronomical year: 0 is 1 BC.
    pub year: i16,
    pub month: u8,
    pub day: u8,
    pub hour: u8,
    pub minute: u8,
    /// The seconds, as text.
    pub second: String,
}

/// Ten to the power `n`.
pub open spec fn power_of_ten(n: nat) -> nat
    decreases n,
{
    if n == 0 {
        1
    } else {
        10 * power_of_ten((n - 1) as nat)
    }
}

/// The value of the digits `s`.
fn digits_number(s: &[u8]) -> (r: u32)
    requires
        s@.len() <= 4,
        all_digits(s@),
    ensures
        r == digits_value(s@),
        r <= 9999,
{
    let mut value: u32 = 0;
    let mut i: usize = 0;
    while i < s.len()
        invariant
            i <= s@.len(),
            s@.len() <= 4,
            all_digits(s@),
            value == digits_value(s@.take(i as int)),
            value < power_of_ten(i as nat),
        decreases s@.len() - i,
    {
        assert(s@.take(i as int + 1).drop_last() =~= s@.take(i as int));
        assert(s@.take(i as int + 1).last() == s@[i as int]);
        assert(is_digit(s@[i as int]));
        assert(power_of_ten((i + 1) as nat) == 10 * power_of_ten(i as nat));
        assert(power_of_ten(i as nat) <= 1000) by {
            reveal_with_fuel(power_of_ten, 4);
        }
        value = value * 10 + (s[i] - 48) as u32;
        i = i + 1;
    }
    assert(s@.take(i as int) =~= s@);
    assert(power_of_ten(i as nat) <= 10000) by {
        reveal_with_fuel(power_of_ten, 5);
    }
    value
}

/// Reads the native date output `text`, laid out by [`date_picture`], into its fields.
///
/// `None` when the text is not in that layout.
pub fn parse_date_output(text: &[u8]) -> (r: Option<DateFields>)
    ensures
        r is Some <==> date_layout(text@),
        r matches Some(f) ==> {
            let t = text@;
            let k = choose|k: int| year_field(t.subrange(5, 9), k);
            let y = digits_value(t.subrange(5, 9).skip(k));
            &&& f.year == (if t.take(4) == era_bc() { 1 - y } else { y })
            &&& f.month == two_digits(t, 10)
            &&& f.day == two_digits(t, 13)
            &&& f.hour == two_digits(t, 16)
            &&& f.minute == two_digits(t, 19)
            &&& f.second@ == host_text(before_nul(t.skip(22)))
        },
{
    if text.len() < 22 {
        return None;
    }
    let ad = text[0] == 65 && text[1] == 46 && text[2] == 68 && text[3] == 46;
    let bc = text[0] == 66 && text[1] == 46 && text[2] == 67 && text[3] == 46;
    assert(ad <==> text@.take(4) == era_ad()) by {
        if text@.take(4) == era_ad() {
            assert(text@.take(4)[0] == text@[0]);
            assert(text@.take(4)[1] == text@[1]);
            assert(text@.take(4)[2] == text@[2]);
            assert(text@.take(4)[3] == text@[3]);
        }
        if ad {
            assert(text@.take(4) =~= era_ad());
        }
    }
    assert(bc <==> text@.take(4) == era_bc()) by {
        if text@.take(4) == era_bc() {
            assert(text@.take(4)[0] == text@[0]);
            assert(text@.take(4)[1] == text@[1]);
            assert(text@.take(4)[2] == text@[2]);
            assert(text@.take(4)[3] == text@[3]);
        }
        if bc {
            assert(text@.take(4) =~= era_bc());
        }
    }
    if !(ad || bc) {
        return None;
    }
    if !(text[4] == 58 && text[9] == 58 && text[12] == 58 && text[15] == 58 && text[18] == 58
        && text[21] == 58) {
        return None;
    }
    if !(is_digit_byte(text[10]) && is_digit_byte(text[11]) && is_digit_byte(text[13])
        && is_digit_byte(text[14]) && is_digit_byte(text[16]) && is_digit_byte(text[17])
        && is_digit_byte(text[19]) && is_digit_byte(text[20])) {
        return None;
    }
    let field = &text[5..9];
    assert(field@ =~= text@.subrange(5, 9));
    let mut k: usize = 0;
    while k < 3 && field[k] == 32
        invariant
            k <= 3,
            field@.len() == 4,
            forall|i: int| 0 <= i < k ==> #[trigger] field@[i] == 32,
        decreases 3 - k,
    {
        k = k + 1;
    }
    let digits = &field[k..4];
    assert(digits@ =~= field@.skip(k as int));
    if !all_digit_bytes(digits) {
        proof {
            assert forall|j: int| !year_field(text@.subrange(5, 9), j) by {
                if year_field(field@, j) {
                    if j < k {
                        assert(field@.skip(j)[0] == field@[j]);
                    } else if j > k {
                        assert(field@[k as int] == 32);
                    }
                }
            }
        }
        return None;
    }
    assert(year_field(field@, k as int));
    let y = digits_number(digits) as i32;
    proof {
        let c = choose|j: int| year_field(text@.subrange(5, 9), j);
        lemma_year_field_unique(field@, c, k as int);
    }
    let year: i32 = if bc {
        1 - y
    } else {
        y
    };
    let month = (text[10] - 48) * 10 + (text[11] - 48);
    let day = (text[13] - 48) * 10 + (text[14] - 48);
    let hour = (text[16] - 48) * 10 + (text[17] - 48);
    let minute = (text[19] - 48) * 10 + (text[20] - 48);
    let rest = &text[22..text.len()];
    assert(rest@ =~= text@.skip(22));
    let second = text_before_nul(rest);
    Some(DateFields { year: year as i16, month, day, hour, minute, second })
}

/// Whether `c` is an ASCII decimal digit.
fn is_digit_byte(c: u8) -> (r: bool)
    ensures
        r == is_digit(c),
{
    48 <= c && c <= 57
}

/// Whether every byte of `s` is a digit.
fn all_digit_bytes(s: &[u8]) -> (r: bool)
    ensures
        r == all_digits(s@),
{
    let mut i: usize = 0;
    while i < s.len()
        invariant
            i <= s@.len(),
            forall|j: int| 0 <= j < i ==> is_digit(#[trigger] s@[j]),
        decreases s@.len() - i,
    {
        if !is_digit_byte(s[i]) {
            return false;
        }
        i = i + 1;
    }
    true
}

/// A year field has one split into spaces and digits.
proof fn lemma_year_field_unique(field: Seq<u8>, a: int, b: int)
    requires
        year_field(field, a),
        year_field(field, b),
    ensures
        a == b,
{
    if a < b {
        assert(field.skip(a)[0] == field[a]);
        assert(field[a] == 32);
    } else if b < a {
        assert(field.skip(b)[0] == field[b]);
        assert(field[b] == 32);
    }
}

} // verus!
