use crate::time::TimeSpan;
use vstd::prelude::*;
use vstd::string::*;

verus! {

/// The polling interval, in seconds, where the command line gives none that
/// can be read.
pub const DEFAULT_LOOP_DELAY_SECS: u64 = 900;

/// What the command line asks of the program.
#[derive(Debug, Clone, Copy, PartialEq, Eq, Structural)]
pub struct Config {
    pub autosave_mode: bool,
    pub loop_delay: TimeSpan,
    pub shiggy_mode: bool,
    pub audio_alert_mode: bool,
}

/// Why a text is no duration.
#[derive(Debug, Clone, Copy, PartialEq, Eq, Structural)]
pub enum DurationError {
    InvalidNumber,
    InvalidTimeUnit,
}

pub open spec fn is_digit(c: char) -> bool {
    '0' <= c <= '9'
}

/// The characters that make up the number of a duration: the ten digits and
/// the point.
pub open spec fn is_numeric_char(c: char) -> bool {
    is_digit(c) || c == '.'
}

/// The characters with the Unicode property `White_Space`.
pub open spec fn is_whitespace(c: char) -> bool {
    ||| '\u{9}' <= c <= '\u{d}'
    ||| c == ' '
    ||| c == '\u{85}'
    ||| c == '\u{a0}'
    ||| c == '\u{1680}'
    ||| '\u{2000}' <= c <= '\u{200a}'
    ||| c == '\u{2028}'
    ||| c == '\u{2029}'
    ||| c == '\u{202f}'
    ||| c == '\u{205f}'
    ||| c == '\u{3000}'
}

/// `text` without the whitespace it starts with.
pub open spec fn trim_start(text: Seq<char>) -> Seq<char>
    decreases text.len(),
{
    if text.len() > 0 && is_whitespace(text[0]) {
        trim_start(text.drop_first())
    } else {
        text
    }
}

/// `text` without the whitespace it ends with.
pub open spec fn trim_end(text: Seq<char>) -> Seq<char>
    decreases text.len(),
{
    if text.len() > 0 && is_whitespace(text.last()) {
        trim_end(text.drop_last())
    } else {
        text
    }
}

/// `text` without the whitespace at either end.
pub open spec fn trimmed(text: Seq<char>) -> Seq<char> {
    trim_end(trim_start(text))
}

/// The number that a run of digits writes in base ten; the empty run writes 0.
pub open spec fn decimal_value(digits: Seq<char>) -> nat
    decreases digits.len(),
{
    if digits.len() == 0 {
        0
    } else {
        decimal_value(digits.drop_last()) * 10 + (digits.last() as int - '0' as int) as nat
    }
}

/// Ten to the power `exponent`.
pub open spec fn pow10(exponent: nat) -> nat
    decreases exponent,
{
    if exponent == 0 {
        1
    } else {
        10 * pow10((exponent - 1) as nat)
    }
}

/// The place of the first point in `text`, its length where it has none.
pub open spec fn first_point(text: Seq<char>) -> int
    decreases text.len(),
{
    if text.len() == 0 || text[0] == '.' {
        0
    } else {
        1 + first_point(text.drop_first())
    }
}

/// The number of digits and points that `text` starts with.
pub open spec fn numeric_run(text: Seq<char>) -> int
    decreases text.len(),
{
    if text.len() == 0 || !is_numeric_char(text[0]) {
        0
    } else {
        1 + numeric_run(text.drop_first())
    }
}

/// The digits before the point.
pub open spec fn whole_digits(number: Seq<char>) -> Seq<char> {
    number.subrange(0, first_point(number))
}

/// The digits after the point, none where there is no point.
pub open spec fn fraction_digits(number: Seq<char>) -> Seq<char> {
    if first_point(number) < number.len() {
        number.subrange(first_point(number) + 1, number.len() as int)
    } else {
        Seq::empty()
    }
}

/// A number is made of digits, with at most one point among them, before
/// them or after them, and has at least one digit.
pub open spec fn is_number(number: Seq<char>) -> bool {
    &&& forall|i: int| 0 <= i < whole_digits(number).len() ==> is_digit(whole_digits(number)[i])
    &&& forall|i: int|
        0 <= i < fraction_digits(number).len() ==> is_digit(fraction_digits(number)[i])
    &&& whole_digits(number).len() + fraction_digits(number).len() > 0
}

/// The seconds in a unit of time, by its name.
pub open spec fn unit_seconds(unit: Seq<char>) -> Option<nat> {
    if unit == seq!['s'] || unit == seq!['s', 'e', 'c'] {
        Some(1)
    } else if unit == seq!['m'] || unit == seq!['m', 'i', 'n'] {
        Some(60)
    } else if unit == seq!['h'] {
        Some(3600)
    } else {
        None
    }
}

/// The digits and points that `text` starts with, once the whitespace
/// before them is passed over.
pub open spec fn number_part(text: Seq<char>) -> Seq<char> {
    trim_start(text).subrange(0, numeric_run(trim_start(text)))
}

/// What follows the number in `text`, without the whitespace around it.
pub open spec fn unit_part(text: Seq<char>) -> Seq<char> {
    trimmed(
        trim_start(text).subrange(numeric_run(trim_start(text)), trim_start(text).len() as int),
    )
}

/// The whole nanoseconds in `number` units of `seconds` seconds each: the
/// number is multiplied out in full, and what then lies below a nanosecond
/// is dropped.
pub open spec fn duration_nanos(number: Seq<char>, seconds: nat) -> nat {
    let per_unit = seconds * 1_000_000_000;
    decimal_value(whole_digits(number)) * per_unit + decimal_value(fraction_digits(number))
        * per_unit / pow10(fraction_digits(number).len())
}

/// The nanoseconds that `text` stands for. A duration is a number and,
/// after it, the name of a unit, with whitespace before, between or after
/// them as may be. A text that does not start with a number is refused
/// first, then one in which no unit's name and nothing else follows the
/// number, then one too long for a `TimeSpan`.
pub open spec fn parsed_duration(text: Seq<char>) -> Result<nat, DurationError> {
    if !is_number(number_part(text)) {
        Err(DurationError::InvalidNumber)
    } else {
        match unit_seconds(unit_part(text)) {
            None => Err(DurationError::InvalidTimeUnit),
            Some(seconds) => {
                if duration_nanos(number_part(text), seconds) > u128::MAX {
                    Err(DurationError::InvalidNumber)
                } else {
                    Ok(duration_nanos(number_part(text), seconds))
                }
            },
        }
    }
}

/// The message that goes with each error.
pub open spec fn error_text(error: DurationError) -> Seq<char> {
    match error {
        DurationError::InvalidNumber => "Invalid number"@,
        DurationError::InvalidTimeUnit => "Invalid time unit"@,
    }
}

fn char_is_digit(c: char) -> (digit: bool)
    ensures
        digit == is_digit(c),
{
    c >= '0' && c <= '9'
}

fn char_is_whitespace(c: char) -> (space: bool)
    ensures
        space == is_whitespace(c),
{
    (c >= '\u{9}' && c <= '\u{d}') || c == ' ' || c == '\u{85}' || c == '\u{a0}' || c
        == '\u{1680}' || (c >= '\u{2000}' && c <= '\u{200a}') || c == '\u{2028}' || c
        == '\u{2029}' || c == '\u{202f}' || c == '\u{205f}' || c == '\u{3000}'
}

fn digit_of(c: char) -> (value: u128)
    requires
        is_digit(c),
    ensures
        value == c as int - '0' as int,
        value <= 9,
{
    (c as u32 - '0' as u32) as u128
}

proof fn lemma_first_point(text: Seq<char>, at: int)
    requires
        0 <= at <= text.len(),
        forall|i: int| 0 <= i < at ==> text[i] != '.',
        at < text.len() ==> text[at] == '.',
    ensures
        first_point(text) == at,
    decreases text.len(),
{
    if at > 0 {
        lemma_first_point(text.drop_first(), at - 1);
    }
}

proof fn lemma_numeric_run(text: Seq<char>, run: int)
    requires
        0 <= run <= text.len(),
        forall|i: int| 0 <= i < run ==> is_numeric_char(text[i]),
        run < text.len() ==> !is_numeric_char(text[run]),
    ensures
        numeric_run(text) == run,
    decreases text.len(),
{
    if run > 0 {
        lemma_numeric_run(text.drop_first(), run - 1);
    }
}

proof fn lemma_trim_start(text: Seq<char>, from: int)
    requires
        0 <= from <= text.len(),
        forall|i: int| 0 <= i < from ==> is_whitespace(text[i]),
        from < text.len() ==> !is_whitespace(text[from]),
    ensures
        trim_start(text) == text.subrange(from, text.len() as int),
    decreases text.len(),
{
    if from > 0 {
        lemma_trim_start(text.drop_first(), from - 1);
        assert(text.drop_first().subrange(from - 1, text.len() - 1) == text.subrange(
            from,
            text.len() as int,
        ));
    } else {
        assert(text.subrange(0, text.len() as int) == text);
    }
}

proof fn lemma_trim_end(text: Seq<char>, to: int)
    requires
        0 <= to <= text.len(),
        forall|i: int| to <= i < text.len() ==> is_whitespace(text[i]),
        to > 0 ==> !is_whitespace(text[to - 1]),
    ensures
        trim_end(text) == text.subrange(0, to),
    decreases text.len(),
{
    if to < text.len() {
        lemma_trim_end(text.drop_last(), to);
        assert(text.drop_last().subrange(0, to) == text.subrange(0, to));
    } else {
        assert(text.subrange(0, text.len() as int) == text);
    }
}

/// A digit put before a run of digits counts ten to the power of the
/// run's length.
proof fn lemma_leading_digit(digits: Seq<char>)
    requires
        digits.len() > 0,
    ensures
        decimal_value(digits) == (digits[0] as int - '0' as int) as nat * pow10(
            (digits.len() - 1) as nat,
        ) + decimal_value(digits.drop_first()),
    decreases digits.len(),
{
    let lead = (digits[0] as int - '0' as int) as nat;
    if digits.len() == 1 {
        assert(decimal_value(digits.drop_last()) == 0);
        assert(decimal_value(digits.drop_first()) == 0);
        assert(decimal_value(digits) == lead);
        assert(pow10(0) == 1);
        assert(lead * 1 == lead);
    } else {
        let front = digits.drop_last();
        let back = digits.drop_first();
        let last = (digits.last() as int - '0' as int) as nat;
        let power = pow10((digits.len() - 2) as nat);
        lemma_leading_digit(front);
        assert(front.drop_first() == back.drop_last());
        assert(front[0] == digits[0]);
        assert(back.last() == digits.last());
        assert(decimal_value(front) == lead * power + decimal_value(back.drop_last()));
        assert(decimal_value(digits) == decimal_value(front) * 10 + last);
        assert(decimal_value(back) == decimal_value(back.drop_last()) * 10 + last);
        assert(pow10((digits.len() - 1) as nat) == 10 * power);
        assert((lead * power + decimal_value(back.drop_last())) * 10 == lead * (10 * power)
            + decimal_value(back.drop_last()) * 10) by (nonlinear_arith);
    }
}

/// The worth of a fraction with one more digit in front, from the worth
/// of the fraction without it.
proof fn lemma_fraction_step(digits: Seq<char>, per_unit: nat)
    requires
        digits.len() > 0,
    ensures
        decimal_value(digits) * per_unit / pow10(digits.len()) == ((digits[0] as int - '0' as int)
            as nat * per_unit + decimal_value(digits.drop_first()) * per_unit / pow10(
            (digits.len() - 1) as nat,
        )) / 10,
{
    let lead = (digits[0] as int - '0' as int) as nat;
    let rest = decimal_value(digits.drop_first());
    let power = pow10((digits.len() - 1) as nat);
    lemma_leading_digit(digits);
    lemma_pow10_positive((digits.len() - 1) as nat);
    assert((lead * power + rest) * per_unit == rest * per_unit + (lead * per_unit) * power)
        by (nonlinear_arith);
    vstd::arithmetic::div_mod::lemma_hoist_over_denominator(
        (rest * per_unit) as int,
        (lead * per_unit) as int,
        power,
    );
    vstd::arithmetic::div_mod::lemma_div_denominator(
        (decimal_value(digits) * per_unit) as int,
        power as int,
        10,
    );
    assert(pow10(digits.len()) == 10 * power);
    assert(power * 10 == 10 * power);
}

proof fn lemma_pow10_positive(exponent: nat)
    ensures
        pow10(exponent) > 0,
    decreases exponent,
{
    if exponent > 0 {
        lemma_pow10_positive((exponent - 1) as nat);
    }
}

/// The characters of `text`.
fn characters(text: &str) -> (chars: Vec<char>)
    ensures
        chars@ == text@,
{
    let mut chars: Vec<char> = Vec::new();
    for c in it: text.chars()
        invariant
            it.seq() == text@,
            chars@ == text@.subrange(0, it.index() as int),
    {
        assert(text@.subrange(0, it.index() + 1) == text@.subrange(0, it.index() as int).push(c));
        chars.push(c);
    }
    assert(text@.subrange(0, text@.len() as int) == text@);
    chars
}

/// The characters of `text` from `from` up to `to`.
fn slice(text: &Vec<char>, from: usize, to: usize) -> (part: Vec<char>)
    requires
        from <= to <= text@.len(),
    ensures
        part@ == text@.subrange(from as int, to as int),
{
    let mut part: Vec<char> = Vec::new();
    let mut at = from;
    while at < to
        invariant
            from <= at <= to <= text@.len(),
            part@ == text@.subrange(from as int, at as int),
        decreases to - at,
    {
        assert(text@.subrange(from as int, at + 1) == text@.subrange(from as int, at as int).push(
            text@[at as int],
        ));
        part.push(text[at]);
        at += 1;
    }
    part
}

/// The number that `text` starts with after its leading whitespace, and
/// what follows the number.
fn split_parts(text: &str) -> (parts: (Vec<char>, Vec<char>))
    ensures
        parts.0@ == number_part(text@),
        parts.1@ == trim_start(text@).subrange(
            numeric_run(trim_start(text@)),
            trim_start(text@).len() as int,
        ),
{
    let chars = characters(text);
    let len = chars.len();
    let mut from: usize = 0;
    while from < len && char_is_whitespace(chars[from])
        invariant
            len == chars@.len(),
            from <= len,
            forall|i: int| 0 <= i < from ==> is_whitespace(chars@[i]),
        decreases len - from,
    {
        from += 1;
    }
    let mut end: usize = from;
    while end < len && (char_is_digit(chars[end]) || chars[end] == '.')
        invariant
            len == chars@.len(),
            from <= end <= len,
            forall|i: int| from <= i < end ==> is_numeric_char(chars@[i]),
        decreases len - end,
    {
        end += 1;
    }
    proof {
        let lead = chars@.subrange(from as int, len as int);
        lemma_trim_start(chars@, from as int);
        lemma_numeric_run(lead, end - from);
        assert(lead.subrange(0, end - from) == chars@.subrange(from as int, end as int));
        assert(lead.subrange(end - from, lead.len() as int) == chars@.subrange(
            end as int,
            len as int,
        ));
    }
    (slice(&chars, from, end), slice(&chars, end, len))
}

/// Whether `number` is a number; if so, the place of its point, or its
/// length without one.
fn find_point(number: &Vec<char>) -> (point: Option<usize>)
    ensures
        point is Some <==> is_number(number@),
        point matches Some(at) ==> at == first_point(number@),
{
    let len = number.len();
    let mut at: usize = 0;
    while at < len && number[at] != '.'
        invariant
            len == number@.len(),
            at <= len,
            forall|i: int| 0 <= i < at ==> is_digit(number@[i]),
        decreases len - at,
    {
        if !char_is_digit(number[at]) {
            proof {
                lemma_whole_reaches(number@, at as int);
            }
            return None;
        }
        at += 1;
    }
    let point = at;
    proof {
        lemma_first_point(number@, point as int);
    }
    if at < len {
        at += 1;
    }
    let ghost start = at as int;
    while at < len
        invariant
            len == number@.len(),
            0 <= start <= at <= len,
            fraction_digits(number@) == number@.subrange(start, len as int),
            forall|i: int| start <= i < at ==> is_digit(number@[i]),
        decreases len - at,
    {
        if !char_is_digit(number[at]) {
            assert(fraction_digits(number@)[at - start] == number@[at as int]);
            return None;
        }
        at += 1;
    }
    if len == 0 || (len == 1 && point == 0) {
        return None;
    }
    Some(point)
}

/// A character before the first point that is no digit spoils the number.
proof fn lemma_whole_reaches(number: Seq<char>, at: int)
    requires
        0 <= at < number.len(),
        forall|i: int| 0 <= i < at ==> is_digit(number[i]),
        number[at] != '.',
        !is_digit(number[at]),
    ensures
        !is_number(number),
{
    lemma_point_after(number, at + 1);
    assert(whole_digits(number)[at] == number[at]);
}

/// No point before `upto` puts the first point at `upto` or later.
proof fn lemma_point_after(text: Seq<char>, upto: int)
    requires
        0 <= upto <= text.len(),
        forall|i: int| 0 <= i < upto ==> text[i] != '.',
    ensures
        upto <= first_point(text) <= text.len(),
    decreases text.len(),
{
    if text.len() > 0 && text[0] != '.' {
        if upto > 0 {
            lemma_point_after(text.drop_first(), upto - 1);
        } else {
            lemma_point_after(text.drop_first(), 0);
        }
    }
}

/// The whole nanoseconds in `number` units of `seconds` seconds, nothing
/// where they are more than a `TimeSpan` holds.
fn worth(number: &Vec<char>, point: usize, seconds: u128) -> (nanos: Option<u128>)
    requires
        is_number(number@),
        point == first_point(number@),
        1 <= seconds <= 3600,
    ensures
        match nanos {
            Some(total) => total == duration_nanos(number@, seconds as nat),
            None => duration_nanos(number@, seconds as nat) > u128::MAX,
        },
{
    let len = number.len();
    let per_unit: u128 = seconds * 1_000_000_000;
    proof {
        lemma_point_after(number@, 0);
    }
    let ghost head = whole_digits(number@);
    let ghost tail = fraction_digits(number@);
    let mut whole: u128 = 0;
    let mut too_large = false;
    let mut at: usize = 0;
    assert(head.subrange(0, 0).len() == 0);
    while at < point
        invariant
            at <= point <= len == number@.len(),
            head == number@.subrange(0, point as int),
            forall|i: int| 0 <= i < head.len() ==> is_digit(head[i]),
            !too_large ==> whole == decimal_value(head.subrange(0, at as int)),
            too_large ==> decimal_value(head.subrange(0, at as int)) > u128::MAX,
        decreases point - at,
    {
        assert(head[at as int] == number@[at as int]);
        let digit = digit_of(number[at]);
        proof {
            assert(head.subrange(0, at + 1).drop_last() == head.subrange(0, at as int));
        }
        if !too_large {
            match whole.checked_mul(10) {
                Some(tenfold) => match tenfold.checked_add(digit) {
                    Some(next) => {
                        whole = next;
                    },
                    None => {
                        too_large = true;
                    },
                },
                None => {
                    too_large = true;
                },
            }
        }
        at += 1;
    }
    assert(head.subrange(0, point as int) == head);
    let start: usize = if point < len {
        point + 1
    } else {
        len
    };
    let mut carry: u128 = 0;
    let mut back: usize = len;
    proof {
        assert(decimal_value(tail.subrange(tail.len() as int, tail.len() as int)) == 0);
        assert(0 * (per_unit as nat) == 0);
        assert(pow10(0) == 1);
    }
    while back > start
        invariant
            start <= back <= len == number@.len(),
            tail == number@.subrange(start as int, len as int),
            forall|i: int| 0 <= i < tail.len() ==> is_digit(tail[i]),
            per_unit == seconds * 1_000_000_000,
            1 <= seconds <= 3600,
            carry < per_unit,
            carry == decimal_value(tail.subrange(back - start, tail.len() as int)) * (
            per_unit as nat) / pow10((len - back) as nat),
        decreases back,
    {
        back -= 1;
        assert(tail[back - start] == number@[back as int]);
        let digit = digit_of(number[back]);
        proof {
            let longer = tail.subrange(back - start, tail.len() as int);
            assert(longer.drop_first() == tail.subrange(back - start + 1, tail.len() as int));
            assert(longer[0] == number@[back as int]);
            lemma_fraction_step(longer, per_unit as nat);
            assert(digit * per_unit <= 9 * per_unit) by (nonlinear_arith)
                requires
                    digit <= 9,
            ;
        }
        carry = (digit * per_unit + carry) / 10;
    }
    proof {
        assert(tail.subrange(0, tail.len() as int) == tail);
        let exact = decimal_value(head);
        if too_large {
            assert(exact * per_unit >= exact) by (nonlinear_arith)
                requires
                    per_unit >= 1,
            ;
        }
    }
    if too_large {
        return None;
    }
    match whole.checked_mul(per_unit) {
        Some(scaled) => scaled.checked_add(carry),
        None => None,
    }
}

/// Reads the trimmed `unit` as a number of seconds.
fn read_unit(unit: &Vec<char>) -> (seconds: Option<u128>)
    ensures
        match unit_seconds(trimmed(unit@)) {
            Some(value) => seconds == Some(value as u128),
            None => seconds is None,
        },
        seconds matches Some(value) ==> 1 <= value <= 3600,
{
    let len = unit.len();
    let mut from: usize = 0;
    while from < len && char_is_whitespace(unit[from])
        invariant
            len == unit@.len(),
            from <= len,
            forall|i: int| 0 <= i < from ==> is_whitespace(unit@[i]),
        decreases len - from,
    {
        from += 1;
    }
    let mut to: usize = len;
    while to > from && char_is_whitespace(unit[to - 1])
        invariant
            len == unit@.len(),
            from <= to <= len,
            forall|i: int| to <= i < len ==> is_whitespace(unit@[i]),
        decreases to,
    {
        to -= 1;
    }
    let ghost name = unit@.subrange(from as int, to as int);
    proof {
        let front = unit@.subrange(from as int, len as int);
        lemma_trim_start(unit@, from as int);
        lemma_trim_end(front, to - from);
        assert(front.subrange(0, to - from) == name);
        assert(trimmed(unit@) == name);
    }
    let size = to - from;
    proof {
        lemma_unit_names(name);
    }
    if size == 1 && unit[from] == 's' {
        Some(1)
    } else if size == 3 && unit[from] == 's' && unit[from + 1] == 'e' && unit[from + 2] == 'c' {
        Some(1)
    } else if size == 1 && unit[from] == 'm' {
        Some(60)
    } else if size == 3 && unit[from] == 'm' && unit[from + 1] == 'i' && unit[from + 2] == 'n' {
        Some(60)
    } else if size == 1 && unit[from] == 'h' {
        Some(3600)
    } else {
        None
    }
}

/// The names of the units, letter by letter.
proof fn lemma_unit_names(name: Seq<char>)
    ensures
        name == seq!['s'] <==> name.len() == 1 && name[0] == 's',
        name == seq!['m'] <==> name.len() == 1 && name[0] == 'm',
        name == seq!['h'] <==> name.len() == 1 && name[0] == 'h',
        name == seq!['s', 'e', 'c'] <==> name.len() == 3 && name[0] == 's' && name[1] == 'e'
            && name[2] == 'c',
        name == seq!['m', 'i', 'n'] <==> name.len() == 3 && name[0] == 'm' && name[1] == 'i'
            && name[2] == 'n',
{
    if name.len() == 1 {
        assert(name =~= seq![name[0]]);
    }
    if name.len() == 3 {
        assert(name =~= seq![name[0], name[1], name[2]]);
    }
    assert(seq!['s', 'e', 'c'][1] == 'e' && seq!['s', 'e', 'c'][2] == 'c');
    assert(seq!['m', 'i', 'n'][1] == 'i' && seq!['m', 'i', 'n'][2] == 'n');
}

/// Reads a duration: a number and, after it, the name of a unit (`s` or
/// `sec`, `m` or `min`, `h`). Whitespace may stand before the number,
/// between number and unit, and after the unit; anything else that is
/// neither makes the text no duration.
pub fn parse_duration(s: &str) -> (parsed: Result<TimeSpan, String>)
    ensures
        match parsed_duration(s@) {
            Ok(nanos) => parsed == Ok::<TimeSpan, String>(TimeSpan { nanos: nanos as u128 }),
            Err(error) => parsed is Err && parsed->Err_0@ == error_text(error),
        },
{
    let (number, rest) = split_parts(s);
    let point = match find_point(&number) {
        Some(point) => point,
        None => {
            return Err("Invalid number".to_string());
        },
    };
    let seconds = match read_unit(&rest) {
        Some(seconds) => seconds,
        None => {
            return Err("Invalid time unit".to_string());
        },
    };
    match worth(&number, point, seconds) {
        Some(total) => Ok(TimeSpan { nanos: total }),
        None => Err("Invalid number".to_string()),
    }
}

/// Whether `arg` is one of the two spellings of the option that sets the
/// polling interval.
pub open spec fn is_delay_flag(arg: Seq<char>) -> bool {
    arg == "-l"@ || arg == "--loop-delay"@
}

/// The place of the first such option among `args`, their number where there
/// is none.
pub open spec fn first_delay_flag(args: Seq<Seq<char>>) -> int
    decreases args.len(),
{
    if args.len() == 0 || is_delay_flag(args[0]) {
        0
    } else {
        1 + first_delay_flag(args.drop_first())
    }
}

/// The polling interval that `args` ask for: what the argument after the
/// first such option reads as, and the default where there is no such
/// option, no argument after it, or none that reads as a duration.
pub open spec fn chosen_delay(args: Seq<Seq<char>>) -> TimeSpan {
    let value = first_delay_flag(args) + 1;
    if value < args.len() {
        match parsed_duration(args[value]) {
            Ok(nanos) => TimeSpan { nanos: nanos as u128 },
            Err(_) => TimeSpan { nanos: (DEFAULT_LOOP_DELAY_SECS * 1_000_000_000) as u128 },
        }
    } else {
        TimeSpan { nanos: (DEFAULT_LOOP_DELAY_SECS * 1_000_000_000) as u128 }
    }
}

/// The configuration that a command line stands for.
pub open spec fn config_of(args: Seq<Seq<char>>) -> Config {
    Config {
        autosave_mode: args.contains("--autosave"@),
        loop_delay: chosen_delay(args),
        shiggy_mode: args.contains("--shiggy"@),
        audio_alert_mode: args.contains("-a"@),
    }
}

proof fn lemma_first_delay_flag(args: Seq<Seq<char>>, at: int)
    requires
        0 <= at <= args.len(),
        forall|i: int| 0 <= i < at ==> !is_delay_flag(args[i]),
        at < args.len() ==> is_delay_flag(args[at]),
    ensures
        first_delay_flag(args) == at,
    decreases args.len(),
{
    if at > 0 {
        lemma_first_delay_flag(args.drop_first(), at - 1);
    }
}

/// Whether one of `args` is `flag`.
fn has_flag(args: &Vec<String>, flag: &str) -> (found: bool)
    ensures
        found == args.deep_view().contains(flag@),
{
    let wanted = flag.to_string();
    let mut at: usize = 0;
    while at < args.len()
        invariant
            at <= args.len(),
            wanted@ == flag@,
            forall|i: int| 0 <= i < at ==> args.deep_view()[i] != flag@,
        decreases args.len() - at,
    {
        if args[at] == wanted {
            assert(args.deep_view()[at as int] == flag@);
            return true;
        }
        at += 1;
    }
    false
}

impl Config {
    /// Reads the configuration from the arguments of the command line, the
    /// program's own name among them. An argument that is not understood is
    /// passed over, and so is an interval that cannot be read: no command
    /// line is refused.
    pub fn new(args: &Vec<String>) -> (config: Result<Config, String>)
        ensures
            config == Ok::<Config, String>(config_of(args.deep_view())),
    {
        let autosave_mode = has_flag(args, "--autosave");
        let shiggy_mode = has_flag(args, "--shiggy");
        let audio_alert_mode = has_flag(args, "-a");
        let mut loop_delay = TimeSpan::from_secs(DEFAULT_LOOP_DELAY_SECS);
        let short = "-l".to_string();
        let long = "--loop-delay".to_string();
        let mut at: usize = 0;
        while at < args.len() && !(args[at] == short || args[at] == long)
            invariant
                at <= args.len(),
                short@ == "-l"@,
                long@ == "--loop-delay"@,
                forall|i: int| 0 <= i < at ==> !is_delay_flag(args.deep_view()[i]),
            decreases args.len() - at,
        {
            at += 1;
        }
        proof {
            lemma_first_delay_flag(args.deep_view(), at as int);
        }
        if at < args.len() && at + 1 < args.len() {
            if let Ok(delay) = parse_duration(args[at + 1].as_str()) {
                loop_delay = delay;
            }
        }
        Ok(Config { autosave_mode, loop_delay, shiggy_mode, audio_alert_mode })
    }
}

} // verus!
