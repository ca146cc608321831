//! Rendering a measurement into the fixed-size text that the display sink
//! consumes: temperature and humidity with one decimal place each, as in
//! `25.0C`, a line break, `60.0%`.  Centi-unit values are rounded to the
//! nearest tenth, ties away from zero.

use vstd::prelude::*;
use vstd::arithmetic::div_mod::{lemma_div_is_ordered, lemma_div_pos_is_pos};
use vstd::string::StringExecFns;
use crate::sht3x::Sht3xMeasurement;

verus! {

/// The decimal digit character for `d`.
pub open spec fn digit_char(d: int) -> char {
    if d == 0 {
        '0'
    } else if d == 1 {
        '1'
    } else if d == 2 {
        '2'
    } else if d == 3 {
        '3'
    } else if d == 4 {
        '4'
    } else if d == 5 {
        '5'
    } else if d == 6 {
        '6'
    } else if d == 7 {
        '7'
    } else if d == 8 {
        '8'
    } else {
        '9'
    }
}

/// The decimal digits of `n`, most significant first, without leading
/// zeroes (a single `'0'` for zero).
pub open spec fn spec_digits(n: nat) -> Seq<char>
    decreases n,
{
    if n < 10 {
        seq![digit_char(n as int)]
    } else {
        spec_digits(n / 10).push(digit_char((n % 10) as int))
    }
}

/// A centi-unit value rendered with one decimal place: an optional minus
/// sign, the whole part, a dot, and one tenths digit, after rounding the
/// magnitude to the nearest tenth (ties away from zero).
pub open spec fn spec_centi_text(c: int) -> Seq<char> {
    let sign: Seq<char> = if c < 0 {
        seq!['-']
    } else {
        Seq::empty()
    };
    let mag: int = if c < 0 {
        -c
    } else {
        c
    };
    let deci: int = (mag + 5) / 10;
    sign + spec_digits((deci / 10) as nat) + seq!['.', digit_char(deci % 10)]
}

/// The display sink's text for a measurement: temperature, `C`, a line
/// break, humidity, `%`.
pub open spec fn spec_measurement_text(m: Sht3xMeasurement) -> Seq<char> {
    spec_centi_text(m.temp_centi_celsius as int) + seq!['C', '\n'] + spec_centi_text(
        m.humidity_centi_percent as int,
    ) + seq!['%']
}

/// How many digits small numbers render to: never more than four below ten
/// thousand.
pub proof fn lemma_digits_len(n: nat)
    ensures
        spec_digits(n).len() >= 1,
        n < 10 ==> spec_digits(n).len() == 1,
        n < 100 ==> spec_digits(n).len() <= 2,
        n < 1000 ==> spec_digits(n).len() <= 3,
        n < 10000 ==> spec_digits(n).len() <= 4,
    decreases n,
{
    if n >= 10 {
        if n < 10000 {
            lemma_div_is_ordered(n as int, 9999, 10);
        }
        if n < 1000 {
            lemma_div_is_ordered(n as int, 999, 10);
        }
        if n < 100 {
            lemma_div_is_ordered(n as int, 99, 10);
        }
        lemma_digits_len(n / 10);
    }
}

/// A reading in the decodable range always renders to at most 13
/// characters, so it fits the display's 32-character text buffer with room
/// to spare.
pub proof fn lemma_text_fits_display(m: Sht3xMeasurement)
    requires
        -4500 <= m.temp_centi_celsius <= 13000,
        m.humidity_centi_percent <= 10000,
    ensures
        spec_measurement_text(m).len() <= 13,
{
    let t: int = m.temp_centi_celsius as int;
    let tmag: int = if t < 0 {
        -t
    } else {
        t
    };
    lemma_div_is_ordered(tmag + 5, 13005, 10);
    lemma_div_is_ordered((tmag + 5) / 10, 1300, 10);
    lemma_div_pos_is_pos(tmag + 5, 10);
    lemma_div_pos_is_pos((tmag + 5) / 10, 10);
    lemma_digits_len((((tmag + 5) / 10) / 10) as nat);
    let h: int = m.humidity_centi_percent as int;
    lemma_div_is_ordered(h + 5, 10005, 10);
    lemma_div_is_ordered((h + 5) / 10, 1000, 10);
    lemma_div_pos_is_pos(h + 5, 10);
    lemma_div_pos_is_pos((h + 5) / 10, 10);
    lemma_digits_len((((h + 5) / 10) / 10) as nat);
}

/// Append the digit character for `d`.
fn append_digit(out: &mut String, d: u32)
    requires
        d < 10,
    ensures
        final(out)@ == old(out)@.push(digit_char(d as int)),
{
    let text: &str = if d == 0 {
        "0"
    } else if d == 1 {
        "1"
    } else if d == 2 {
        "2"
    } else if d == 3 {
        "3"
    } else if d == 4 {
        "4"
    } else if d == 5 {
        "5"
    } else if d == 6 {
        "6"
    } else if d == 7 {
        "7"
    } else if d == 8 {
        "8"
    } else {
        "9"
    };
    proof {
        reveal_strlit("0");
        reveal_strlit("1");
        reveal_strlit("2");
        reveal_strlit("3");
        reveal_strlit("4");
        reveal_strlit("5");
        reveal_strlit("6");
        reveal_strlit("7");
        reveal_strlit("8");
        reveal_strlit("9");
        assert(text@ =~= seq![digit_char(d as int)]);
    }
    out.append(text);
    proof {
        assert(out@ =~= old(out)@.push(digit_char(d as int)));
    }
}

/// Append the decimal digits of `n`, most significant first.
fn append_digits(out: &mut String, n: u32)
    ensures
        final(out)@ == old(out)@ + spec_digits(n as nat),
    decreases n,
{
    if n >= 10 {
        append_digits(out, n / 10);
    }
    append_digit(out, n % 10);
    proof {
        assert(out@ =~= old(out)@ + spec_digits(n as nat));
    }
}

/// Append a centi-unit value rendered with one decimal place.  The bound on
/// the magnitude keeps the rounding arithmetic comfortably inside `u32`.
fn append_centi(out: &mut String, c: i32)
    requires
        -1000000 < c < 1000000,
    ensures
        final(out)@ == old(out)@ + spec_centi_text(c as int),
{
    let mag: u32 = if c < 0 {
        out.append("-");
        proof {
            reveal_strlit("-");
        }
        (-c) as u32
    } else {
        c as u32
    };
    let deci: u32 = (mag + 5) / 10;
    append_digits(out, deci / 10);
    out.append(".");
    append_digit(out, deci % 10);
    proof {
        reveal_strlit(".");
        assert(out@ =~= old(out)@ + spec_centi_text(c as int));
    }
}

/// The text handed to the display sink for one reading: temperature and
/// humidity to one decimal place, as in `25.0C`, a line break, `60.0%`.
/// The requires bound is the range every decoded measurement lies in.
pub fn format_measurement(m: &Sht3xMeasurement) -> (s: String)
    requires
        -4500 <= m.temp_centi_celsius <= 13000,
        m.humidity_centi_percent <= 10000,
    ensures
        s@ == spec_measurement_text(*m),
{
    let mut out = String::new();
    append_centi(&mut out, m.temp_centi_celsius);
    out.append("C\n");
    append_centi(&mut out, m.humidity_centi_percent as i32);
    out.append("%");
    proof {
        reveal_strlit("C\n");
        reveal_strlit("%");
        assert(out@ =~= spec_measurement_text(*m));
    }
    out
}

} // verus!
