//! Field paths and numbers as text for a reader.
//!
//! A path is written as its field names joined by dots, with the position of
//! an element of a repeated field in square brackets behind the field's
//! name: `Document.Itm[2].Id`.

use vstd::prelude::*;
use vstd::string::StrSliceExecFns;
use vstd::string::StringExecFns;
use crate::decimal::Decimal;
use crate::violation::PathSegment;
use crate::violation::SegmentModel;
use crate::violation::path_model;

verus! {

/// The character of a decimal digit.
pub open spec fn digit_char(digit: nat) -> char {
    if digit == 0 {
        '0'
    } else if digit == 1 {
        '1'
    } else if digit == 2 {
        '2'
    } else if digit == 3 {
        '3'
    } else if digit == 4 {
        '4'
    } else if digit == 5 {
        '5'
    } else if digit == 6 {
        '6'
    } else if digit == 7 {
        '7'
    } else if digit == 8 {
        '8'
    } else {
        '9'
    }
}

/// A number in decimal notation, without leading zeros.
pub open spec fn decimal_digits(number: nat) -> Seq<char>
    decreases number,
{
    if number < 10 {
        seq![digit_char(number)]
    } else {
        decimal_digits(number / 10).push(digit_char(number % 10))
    }
}

/// The text of one decimal digit.
fn digit_text(digit: u64) -> (text: &'static str)
    requires
        digit < 10,
    ensures
        text@ == seq![digit_char(digit as nat)],
{
    proof {
        reveal_strlit("0");
        reveal_strlit("1");
        reveal_strlit("2");
        reveal_strlit("3");
        reveal_strlit("4");
        reveal_strlit("5");
        reveal_strlit("6");
        reveal_strlit("7");
        reveal_strlit("8");
        reveal_strlit("9");
    }
    let text = if digit == 0 {
        "0"
    } else if digit == 1 {
        "1"
    } else if digit == 2 {
        "2"
    } else if digit == 3 {
        "3"
    } else if digit == 4 {
        "4"
    } else if digit == 5 {
        "5"
    } else if digit == 6 {
        "6"
    } else if digit == 7 {
        "7"
    } else if digit == 8 {
        "8"
    } else {
        "9"
    };
    proof {
        assert(text@ =~= seq![digit_char(digit as nat)]);
    }
    text
}

/// Writes `number` in decimal notation.
pub fn number_text(number: u64) -> (text: String)
    ensures
        text@ == decimal_digits(number as nat),
    decreases number,
{
    if number < 10 {
        String::from_str(digit_text(number))
    } else {
        let mut text = number_text(number / 10);
        text.append(digit_text(number % 10));
        proof {
            assert(text@ =~= decimal_digits((number / 10) as nat).push(
                digit_char((number % 10) as nat),
            ));
        }
        text
    }
}

/// One segment as it is written in a path: a field name, behind a dot unless
/// it opens the path, or a position in square brackets.
pub open spec fn segment_text(segment: SegmentModel, opening: bool) -> Seq<char> {
    match segment {
        SegmentModel::Field(name) => if opening {
            name
        } else {
            seq!['.'] + name
        },
        SegmentModel::Index(position) => seq!['['] + decimal_digits(position) + seq![']'],
    }
}

/// The first `upto` segments of a path as text.
pub open spec fn path_text(path: Seq<SegmentModel>, upto: nat) -> Seq<char>
    decreases upto,
{
    if upto == 0 || upto > path.len() {
        Seq::empty()
    } else {
        path_text(path, (upto - 1) as nat) + segment_text(path[upto - 1], upto == 1)
    }
}

/// Writes `path` as text.
pub fn render_path(path: &Vec<PathSegment>) -> (text: String)
    ensures
        text@ == path_text(path_model(path@), path@.len()),
{
    let mut text = String::new();
    let mut i: usize = 0;
    proof {
        reveal_strlit(".");
        reveal_strlit("[");
        reveal_strlit("]");
        assert("."@ =~= seq!['.']);
        assert("["@ =~= seq!['[']);
        assert("]"@ =~= seq![']']);
    }
    while i < path.len()
        invariant
            i <= path.len(),
            "."@ == seq!['.'],
            "["@ == seq!['['],
            "]"@ == seq![']'],
            text@ == path_text(path_model(path@), i as nat),
        decreases path.len() - i,
    {
        let ghost earlier = text@;
        proof {
            assert(path_model(path@)[i as int] == path@[i as int]@);
        }
        match &path[i] {
            PathSegment::Field(name) => {
                if i > 0 {
                    text.append(".");
                }
                text.append(name.as_str());
            },
            PathSegment::Index(position) => {
                text.append("[");
                let digits = number_text(*position as u64);
                text.append(digits.as_str());
                text.append("]");
            },
        }
        proof {
            assert(text@ =~= earlier + segment_text(path@[i as int]@, i == 0));
        }
        i += 1;
    }
    text
}

/// A run of zeros.
pub open spec fn zeros(count: nat) -> Seq<char> {
    Seq::new(count, |i: int| '0')
}

/// The digits of `magnitude`, with zeros in front where needed so that at
/// least one digit stands before the last `scale` digits.
pub open spec fn padded_digits(magnitude: nat, scale: nat) -> Seq<char> {
    let digits = decimal_digits(magnitude);
    if digits.len() > scale {
        digits
    } else {
        zeros((scale + 1 - digits.len()) as nat) + digits
    }
}

/// The number `mantissa / 10^scale` in decimal notation: a minus sign where
/// it is negative, its digits, and a point before the last `scale` digits
/// where `scale` is not zero.
pub open spec fn decimal_text(mantissa: int, scale: nat) -> Seq<char> {
    let magnitude = (if mantissa < 0 {
        -mantissa
    } else {
        mantissa
    }) as nat;
    let sign = if mantissa < 0 {
        seq!['-']
    } else {
        Seq::<char>::empty()
    };
    let padded = padded_digits(magnitude, scale);
    if scale == 0 {
        sign + padded
    } else {
        sign + padded.subrange(0, padded.len() - scale) + seq!['.'] + padded.subrange(
            padded.len() - scale,
            padded.len() as int,
        )
    }
}

/// Writes `number` in decimal notation.
pub fn render_decimal(number: &Decimal) -> (text: String)
    ensures
        text@ == decimal_text(number.mantissa_spec(), number.scale_spec()),
{
    let mantissa = number.mantissa();
    let scale = number.scale() as usize;
    let magnitude: u64 = if mantissa < 0 {
        if mantissa == i64::MIN {
            0x8000_0000_0000_0000u64
        } else {
            (-mantissa) as u64
        }
    } else {
        mantissa as u64
    };
    let digits = number_text(magnitude);
    let count = digits.as_str().unicode_len();
    proof {
        reveal_strlit("-");
        reveal_strlit("0");
        reveal_strlit(".");
        assert("-"@ =~= seq!['-']);
        assert("0"@ =~= seq!['0']);
        assert("."@ =~= seq!['.']);
    }
    let mut padded = String::new();
    let mut width: usize = count;
    while width <= scale
        invariant
            count <= width,
            width <= scale + 1 || width == count,
            scale <= 18,
            "0"@ == seq!['0'],
            padded@ == zeros((width - count) as nat),
        decreases scale + 1 - width,
    {
        padded.append("0");
        width += 1;
        proof {
            assert(padded@ =~= zeros((width - count) as nat));
        }
    }
    padded.append(digits.as_str());
    proof {
        assert(zeros(0) + digits@ =~= digits@);
        assert(padded@ == padded_digits(magnitude as nat, scale as nat));
    }
    let mut text = String::new();
    if mantissa < 0 {
        text.append("-");
    }
    let length = padded.as_str().unicode_len();
    if scale == 0 {
        text.append(padded.as_str());
        proof {
            assert(text@ =~= decimal_text(mantissa as int, 0));
        }
    } else {
        text.append(padded.as_str().substring_char(0, length - scale));
        text.append(".");
        text.append(padded.as_str().substring_char(length - scale, length));
        proof {
            assert(text@ =~= decimal_text(mantissa as int, scale as nat));
        }
    }
    text
}

} // verus!
