use vstd::prelude::*;

use crate::geometry::Color;

verus! {

/// Whether `c` is a decimal digit.
pub open spec fn spec_is_digit(c: char) -> bool {
    48 <= c as int <= 57
}

/// Whether every character of `s` is a decimal digit.
pub open spec fn spec_all_digits(s: Seq<char>) -> bool {
    forall|i: int| 0 <= i < s.len() ==> spec_is_digit(#[trigger] s[i])
}

/// The value of `s` read as a decimal numeral, most significant digit
/// first.
pub open spec fn spec_dec_value(s: Seq<char>) -> int
    decreases s.len(),
{
    if s.len() == 0 {
        0
    } else {
        spec_dec_value(s.drop_last()) * 10 + (s.last() as int - 48)
    }
}

/// The digits of a numeral: everything after one optional leading plus
/// sign.
pub open spec fn spec_digits_of(s: Seq<char>) -> Seq<char> {
    if s.len() > 0 && s[0] == '+' {
        s.skip(1)
    } else {
        s
    }
}

/// What `s` denotes as a `u32`: its decimal value when `s` is an optional
/// plus sign followed by a non-empty string of digits whose value fits,
/// nothing otherwise.
pub open spec fn spec_parsed_u32(s: Seq<char>) -> Option<u32> {
    let d = spec_digits_of(s);
    if d.len() > 0 && spec_all_digits(d) && spec_dec_value(d) <= u32::MAX {
        Some(spec_dec_value(d) as u32)
    } else {
        None
    }
}

proof fn lemma_dec_value_nonneg(s: Seq<char>)
    requires
        spec_all_digits(s),
    ensures
        0 <= spec_dec_value(s),
    decreases s.len(),
{
    if s.len() > 0 {
        assert(spec_all_digits(s.drop_last()));
        lemma_dec_value_nonneg(s.drop_last());
    }
}

proof fn lemma_dec_value_prefix_le(s: Seq<char>, j: int)
    requires
        spec_all_digits(s),
        0 <= j <= s.len(),
    ensures
        spec_dec_value(s.take(j)) <= spec_dec_value(s),
    decreases s.len() - j,
{
    if j < s.len() {
        let t = s.take(j + 1);
        assert(t.drop_last() =~= s.take(j));
        assert(spec_all_digits(s.take(j)));
        lemma_dec_value_nonneg(s.take(j));
        assert(spec_dec_value(t) == spec_dec_value(s.take(j)) * 10 + (s[j] as int - 48));
        lemma_dec_value_prefix_le(s, j + 1);
    } else {
        assert(s.take(j) =~= s);
    }
}

/// Reads `s` as a decimal `u32`: `Some` exactly when `s` is an optional
/// leading plus sign followed by a non-empty string of digits whose value
/// fits in a `u32`.
pub fn parse_u32(s: &str) -> (r: Option<u32>)
    ensures
        r == spec_parsed_u32(s@),
{
    let n = s.unicode_len();
    if n == 0 {
        return None;
    }
    let first = s.get_char(0);
    let start: usize = if first == '+' {
        1
    } else {
        0
    };
    let ghost digits = spec_digits_of(s@);
    proof {
        assert(digits =~= s@.skip(start as int));
    }
    if n == start {
        // a bare sign carries no digits
        return None;
    }
    let mut acc: u64 = 0;
    let mut i: usize = start;
    while i < n
        invariant
            start <= i <= n,
            start <= 1,
            start < n == s@.len(),
            digits == spec_digits_of(s@),
            digits =~= s@.skip(start as int),
            spec_all_digits(digits.take(i - start)),
            acc == spec_dec_value(digits.take(i - start)),
            acc <= u32::MAX,
        decreases n - i,
    {
        let c = s.get_char(i);
        let d = c as u32;
        if d < 48 || d > 57 {
            // not a decimal digit
            assert(digits[i - start] == s@[i as int]);
            assert(!spec_is_digit(digits[i - start]));
            return None;
        }
        let v = acc * 10 + (d - 48) as u64;
        proof {
            assert(digits[i - start] == s@[i as int]);
            assert(digits.take(i + 1 - start).drop_last() =~= digits.take(i - start));
            assert(digits.take(i + 1 - start).last() == s@[i as int]);
        }
        if v > 0xffff_ffff {
            // this prefix already exceeds the range, so the whole numeral
            // can only be larger
            proof {
                if spec_all_digits(digits) && spec_dec_value(digits) <= u32::MAX {
                    lemma_dec_value_prefix_le(digits, i + 1 - start);
                }
            }
            return None;
        }
        acc = v;
        i = i + 1;
    }
    proof {
        assert(digits.take(n - start) =~= digits);
    }
    Some(acc as u32)
}

/// Black, used for the score text.
pub open spec fn spec_black() -> Color {
    Color { r: 0, g: 0, b: 0, a: 255 }
}

/// Green, used for the snake.
pub open spec fn spec_green() -> Color {
    Color { r: 0, g: 255, b: 0, a: 255 }
}

/// Red, used for the food.
pub open spec fn spec_red() -> Color {
    Color { r: 255, g: 0, b: 0, a: 255 }
}

/// Grey, used for the window background.
pub open spec fn spec_grey() -> Color {
    Color { r: 122, g: 122, b: 122, a: 255 }
}

/// Game configuration: the window dimensions come from the command line,
/// everything else is fixed.
#[derive(Clone, Copy, Debug, PartialEq, Eq, Structural)]
pub struct Config {
    /// Requested window width, in pixels.
    pub window_width: u32,
    /// Requested window height, in pixels.
    pub window_height: u32,
    /// Side length of every entity square, in pixels.
    pub entity_size: u32,
    /// Simulation and rendering rate, in frames per second.
    pub fps: u32,
    /// Character size of the score text, in pixels.
    pub text_size: u32,
    /// Score text color.
    pub text_color: Color,
    /// Snake color.
    pub snake_color: Color,
    /// Food color.
    pub food_color: Color,
    /// Window background color.
    pub back_color: Color,
}

impl Config {
    /// Builds the game configuration from the command-line arguments: the
    /// first two arguments after the program name must be the window width
    /// and height as decimal numbers; everything else is fixed here.
    pub fn new(args: &[String]) -> (r: Result<Config, &'static str>)
        ensures
            (match r {
                Ok(c) => {
                    &&& args@.len() >= 3
                    &&& spec_parsed_u32(args@[1]@) == Some(c.window_width)
                    &&& spec_parsed_u32(args@[2]@) == Some(c.window_height)
                    &&& c.entity_size == 40
                    &&& c.fps == 10
                    &&& c.text_size == 50
                    &&& c.text_color == spec_black()
                    &&& c.snake_color == spec_green()
                    &&& c.food_color == spec_red()
                    &&& c.back_color == spec_grey()
                },
                Err(msg) => if args@.len() < 3 {
                    msg@ == "Invalid number of arguments: <width> <height>"@
                } else if spec_parsed_u32(args@[1]@) is None {
                    msg@ == "The window width must be a u32"@
                } else {
                    &&& spec_parsed_u32(args@[2]@) is None
                    &&& msg@ == "The window height must be a u32"@
                },
            }),
    {
        if args.len() < 3 {
            return Err("Invalid number of arguments: <width> <height>");
        }
        let width = match parse_u32(args[1].as_str()) {
            Some(value) => value,
            None => {
                return Err("The window width must be a u32");
            },
        };
        let height = match parse_u32(args[2].as_str()) {
            Some(value) => value,
            None => {
                return Err("The window height must be a u32");
            },
        };
        Ok(
            Config {
                window_width: width,
                window_height: height,
                entity_size: 40,
                fps: 10,
                text_size: 50,
                text_color: Color { r: 0, g: 0, b: 0, a: 255 },
                snake_color: Color { r: 0, g: 255, b: 0, a: 255 },
                food_color: Color { r: 255, g: 0, b: 0, a: 255 },
                back_color: Color { r: 122, g: 122, b: 122, a: 255 },
            },
        )
    }
}

} // verus!
