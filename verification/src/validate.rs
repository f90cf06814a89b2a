//! Validation of the user-supplied parameters: color, brightness, mode and
//! on/off state. Each validator is independent and side-effect-free; a run is
//! rejected at the first invalid parameter.

use vstd::prelude::*;

use crate::errors::Error;
use crate::text::dec_digits;
use crate::text::digit_char;
use crate::text::range_string;
use crate::text::range_text;

verus! {

/// Lowest brightness the driver accepts; a configuration constant of the
/// driver revision, not a property of the algorithm.
pub const BRIGHTNESS_MIN: u8 = 0;

/// Highest brightness the driver accepts.
pub const BRIGHTNESS_MAX: u8 = 255;

/// Lowest lighting mode the driver accepts.
pub const MODE_MIN: u8 = 0;

/// Highest lighting mode the driver accepts (the number of effects is 8).
pub const MODE_MAX: u8 = 7;

/// Lowest state value (off).
pub const STATE_MIN: u8 = 0;

/// Highest state value (on).
pub const STATE_MAX: u8 = 1;

/// Number of characters of a well-formed color argument.
pub const COLOR_LEN: usize = 6;

pub open spec fn is_dec_digit(c: char) -> bool {
    '0' as u32 <= c as u32 && c as u32 <= '9' as u32
}

pub open spec fn dec_digit_val(c: char) -> nat {
    (c as u32 - '0' as u32) as nat
}

pub open spec fn all_dec_digits(s: Seq<char>) -> bool {
    forall|i: int| 0 <= i < s.len() ==> is_dec_digit(#[trigger] s[i])
}

/// A non-empty string of decimal digits: exactly the inputs that read as an
/// unsigned decimal number.
pub open spec fn is_dec_string(s: Seq<char>) -> bool {
    s.len() > 0 && all_dec_digits(s)
}

/// The number a digit string denotes, most significant digit first.
pub open spec fn dec_value(s: Seq<char>) -> nat
    decreases s.len(),
{
    if s.len() == 0 {
        0
    } else {
        dec_value(s.drop_last()) * 10 + dec_digit_val(s.last())
    }
}

pub open spec fn is_hex_digit(c: char) -> bool {
    ('0' as u32 <= c as u32 && c as u32 <= '9' as u32) || ('A' as u32 <= c as u32 && c as u32
        <= 'F' as u32) || ('a' as u32 <= c as u32 && c as u32 <= 'f' as u32)
}

/// A well-formed color argument: exactly six hex digits.
pub open spec fn valid_color(s: Seq<char>) -> bool {
    s.len() == COLOR_LEN && (forall|i: int| 0 <= i < s.len() ==> is_hex_digit(#[trigger] s[i]))
}

/// A brightness string the validator accepts.
pub open spec fn brightness_ok(s: Seq<char>) -> bool {
    is_dec_string(s) && BRIGHTNESS_MIN as nat <= dec_value(s) <= BRIGHTNESS_MAX as nat
}

/// A mode string the validator accepts.
pub open spec fn mode_ok(s: Seq<char>) -> bool {
    is_dec_string(s) && MODE_MIN as nat <= dec_value(s) <= MODE_MAX as nat
}

/// A state string the validator accepts.
pub open spec fn state_ok(s: Seq<char>) -> bool {
    is_dec_string(s) && STATE_MIN as nat <= dec_value(s) <= STATE_MAX as nat
}

proof fn lemma_dec_value_step(s: Seq<char>, i: int)
    requires
        0 <= i < s.len(),
    ensures
        dec_value(s.take(i + 1)) == dec_value(s.take(i)) * 10 + dec_digit_val(s[i]),
{
    assert(s.take(i + 1).drop_last() =~= s.take(i));
    assert(s.take(i + 1).last() == s[i]);
}

proof fn lemma_digit_char_val(d: nat)
    requires
        d < 10,
    ensures
        is_dec_digit(digit_char(d)),
        dec_digit_val(digit_char(d)) == d,
{
}

/// The decimal rendering of a number is a well-formed decimal string and
/// reads back as exactly that number: the writer's formatting and the
/// validator's reading agree.
pub proof fn lemma_decimal_round_trip(n: nat)
    ensures
        is_dec_string(dec_digits(n)),
        dec_value(dec_digits(n)) == n,
    decreases n,
{
    if n < 10 {
        lemma_digit_char_val(n);
        let whole = dec_digits(n);
        assert(whole =~= seq![digit_char(n)]);
        assert(whole.last() == digit_char(n));
        assert(whole.drop_last() =~= Seq::<char>::empty());
        assert(dec_value(whole) == dec_value(whole.drop_last()) * 10 + dec_digit_val(whole.last()));
        assert(dec_value(Seq::<char>::empty()) == 0);
    } else {
        lemma_decimal_round_trip(n / 10);
        lemma_digit_char_val(n % 10);
        let whole = dec_digits(n);
        let lead = dec_digits(n / 10);
        assert(whole.drop_last() =~= lead);
        assert(whole.last() == digit_char(n % 10));
        assert forall|i: int| 0 <= i < whole.len() implies is_dec_digit(#[trigger] whole[i]) by {
            if i < whole.len() - 1 {
                assert(whole[i] == lead[i]);
            } else {
                assert(whole[i] == digit_char(n % 10));
            }
        }
    }
}

/// Reads a whole string as an unsigned decimal number that fits in a byte.
/// Returns `None` on an empty string, a non-digit character, or a value over
/// `u8::MAX`.
pub fn parse_u8_decimal(s: &str) -> (r: Option<u8>)
    ensures
        match r {
            Some(v) => is_dec_string(s@) && dec_value(s@) == v as nat,
            None => !is_dec_string(s@) || dec_value(s@) > u8::MAX as nat,
        },
{
    let len = s.unicode_len();
    if len == 0 {
        return None;
    }
    let mut i: usize = 0;
    // `acc` follows the value of the prefix read so far, saturated at 256 so
    // that an overlong input cannot overflow it.
    let mut acc: u32 = 0;
    while i < len
        invariant
            i <= len,
            len == s@.len(),
            all_dec_digits(s@.take(i as int)),
            acc == if dec_value(s@.take(i as int)) <= 255 {
                dec_value(s@.take(i as int))
            } else {
                256nat
            },
        decreases len - i,
    {
        let u = s.get_char(i) as u32;
        if u < 48 || u > 57 {
            proof {
                assert(!is_dec_digit(s@[i as int]));
                assert(!all_dec_digits(s@));
            }
            return None;
        }
        let d = u - 48;
        proof {
            lemma_dec_value_step(s@, i as int);
            assert(all_dec_digits(s@.take(i as int + 1)));
        }
        if acc > 255 || acc * 10 + d > 255 {
            acc = 256;
        } else {
            acc = acc * 10 + d;
        }
        i = i + 1;
    }
    proof {
        assert(s@.take(len as int) =~= s@);
    }
    if acc > 255 {
        None
    } else {
        Some(acc as u8)
    }
}

/// Validates the lighting mode argument: accepted exactly when it reads as a
/// decimal number between `MODE_MIN` and `MODE_MAX`.
pub fn validate_mode(mode: &str) -> (r: Result<u8, Error>)
    ensures
        r is Ok <==> mode_ok(mode@),
        r matches Ok(v) ==> dec_value(mode@) == v as nat,
        r matches Err(e) ==> e matches Error::InvalidRange(t) && t@ == range_text(
            MODE_MIN as nat,
            MODE_MAX as nat,
        ),
{
    match parse_u8_decimal(mode) {
        Some(v) if v >= MODE_MIN && v <= MODE_MAX => Ok(v),
        _ => Err(Error::InvalidRange(range_string(MODE_MIN, MODE_MAX))),
    }
}

/// Validates the on/off state argument: accepted exactly when it reads as a
/// decimal number between `STATE_MIN` and `STATE_MAX`.
pub fn validate_state(state: &str) -> (r: Result<u8, Error>)
    ensures
        r is Ok <==> state_ok(state@),
        r matches Ok(v) ==> dec_value(state@) == v as nat,
        r matches Err(e) ==> e matches Error::InvalidRange(t) && t@ == range_text(
            STATE_MIN as nat,
            STATE_MAX as nat,
        ),
{
    match parse_u8_decimal(state) {
        Some(v) if v >= STATE_MIN && v <= STATE_MAX => Ok(v),
        _ => Err(Error::InvalidRange(range_string(STATE_MIN, STATE_MAX))),
    }
}

/// Validates the brightness argument: accepted exactly when it reads as a
/// decimal number between `BRIGHTNESS_MIN` and `BRIGHTNESS_MAX`.
pub fn validate_brightness(brightness: &str) -> (r: Result<u8, Error>)
    ensures
        r is Ok <==> brightness_ok(brightness@),
        r matches Ok(v) ==> dec_value(brightness@) == v as nat,
        r matches Err(e) ==> e matches Error::InvalidRange(t) && t@ == range_text(
            BRIGHTNESS_MIN as nat,
            BRIGHTNESS_MAX as nat,
        ),
{
    match parse_u8_decimal(brightness) {
        Some(v) if v >= BRIGHTNESS_MIN && v <= BRIGHTNESS_MAX => Ok(v),
        _ => Err(Error::InvalidRange(range_string(BRIGHTNESS_MIN, BRIGHTNESS_MAX))),
    }
}

/// Validates the color argument: accepted exactly when it is six hex digits.
/// The accepted string itself is handed back; the writer sends it on verbatim.
pub fn validate_color(color: &str) -> (r: Result<String, Error>)
    ensures
        r is Ok <==> valid_color(color@),
        r matches Ok(c) ==> c@ == color@,
        r matches Err(e) ==> e matches Error::InvalidColorFormat(t) && t@ == color@,
{
    let len = color.unicode_len();
    if len != COLOR_LEN {
        return Err(Error::InvalidColorFormat(String::from_str(color)));
    }
    let mut i: usize = 0;
    while i < len
        invariant
            i <= len,
            len == color@.len(),
            len == COLOR_LEN,
            forall|j: int| 0 <= j < i ==> is_hex_digit(#[trigger] color@[j]),
        decreases len - i,
    {
        let u = color.get_char(i) as u32;
        if !((48 <= u && u <= 57) || (65 <= u && u <= 70) || (97 <= u && u <= 102)) {
            proof {
                assert(!is_hex_digit(color@[i as int]));
            }
            return Err(Error::InvalidColorFormat(String::from_str(color)));
        }
        i = i + 1;
    }
    Ok(String::from_str(color))
}

/// A validated configuration request: built once from the command-line input
/// and never changed afterwards.
#[derive(Debug)]
pub struct Config {
    /// Six hex digits, exactly as the user wrote them.
    pub color: String,
    pub brightness: u8,
    pub mode: u8,
    pub state: u8,
}

impl Config {
    /// Every field is inside the bound its validator enforces.
    pub open spec fn wf(self) -> bool {
        valid_color(self.color@) && BRIGHTNESS_MIN <= self.brightness <= BRIGHTNESS_MAX && MODE_MIN
            <= self.mode <= MODE_MAX && STATE_MIN <= self.state <= STATE_MAX
    }
}

/// Validates all four parameters, failing at the first invalid one in the
/// order color, brightness, mode, state.
pub fn validate_request(color: &str, brightness: &str, mode: &str, state: &str) -> (r: Result<
    Config,
    Error,
>)
    ensures
        r is Ok <==> valid_color(color@) && brightness_ok(brightness@) && mode_ok(mode@)
            && state_ok(state@),
        r matches Ok(cfg) ==> cfg.wf() && cfg.color@ == color@ && cfg.brightness as nat
            == dec_value(brightness@) && cfg.mode as nat == dec_value(mode@) && cfg.state as nat
            == dec_value(state@),
        !valid_color(color@) ==> (r matches Err(e) && e matches Error::InvalidColorFormat(t) && t@
            == color@),
        valid_color(color@) && !brightness_ok(brightness@) ==> (r matches Err(e)
            && e matches Error::InvalidRange(t) && t@ == range_text(
            BRIGHTNESS_MIN as nat,
            BRIGHTNESS_MAX as nat,
        )),
        valid_color(color@) && brightness_ok(brightness@) && !mode_ok(mode@) ==> (r matches Err(e)
            && e matches Error::InvalidRange(t) && t@ == range_text(
            MODE_MIN as nat,
            MODE_MAX as nat,
        )),
        valid_color(color@) && brightness_ok(brightness@) && mode_ok(mode@) && !state_ok(state@)
            ==> (r matches Err(e) && e matches Error::InvalidRange(t) && t@ == range_text(
            STATE_MIN as nat,
            STATE_MAX as nat,
        )),
{
    let color_value = match validate_color(color) {
        Ok(c) => c,
        Err(e) => {
            return Err(e);
        },
    };
    let brightness_value = match validate_brightness(brightness) {
        Ok(v) => v,
        Err(e) => {
            return Err(e);
        },
    };
    let mode_value = match validate_mode(mode) {
        Ok(v) => v,
        Err(e) => {
            return Err(e);
        },
    };
    let state_value = match validate_state(state) {
        Ok(v) => v,
        Err(e) => {
            return Err(e);
        },
    };
    Ok(
        Config {
            color: color_value,
            brightness: brightness_value,
            mode: mode_value,
            state: state_value,
        },
    )
}

} // verus!
