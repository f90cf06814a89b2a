//! Verified core of a command-line tool that configures a keyboard backlight
//! driver through its kernel attribute files.
//!
//! The library covers the three stages of a run: validating the user-supplied
//! parameters (color, brightness, mode, on/off state), deciding from the
//! preflight checks whether the driver is present, and planning the ordered
//! attribute writes. All decisions are verified; the surrounding binary only
//! performs the subprocess calls that the session asks for and reports their
//! outcomes back.

mod attributes;
mod errors;
mod session;
mod text;
mod validate;

pub use session::preflight_outcome;
pub use session::shell_invocation;
pub use session::Action;
pub use session::Session;
pub use session::Stage;

pub use attributes::attribute_directory;
pub use attributes::attribute_path;
pub use attributes::build_command;
pub use attributes::build_commands;
pub use attributes::module_check_command;
pub use attributes::Attribute;

pub use errors::Error;
pub use errors::message_text;
pub use text::decimal_string;
pub use validate::Config;
pub use validate::parse_u8_decimal;
pub use validate::validate_brightness;
pub use validate::validate_color;
pub use validate::validate_mode;
pub use validate::validate_request;
pub use validate::validate_state;
pub use validate::BRIGHTNESS_MAX;
pub use validate::BRIGHTNESS_MIN;
pub use validate::COLOR_LEN;
pub use validate::MODE_MAX;
pub use validate::MODE_MIN;
pub use validate::STATE_MAX;
pub use validate::STATE_MIN;
