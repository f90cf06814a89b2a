//! The driver's control attributes: the file each setting is written to, the
//! formatting rule for its value, and the fixed order of the writes.

use vstd::prelude::*;

use crate::text::dec_digits;
use crate::text::push_decimal;
use crate::validate::Config;

verus! {

/// One named setting of the driver, with a control file of its own.
#[derive(Clone, Copy, Debug, PartialEq, Eq, Structural)]
pub enum Attribute {
    Mode,
    Brightness,
    ColorLeft,
    ColorCenter,
    ColorRight,
    ColorExtra,
    State,
}

/// The directory under which the driver exposes its control files.
pub open spec fn attribute_dir_text() -> Seq<char> {
    "/sys/devices/platform/tuxedo_keyboard"@
}

/// The attribute directory as a path string; the preflight check lists it.
pub fn attribute_directory() -> (r: &'static str)
    ensures
        r@ == attribute_dir_text(),
{
    "/sys/devices/platform/tuxedo_keyboard"
}

/// The shell command that reports success exactly when the driver's kernel
/// module is among the loaded modules.
pub open spec fn module_check_text() -> Seq<char> {
    "lsmod | grep tuxedo_keyboard"@
}

/// The module-list query for the preflight check, to be run through `sh -c`.
pub fn module_check_command() -> (r: &'static str)
    ensures
        r@ == module_check_text(),
{
    "lsmod | grep tuxedo_keyboard"
}

/// The absolute path of an attribute's control file.
pub open spec fn path_text(a: Attribute) -> Seq<char> {
    match a {
        Attribute::Mode => "/sys/devices/platform/tuxedo_keyboard/mode"@,
        Attribute::Brightness => "/sys/devices/platform/tuxedo_keyboard/brightness"@,
        Attribute::ColorLeft => "/sys/devices/platform/tuxedo_keyboard/color_left"@,
        Attribute::ColorCenter => "/sys/devices/platform/tuxedo_keyboard/color_center"@,
        Attribute::ColorRight => "/sys/devices/platform/tuxedo_keyboard/color_right"@,
        Attribute::ColorExtra => "/sys/devices/platform/tuxedo_keyboard/color_extra"@,
        Attribute::State => "/sys/devices/platform/tuxedo_keyboard/state"@,
    }
}

/// The control file an attribute is written to.
pub fn attribute_path(a: Attribute) -> (r: &'static str)
    ensures
        r@ == path_text(a),
{
    match a {
        Attribute::Mode => "/sys/devices/platform/tuxedo_keyboard/mode",
        Attribute::Brightness => "/sys/devices/platform/tuxedo_keyboard/brightness",
        Attribute::ColorLeft => "/sys/devices/platform/tuxedo_keyboard/color_left",
        Attribute::ColorCenter => "/sys/devices/platform/tuxedo_keyboard/color_center",
        Attribute::ColorRight => "/sys/devices/platform/tuxedo_keyboard/color_right",
        Attribute::ColorExtra => "/sys/devices/platform/tuxedo_keyboard/color_extra",
        Attribute::State => "/sys/devices/platform/tuxedo_keyboard/state",
    }
}

/// The text written into an attribute's control file: decimal for mode,
/// brightness and state; the six hex digits with a `0x` prefix for the color
/// zones.
pub open spec fn value_text(a: Attribute, cfg: Config) -> Seq<char> {
    match a {
        Attribute::Mode => dec_digits(cfg.mode as nat),
        Attribute::Brightness => dec_digits(cfg.brightness as nat),
        Attribute::State => dec_digits(cfg.state as nat),
        Attribute::ColorLeft | Attribute::ColorCenter | Attribute::ColorRight
            | Attribute::ColorExtra => "0x"@ + cfg.color@,
    }
}

/// The full shell command that applies one attribute of the request.
pub open spec fn command_text(a: Attribute, cfg: Config) -> Seq<char> {
    "echo "@ + value_text(a, cfg) + " > "@ + path_text(a)
}

/// Builds the shell command that writes one attribute's formatted value into
/// its control file.
pub fn build_command(a: Attribute, cfg: &Config) -> (s: String)
    ensures
        s@ == command_text(a, *cfg),
{
    let mut s = String::from_str("echo ");
    match a {
        Attribute::Mode => push_decimal(&mut s, cfg.mode),
        Attribute::Brightness => push_decimal(&mut s, cfg.brightness),
        Attribute::State => push_decimal(&mut s, cfg.state),
        Attribute::ColorLeft | Attribute::ColorCenter | Attribute::ColorRight
        | Attribute::ColorExtra => {
            s.append("0x");
            s.append(cfg.color.as_str());
        },
    }
    s.append(" > ");
    s.append(attribute_path(a));
    proof {
        assert(s@ =~= command_text(a, *cfg));
    }
    s
}

/// The fixed order in which the writer applies the attributes.
pub open spec fn write_order() -> Seq<Attribute> {
    seq![
        Attribute::Mode,
        Attribute::Brightness,
        Attribute::ColorLeft,
        Attribute::ColorCenter,
        Attribute::ColorRight,
        Attribute::ColorExtra,
        Attribute::State,
    ]
}

/// All shell commands of a run, one per attribute, in the fixed write order.
pub fn build_commands(cfg: &Config) -> (v: Vec<String>)
    ensures
        v@.len() == write_order().len(),
        forall|i: int|
            0 <= i < v@.len() ==> (#[trigger] v@[i])@ == command_text(write_order()[i], *cfg),
{
    let mut v: Vec<String> = Vec::new();
    v.push(build_command(Attribute::Mode, cfg));
    v.push(build_command(Attribute::Brightness, cfg));
    v.push(build_command(Attribute::ColorLeft, cfg));
    v.push(build_command(Attribute::ColorCenter, cfg));
    v.push(build_command(Attribute::ColorRight, cfg));
    v.push(build_command(Attribute::ColorExtra, cfg));
    v.push(build_command(Attribute::State, cfg));
    proof {
        assert(v@.len() == write_order().len());
        assert forall|i: int| 0 <= i < v@.len() implies (#[trigger] v@[i])@ == command_text(
            write_order()[i],
            *cfg,
        ) by {
            if i == 0 {
                assert(write_order()[0] == Attribute::Mode);
            } else if i == 1 {
                assert(write_order()[1] == Attribute::Brightness);
            } else if i == 2 {
                assert(write_order()[2] == Attribute::ColorLeft);
            } else if i == 3 {
                assert(write_order()[3] == Attribute::ColorCenter);
            } else if i == 4 {
                assert(write_order()[4] == Attribute::ColorRight);
            } else if i == 5 {
                assert(write_order()[5] == Attribute::ColorExtra);
            } else {
                assert(write_order()[6] == Attribute::State);
            }
        }
    }
    v
}

} // verus!
