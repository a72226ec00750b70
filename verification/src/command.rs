//! The shape of a command: `input type:<class> <property> <value>`.

use vstd::prelude::*;
use vstd::string::*;

verus! {

/// The kind of device that a command is addressed to.
#[derive(Clone, Copy, Debug, PartialEq, Eq, Structural)]
pub enum DeviceClass {
    Keyboard,
    Pointer,
    Touchpad,
}

impl DeviceClass {
    /// The word that selects this class in a command.
    pub open spec fn selector_text(self) -> Seq<char> {
        match self {
            DeviceClass::Keyboard => "keyboard"@,
            DeviceClass::Pointer => "pointer"@,
            DeviceClass::Touchpad => "touchpad"@,
        }
    }

    /// The class of a pointing device: a touchpad, or else a pointer.
    pub open spec fn pointing(touchpad: bool) -> DeviceClass {
        if touchpad {
            DeviceClass::Touchpad
        } else {
            DeviceClass::Pointer
        }
    }

    /// The class of a pointing device: a touchpad, or else a pointer.
    pub fn of_pointing(touchpad: bool) -> (class: DeviceClass)
        ensures
            class == DeviceClass::pointing(touchpad),
    {
        if touchpad {
            DeviceClass::Touchpad
        } else {
            DeviceClass::Pointer
        }
    }

    /// The word that selects this class in a command.
    pub fn selector(self) -> (word: &'static str)
        ensures
            word@ == self.selector_text(),
    {
        match self {
            DeviceClass::Keyboard => "keyboard",
            DeviceClass::Pointer => "pointer",
            DeviceClass::Touchpad => "touchpad",
        }
    }
}

/// The command that sets `property` to `value` on every device of `class`.
pub open spec fn input_text(class: DeviceClass, property: Seq<char>, value: Seq<char>) -> Seq<
    char,
> {
    "input type:"@ + class.selector_text() + " "@ + property + " "@ + value
}

/// How a switch is written: `enabled` when on, `disabled` when off.
pub open spec fn switch_text(on: bool) -> Seq<char> {
    if on {
        "enabled"@
    } else {
        "disabled"@
    }
}

/// A value between double quotes.
pub open spec fn quoted_text(value: Seq<char>) -> Seq<char> {
    "\""@ + value + "\""@
}

/// Builds the command that sets `property` to `value` on every device of
/// `class`.
pub fn input_command(class: DeviceClass, property: &str, value: &str) -> (command: String)
    ensures
        command@ == input_text(class, property@, value@),
{
    let mut command = String::from_str("input type:");
    command.append(class.selector());
    command.append(" ");
    command.append(property);
    command.append(" ");
    command.append(value);
    command
}

/// How a switch is written: `enabled` when on, `disabled` when off.
pub fn switch_word(on: bool) -> (word: &'static str)
    ensures
        word@ == switch_text(on),
{
    if on {
        "enabled"
    } else {
        "disabled"
    }
}

/// Puts `value` between double quotes.
pub fn quoted(value: &str) -> (text: String)
    ensures
        text@ == quoted_text(value@),
{
    let mut text = String::from_str("\"");
    text.append(value);
    text.append("\"");
    text
}

} // verus!
