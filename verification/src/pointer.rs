//! Settings of mice and touchpads, and the commands that apply them.

use crate::channel::{Dispatch, Exchange, SwayError};
use crate::command::{input_command, input_text, switch_text, switch_word, DeviceClass};
use crate::selection::{Entity, Selection, SelectionModel};
use vstd::prelude::*;
use vstd::string::*;

verus! {

/// Which click of a touchpad counts as a secondary click.
#[derive(Clone, Copy, Debug, PartialEq, Eq, Structural)]
pub enum ClickMethod {
    ButtonAreas,
    Clickfinger,
}

/// What makes a device scroll.
#[derive(Clone, Copy, Debug, PartialEq, Eq, Structural)]
pub enum ScrollMethod {
    NoScroll,
    TwoFinger,
    Edge,
    OnButtonDown,
}

/// One change of a setting. The last `bool` of a variant that has two
/// fields says whether the change is for the touchpad rather than the mouse.
#[derive(Debug)]
pub enum Message {
    /// Whether the device is kept quiet while keys are typed. The first
    /// field is the value of the setting: `true` is sent as `enabled`,
    /// `false` as `disabled`.
    DisableWhileTyping(bool, bool),
    /// The choice that was picked in the row of primary buttons.
    PrimaryButtonSelected(Entity, bool),
    /// Whether the pointer accelerates.
    SetAcceleration(bool, bool),
    /// The speed of the pointer, in decimal notation.
    SetMouseSpeed(String, bool),
    /// Whether scrolling follows the fingers.
    SetNaturalScroll(bool, bool),
    /// How a secondary click is made.
    SetSecondaryClickBehavior(Option<ClickMethod>, bool),
    /// The factor by which scrolling is scaled, in decimal notation.
    SetScrollFactor(String, bool),
    /// What makes the device scroll.
    SetScrollMethod(Option<ScrollMethod>, bool),
    /// Whether a tap on the touchpad is a click.
    TapToClick(bool),
}

/// The state that the commands are made from: the rows of primary buttons, one
/// for the mouse and one for the touchpad. In each the second choice stands
/// for the left button.
#[derive(Debug)]
pub struct Page {
    pub primary_button: SelectionModel,
    pub touchpad_primary_button: SelectionModel,
}

/// The place of the choice that stands for the left button.
pub const LEFT_POSITION: usize = 1;

/// The word for a click method; no method is `none`.
pub open spec fn click_method_text(method: Option<ClickMethod>) -> Seq<char> {
    match method {
        Some(ClickMethod::ButtonAreas) => "button_areas"@,
        Some(ClickMethod::Clickfinger) => "clickfinger"@,
        None => "none"@,
    }
}

/// The word for a scroll method; no method is `none`, and so is the method
/// that does not scroll.
pub open spec fn scroll_method_text(method: Option<ScrollMethod>) -> Seq<char> {
    match method {
        Some(ScrollMethod::TwoFinger) => "two_finger"@,
        Some(ScrollMethod::Edge) => "edge"@,
        Some(ScrollMethod::OnButtonDown) => "on_button_down"@,
        Some(ScrollMethod::NoScroll) => "none"@,
        None => "none"@,
    }
}

/// The word for an acceleration profile.
pub open spec fn profile_text(accelerated: bool) -> Seq<char> {
    if accelerated {
        "adaptive"@
    } else {
        "flat"@
    }
}

impl Page {
    /// The row of primary buttons of the touchpad or of the mouse.
    pub open spec fn model(self, touchpad: bool) -> SelectionModel {
        if touchpad {
            self.touchpad_primary_button
        } else {
            self.primary_button
        }
    }
}

/// The commands of a pick in a row of primary buttons, given the row after
/// the pick: left-handed use is enabled when the active choice is the one
/// that stands for the left button. A row without that choice is an error.
pub open spec fn primary_button_commands(class: DeviceClass, row: Selection) -> Result<
    Seq<Seq<char>>,
    SwayError,
> {
    match row.entity_at(LEFT_POSITION as nat) {
        None => Err(SwayError::MissingLeftEntity),
        Some(left) => Ok(
            seq![input_text(class, "left_handed"@, switch_text(row.active == Some(left)))],
        ),
    }
}

/// How a message changes the page: a pick in a row of primary buttons
/// activates the choice in the row of its device, also when the message
/// then fails. Nothing else changes, and no other message changes anything.
pub open spec fn page_updated(message: Message, before: Page, after: Page) -> bool {
    match message {
        Message::PrimaryButtonSelected(entity, touchpad) => {
            &&& after.model(touchpad)@ == before.model(touchpad)@.activated(entity)
            &&& after.model(!touchpad) == before.model(!touchpad)
        },
        _ => after == before,
    }
}

/// The commands of a message, in the order in which they are sent, or the
/// error that keeps any from being sent. `after` is the page as the message
/// leaves it.
pub open spec fn pointer_commands(message: Message, after: Page) -> Result<
    Seq<Seq<char>>,
    SwayError,
> {
    match message {
        Message::DisableWhileTyping(enabled, touchpad) => Ok(
            seq![input_text(DeviceClass::pointing(touchpad), "dwt"@, switch_text(enabled))],
        ),
        Message::PrimaryButtonSelected(_, touchpad) => primary_button_commands(
            DeviceClass::pointing(touchpad),
            after.model(touchpad)@,
        ),
        Message::SetAcceleration(enabled, touchpad) => Ok(
            seq![
                input_text(DeviceClass::pointing(touchpad), "accel_profile"@, profile_text(enabled)),
            ],
        ),
        Message::SetMouseSpeed(speed, touchpad) => Ok(
            seq![input_text(DeviceClass::pointing(touchpad), "pointer_accel"@, speed@)],
        ),
        Message::SetNaturalScroll(enabled, touchpad) => Ok(
            seq![
                input_text(DeviceClass::pointing(touchpad), "natural_scroll"@, switch_text(enabled)),
            ],
        ),
        Message::SetSecondaryClickBehavior(method, touchpad) => Ok(
            seq![
                input_text(
                    DeviceClass::pointing(touchpad),
                    "click_method"@,
                    click_method_text(method),
                ),
            ],
        ),
        Message::SetScrollFactor(factor, touchpad) => Ok(
            seq![input_text(DeviceClass::pointing(touchpad), "scroll_factor"@, factor@)],
        ),
        Message::SetScrollMethod(method, touchpad) => Ok(
            seq![
                input_text(
                    DeviceClass::pointing(touchpad),
                    "scroll_method"@,
                    scroll_method_text(method),
                ),
            ],
        ),
        Message::TapToClick(enabled) => Ok(
            seq![input_text(DeviceClass::Touchpad, "tap"@, switch_text(enabled))],
        ),
    }
}

/// The word for a click method; no method is `none`.
pub fn click_method_word(method: Option<ClickMethod>) -> (word: &'static str)
    ensures
        word@ == click_method_text(method),
{
    match method {
        Some(ClickMethod::ButtonAreas) => "button_areas",
        Some(ClickMethod::Clickfinger) => "clickfinger",
        None => "none",
    }
}

/// The word for a scroll method; no method is `none`, and so is the method
/// that does not scroll.
pub fn scroll_method_word(method: Option<ScrollMethod>) -> (word: &'static str)
    ensures
        word@ == scroll_method_text(method),
{
    match method {
        Some(ScrollMethod::TwoFinger) => "two_finger",
        Some(ScrollMethod::Edge) => "edge",
        Some(ScrollMethod::OnButtonDown) => "on_button_down",
        Some(ScrollMethod::NoScroll) => "none",
        None => "none",
    }
}

/// The word for an acceleration profile.
pub fn profile_word(accelerated: bool) -> (word: &'static str)
    ensures
        word@ == profile_text(accelerated),
{
    if accelerated {
        "adaptive"
    } else {
        "flat"
    }
}

/// Activates `entity` in `model` and gives the command that follows from
/// where the active choice then stands.
fn select_primary_button(model: &mut SelectionModel, entity: Entity, class: DeviceClass) -> (result:
    Result<String, SwayError>)
    ensures
        final(model)@ == old(model)@.activated(entity),
        match primary_button_commands(class, final(model)@) {
            Ok(commands) => result is Ok && seq![result.unwrap()@] == commands,
            Err(error) => result == Err::<String, SwayError>(error),
        },
{
    model.activate(entity);
    match model.entity_at(LEFT_POSITION) {
        None => Err(SwayError::MissingLeftEntity),
        Some(left) => {
            let left_handed = match model.active() {
                Some(active) => active == left,
                None => false,
            };
            Ok(input_command(class, "left_handed", switch_word(left_handed)))
        },
    }
}

/// Makes the commands that apply one message.
///
/// The page changes as `page_updated` says. The result is the exchange of
/// the commands of `pointer_commands` at its start, or the error of
/// `pointer_commands`, in which case there is nothing to send. Only a pick
/// in a row of primary buttons can fail, and it does where the row has
/// fewer than two choices.
pub fn execute_sway_pointer_commands(message: &Message, page: &mut Page) -> (result: Result<
    Dispatch,
    SwayError,
>)
    ensures
        page_updated(*message, *old(page), *final(page)),
        match pointer_commands(*message, *final(page)) {
            Ok(commands) => result is Ok && result.unwrap()@ == Exchange::start(commands),
            Err(error) => result == Err::<Dispatch, SwayError>(error),
        },
        *message matches Message::PrimaryButtonSelected(_, touchpad) ==> (old(page).model(
            touchpad,
        )@.entities.len() < 2 <==> result matches Err(SwayError::MissingLeftEntity)),
        !(*message is PrimaryButtonSelected) ==> result is Ok,
{
    let command = match message {
        Message::DisableWhileTyping(enabled, touchpad) => {
            input_command(DeviceClass::of_pointing(*touchpad), "dwt", switch_word(*enabled))
        },
        Message::PrimaryButtonSelected(entity, touchpad) => {
            let class = DeviceClass::of_pointing(*touchpad);
            let selected = if *touchpad {
                select_primary_button(&mut page.touchpad_primary_button, *entity, class)
            } else {
                select_primary_button(&mut page.primary_button, *entity, class)
            };
            match selected {
                Ok(command) => command,
                Err(error) => {
                    return Err(error);
                },
            }
        },
        Message::SetAcceleration(enabled, touchpad) => {
            input_command(
                DeviceClass::of_pointing(*touchpad),
                "accel_profile",
                profile_word(*enabled),
            )
        },
        Message::SetMouseSpeed(speed, touchpad) => {
            input_command(DeviceClass::of_pointing(*touchpad), "pointer_accel", speed.as_str())
        },
        Message::SetNaturalScroll(enabled, touchpad) => {
            input_command(
                DeviceClass::of_pointing(*touchpad),
                "natural_scroll",
                switch_word(*enabled),
            )
        },
        Message::SetSecondaryClickBehavior(method, touchpad) => {
            input_command(
                DeviceClass::of_pointing(*touchpad),
                "click_method",
                click_method_word(*method),
            )
        },
        Message::SetScrollFactor(factor, touchpad) => {
            input_command(DeviceClass::of_pointing(*touchpad), "scroll_factor", factor.as_str())
        },
        Message::SetScrollMethod(method, touchpad) => {
            input_command(
                DeviceClass::of_pointing(*touchpad),
                "scroll_method",
                scroll_method_word(*method),
            )
        },
        Message::TapToClick(enabled) => {
            input_command(DeviceClass::Touchpad, "tap", switch_word(*enabled))
        },
    };
    let commands = vec![command];
    assert(crate::text::texts(commands@) == seq![command@]);
    Ok(Dispatch::new(commands))
}

} // verus!
