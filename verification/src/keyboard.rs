//! Settings of the keyboard, and the commands that apply them.

use crate::channel::{Dispatch, Exchange, SwayError};
use crate::command::{input_command, input_text, quoted, quoted_text, DeviceClass};
use crate::layouts::{
    aggregate, any_variant, locales, resolved, variants, LayoutId, LayoutRegistry,
};
use crate::options::{merge, merged, optional_view};
use crate::text::{decimal, decimal_digits, joined, texts};
use vstd::prelude::*;
use vstd::string::*;

verus! {

/// What the number lock is set to when the session starts.
#[derive(Clone, Copy, Debug, PartialEq, Eq, Structural)]
pub enum NumlockState {
    BootOn,
    BootOff,
    LastBoot,
}

/// A key whose meaning is chosen among the options of one category.
#[derive(Clone, Copy, Debug, PartialEq, Eq, Structural)]
pub enum SpecialKey {
    AlternateCharacters,
    Compose,
    CapsLock,
}

/// The side panel that is open.
#[derive(Clone, Copy, Debug, PartialEq, Eq, Structural)]
pub enum Context {
    ShowInputSourcesContext,
    SpecialCharacter(SpecialKey),
    NumlockState,
}

/// What was asked of one input source in the list of those in use.
#[derive(Clone, Copy, Debug, PartialEq, Eq, Structural)]
pub enum SourceContext {
    MoveDown(LayoutId),
    MoveUp(LayoutId),
    Remove(LayoutId),
    Settings(LayoutId),
    ViewLayout(LayoutId),
}

/// One change of a setting, or one step in the panels that lead to it.
#[derive(Debug)]
pub enum Message {
    ExpandInputSourcePopover(Option<LayoutId>),
    InputSourceSearch(String),
    OpenSpecialCharacterContext(SpecialKey),
    OpenNumlockContext,
    ShowInputSourcesContext,
    /// The time, in milliseconds, after which a held key repeats.
    SetRepeatKeysDelay(u32),
    /// How many times in a second a held key repeats.
    SetRepeatKeysRate(u32),
    SetNumlockState(NumlockState),
    SetShowExtendedInputSources(bool),
    /// An input source joined the list of those in use.
    SourceAdd(LayoutId),
    SourceContext(SourceContext),
    /// The option picked for the special key whose panel is open, or `None`
    /// for the key's default.
    SpecialCharacterSelect(Option<&'static str>),
}

/// The keyboard options as they are set.
#[derive(Debug)]
pub struct XkbConfig {
    /// The composite option string, if any option is set.
    pub options: Option<String>,
}

/// The state that the commands are made from. It is a snapshot: the list of the
/// layouts in use already shows the change that a message reports.
#[derive(Debug)]
pub struct Page {
    pub context: Option<Context>,
    pub xkb: XkbConfig,
    /// The layouts in use, the one that takes precedence first.
    pub active_layouts: Vec<LayoutId>,
    pub keyboard_layouts: LayoutRegistry,
}

impl SpecialKey {
    /// The prefix by which the options of this key are known.
    pub open spec fn prefix_text(self) -> Seq<char> {
        match self {
            SpecialKey::Compose => "compose:"@,
            SpecialKey::AlternateCharacters => "lv3:"@,
            SpecialKey::CapsLock => "caps:"@,
        }
    }

    /// The prefix by which the options of this key are known.
    pub fn prefix(self) -> (prefix: &'static str)
        ensures
            prefix@ == self.prefix_text(),
    {
        match self {
            SpecialKey::Compose => "compose:",
            SpecialKey::AlternateCharacters => "lv3:",
            SpecialKey::CapsLock => "caps:",
        }
    }
}

impl Page {
    /// The composite option string as it is set: empty if none is.
    pub open spec fn current_options(self) -> Seq<char> {
        match self.xkb.options {
            Some(options) => options@,
            None => Seq::empty(),
        }
    }

    /// The special key whose panel is open, if one is.
    pub open spec fn special_key(self) -> Option<SpecialKey> {
        match self.context {
            Some(Context::SpecialCharacter(key)) => Some(key),
            _ => None,
        }
    }
}

/// The commands that set the layouts in use: always one for the locales,
/// and one for the variants behind it if a variant is not empty.
pub open spec fn layout_commands(page: Page) -> Seq<Seq<char>> {
    let entries = resolved(page.active_layouts@, page.keyboard_layouts@);
    let layout = input_text(
        DeviceClass::Keyboard,
        "xkb_layout"@,
        quoted_text(joined(locales(entries), ","@)),
    );
    let variant = input_text(
        DeviceClass::Keyboard,
        "xkb_variant"@,
        quoted_text(joined(variants(entries), ","@)),
    );
    if any_variant(entries) {
        seq![layout, variant]
    } else {
        seq![layout]
    }
}

/// The command that sets the options after `option` was picked for `key`:
/// the option takes the place of those of the key's category.
pub open spec fn option_command(page: Page, key: SpecialKey, option: Option<&str>) -> Seq<char> {
    input_text(
        DeviceClass::Keyboard,
        "xkb_options"@,
        quoted_text(merged(page.current_options(), key.prefix_text(), optional_view(option))),
    )
}

/// The commands of a message, in the order in which they are sent. A
/// message that only moves through the panels has none, and neither has a
/// change of the number lock, which cannot be set while the session runs.
pub open spec fn keyboard_commands(message: Message, page: Page) -> Seq<Seq<char>> {
    match message {
        Message::SetRepeatKeysDelay(delay) => seq![
            input_text(DeviceClass::Keyboard, "repeat_delay"@, decimal_digits(delay as nat)),
        ],
        Message::SetRepeatKeysRate(rate) => seq![
            input_text(DeviceClass::Keyboard, "repeat_rate"@, decimal_digits(rate as nat)),
        ],
        Message::SpecialCharacterSelect(option) => match page.special_key() {
            Some(key) => seq![option_command(page, key, option)],
            None => Seq::empty(),
        },
        Message::SourceAdd(_) => layout_commands(page),
        Message::SourceContext(SourceContext::Remove(_)) => layout_commands(page),
        Message::SourceContext(SourceContext::MoveUp(_)) => layout_commands(page),
        Message::SourceContext(SourceContext::MoveDown(_)) => layout_commands(page),
        _ => Seq::empty(),
    }
}

/// Names the layouts in use to the window manager.
///
/// The page stays as it is. The result is the exchange of the commands of
/// `layout_commands` at its start: none of them is sent yet.
pub fn update_sway_layouts(page: &mut Page) -> (dispatch: Dispatch)
    ensures
        *final(page) == *old(page),
        dispatch@ == Exchange::start(layout_commands(*old(page))),
{
    let summary = aggregate(&page.active_layouts, &page.keyboard_layouts);
    let mut commands: Vec<String> = Vec::new();
    let layout = input_command(
        DeviceClass::Keyboard,
        "xkb_layout",
        quoted(summary.locales.as_str()).as_str(),
    );
    commands.push(layout);
    if summary.any_variant {
        let variant = input_command(
            DeviceClass::Keyboard,
            "xkb_variant",
            quoted(summary.variants.as_str()).as_str(),
        );
        commands.push(variant);
    }
    assert(texts(commands@) == layout_commands(*page));
    Dispatch::new(commands)
}

/// Makes the commands that apply one message.
///
/// The page stays as it is. The result is the exchange of the commands of
/// `keyboard_commands` at its start: none of them is sent yet. A change of
/// the number lock has no command, so its exchange is over and has ended
/// well.
pub fn execute_sway_keyboard_commands(message: &Message, page: &mut Page) -> (dispatch: Dispatch)
    ensures
        *final(page) == *old(page),
        dispatch@ == Exchange::start(keyboard_commands(*message, *old(page))),
        *message is SetNumlockState ==> dispatch@.commands.len() == 0 && dispatch@.outcome()
            == Some(Ok::<(), SwayError>(())),
{
    let mut commands: Vec<String> = Vec::new();
    match message {
        Message::SetRepeatKeysDelay(delay) => {
            let command = input_command(
                DeviceClass::Keyboard,
                "repeat_delay",
                decimal(*delay).as_str(),
            );
            commands.push(command);
        },
        Message::SetRepeatKeysRate(rate) => {
            let command = input_command(
                DeviceClass::Keyboard,
                "repeat_rate",
                decimal(*rate).as_str(),
            );
            commands.push(command);
        },
        Message::SetNumlockState(_) => {},
        Message::SpecialCharacterSelect(option) => {
            if let Some(Context::SpecialCharacter(key)) = page.context {
                let composite = match &page.xkb.options {
                    Some(options) => merge(options.as_str(), key.prefix(), *option),
                    None => merge("", key.prefix(), *option),
                };
                proof {
                    reveal_strlit("");
                    assert(""@ == Seq::<char>::empty());
                }
                let command = input_command(
                    DeviceClass::Keyboard,
                    "xkb_options",
                    quoted(composite.as_str()).as_str(),
                );
                commands.push(command);
            }
        },
        Message::SourceAdd(_) => {
            return update_sway_layouts(page);
        },
        Message::SourceContext(context) => {
            match context {
                SourceContext::Remove(_) | SourceContext::MoveUp(_) | SourceContext::MoveDown(
                    _,
                ) => {
                    return update_sway_layouts(page);
                },
                SourceContext::Settings(_) | SourceContext::ViewLayout(_) => {},
            }
        },
        Message::ExpandInputSourcePopover(_)
        | Message::InputSourceSearch(_)
        | Message::OpenSpecialCharacterContext(_)
        | Message::OpenNumlockContext
        | Message::ShowInputSourcesContext
        | Message::SetShowExtendedInputSources(_) => {},
    }
    assert(texts(commands@) == keyboard_commands(*message, *page));
    Dispatch::new(commands)
}

} // verus!
