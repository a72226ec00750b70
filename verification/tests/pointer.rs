use sway_settings::channel::{Dispatch, SwayError};
use sway_settings::pointer::{
    click_method_word, execute_sway_pointer_commands, scroll_method_word, ClickMethod, Message,
    Page, ScrollMethod,
};
use sway_settings::selection::{Entity, SelectionModel};

fn buttons(entities: &[u64], active: Option<u64>) -> SelectionModel {
    let mut model = SelectionModel::new();
    for id in entities {
        model.insert(Entity(*id));
    }
    if let Some(id) = active {
        model.activate(Entity(id));
    }
    model
}

fn pointer_page() -> Page {
    Page {
        primary_button: buttons(&[10, 11], Some(10)),
        touchpad_primary_button: buttons(&[20, 21], Some(20)),
    }
}

fn pointer_lines(dispatch: &Dispatch) -> Vec<String> {
    (0..dispatch.len()).map(|i| dispatch.command(i).unwrap().clone()).collect()
}

fn pointer_commands_of(message: Message) -> Vec<String> {
    let mut page = pointer_page();
    let dispatch = execute_sway_pointer_commands(&message, &mut page).unwrap();
    assert_eq!(dispatch.accepted_count(), 0);
    pointer_lines(&dispatch)
}

#[test]
fn disable_while_typing_names_the_device() {
    assert_eq!(
        pointer_commands_of(Message::DisableWhileTyping(true, true)),
        vec!["input type:touchpad dwt enabled"]
    );
    assert_eq!(
        pointer_commands_of(Message::DisableWhileTyping(false, true)),
        vec!["input type:touchpad dwt disabled"]
    );
    assert_eq!(
        pointer_commands_of(Message::DisableWhileTyping(true, false)),
        vec!["input type:pointer dwt enabled"]
    );
    assert_eq!(
        pointer_commands_of(Message::DisableWhileTyping(false, false)),
        vec!["input type:pointer dwt disabled"]
    );
}

#[test]
fn acceleration_picks_the_profile() {
    assert_eq!(
        pointer_commands_of(Message::SetAcceleration(true, false)),
        vec!["input type:pointer accel_profile adaptive"]
    );
    assert_eq!(
        pointer_commands_of(Message::SetAcceleration(false, false)),
        vec!["input type:pointer accel_profile flat"]
    );
    assert_eq!(
        pointer_commands_of(Message::SetAcceleration(true, true)),
        vec!["input type:touchpad accel_profile adaptive"]
    );
    assert_eq!(
        pointer_commands_of(Message::SetAcceleration(false, true)),
        vec!["input type:touchpad accel_profile flat"]
    );
}

#[test]
fn pointer_speed_is_passed_on_as_written() {
    assert_eq!(
        pointer_commands_of(Message::SetMouseSpeed(format!("{}", 0.35f64), false)),
        vec!["input type:pointer pointer_accel 0.35"]
    );
    assert_eq!(
        pointer_commands_of(Message::SetMouseSpeed(format!("{}", -1f64), true)),
        vec!["input type:touchpad pointer_accel -1"]
    );
    assert_eq!(
        pointer_commands_of(Message::SetMouseSpeed(format!("{}", 17.5f64), false)),
        vec!["input type:pointer pointer_accel 17.5"]
    );
}

#[test]
fn natural_scroll_is_switched() {
    assert_eq!(
        pointer_commands_of(Message::SetNaturalScroll(true, true)),
        vec!["input type:touchpad natural_scroll enabled"]
    );
    assert_eq!(
        pointer_commands_of(Message::SetNaturalScroll(false, true)),
        vec!["input type:touchpad natural_scroll disabled"]
    );
    assert_eq!(
        pointer_commands_of(Message::SetNaturalScroll(true, false)),
        vec!["input type:pointer natural_scroll enabled"]
    );
    assert_eq!(
        pointer_commands_of(Message::SetNaturalScroll(false, false)),
        vec!["input type:pointer natural_scroll disabled"]
    );
}

#[test]
fn click_method_words() {
    assert_eq!(click_method_word(Some(ClickMethod::ButtonAreas)), "button_areas");
    assert_eq!(click_method_word(Some(ClickMethod::Clickfinger)), "clickfinger");
    assert_eq!(click_method_word(None), "none");
}

#[test]
fn secondary_click_names_the_method() {
    assert_eq!(
        pointer_commands_of(Message::SetSecondaryClickBehavior(
            Some(ClickMethod::ButtonAreas),
            true
        )),
        vec!["input type:touchpad click_method button_areas"]
    );
    assert_eq!(
        pointer_commands_of(Message::SetSecondaryClickBehavior(
            Some(ClickMethod::Clickfinger),
            true
        )),
        vec!["input type:touchpad click_method clickfinger"]
    );
    assert_eq!(
        pointer_commands_of(Message::SetSecondaryClickBehavior(None, true)),
        vec!["input type:touchpad click_method none"]
    );
    assert_eq!(
        pointer_commands_of(Message::SetSecondaryClickBehavior(
            Some(ClickMethod::Clickfinger),
            false
        )),
        vec!["input type:pointer click_method clickfinger"]
    );
    assert_eq!(
        pointer_commands_of(Message::SetSecondaryClickBehavior(None, false)),
        vec!["input type:pointer click_method none"]
    );
}

#[test]
fn scroll_factor_is_passed_on_as_written() {
    assert_eq!(
        pointer_commands_of(Message::SetScrollFactor(format!("{}", 1.5f64), true)),
        vec!["input type:touchpad scroll_factor 1.5"]
    );
    assert_eq!(
        pointer_commands_of(Message::SetScrollFactor(format!("{}", 2f64), false)),
        vec!["input type:pointer scroll_factor 2"]
    );
}

#[test]
fn scroll_method_words() {
    assert_eq!(scroll_method_word(Some(ScrollMethod::TwoFinger)), "two_finger");
    assert_eq!(scroll_method_word(Some(ScrollMethod::Edge)), "edge");
    assert_eq!(scroll_method_word(Some(ScrollMethod::OnButtonDown)), "on_button_down");
    assert_eq!(scroll_method_word(Some(ScrollMethod::NoScroll)), "none");
    assert_eq!(scroll_method_word(None), "none");
}

#[test]
fn scroll_method_names_the_method() {
    assert_eq!(
        pointer_commands_of(Message::SetScrollMethod(Some(ScrollMethod::TwoFinger), true)),
        vec!["input type:touchpad scroll_method two_finger"]
    );
    assert_eq!(
        pointer_commands_of(Message::SetScrollMethod(Some(ScrollMethod::Edge), true)),
        vec!["input type:touchpad scroll_method edge"]
    );
    assert_eq!(
        pointer_commands_of(Message::SetScrollMethod(Some(ScrollMethod::OnButtonDown), false)),
        vec!["input type:pointer scroll_method on_button_down"]
    );
    assert_eq!(
        pointer_commands_of(Message::SetScrollMethod(Some(ScrollMethod::NoScroll), false)),
        vec!["input type:pointer scroll_method none"]
    );
    assert_eq!(
        pointer_commands_of(Message::SetScrollMethod(None, true)),
        vec!["input type:touchpad scroll_method none"]
    );
}

#[test]
fn tap_to_click_is_for_the_touchpad() {
    assert_eq!(
        pointer_commands_of(Message::TapToClick(true)),
        vec!["input type:touchpad tap enabled"]
    );
    assert_eq!(
        pointer_commands_of(Message::TapToClick(false)),
        vec!["input type:touchpad tap disabled"]
    );
}

#[test]
fn primary_button_left_enables_left_handed() {
    let mut page = pointer_page();
    let dispatch =
        execute_sway_pointer_commands(&Message::PrimaryButtonSelected(Entity(11), false), &mut page)
            .unwrap();
    assert_eq!(pointer_lines(&dispatch), vec!["input type:pointer left_handed enabled"]);
    assert_eq!(page.primary_button.active(), Some(Entity(11)));
    assert_eq!(page.touchpad_primary_button.active(), Some(Entity(20)));
}

#[test]
fn primary_button_right_disables_left_handed() {
    let mut page = pointer_page();
    page.primary_button.activate(Entity(11));
    let dispatch =
        execute_sway_pointer_commands(&Message::PrimaryButtonSelected(Entity(10), false), &mut page)
            .unwrap();
    assert_eq!(pointer_lines(&dispatch), vec!["input type:pointer left_handed disabled"]);
    assert_eq!(page.primary_button.active(), Some(Entity(10)));
}

#[test]
fn primary_button_of_the_touchpad_has_its_own_row() {
    let mut page = pointer_page();
    let dispatch =
        execute_sway_pointer_commands(&Message::PrimaryButtonSelected(Entity(21), true), &mut page)
            .unwrap();
    assert_eq!(pointer_lines(&dispatch), vec!["input type:touchpad left_handed enabled"]);
    assert_eq!(page.touchpad_primary_button.active(), Some(Entity(21)));
    assert_eq!(page.primary_button.active(), Some(Entity(10)));
}

#[test]
fn primary_button_unknown_to_the_row_leaves_the_active_one() {
    let mut page = pointer_page();
    page.primary_button.activate(Entity(11));
    let dispatch =
        execute_sway_pointer_commands(&Message::PrimaryButtonSelected(Entity(21), false), &mut page)
            .unwrap();
    assert_eq!(pointer_lines(&dispatch), vec!["input type:pointer left_handed enabled"]);
    assert_eq!(page.primary_button.active(), Some(Entity(11)));
}

#[test]
fn primary_button_without_left_entry_is_an_error() {
    let mut page = pointer_page();
    page.primary_button = buttons(&[10], None);
    let result =
        execute_sway_pointer_commands(&Message::PrimaryButtonSelected(Entity(10), false), &mut page);
    assert!(matches!(result, Err(SwayError::MissingLeftEntity)));
    assert_eq!(page.primary_button.active(), Some(Entity(10)));
}

#[test]
fn primary_button_in_an_empty_row_is_an_error() {
    let mut page = pointer_page();
    page.touchpad_primary_button = SelectionModel::new();
    let result =
        execute_sway_pointer_commands(&Message::PrimaryButtonSelected(Entity(20), true), &mut page);
    match result {
        Err(error) => assert_eq!(error.message(), "Could not get left entity"),
        Ok(_) => panic!("a row without entries has no left entry"),
    }
    assert_eq!(page.touchpad_primary_button.active(), None);
    let other =
        execute_sway_pointer_commands(&Message::PrimaryButtonSelected(Entity(11), false), &mut page);
    assert!(other.is_ok());
}

#[test]
fn other_messages_leave_the_rows_alone() {
    let mut page = pointer_page();
    execute_sway_pointer_commands(&Message::TapToClick(true), &mut page).unwrap();
    execute_sway_pointer_commands(&Message::SetNaturalScroll(true, false), &mut page).unwrap();
    assert_eq!(page.primary_button.active(), Some(Entity(10)));
    assert_eq!(page.touchpad_primary_button.active(), Some(Entity(20)));
    assert_eq!(page.primary_button.entity_at(1), Some(Entity(11)));
}
