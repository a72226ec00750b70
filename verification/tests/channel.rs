use sway_settings::channel::{ChannelError, Dispatch, SwayError};
use sway_settings::keyboard::{update_sway_layouts, Page, XkbConfig};
use sway_settings::layouts::{LayoutEntry, LayoutRegistry, LayoutSource};

fn lines(commands: &[&str]) -> Vec<String> {
    commands.iter().map(|c| c.to_string()).collect()
}

/// Runs the exchange against a channel that fails at the command in place
/// `fail_at`, and gives back what the channel was sent.
fn exchange(dispatch: &mut Dispatch, fail_at: Option<usize>) -> Vec<String> {
    let mut sent = Vec::new();
    while let Some(command) = dispatch.next_command() {
        let command = command.clone();
        let answer = if fail_at == Some(sent.len()) {
            Err(ChannelError::new(&format!("refused: {}", command)))
        } else {
            Ok(())
        };
        sent.push(command);
        dispatch.record(answer);
    }
    sent
}

#[test]
fn dispatch_sends_commands_in_order() {
    let mut dispatch = Dispatch::new(lines(&["first", "second", "third"]));
    assert_eq!(dispatch.len(), 3);
    assert!(dispatch.outcome().is_none());
    let sent = exchange(&mut dispatch, None);
    assert_eq!(sent, vec!["first", "second", "third"]);
    assert_eq!(dispatch.accepted_count(), 3);
    assert!(matches!(dispatch.outcome(), Some(Ok(()))));
}

#[test]
fn dispatch_stops_at_the_first_error() {
    let mut dispatch = Dispatch::new(lines(&["first", "second", "third"]));
    let sent = exchange(&mut dispatch, Some(1));
    assert_eq!(sent, vec!["first", "second"]);
    assert_eq!(dispatch.accepted_count(), 1);
    assert!(dispatch.next_command().is_none());
    match dispatch.outcome() {
        Some(Err(SwayError::Channel(error))) => assert_eq!(error.message, "refused: second"),
        _ => panic!("the error of the channel is the outcome"),
    }
}

#[test]
fn dispatch_gives_up_on_the_first_command() {
    let mut dispatch = Dispatch::new(lines(&["first", "second"]));
    let sent = exchange(&mut dispatch, Some(0));
    assert_eq!(sent, vec!["first"]);
    assert_eq!(dispatch.accepted_count(), 0);
    match dispatch.outcome() {
        Some(Err(error)) => assert_eq!(error.message(), "refused: first"),
        _ => panic!("the error of the channel is the outcome"),
    }
}

#[test]
fn dispatch_without_commands_is_over() {
    let mut dispatch = Dispatch::new(Vec::new());
    assert_eq!(dispatch.len(), 0);
    assert!(dispatch.next_command().is_none());
    assert!(matches!(dispatch.outcome(), Some(Ok(()))));
    assert!(exchange(&mut dispatch, Some(0)).is_empty());
}

#[test]
fn dispatch_passes_over_an_answer_that_nothing_waits_for() {
    let mut dispatch = Dispatch::new(lines(&["only"]));
    dispatch.record(Ok(()));
    assert!(matches!(dispatch.outcome(), Some(Ok(()))));
    dispatch.record(Err(ChannelError::new("late")));
    dispatch.record(Ok(()));
    assert_eq!(dispatch.accepted_count(), 1);
    assert!(matches!(dispatch.outcome(), Some(Ok(()))));
}

#[test]
fn dispatch_keeps_the_first_error() {
    let mut dispatch = Dispatch::new(lines(&["first", "second"]));
    dispatch.record(Err(ChannelError::new("broken")));
    dispatch.record(Ok(()));
    dispatch.record(Err(ChannelError::new("again")));
    assert_eq!(dispatch.accepted_count(), 0);
    match dispatch.outcome() {
        Some(Err(SwayError::Channel(error))) => assert_eq!(error.message, "broken"),
        _ => panic!("the first error is the outcome"),
    }
}

#[test]
fn dispatch_shows_its_commands() {
    let dispatch = Dispatch::new(lines(&["first", "second"]));
    assert_eq!(dispatch.command(0).unwrap(), "first");
    assert_eq!(dispatch.command(1).unwrap(), "second");
    assert!(dispatch.command(2).is_none());
    assert_eq!(dispatch.next_command().unwrap(), "first");
}

#[test]
fn a_failed_layout_command_keeps_the_variants_back() {
    let mut registry = LayoutRegistry::new();
    let id = registry.insert(LayoutEntry {
        locale: "de".to_string(),
        variant: "neo".to_string(),
        description: String::new(),
        source: LayoutSource::Base,
    });
    let mut page = Page {
        context: None,
        xkb: XkbConfig { options: None },
        active_layouts: vec![id],
        keyboard_layouts: registry,
    };
    let mut dispatch = update_sway_layouts(&mut page);
    assert_eq!(dispatch.len(), 2);
    let sent = exchange(&mut dispatch, Some(0));
    assert_eq!(sent, vec!["input type:keyboard xkb_layout \"de\""]);
    assert!(matches!(dispatch.outcome(), Some(Err(SwayError::Channel(_)))));
}

#[test]
fn channel_error_duplicate_holds_the_same_report() {
    let error = ChannelError::new("socket closed");
    assert_eq!(error.duplicate().message, error.message);
    assert_eq!(SwayError::Channel(error).message(), "socket closed");
}

#[test]
fn missing_left_entity_says_so() {
    assert_eq!(SwayError::MissingLeftEntity.message(), "Could not get left entity");
}
