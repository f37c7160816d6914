use kataru_bridge::notify::{channel, channel_label, into_fatal};
use kataru_bridge::{dispatch, BridgeError, Channel, ExecutionResult, Notification};

#[test]
fn dialogue_goes_to_the_dialogue_channel() {
    let n = dispatch(ExecutionResult::Dialogue {
        speaker: "Alice".to_string(),
        text: "Hi.".to_string(),
        attributes_json: "[]".to_string(),
    });
    assert_eq!(
        n,
        Notification::Dialogue {
            speaker: "Alice".to_string(),
            text: "Hi.".to_string(),
            attributes_json: "[]".to_string(),
        }
    );
    assert_eq!(channel(&n), Channel::Dialogue);
    assert_eq!(channel_label(channel(&n)), "dialogue");
}

#[test]
fn choices_go_to_the_choices_channel() {
    let timeout_bits = (3.5f64).to_bits();
    let n = dispatch(ExecutionResult::Choices {
        options: vec!["yes".to_string(), "no".to_string()],
        timeout_bits,
    });
    assert_eq!(
        n,
        Notification::Choices {
            options: vec!["yes".to_string(), "no".to_string()],
            timeout_bits,
        }
    );
    assert_eq!(channel_label(channel(&n)), "choices");
    match n {
        Notification::Choices { timeout_bits: bits, .. } => {
            assert_eq!(f64::from_bits(bits), 3.5f64);
        }
        _ => panic!("expected a choices notification"),
    }
}

#[test]
fn command_carries_raw_and_normalized_name() {
    let n = dispatch(ExecutionResult::Command {
        name: "room:npc.greet".to_string(),
        params_json: "{}".to_string(),
    });
    assert_eq!(
        n,
        Notification::Command {
            name: "room:npc.greet".to_string(),
            normalized_name: "room:$character.greet".to_string(),
            params_json: "{}".to_string(),
        }
    );
    assert_eq!(channel_label(channel(&n)), "command");
}

#[test]
fn input_goes_to_the_input_command_channel() {
    let n = dispatch(ExecutionResult::Input {
        prompts_json: "{\"name\":\"?\"}".to_string(),
        timeout_bits: 0,
    });
    assert_eq!(
        n,
        Notification::Input {
            prompts_json: "{\"name\":\"?\"}".to_string(),
            timeout_bits: 0,
        }
    );
    assert_eq!(channel_label(channel(&n)), "input_command");
}

#[test]
fn invalid_choice_goes_to_its_own_channel() {
    let n = dispatch(ExecutionResult::InvalidChoice);
    assert_eq!(n, Notification::InvalidChoice);
    assert_eq!(channel_label(channel(&n)), "invalid_choice");
}

#[test]
fn end_goes_to_the_end_channel() {
    let n = dispatch(ExecutionResult::End);
    assert_eq!(n, Notification::End);
    assert_eq!(channel_label(channel(&n)), "end");
}

#[test]
fn fatal_carries_the_message_verbatim() {
    let n = into_fatal(BridgeError::Io("disk gone".to_string()));
    assert_eq!(n, Notification::Fatal { message: "disk gone".to_string() });
    assert_eq!(channel(&n), Channel::Fatal);
    assert_eq!(channel_label(channel(&n)), "fatal");
}

#[test]
fn loaded_has_its_own_channel() {
    assert_eq!(channel(&Notification::Loaded), Channel::Loaded);
    assert_eq!(channel_label(Channel::Loaded), "loaded");
}

#[test]
fn no_channel_label_is_reused() {
    let labels = [
        channel_label(Channel::Loaded),
        channel_label(Channel::Dialogue),
        channel_label(Channel::Choices),
        channel_label(Channel::Command),
        channel_label(Channel::InputCommand),
        channel_label(Channel::InvalidChoice),
        channel_label(Channel::End),
        channel_label(Channel::Fatal),
    ];
    let mut i = 0;
    while i < labels.len() {
        let mut j = i + 1;
        while j < labels.len() {
            assert_ne!(labels[i], labels[j]);
            j += 1;
        }
        i += 1;
    }
}

#[test]
fn error_message_is_returned_verbatim() {
    let e = BridgeError::Runtime("the bridge is not ready".to_string());
    assert_eq!(e.message(), "the bridge is not ready");
}
