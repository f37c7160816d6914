//! Execution results and their dispatch onto notification channels.
//!
//! Each step of the dialogue runtime yields an `ExecutionResult` with
//! exactly six variants. `dispatch` classifies a result and produces the
//! `Notification` the host must deliver, an exhaustive mapping with a fixed
//! payload shape per variant. Failures are routed to the separate `fatal`
//! channel, never silently dropped.

use vstd::prelude::*;

use crate::error::{err_message, BridgeError};
use crate::normalizer::{get_normalized_command, normalized};

verus! {

/// One unit of dialogue-script output, as produced by a single step.
/// Timeouts are carried as the IEEE-754 bit pattern of the engine's
/// timeout in seconds (bit pattern of 0.0 meaning no timeout); the host
/// reconstitutes the number.
#[derive(Debug, PartialEq)]
pub enum ExecutionResult {
    /// A line of dialogue with its speaker and attribute markup,
    /// the attributes serialized as an ordered string-keyed JSON document.
    Dialogue { speaker: String, text: String, attributes_json: String },
    /// A set of choices offered to the player.
    Choices { options: Vec<String>, timeout_bits: u64 },
    /// A command invocation with its parameters as a JSON document.
    Command { name: String, params_json: String },
    /// An input prompt, its per-field specification as a JSON document.
    Input { prompts_json: String, timeout_bits: u64 },
    /// The last supplied input did not match any offered choice.
    InvalidChoice,
    /// Passage execution reached its natural end.
    End,
}

/// The notification channels exposed to the host.
#[derive(Debug, Clone, Copy, PartialEq, Eq)]
pub enum Channel {
    Loaded,
    Dialogue,
    Choices,
    Command,
    InputCommand,
    InvalidChoice,
    End,
    Fatal,
}

/// A notification to the host: a channel together with its payload.
#[derive(Debug, PartialEq)]
pub enum Notification {
    /// The bridge finished (re)loading and is ready.
    Loaded,
    Dialogue { speaker: String, text: String, attributes_json: String },
    Choices { options: Vec<String>, timeout_bits: u64 },
    /// A command, under both its raw and its normalized name.
    Command { name: String, normalized_name: String, params_json: String },
    Input { prompts_json: String, timeout_bits: u64 },
    InvalidChoice,
    End,
    /// A failure, with its human-readable message.
    Fatal { message: String },
}

/// The channel a notification is delivered on.
pub open spec fn channel_of(n: Notification) -> Channel {
    match n {
        Notification::Loaded => Channel::Loaded,
        Notification::Dialogue { .. } => Channel::Dialogue,
        Notification::Choices { .. } => Channel::Choices,
        Notification::Command { .. } => Channel::Command,
        Notification::Input { .. } => Channel::InputCommand,
        Notification::InvalidChoice => Channel::InvalidChoice,
        Notification::End => Channel::End,
        Notification::Fatal { .. } => Channel::Fatal,
    }
}

/// The channel an execution result is dispatched to.
pub open spec fn result_channel(line: ExecutionResult) -> Channel {
    match line {
        ExecutionResult::Dialogue { .. } => Channel::Dialogue,
        ExecutionResult::Choices { .. } => Channel::Choices,
        ExecutionResult::Command { .. } => Channel::Command,
        ExecutionResult::Input { .. } => Channel::InputCommand,
        ExecutionResult::InvalidChoice => Channel::InvalidChoice,
        ExecutionResult::End => Channel::End,
    }
}

/// Whether two execution results are of the same variant.
pub open spec fn same_variant(a: ExecutionResult, b: ExecutionResult) -> bool {
    ||| (a is Dialogue && b is Dialogue)
    ||| (a is Choices && b is Choices)
    ||| (a is Command && b is Command)
    ||| (a is Input && b is Input)
    ||| (a is InvalidChoice && b is InvalidChoice)
    ||| (a is End && b is End)
}

/// The name under which a channel is exposed to the host.
pub open spec fn channel_text(c: Channel) -> Seq<char> {
    match c {
        Channel::Loaded => "loaded"@,
        Channel::Dialogue => "dialogue"@,
        Channel::Choices => "choices"@,
        Channel::Command => "command"@,
        Channel::InputCommand => "input_command"@,
        Channel::InvalidChoice => "invalid_choice"@,
        Channel::End => "end"@,
        Channel::Fatal => "fatal"@,
    }
}

/// Classifies one execution result into the notification to deliver:
/// dialogue, choices, command, input and the two sentinels each go to their
/// own channel, with the payload passed through unchanged; a command
/// additionally carries its normalized name.
pub fn dispatch(line: ExecutionResult) -> (n: Notification)
    ensures
        channel_of(n) == result_channel(line),
        (line matches ExecutionResult::Dialogue { speaker, text, attributes_json } ==> n == (
        Notification::Dialogue { speaker, text, attributes_json })),
        (line matches ExecutionResult::Choices { options, timeout_bits } ==> n == (
        Notification::Choices { options, timeout_bits })),
        (line matches ExecutionResult::Command { name, params_json } ==> (n matches
            Notification::Command {
                name: raw,
                normalized_name,
                params_json: sent_params,
            } && raw == name && normalized_name@ == normalized(
            name@,
        ) && sent_params == params_json)),
        (line matches ExecutionResult::Input { prompts_json, timeout_bits } ==> n == (
        Notification::Input { prompts_json, timeout_bits })),
        (line is InvalidChoice ==> n is InvalidChoice),
        (line is End ==> n is End),
{
    match line {
        ExecutionResult::Dialogue { speaker, text, attributes_json } => Notification::Dialogue {
            speaker,
            text,
            attributes_json,
        },
        ExecutionResult::Choices { options, timeout_bits } => Notification::Choices {
            options,
            timeout_bits,
        },
        ExecutionResult::Command { name, params_json } => {
            let normalized_name = get_normalized_command(name.as_str());
            Notification::Command { name, normalized_name, params_json }
        },
        ExecutionResult::Input { prompts_json, timeout_bits } => Notification::Input {
            prompts_json,
            timeout_bits,
        },
        ExecutionResult::InvalidChoice => Notification::InvalidChoice,
        ExecutionResult::End => Notification::End,
    }
}

/// Turns an error into the notification for the `fatal` channel, the
/// message text passed through verbatim.
pub fn into_fatal(e: BridgeError) -> (n: Notification)
    ensures
        channel_of(n) == Channel::Fatal,
        (n matches Notification::Fatal { message } && message@ == err_message(e)),
{
    let message = match e {
        BridgeError::Config(m) => m,
        BridgeError::Compile(m) => m,
        BridgeError::Validation(m) => m,
        BridgeError::State(m) => m,
        BridgeError::Runtime(m) => m,
        BridgeError::Io(m) => m,
    };
    Notification::Fatal { message }
}

/// The channel a notification is delivered on, for the host to switch on.
pub fn channel(n: &Notification) -> (c: Channel)
    ensures
        c == channel_of(*n),
{
    match n {
        Notification::Loaded => Channel::Loaded,
        Notification::Dialogue { .. } => Channel::Dialogue,
        Notification::Choices { .. } => Channel::Choices,
        Notification::Command { .. } => Channel::Command,
        Notification::Input { .. } => Channel::InputCommand,
        Notification::InvalidChoice => Channel::InvalidChoice,
        Notification::End => Channel::End,
        Notification::Fatal { .. } => Channel::Fatal,
    }
}

/// The name under which a channel is exposed to the host.
pub fn channel_label(c: Channel) -> (r: &'static str)
    ensures
        r@ == channel_text(c),
{
    match c {
        Channel::Loaded => "loaded",
        Channel::Dialogue => "dialogue",
        Channel::Choices => "choices",
        Channel::Command => "command",
        Channel::InputCommand => "input_command",
        Channel::InvalidChoice => "invalid_choice",
        Channel::End => "end",
        Channel::Fatal => "fatal",
    }
}

/// Law: dispatch is exhaustive and exclusive. Two execution results are
/// sent to the same channel exactly when they are of the same variant, and
/// no execution result is ever sent to the `loaded` or `fatal` channel.
pub proof fn lemma_dispatch_channels_exclusive(a: ExecutionResult, b: ExecutionResult)
    ensures
        (result_channel(a) == result_channel(b)) == same_variant(a, b),
        result_channel(a) != Channel::Loaded,
        result_channel(a) != Channel::Fatal,
{
}

/// Law: distinct channels are exposed to the host under distinct names.
pub proof fn lemma_channel_labels_distinct(c1: Channel, c2: Channel)
    ensures
        channel_text(c1) == channel_text(c2) ==> c1 == c2,
{
    reveal_strlit("loaded");
    reveal_strlit("dialogue");
    reveal_strlit("choices");
    reveal_strlit("command");
    reveal_strlit("input_command");
    reveal_strlit("invalid_choice");
    reveal_strlit("end");
    reveal_strlit("fatal");
    if channel_text(c1) == channel_text(c2) && c1 != c2 {
        assert(channel_text(c1)[1] == channel_text(c2)[1]);
        assert(channel_text(c1)[0] == channel_text(c2)[0]);
        assert(channel_text(c1).len() == channel_text(c2).len());
    }
}

} // verus!
