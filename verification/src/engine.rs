//! Trusted boundary to the external kataru dialogue engine.
//!
//! The engine owns the compiled graph format, the persisted state format
//! and the execution semantics of single lines; this crate drives it
//! through the wrappers below and verifies everything around them. Each
//! wrapper holds exactly one engine (or std) call, and its contract states
//! no more than the engine's source shows. Results that depend on the
//! filesystem carry no promise at all.

use vstd::prelude::*;

use crate::notify::ExecutionResult;
use kataru::{Load, Save};

verus! {

#[verifier::external_type_specification]
#[verifier::external_body]
pub struct ExStory(kataru::Story);

#[verifier::external_type_specification]
#[verifier::external_body]
pub struct ExBookmark(kataru::Bookmark);

#[verifier::external_type_specification]
#[verifier::external_body]
pub struct ExRunner(kataru::Runner);

#[verifier::external_type_specification]
#[verifier::external_body]
pub struct ExLine(kataru::Line);

#[verifier::external_type_specification]
#[verifier::external_body]
pub struct ExKataruError(kataru::Error);

/// How many frames the call stack of a runner's progression state holds.
pub uninterp spec fn runner_stack_len(r: kataru::Runner) -> nat;

/// The passage recorded as the cursor's current position.
pub uninterp spec fn runner_passage(r: kataru::Runner) -> Seq<char>;

/// The line index recorded as the cursor's current position.
pub uninterp spec fn runner_line(r: kataru::Runner) -> nat;

/// The passage recorded in a progression state.
pub uninterp spec fn bookmark_passage(b: kataru::Bookmark) -> Seq<char>;

/// The line index recorded in a progression state.
pub uninterp spec fn bookmark_line(b: kataru::Bookmark) -> nat;

/// Whether a passage name carries no explicit namespace qualifier. The
/// engine splits a name on `:` and re-records only the part after it, so
/// only an unqualified name is recorded verbatim.
pub open spec fn unqualified(s: Seq<char>) -> bool {
    forall|i: int| 0 <= i < s.len() ==> s[i] != ':'
}

/// Whether a path is free of the glob metacharacters `*`, `?`, `[` and
/// `]`. The engine's story loader builds a glob pattern from the story
/// path and aborts on a malformed one, so only such plain paths may be
/// handed to it.
pub open spec fn plain_path(s: Seq<char>) -> bool {
    forall|i: int| 0 <= i < s.len() ==> s[i] != '*' && s[i] != '?' && s[i] != '[' && s[i] != ']'
}

/// Relies on the `Display` impl of `kataru::Error`: the human-readable
/// message of an engine error, passed through verbatim.
#[verifier::external_body]
pub(crate) fn error_text(e: &kataru::Error) -> (r: String) {
    e.to_string()
}

/// Relies on `kataru::Load::load` for `Story`: reads a compiled story from
/// a file, or compiles one from a source file or directory of source
/// files. The result depends on what is on disk. When the path names a
/// directory, the loader appends `/**/*.yml` and aborts on a malformed
/// glob pattern; the precondition keeps glob's metacharacters out of the
/// path, so the built pattern is always well formed.
#[verifier::external_body]
pub(crate) fn story_load(path: &str) -> (r: Result<kataru::Story, kataru::Error>)
    requires
        plain_path(path@),
{
    kataru::Story::load(path)
}

/// Relies on `kataru::Save::save` for `Story`: writes the compiled story
/// to the given path.
#[verifier::external_body]
pub(crate) fn story_save(story: &kataru::Story, path: &str) -> (r: Result<(), kataru::Error>) {
    story.save(path)
}

/// Relies on `kataru::Validator`: structurally validates the story against
/// the progression state, reporting missing passages, dangling jumps and
/// malformed commands.
#[verifier::external_body]
pub(crate) fn validate_story(story: &kataru::Story, bookmark: &mut kataru::Bookmark) -> (r: Result<
    (),
    kataru::Error,
>) {
    kataru::Validator::new(story, bookmark).validate()
}

/// Relies on `std::path::Path::exists`. The result depends on what is on
/// disk.
#[verifier::external_body]
pub(crate) fn path_exists(path: &str) -> (r: bool) {
    std::path::Path::new(path).exists()
}

/// Relies on `kataru::Load::load` for `Bookmark`: reads a persisted
/// progression state; fails when the file is absent or malformed.
#[verifier::external_body]
pub(crate) fn bookmark_load(path: &str) -> (r: Result<kataru::Bookmark, kataru::Error>) {
    kataru::Bookmark::load(path)
}

/// Relies on `Bookmark::default`: a fresh progression state with an empty
/// position, an empty call stack and no variables.
#[verifier::external_body]
pub(crate) fn bookmark_new() -> (r: kataru::Bookmark)
    ensures
        bookmark_passage(r).len() == 0,
        bookmark_line(r) == 0,
{
    kataru::Bookmark::default()
}

/// Relies on `Bookmark::set_passage`: records `passage` as the state's
/// current passage; the line index is not touched.
#[verifier::external_body]
pub(crate) fn bookmark_set_passage(b: &mut kataru::Bookmark, passage: &str)
    ensures
        bookmark_passage(*final(b)) == passage@,
        bookmark_line(*final(b)) == bookmark_line(*old(b)),
{
    b.set_passage(passage.to_string());
}

/// Relies on `Bookmark::init_state`: seeds the state's variables with the
/// defaults the story declares, as the engine expects before validation
/// or execution. The recorded position is not touched.
#[verifier::external_body]
pub(crate) fn bookmark_init_state(b: &mut kataru::Bookmark, story: &kataru::Story)
    ensures
        bookmark_passage(*final(b)) == bookmark_passage(*old(b)),
        bookmark_line(*final(b)) == bookmark_line(*old(b)),
{
    b.init_state(story);
}

/// Relies on `kataru::Save::save` for `Bookmark`: persists the progression
/// state to the given path.
#[verifier::external_body]
pub(crate) fn bookmark_save(b: &kataru::Bookmark, path: &str) -> (r: Result<(), kataru::Error>) {
    b.save(path)
}

/// Relies on `kataru::Runner::init` (without its own validation pass): the
/// story and the progression state are moved into the runner, which builds
/// the execution cursor over them. Fails when the state's recorded passage
/// cannot be resolved in the story.
#[verifier::external_body]
pub(crate) fn runner_init(bookmark: kataru::Bookmark, story: kataru::Story) -> (r: Result<
    kataru::Runner,
    kataru::Error,
>) {
    kataru::Runner::init(bookmark, story, false)
}

/// Relies on `kataru::Runner::load_bookmark`: replaces the runner's
/// progression state. Fails when the state's recorded passage cannot be
/// resolved in the runner's story; the state itself is installed first
/// either way. On success the cursor stands at the state's recorded
/// position (an unqualified passage name is recorded verbatim).
#[verifier::external_body]
pub(crate) fn runner_load_bookmark(r: &mut kataru::Runner, b: kataru::Bookmark) -> (res: Result<
    (),
    kataru::Error,
>)
    ensures
        (res is Ok && unqualified(bookmark_passage(b)) ==> runner_passage(*final(r))
            == bookmark_passage(b) && runner_line(*final(r)) == bookmark_line(b)),
{
    r.load_bookmark(b)
}

/// Relies on `kataru::Runner::goto`: repositions the cursor to the start
/// (line 0) of the named passage without producing a line (an unqualified
/// passage name is recorded verbatim). The call stack is not touched,
/// whether or not the passage resolves.
#[verifier::external_body]
pub(crate) fn runner_goto(r: &mut kataru::Runner, passage: &str) -> (res: Result<(), kataru::Error>)
    ensures
        runner_stack_len(*final(r)) == runner_stack_len(*old(r)),
        (res is Ok ==> runner_line(*final(r)) == 0),
        (res is Ok && unqualified(passage@) ==> runner_passage(*final(r)) == passage@),
{
    r.goto(passage.to_string())
}

/// Relies on `kataru::Runner::clear_stack`, which empties the progression
/// state's call stack and touches nothing else.
#[verifier::external_body]
pub(crate) fn runner_clear_stack(r: &mut kataru::Runner)
    ensures
        runner_stack_len(*final(r)) == 0,
        runner_passage(*final(r)) == runner_passage(*old(r)),
        runner_line(*final(r)) == runner_line(*old(r)),
{
    r.clear_stack();
}

/// Relies on `kataru::Runner::next`: advances the cursor by one logical
/// line, consuming `input` if the current line awaits one, and returns the
/// resulting line. The result depends on the loaded story and state.
#[verifier::external_body]
pub(crate) fn runner_next(r: &mut kataru::Runner, input: &str) -> (res: Result<
    kataru::Line,
    kataru::Error,
>) {
    r.next(input)
}

/// Relies on `kataru::Runner::save_bookmark`: persists the runner's
/// progression state to the given path.
#[verifier::external_body]
pub(crate) fn runner_save_bookmark(r: &kataru::Runner, path: &str) -> (res: Result<(), kataru::Error>) {
    r.save_bookmark(path)
}

/// Relies on `kataru::Line` having exactly six variants, mapped one to one
/// onto the library's `ExecutionResult`; on `serde_json::to_string` for
/// the attribute, parameter and prompt documents; and on `f64::to_bits`
/// for carrying timeouts as plain bit patterns.
#[verifier::external_body]
pub(crate) fn line_to_result(line: kataru::Line) -> (r: ExecutionResult) {
    match line {
        kataru::Line::Dialogue(d) => ExecutionResult::Dialogue {
            speaker: d.name,
            text: d.text,
            attributes_json: serde_json::to_string(&d.attributes).unwrap_or_default(),
        },
        kataru::Line::Choices(c) => ExecutionResult::Choices { options: c.choices, timeout_bits: c.timeout.to_bits() },
        kataru::Line::Command(c) => ExecutionResult::Command { name: c.name, params_json: serde_json::to_string(&c.params).unwrap_or_default() },
        kataru::Line::Input(i) => ExecutionResult::Input { prompts_json: serde_json::to_string(&i.input).unwrap_or_default(), timeout_bits: i.timeout.to_bits() },
        kataru::Line::InvalidChoice => ExecutionResult::InvalidChoice,
        kataru::Line::End => ExecutionResult::End,
    }
}

} // verus!
