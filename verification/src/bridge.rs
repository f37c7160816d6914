//! The execution bridge and lifecycle controller.
//!
//! A `KataruInterface` owns the compiled story and the persisted
//! progression state together, behind one execution cursor, and moves
//! through three lifecycle states: `Unloaded` before the first successful
//! `init`, `Ready` while a cursor is installed, and `Faulted` after any
//! failure. A failed (re)initialization drops the previous
//! graph/state/cursor triple before anything else, so a stale cursor can
//! never be observed afterwards; operations in `Unloaded` or `Faulted`
//! report a runtime error instead of touching anything.

use vstd::prelude::*;
use vstd::string::*;

use crate::engine::{
    bookmark_init_state, bookmark_line, bookmark_load, bookmark_new, bookmark_passage,
    bookmark_save, bookmark_set_passage, error_text, line_to_result, path_exists, plain_path,
    runner_clear_stack, runner_goto, runner_init, runner_line, runner_load_bookmark, runner_next,
    runner_passage, runner_save_bookmark, runner_stack_len, story_load, story_save, unqualified,
    validate_story,
};
use crate::error::BridgeError;
use crate::notify::{ExecutionResult, Notification};
use crate::watcher::WatchSet;

verus! {

/// No diagnostic output.
pub const DEBUG_NONE: u8 = 0;

/// Coarse diagnostic output.
pub const DEBUG_INFO: u8 = 1;

/// Full diagnostic output.
pub const DEBUG_VERBOSE: u8 = 2;

/// Upper bound on the steps `run_until_choice` takes before giving up: a
/// defensive budget against an ill-formed graph that never reaches a
/// choice or an end.
pub const RUN_STEP_BUDGET: u64 = 1000000;

/// The lifecycle states of the bridge.
#[derive(Debug, Clone, Copy, PartialEq, Eq)]
pub enum BridgeState {
    /// No cursor was ever installed.
    Unloaded,
    /// A cursor is installed and operations are valid.
    Ready,
    /// The last (re)initialization or operation failed; the bridge is
    /// unusable until `init` succeeds again.
    Faulted,
}

/// The execution bridge: configuration, the execution cursor over the
/// owned story and progression state, and the hot-reload bookkeeping.
pub struct KataruInterface {
    /// Source path; when nonempty, `init` compiles and validates the
    /// source found there before loading.
    pub story_src_path: String,
    /// Path of the compiled story.
    pub story_path: String,
    /// Path of the persisted progression state.
    pub bookmark_path: String,
    /// Passage to fall back to when no valid progression state exists.
    pub default_passage: String,
    /// Diagnostic verbosity for the host; no behavioral effect here.
    pub debug_level: u8,
    /// The execution cursor, owning the story and the progression state.
    pub runner: Option<kataru::Runner>,
    /// Whether the last failure left the bridge unusable.
    pub faulted: bool,
    /// Watches the source files for hot reload.
    pub watch: Option<WatchSet>,
    /// Elapsed time, in microseconds, since the last reload poll.
    pub watch_poll_time: u64,
    /// How often, in microseconds, to poll the source files for changes.
    pub watch_poll_interval: u64,
}

/// Whether two bridge values carry the same configuration.
pub open spec fn same_config(a: KataruInterface, b: KataruInterface) -> bool {
    &&& a.story_src_path == b.story_src_path
    &&& a.story_path == b.story_path
    &&& a.bookmark_path == b.bookmark_path
    &&& a.default_passage == b.default_passage
    &&& a.debug_level == b.debug_level
    &&& a.watch_poll_interval == b.watch_poll_interval
}

/// Whether the configured paths can be handed to the engine: a compiled
/// story path must be present, and the story paths must be free of glob
/// metacharacters, which the engine's loader cannot take.
pub open spec fn config_ok(src: Seq<char>, story: Seq<char>) -> bool {
    story.len() > 0 && plain_path(story) && plain_path(src)
}

/// Whether `path` is free of the glob metacharacters `*`, `?`, `[`, `]`.
fn is_plain_path(path: &str) -> (r: bool)
    ensures
        r == plain_path(path@),
{
    let len = path.unicode_len();
    let mut i: usize = 0;
    while i < len
        invariant
            len == path@.len(),
            i <= len,
            forall|j: int|
                0 <= j < i ==> path@[j] != '*' && path@[j] != '?' && path@[j] != '[' && path@[j]
                    != ']',
        decreases len - i,
    {
        let c = path.get_char(i);
        if c == '*' || c == '?' || c == '[' || c == ']' {
            return false;
        }
        i += 1;
    }
    true
}

/// Loads the persisted progression state from `path`, substituting a
/// fresh default state positioned at `default_passage` when the file is
/// absent or fails to parse; the substituted state is persisted at once,
/// and only a failure to persist it is reported. Either way the state's
/// variables are seeded with the defaults `story` declares, as the engine
/// expects before validation or execution.
pub fn load_progression(path: &str, story: &kataru::Story, default_passage: &str) -> (r: Result<
    kataru::Bookmark,
    BridgeError,
>)
    ensures
        (r matches Err(e) ==> e is Io),
{
    if path_exists(path) {
        match bookmark_load(path) {
            Ok(mut b) => {
                bookmark_init_state(&mut b, story);
                return Ok(b);
            },
            Err(_corrupt) => {
                // absent above, corrupt here: recovered the same way
            },
        }
    }
    let mut fresh = bookmark_new();
    bookmark_init_state(&mut fresh, story);
    bookmark_set_passage(&mut fresh, default_passage);
    match bookmark_save(&fresh, path) {
        Ok(_saved) => Ok(fresh),
        Err(e) => Err(BridgeError::Io(error_text(&e))),
    }
}

/// Builds the execution cursor over a story and a progression state, both
/// moved in. When the state's recorded passage is absent from the story,
/// the cursor is repositioned to the start of `default_passage` instead of
/// failing; an error is reported only when even that cannot be resolved.
/// On success the cursor stands either at the state's recorded position
/// or at the start of the default passage.
pub fn build_runner(story: kataru::Story, bookmark: kataru::Bookmark, default_passage: &str) -> (r:
    Result<kataru::Runner, BridgeError>)
    ensures
        (r matches Err(e) ==> e is Validation),
        (r matches Ok(run) ==> (unqualified(bookmark_passage(bookmark)) && unqualified(
            default_passage@,
        ) ==> (runner_passage(run) == bookmark_passage(bookmark) && runner_line(run)
            == bookmark_line(bookmark)) || (runner_passage(run) == default_passage@
            && runner_line(run) == 0))),
{
    // A fresh state has no recorded passage, so this construction cannot
    // fail over a missing one; the real state is installed right after.
    let mut runner = match runner_init(bookmark_new(), story) {
        Ok(r) => r,
        Err(e) => {
            return Err(BridgeError::Validation(error_text(&e)));
        },
    };
    match runner_load_bookmark(&mut runner, bookmark) {
        Ok(_loaded) => {},
        Err(_missing) => {
            // The recorded passage is absent from the freshly loaded
            // story: fall back to the configured default passage.
            match runner_goto(&mut runner, default_passage) {
                Ok(_moved) => {},
                Err(e) => {
                    return Err(BridgeError::Validation(error_text(&e)));
                },
            }
        },
    }
    Ok(runner)
}

/// Advances a cursor by one logical line, consuming `input` if the
/// current line awaits one, and converts the engine's answer into an
/// execution result.
pub fn step_runner(runner: &mut kataru::Runner, input: &str) -> (r: Result<
    ExecutionResult,
    BridgeError,
>)
    ensures
        (r matches Err(e) ==> e is Validation),
{
    match runner_next(runner, input) {
        Ok(line) => Ok(line_to_result(line)),
        Err(e) => Err(BridgeError::Validation(error_text(&e))),
    }
}

impl KataruInterface {
    /// Whether operations on the cursor are valid.
    pub open spec fn ready(&self) -> bool {
        self.runner is Some && !self.faulted
    }

    /// The lifecycle state of the bridge.
    pub open spec fn state(&self) -> BridgeState {
        if self.ready() {
            BridgeState::Ready
        } else if self.faulted {
            BridgeState::Faulted
        } else {
            BridgeState::Unloaded
        }
    }

    /// An unloaded bridge with an empty configuration.
    pub fn new() -> (b: KataruInterface)
        ensures
            b.state() == BridgeState::Unloaded,
            b.runner is None,
            b.watch is None,
            b.watch_poll_time == 0,
            b.watch_poll_interval == 0,
    {
        KataruInterface {
            story_src_path: String::new(),
            story_path: String::new(),
            bookmark_path: String::new(),
            default_passage: String::new(),
            debug_level: DEBUG_NONE,
            runner: None,
            faulted: false,
            watch: None,
            watch_poll_time: 0,
            watch_poll_interval: 0,
        }
    }

    /// The shared body of `init` and of a hot reload: rebuilds the
    /// story/state/cursor triple from the current configuration. The old
    /// triple is dropped first, so on failure the bridge is `Faulted`
    /// with nothing stale left behind, and on success the new cursor is
    /// installed wholesale.
    fn try_init(&mut self) -> (r: Result<(), BridgeError>)
        ensures
            same_config(*old(self), *final(self)),
            final(self).watch_poll_time == old(self).watch_poll_time,
            r is Ok <==> final(self).ready(),
            r is Err ==> final(self).state() == BridgeState::Faulted && final(self).runner
                is None,
            (r matches Err(e) ==> !(e is Runtime) && !(e is State)),
            ((r matches Err(e) && e is Config) <==> !config_ok(
                old(self).story_src_path@,
                old(self).story_path@,
            )),
            (r is Ok && old(self).story_src_path@.len() > 0 ==> (final(self).watch matches Some(w)
                && w.pattern@ == old(self).story_src_path@ + "/**/*"@)),
            (r is Ok && old(self).story_src_path@.len() == 0 ==> final(self).watch is None),
    {
        self.runner = None;
        self.faulted = true;
        if self.story_path.as_str().is_empty() || !is_plain_path(self.story_path.as_str())
            || !is_plain_path(self.story_src_path.as_str()) {
            return Err(
                BridgeError::Config(String::from_str("missing or invalid story path configured")),
            );
        }
        let story = if !self.story_src_path.as_str().is_empty() {
            // Compile-on-load: read the source, validate it against the
            // progression state, save the compiled story, and arm the
            // watcher on the source files.
            let story = match story_load(self.story_src_path.as_str()) {
                Ok(s) => s,
                Err(e) => {
                    return Err(BridgeError::Compile(error_text(&e)));
                },
            };
            let mut bookmark = match load_progression(
                self.bookmark_path.as_str(),
                &story,
                self.default_passage.as_str(),
            ) {
                Ok(b) => b,
                Err(e) => {
                    return Err(e);
                },
            };
            match validate_story(&story, &mut bookmark) {
                Ok(_valid) => {},
                Err(e) => {
                    return Err(BridgeError::Validation(error_text(&e)));
                },
            }
            match story_save(&story, self.story_path.as_str()) {
                Ok(_saved) => {},
                Err(e) => {
                    return Err(BridgeError::Io(error_text(&e)));
                },
            }
            let mut pattern = self.story_src_path.clone();
            pattern.append("/**/*");
            let mut watch = WatchSet::new(pattern);
            let _ = watch.has_changed();  // record the baseline scan
            self.watch = Some(watch);
            story
        } else {
            // Without a source path there is nothing to watch: a watch
            // set from an earlier configuration must not keep reloading.
            self.watch = None;
            match story_load(self.story_path.as_str()) {
                Ok(s) => s,
                Err(e) => {
                    return Err(BridgeError::Io(error_text(&e)));
                },
            }
        };
        let bookmark = match load_progression(
            self.bookmark_path.as_str(),
            &story,
            self.default_passage.as_str(),
        ) {
            Ok(b) => b,
            Err(e) => {
                return Err(e);
            },
        };
        let runner = match build_runner(story, bookmark, self.default_passage.as_str()) {
            Ok(r) => r,
            Err(e) => {
                return Err(e);
            },
        };
        self.runner = Some(runner);
        self.faulted = false;
        Ok(())
    }

    /// Stores the configuration and performs the initial load: optionally
    /// compile and validate the source story, load the compiled story and
    /// the progression state, and build the execution cursor. On success
    /// the bridge is `Ready` and owes the host a `loaded` notification; on
    /// failure it is `Faulted` and unusable until `init` succeeds again.
    /// An empty compiled-story path is rejected as a configuration error,
    /// and initialization itself never reports a runtime error.
    pub fn init(
        &mut self,
        story_src_path: &str,
        story_path: &str,
        bookmark_path: &str,
        default_passage: &str,
        debug_level: u8,
        watch_poll_interval: u64,
    ) -> (r: Result<Notification, BridgeError>)
        ensures
            final(self).story_src_path@ == story_src_path@,
            final(self).story_path@ == story_path@,
            final(self).bookmark_path@ == bookmark_path@,
            final(self).default_passage@ == default_passage@,
            final(self).debug_level == debug_level,
            final(self).watch_poll_interval == watch_poll_interval,
            final(self).watch_poll_time == 0,
            r is Ok <==> final(self).ready(),
            (r matches Ok(n) ==> n == Notification::Loaded),
            r is Err ==> final(self).state() == BridgeState::Faulted && final(self).runner
                is None,
            (r matches Err(e) ==> !(e is Runtime) && !(e is State)),
            ((r matches Err(e) && e is Config) <==> !config_ok(story_src_path@, story_path@)),
            (r is Ok && story_src_path@.len() > 0 ==> (final(self).watch matches Some(w)
                && w.pattern@ == story_src_path@ + "/**/*"@)),
            (r is Ok && story_src_path@.len() == 0 ==> final(self).watch is None),
    {
        self.story_src_path = story_src_path.to_owned();
        self.story_path = story_path.to_owned();
        self.bookmark_path = bookmark_path.to_owned();
        self.default_passage = default_passage.to_owned();
        self.debug_level = debug_level;
        self.watch_poll_interval = watch_poll_interval;
        self.watch_poll_time = 0;
        match self.try_init() {
            Ok(_ready) => Ok(Notification::Loaded),
            Err(e) => Err(e),
        }
    }

    /// Runs the next logical line, consuming `input` if the current line
    /// awaits one, and persists the progression state. Valid only while
    /// `Ready`: a runtime error is reported exactly when the bridge is
    /// not ready, and any failure leaves it `Faulted`.
    pub fn next(&mut self, input: &str) -> (r: Result<ExecutionResult, BridgeError>)
        ensures
            same_config(*old(self), *final(self)),
            ((r matches Err(e) && e is Runtime) <==> !old(self).ready()),
            r is Ok ==> final(self).ready(),
            r is Err ==> final(self).state() == BridgeState::Faulted && final(self).runner
                is None,
            (r matches Err(e) ==> e is Runtime || e is Validation || e is Io),
    {
        if self.faulted || self.runner.is_none() {
            self.runner = None;
            self.faulted = true;
            return Err(BridgeError::Runtime(String::from_str("the bridge is not ready")));
        }
        let mut runner = self.runner.take().unwrap();
        match step_runner(&mut runner, input) {
            Err(e) => {
                self.faulted = true;
                Err(e)
            },
            Ok(line) => {
                match runner_save_bookmark(&runner, self.bookmark_path.as_str()) {
                    Ok(_saved) => {
                        self.runner = Some(runner);
                        Ok(line)
                    },
                    Err(e) => {
                        self.faulted = true;
                        Err(BridgeError::Io(error_text(&e)))
                    },
                }
            },
        }
    }

    /// Repositions the cursor to the start of `passage`, clears the call
    /// stack, and persists the progression state; no line is produced
    /// until the next `next`. A jump to a passage absent from the story
    /// is a runtime error, as is calling this while not `Ready`.
    pub fn goto(&mut self, passage: &str) -> (r: Result<(), BridgeError>)
        ensures
            same_config(*old(self), *final(self)),
            !old(self).ready() ==> (r matches Err(e) && e is Runtime),
            r is Ok ==> final(self).ready() && (final(self).runner matches Some(run)
                && runner_stack_len(run) == 0 && runner_line(run) == 0 && (unqualified(passage@)
                ==> runner_passage(run) == passage@)),
            r is Err ==> final(self).state() == BridgeState::Faulted && final(self).runner
                is None,
            (r matches Err(e) ==> e is Runtime || e is Io),
    {
        if self.faulted || self.runner.is_none() {
            self.runner = None;
            self.faulted = true;
            return Err(BridgeError::Runtime(String::from_str("the bridge is not ready")));
        }
        let mut runner = self.runner.take().unwrap();
        match runner_goto(&mut runner, passage) {
            Err(e) => {
                self.faulted = true;
                Err(BridgeError::Runtime(error_text(&e)))
            },
            Ok(_moved) => {
                runner_clear_stack(&mut runner);
                match runner_save_bookmark(&runner, self.bookmark_path.as_str()) {
                    Ok(_saved) => {
                        self.runner = Some(runner);
                        Ok(())
                    },
                    Err(e) => {
                        self.faulted = true;
                        Err(BridgeError::Io(error_text(&e)))
                    },
                }
            },
        }
    }

    /// Jumps to `passage` and runs its first logical line.
    pub fn run(&mut self, passage: &str) -> (r: Result<ExecutionResult, BridgeError>)
        ensures
            same_config(*old(self), *final(self)),
            !old(self).ready() ==> (r matches Err(e) && e is Runtime),
            r is Ok ==> final(self).ready(),
            r is Err ==> final(self).state() == BridgeState::Faulted && final(self).runner
                is None,
            (r matches Err(e) ==> e is Runtime || e is Validation || e is Io),
    {
        match self.goto(passage) {
            Err(e) => Err(e),
            Ok(_moved) => self.next(""),
        }
    }

    /// Jumps to `passage` and steps with empty input until the line is a
    /// choice set or the end of the passage; intermediate dialogue,
    /// command and input lines are discarded by this operation
    /// specifically. A successful result is always `Choices` or `End`.
    /// The loop is bounded by `RUN_STEP_BUDGET`; exceeding it faults the
    /// bridge.
    pub fn run_until_choice(&mut self, passage: &str) -> (r: Result<ExecutionResult, BridgeError>)
        ensures
            same_config(*old(self), *final(self)),
            !old(self).ready() ==> (r matches Err(e) && e is Runtime),
            (r matches Ok(line) ==> (line is Choices || line is End)),
            r is Ok ==> final(self).ready(),
            r is Err ==> final(self).state() == BridgeState::Faulted && final(self).runner
                is None,
            (r matches Err(e) ==> e is Runtime || e is Validation || e is Io),
    {
        match self.goto(passage) {
            Err(e) => {
                return Err(e);
            },
            Ok(_moved) => {},
        }
        let mut steps: u64 = 0;
        while steps < RUN_STEP_BUDGET
            invariant
                old(self).ready(),
                self.ready(),
                same_config(*old(self), *self),
            decreases RUN_STEP_BUDGET - steps,
        {
            match self.next("") {
                Err(e) => {
                    return Err(e);
                },
                Ok(line) => {
                    match &line {
                        ExecutionResult::Choices { .. } => {
                            return Ok(line);
                        },
                        ExecutionResult::End => {
                            return Ok(line);
                        },
                        _ => {},
                    }
                },
            }
            steps += 1;
        }
        self.runner = None;
        self.faulted = true;
        Err(BridgeError::Validation(String::from_str("step budget exhausted before a choice")))
    }

    /// Accumulates elapsed time and, once per configured poll interval,
    /// consults the change detector; when the watched source files
    /// changed, the bridge is rebuilt as by `init`. Before the interval
    /// elapses nothing is touched but the accumulator.
    pub fn watch_story_dir(&mut self, delta: u64) -> (r: Result<Option<Notification>, BridgeError>)
        ensures
            same_config(*old(self), *final(self)),
            (old(self).watch_poll_time + delta < old(self).watch_poll_interval) ==> (r matches Ok(n)
                && n is None && final(self).runner == old(self).runner && final(self).faulted
                == old(self).faulted && final(self).watch == old(self).watch
                && final(self).watch_poll_time == old(self).watch_poll_time + delta),
            (old(self).watch_poll_time + delta >= old(self).watch_poll_interval && old(
                self,
            ).watch_poll_time + delta <= u64::MAX) ==> final(self).watch_poll_time == old(
                self,
            ).watch_poll_time + delta - old(self).watch_poll_interval,
            (r matches Ok(n) ==> (n matches Some(loaded) ==> loaded == Notification::Loaded
                && final(self).ready())),
            (r matches Ok(n) && n is None ==> final(self).runner == old(self).runner
                && final(self).faulted == old(self).faulted),
            old(self).watch is None ==> (r matches Ok(n) && n is None),
            r is Err ==> final(self).state() == BridgeState::Faulted && final(self).runner
                is None,
    {
        let room = u64::MAX - self.watch_poll_time;
        self.watch_poll_time = if delta > room {
            u64::MAX
        } else {
            self.watch_poll_time + delta
        };
        if self.watch_poll_time < self.watch_poll_interval {
            return Ok(None);
        }
        self.watch_poll_time = self.watch_poll_time - self.watch_poll_interval;
        let changed = match &mut self.watch {
            Some(w) => w.has_changed(),
            None => false,
        };
        if changed {
            match self.try_init() {
                Ok(_ready) => Ok(Some(Notification::Loaded)),
                Err(e) => Err(e),
            }
        } else {
            Ok(None)
        }
    }

    /// Ends the session: releases the cursor, disarms the hot-reload
    /// watcher, and owes the host an `end` notification. The bridge
    /// returns to `Unloaded`.
    pub fn exit(&mut self) -> (n: Notification)
        ensures
            n == Notification::End,
            final(self).state() == BridgeState::Unloaded,
            final(self).watch is None,
            same_config(*old(self), *final(self)),
    {
        self.runner = None;
        self.faulted = false;
        self.watch = None;
        Notification::End
    }
}

} // verus!
