//! The watch controller: the decisions of a watch session, one step at a time.
//!
//! The controller neither waits nor performs I/O. Whoever drives it registers
//! the watch, asks the consumer whether to go on, waits for the next event and
//! removes the watch, and tells the controller each outcome as a
//! [`WatchInput`]. The controller answers with the [`WatchAction`] to perform.

use crate::batch::{empty_batch, flush_due, recorded, BatchView, PendingBatch};
use crate::classify::{
    classify, classify_spec, is_probe, is_relevant_path_of, lemma_classified_are_relevant, texts,
    PathView, RawEvent,
};
use crate::error::{into_watcher_init_error, stands_for_kind, WatcherInitError};
use notify::ErrorKind;
use vstd::prelude::*;

verus! {

/// The default quiet interval after which a pending batch is delivered.
pub const MIN_TIME_IN_MS_BETWEEN_REFRESHES: u128 = 500;

/// The default time to wait for an event before the controller gets a tick.
pub const WATCH_TIMEOUT: u64 = 500;

/// Where a session stands. A session only moves forward through these.
#[derive(Clone, Copy, Debug, PartialEq, Eq, Structural)]
pub enum WatchState {
    Idle,
    Watching,
    Stopping,
    Stopped,
}

/// The position of a state in the order in which a session passes them.
pub open spec fn state_rank(state: WatchState) -> int {
    match state {
        WatchState::Idle => 0,
        WatchState::Watching => 1,
        WatchState::Stopping => 2,
        WatchState::Stopped => 3,
    }
}

/// What governs a session: its two durations, in milliseconds, and whether a
/// batch of one path is looked up again before it is delivered.
#[derive(Clone, Copy, Debug, PartialEq, Eq)]
pub struct WatchConfig {
    /// How long no path may arrive before the pending batch is delivered.
    pub min_interval_ms: u128,
    /// How long the driver waits for an event before it reports a timeout.
    pub tick_timeout_ms: u64,
    /// Whether a due batch of exactly one path is held back where that path
    /// is a directory by then.
    pub recheck_lone_path: bool,
}

/// What is watched, and how far the session has come.
#[derive(Debug, PartialEq, Eq)]
pub struct WatchSession {
    pub root_path: String,
    pub exclusion_root: String,
    pub state: WatchState,
}

/// What the driver tells the controller.
#[derive(Debug, PartialEq, Eq)]
pub enum WatchInput {
    /// The watch on `root_path` was registered.
    Started { root_path: String, exclusion_root: String },
    /// The watch could not be registered.
    StartFailed { error: WatcherInitError },
    /// The stop signal was set.
    StopRequested,
    /// The consumer was asked whether the loop should go on.
    Poll { keep_looping: bool },
    /// A raw event arrived at the time `now`.
    Change { event: RawEvent, now: u128 },
    /// No event arrived within the tick; it is now `now`. Where exactly one
    /// path is pending, `lone_path_is_dir` tells whether it is a directory
    /// now; otherwise it counts for nothing.
    Timeout { now: u128, lone_path_is_dir: bool },
    /// Receiving failed for another reason than a timeout.
    ReceiveFailed,
    /// The removal of the watch was attempted, with whatever result.
    Unwatched,
}

/// What the controller asks the driver to do.
#[derive(Debug, PartialEq, Eq)]
pub enum WatchAction {
    /// Nothing.
    Nothing,
    /// Report `error` to the consumer; the session is over.
    ReportError { error: WatcherInitError },
    /// Wait up to `timeout_ms` for the next event.
    Receive { timeout_ms: u64 },
    /// Hand `paths` to the consumer.
    Deliver { paths: Vec<String> },
    /// Hand `final_batch` to the consumer if there is one, then remove the
    /// watch and tell the controller so.
    Stop { final_batch: Option<Vec<String>> },
}

/// What a contract reads of a [`WatchInput`].
pub enum InputView {
    Started { root_path: Seq<char>, exclusion_root: Seq<char> },
    StartFailed { error: WatcherInitError },
    StopRequested,
    Poll { keep_looping: bool },
    Change { paths: Seq<PathView>, now: int },
    Timeout { now: int, lone_path_is_dir: bool },
    ReceiveFailed,
    Unwatched,
}

/// What a contract reads of a [`WatchAction`].
pub enum ActionView {
    Nothing,
    ReportError { error: WatcherInitError },
    Receive { timeout_ms: int },
    Deliver { paths: Seq<Seq<char>> },
    Stop { final_batch: Option<Seq<Seq<char>>> },
}

impl View for WatchInput {
    type V = InputView;

    open spec fn view(&self) -> InputView {
        match *self {
            WatchInput::Started { root_path, exclusion_root } => InputView::Started {
                root_path: root_path@,
                exclusion_root: exclusion_root@,
            },
            WatchInput::StartFailed { error } => InputView::StartFailed { error },
            WatchInput::StopRequested => InputView::StopRequested,
            WatchInput::Poll { keep_looping } => InputView::Poll { keep_looping },
            WatchInput::Change { event, now } => InputView::Change { paths: event@, now: now as int },
            WatchInput::Timeout { now, lone_path_is_dir } => InputView::Timeout {
                now: now as int,
                lone_path_is_dir,
            },
            WatchInput::ReceiveFailed => InputView::ReceiveFailed,
            WatchInput::Unwatched => InputView::Unwatched,
        }
    }
}

impl WatchInput {
    /// The input that tells of a start that failed with an error of the
    /// backend: it carries the library's error of the same name.
    pub fn start_failed(kind: ErrorKind) -> (input: WatchInput)
        ensures
            input@ matches InputView::StartFailed { error } && stands_for_kind(error, kind),
    {
        WatchInput::StartFailed { error: into_watcher_init_error(kind) }
    }
}

impl View for WatchAction {
    type V = ActionView;

    open spec fn view(&self) -> ActionView {
        match *self {
            WatchAction::Nothing => ActionView::Nothing,
            WatchAction::ReportError { error } => ActionView::ReportError { error },
            WatchAction::Receive { timeout_ms } => ActionView::Receive {
                timeout_ms: timeout_ms as int,
            },
            WatchAction::Deliver { paths } => ActionView::Deliver { paths: texts(paths@) },
            WatchAction::Stop { final_batch } => ActionView::Stop {
                final_batch: match final_batch {
                    Some(paths) => Some(texts(paths@)),
                    None => None,
                },
            },
        }
    }
}

/// What a contract reads of a [`FileWatcher`].
pub struct WatcherView {
    /// False once a stop was requested.
    pub keep_watching: bool,
    pub state: WatchState,
    pub root_path: Seq<char>,
    pub exclusion_root: Seq<char>,
    pub batch: BatchView,
    pub min_interval_ms: int,
    pub tick_timeout_ms: int,
    pub recheck_lone_path: bool,
}

/// A controller before anything happened, with the given configuration.
pub open spec fn initial_watcher(config: WatchConfig) -> WatcherView {
    WatcherView {
        keep_watching: true,
        state: WatchState::Idle,
        root_path: Seq::empty(),
        exclusion_root: Seq::empty(),
        batch: empty_batch(),
        min_interval_ms: config.min_interval_ms as int,
        tick_timeout_ms: config.tick_timeout_ms as int,
        recheck_lone_path: config.recheck_lone_path,
    }
}

/// The configuration of a controller that is made without one: both durations
/// are half a second, and a batch of one path is delivered as it is.
pub open spec fn default_config() -> WatchConfig {
    WatchConfig {
        min_interval_ms: MIN_TIME_IN_MS_BETWEEN_REFRESHES,
        tick_timeout_ms: WATCH_TIMEOUT,
        recheck_lone_path: false,
    }
}

/// Whether a due batch is held back: the session looks a lone path up again,
/// exactly one path is pending, and that path is a directory now.
pub open spec fn is_held_back(w: WatcherView, lone_path_is_dir: bool) -> bool {
    w.recheck_lone_path && w.batch.paths.len() == 1 && lone_path_is_dir
}

/// The batch that goes out when the loop ends: the pending paths, if any.
pub open spec fn final_batch_of(batch: BatchView) -> Option<Seq<Seq<char>>> {
    if batch.paths.len() > 0 {
        Some(batch.paths)
    } else {
        None
    }
}

/// The controller after `input`, and the action it asks for.
///
/// - `StopRequested` clears `keep_watching` in every state.
/// - `Started` and `StartFailed` count only while `Idle`: the first leads to
///   `Watching`, the second to `Stopped` with the error to report.
/// - `Poll`, `Change` and `Timeout` count only while `Watching`. A poll asks
///   for the next receive, unless the consumer or the stop signal ends the
///   loop: then the pending paths go out as the final batch and the session is
///   `Stopping`. A change records the relevant paths of its event, if there
///   are any. A timeout delivers the batch if it is due; a due batch that is
///   held back (see [`is_held_back`]) is dropped instead, and nothing is
///   delivered.
/// - `Unwatched` counts only while `Stopping` and leads to `Stopped`.
/// - Everything else changes nothing and asks for nothing.
pub open spec fn next(w: WatcherView, input: InputView) -> (WatcherView, ActionView) {
    match input {
        InputView::StopRequested => (WatcherView { keep_watching: false, ..w }, ActionView::Nothing),
        InputView::Started { root_path, exclusion_root } => if w.state == WatchState::Idle {
            (
                WatcherView { state: WatchState::Watching, root_path, exclusion_root, ..w },
                ActionView::Nothing,
            )
        } else {
            (w, ActionView::Nothing)
        },
        InputView::StartFailed { error } => if w.state == WatchState::Idle {
            (WatcherView { state: WatchState::Stopped, ..w }, ActionView::ReportError { error })
        } else {
            (w, ActionView::Nothing)
        },
        InputView::Poll { keep_looping } => if w.state == WatchState::Watching {
            if keep_looping && w.keep_watching {
                (w, ActionView::Receive { timeout_ms: w.tick_timeout_ms })
            } else {
                (
                    WatcherView { state: WatchState::Stopping, batch: empty_batch(), ..w },
                    ActionView::Stop { final_batch: final_batch_of(w.batch) },
                )
            }
        } else {
            (w, ActionView::Nothing)
        },
        InputView::Change { paths, now } => {
            let kept = classify_spec(paths, w.exclusion_root);
            if w.state == WatchState::Watching && kept.len() > 0 {
                (WatcherView { batch: recorded(w.batch, kept, now), ..w }, ActionView::Nothing)
            } else {
                (w, ActionView::Nothing)
            }
        },
        InputView::Timeout { now, lone_path_is_dir } => if w.state == WatchState::Watching
            && flush_due(w.batch, now, w.min_interval_ms) {
            if is_held_back(w, lone_path_is_dir) {
                (WatcherView { batch: empty_batch(), ..w }, ActionView::Nothing)
            } else {
                (
                    WatcherView { batch: empty_batch(), ..w },
                    ActionView::Deliver { paths: w.batch.paths },
                )
            }
        } else {
            (w, ActionView::Nothing)
        },
        InputView::ReceiveFailed => (w, ActionView::Nothing),
        InputView::Unwatched => if w.state == WatchState::Stopping {
            (WatcherView { state: WatchState::Stopped, ..w }, ActionView::Nothing)
        } else {
            (w, ActionView::Nothing)
        },
    }
}

/// The batch that an action hands to the consumer, if it hands over one.
pub open spec fn delivered(action: ActionView) -> Option<Seq<Seq<char>>> {
    match action {
        ActionView::Deliver { paths } => Some(paths),
        ActionView::Stop { final_batch } => final_batch,
        _ => None,
    }
}

/// Whether a batch may go to the consumer: it is not empty and holds no probe
/// file under `exclusion_root`.
pub open spec fn is_clean_batch(paths: Seq<Seq<char>>, exclusion_root: Seq<char>) -> bool {
    &&& paths.len() > 0
    &&& forall|k: int| 0 <= k < paths.len() ==> !is_probe(#[trigger] paths[k], exclusion_root)
}

/// What holds of every controller that a session can reach: paths are pending
/// only while watching, pending paths have a time of last update, and no
/// pending path names a probe file.
pub open spec fn well_formed(w: WatcherView) -> bool {
    &&& w.state != WatchState::Watching ==> w.batch == empty_batch()
    &&& w.batch.paths.len() > 0 ==> w.batch.last_update_ms is Some
    &&& forall|k: int|
        0 <= k < w.batch.paths.len() ==> !is_probe(#[trigger] w.batch.paths[k], w.exclusion_root)
}

/// A new session is well formed.
pub proof fn lemma_initial_is_well_formed(config: WatchConfig)
    ensures
        well_formed(initial_watcher(config)),
{
}

/// A step keeps the controller well formed, moves the session forward or
/// leaves it where it is, and hands over no probe file and no empty batch.
pub proof fn lemma_step_is_sound(w: WatcherView, input: InputView)
    requires
        well_formed(w),
    ensures
        well_formed(next(w, input).0),
        state_rank(w.state) <= state_rank(next(w, input).0.state),
        w.state != WatchState::Idle ==> next(w, input).0.exclusion_root == w.exclusion_root,
        match delivered(next(w, input).1) {
            Some(paths) => {
                &&& w.state == WatchState::Watching
                &&& paths == w.batch.paths
                &&& is_clean_batch(paths, w.exclusion_root)
            },
            None => true,
        },
{
    match input {
        InputView::Change { paths, now } => {
            let kept = classify_spec(paths, w.exclusion_root);
            lemma_classified_are_relevant(paths, w.exclusion_root);
            let after = next(w, input).0;
            assert forall|k: int| 0 <= k < after.batch.paths.len() implies !is_probe(
                #[trigger] after.batch.paths[k],
                after.exclusion_root,
            ) by {
                if w.state == WatchState::Watching && kept.len() > 0 && k >= w.batch.paths.len() {
                    // A path that the event adds is one that the classifier kept.
                    let j = k - w.batch.paths.len();
                    assert(after.batch.paths[k] == kept[j]);
                    assert(is_relevant_path_of(kept[j], paths, w.exclusion_root));
                }
            }
        },
        _ => {},
    }
}

/// The controller of one watch session.
#[derive(Debug, PartialEq, Eq)]
pub struct FileWatcher {
    keep_watching: bool,
    session: WatchSession,
    batch: PendingBatch,
    config: WatchConfig,
}

impl View for FileWatcher {
    type V = WatcherView;

    closed spec fn view(&self) -> WatcherView {
        WatcherView {
            keep_watching: self.keep_watching,
            state: self.session.state,
            root_path: self.session.root_path@,
            exclusion_root: self.session.exclusion_root@,
            batch: self.batch@,
            min_interval_ms: self.config.min_interval_ms as int,
            tick_timeout_ms: self.config.tick_timeout_ms as int,
            recheck_lone_path: self.config.recheck_lone_path,
        }
    }
}

impl FileWatcher {
    /// Every controller is well formed, whatever was done with it.
    #[verifier::type_invariant]
    closed spec fn is_well_formed(&self) -> bool {
        well_formed(self@)
    }

    /// A controller for a new session, with the default configuration.
    pub fn new() -> (watcher: FileWatcher)
        ensures
            watcher@ == initial_watcher(default_config()),
    {
        FileWatcher::with_config(
            WatchConfig {
                min_interval_ms: MIN_TIME_IN_MS_BETWEEN_REFRESHES,
                tick_timeout_ms: WATCH_TIMEOUT,
                recheck_lone_path: false,
            },
        )
    }

    /// A controller for a new session, with the configuration `config`.
    pub fn with_config(config: WatchConfig) -> (watcher: FileWatcher)
        ensures
            watcher@ == initial_watcher(config),
    {
        FileWatcher {
            keep_watching: true,
            session: WatchSession {
                root_path: String::new(),
                exclusion_root: String::new(),
                state: WatchState::Idle,
            },
            batch: PendingBatch::new(),
            config,
        }
    }

    /// Requests the end of the session. The loop ends at its next poll.
    pub fn stop_watching(&mut self)
        ensures
            final(self)@ == next(old(self)@, InputView::StopRequested).0,
            well_formed(final(self)@),
    {
        proof {
            use_type_invariant(&*self);
        }
        self.keep_watching = false;
    }

    /// Takes one input and returns the action that it calls for: the
    /// controller becomes, and the action is, what [`next`] says. The
    /// controller stays well formed, and a batch in the action is never empty
    /// and holds no probe file under the session's exclusion root.
    pub fn step(&mut self, input: WatchInput) -> (action: WatchAction)
        ensures
            (final(self)@, action@) == next(old(self)@, input@),
            well_formed(final(self)@),
            match delivered(action@) {
                Some(paths) => is_clean_batch(paths, final(self)@.exclusion_root),
                None => true,
            },
    {
        proof {
            use_type_invariant(&*self);
            lemma_step_is_sound(self@, input@);
        }
        match input {
            WatchInput::StopRequested => {
                self.keep_watching = false;
                WatchAction::Nothing
            },
            WatchInput::Started { root_path, exclusion_root } => {
                if self.session.state == WatchState::Idle {
                    self.session.root_path = root_path;
                    self.session.exclusion_root = exclusion_root;
                    self.session.state = WatchState::Watching;
                }
                WatchAction::Nothing
            },
            WatchInput::StartFailed { error } => {
                if self.session.state == WatchState::Idle {
                    self.session.state = WatchState::Stopped;
                    WatchAction::ReportError { error }
                } else {
                    WatchAction::Nothing
                }
            },
            WatchInput::Poll { keep_looping } => {
                if self.session.state == WatchState::Watching {
                    if keep_looping && self.keep_watching {
                        WatchAction::Receive { timeout_ms: self.config.tick_timeout_ms }
                    } else {
                        let mut batch = PendingBatch::new();
                        std::mem::swap(&mut self.batch, &mut batch);
                        let pending = batch.flush();
                        self.session.state = WatchState::Stopping;
                        if pending.len() > 0 {
                            WatchAction::Stop { final_batch: Some(pending) }
                        } else {
                            WatchAction::Stop { final_batch: None }
                        }
                    }
                } else {
                    WatchAction::Nothing
                }
            },
            WatchInput::Change { event, now } => {
                if self.session.state == WatchState::Watching {
                    let kept = classify(&event, self.session.exclusion_root.as_str());
                    if kept.len() > 0 {
                        let mut batch = PendingBatch::new();
                        std::mem::swap(&mut self.batch, &mut batch);
                        batch.record_at(kept, now);
                        std::mem::swap(&mut self.batch, &mut batch);
                    }
                }
                WatchAction::Nothing
            },
            WatchInput::Timeout { now, lone_path_is_dir } => {
                if self.session.state == WatchState::Watching && self.batch.should_flush(
                    now,
                    self.config.min_interval_ms,
                ) {
                    let mut batch = PendingBatch::new();
                    std::mem::swap(&mut self.batch, &mut batch);
                    let held_back = self.config.recheck_lone_path && batch.len() == 1
                        && lone_path_is_dir;
                    let paths = batch.flush();
                    if held_back {
                        WatchAction::Nothing
                    } else {
                        WatchAction::Deliver { paths }
                    }
                } else {
                    WatchAction::Nothing
                }
            },
            WatchInput::ReceiveFailed => WatchAction::Nothing,
            WatchInput::Unwatched => {
                if self.session.state == WatchState::Stopping {
                    self.session.state = WatchState::Stopped;
                }
                WatchAction::Nothing
            },
        }
    }

    /// Where the session stands.
    pub fn state(&self) -> (state: WatchState)
        ensures
            state == self@.state,
    {
        self.session.state
    }

    /// The session: what is watched, and how far it has come.
    pub fn session(&self) -> (session: &WatchSession)
        ensures
            session.state == self@.state,
            session.root_path@ == self@.root_path,
            session.exclusion_root@ == self@.exclusion_root,
    {
        &self.session
    }

    /// The paths that wait for delivery.
    pub fn pending(&self) -> (batch: &PendingBatch)
        ensures
            batch@ == self@.batch,
    {
        &self.batch
    }

    /// False once a stop was requested.
    pub fn keep_watching(&self) -> (keep: bool)
        ensures
            keep == self@.keep_watching,
    {
        self.keep_watching
    }
}

} // verus!
