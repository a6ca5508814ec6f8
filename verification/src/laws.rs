//! What holds of the controller over whole sessions, proved from the step
//! function [`next`].

use crate::batch::{empty_batch, BatchView};
use crate::classify::{
    classify_spec, is_probe, is_relevant, lemma_irrelevant_event_is_dropped, PathView,
};
use crate::controller::{
    delivered, final_batch_of, is_clean_batch, is_held_back, lemma_step_is_sound, next,
    state_rank, well_formed, ActionView, InputView, WatchState, WatcherView,
};
use crate::error::WatcherInitError;
use vstd::prelude::*;

verus! {

/// The controller after all of `inputs`, and the actions it asked for, one
/// for each input.
pub open spec fn run(w: WatcherView, inputs: Seq<InputView>) -> (WatcherView, Seq<ActionView>)
    decreases inputs.len(),
{
    if inputs.len() == 0 {
        (w, Seq::empty())
    } else {
        let (mid, actions) = run(w, inputs.drop_last());
        let (end, action) = next(mid, inputs.last());
        (end, actions.push(action))
    }
}

/// Whether an action ends the session: the report of a failed start, or the
/// removal of the watch.
pub open spec fn is_terminal(action: ActionView) -> bool {
    action is ReportError || action is Stop
}

/// How many of `actions` end the session.
pub open spec fn terminal_count(actions: Seq<ActionView>) -> nat
    decreases actions.len(),
{
    if actions.len() == 0 {
        0
    } else {
        terminal_count(actions.drop_last()) + if is_terminal(actions.last()) {
            1nat
        } else {
            0nat
        }
    }
}

/// How many of `actions` ask for the watch to be removed.
pub open spec fn removal_count(actions: Seq<ActionView>) -> nat
    decreases actions.len(),
{
    if actions.len() == 0 {
        0
    } else {
        removal_count(actions.drop_last()) + if actions.last() is Stop {
            1nat
        } else {
            0nat
        }
    }
}

/// The batches that `actions` hand to the consumer, in their order.
pub open spec fn deliveries(actions: Seq<ActionView>) -> Seq<Seq<Seq<char>>>
    decreases actions.len(),
{
    if actions.len() == 0 {
        Seq::empty()
    } else {
        let earlier = deliveries(actions.drop_last());
        match delivered(actions.last()) {
            Some(paths) => earlier.push(paths),
            None => earlier,
        }
    }
}

/// An event of which no path is relevant changes nothing and asks for
/// nothing, in whatever state it arrives.
pub proof fn lemma_irrelevant_event_changes_nothing(w: WatcherView, paths: Seq<PathView>, now: int)
    requires
        forall|i: int| 0 <= i < paths.len() ==> !is_relevant(#[trigger] paths[i], w.exclusion_root),
    ensures
        next(w, InputView::Change { paths, now }) == (w, ActionView::Nothing),
{
    lemma_irrelevant_event_is_dropped(paths, w.exclusion_root);
}

/// An event that names only directories changes nothing: no path of it is
/// ever pending, so none is ever delivered.
pub proof fn lemma_directory_event_changes_nothing(w: WatcherView, paths: Seq<PathView>, now: int)
    requires
        forall|i: int| 0 <= i < paths.len() ==> (#[trigger] paths[i]).is_dir,
    ensures
        next(w, InputView::Change { paths, now }) == (w, ActionView::Nothing),
{
    lemma_irrelevant_event_changes_nothing(w, paths, now);
}

/// An event that names only probe files under the exclusion root changes
/// nothing: no path of it is ever pending, so none is ever delivered.
pub proof fn lemma_probe_event_changes_nothing(w: WatcherView, paths: Seq<PathView>, now: int)
    requires
        forall|i: int|
            0 <= i < paths.len() ==> (#[trigger] paths[i]).text is Some && is_probe(
                paths[i].text->0,
                w.exclusion_root,
            ),
    ensures
        next(w, InputView::Change { paths, now }) == (w, ActionView::Nothing),
{
    lemma_irrelevant_event_changes_nothing(w, paths, now);
}

/// Over any inputs, a well-formed controller stays well formed, its session
/// never moves backward, and every batch that it hands over is non-empty and
/// free of probe files. While the session is idle nothing is handed over.
pub proof fn lemma_run_is_sound(w: WatcherView, inputs: Seq<InputView>)
    requires
        well_formed(w),
    ensures
        run(w, inputs).1.len() == inputs.len(),
        well_formed(run(w, inputs).0),
        state_rank(w.state) <= state_rank(run(w, inputs).0.state),
        w.state != WatchState::Idle ==> run(w, inputs).0.exclusion_root == w.exclusion_root,
        forall|k: int|
            0 <= k < inputs.len() ==> match delivered(#[trigger] run(w, inputs).1[k]) {
                Some(paths) => run(w, inputs).0.state != WatchState::Idle && is_clean_batch(
                    paths,
                    run(w, inputs).0.exclusion_root,
                ),
                None => true,
            },
    decreases inputs.len(),
{
    if inputs.len() > 0 {
        let mid = run(w, inputs.drop_last()).0;
        lemma_run_is_sound(w, inputs.drop_last());
        lemma_step_is_sound(mid, inputs.last());
    }
}

/// The number of actions that end the session is 1 if the session ended
/// during the run, and 0 otherwise. So a session ends at most once, however
/// often and in whatever way its end is requested, and the watch is removed
/// at most once.
pub proof fn lemma_session_ends_once(w: WatcherView, inputs: Seq<InputView>)
    ensures
        state_rank(w.state) <= state_rank(run(w, inputs).0.state),
        terminal_count(run(w, inputs).1) == if state_rank(w.state) < 2 && state_rank(
            run(w, inputs).0.state,
        ) >= 2 {
            1nat
        } else {
            0nat
        },
    decreases inputs.len(),
{
    if inputs.len() > 0 {
        lemma_session_ends_once(w, inputs.drop_last());
        assert(run(w, inputs).1.drop_last() == run(w, inputs.drop_last()).1);
    }
}

/// The watch is removed at most once in a session: exactly once where a
/// watching session ends during the run, and never once the loop has ended.
pub proof fn lemma_watch_is_removed_once(w: WatcherView, inputs: Seq<InputView>)
    ensures
        removal_count(run(w, inputs).1) <= 1,
        w.state == WatchState::Watching ==> removal_count(run(w, inputs).1) == if state_rank(
            run(w, inputs).0.state,
        ) >= 2 {
            1nat
        } else {
            0nat
        },
        state_rank(w.state) >= 2 ==> removal_count(run(w, inputs).1) == 0,
        removal_count(run(w, inputs).1) == 1 ==> state_rank(run(w, inputs).0.state) >= 2,
    decreases inputs.len(),
{
    if inputs.len() > 0 {
        lemma_watch_is_removed_once(w, inputs.drop_last());
        lemma_session_ends_once(w, inputs.drop_last());
        assert(run(w, inputs).1.drop_last() == run(w, inputs.drop_last()).1);
    }
}

/// Once the loop has ended, whether by a failed start or by a stop, nothing is
/// asked for any more: no batch is delivered, no error is reported, no
/// watch is removed, and the pending batch stays as it is.
pub proof fn lemma_ended_session_is_silent(w: WatcherView, inputs: Seq<InputView>)
    requires
        state_rank(w.state) >= 2,
    ensures
        run(w, inputs).1.len() == inputs.len(),
        state_rank(run(w, inputs).0.state) >= 2,
        run(w, inputs).0.batch == w.batch,
        forall|k: int|
            0 <= k < inputs.len() ==> #[trigger] run(w, inputs).1[k] == ActionView::Nothing,
    decreases inputs.len(),
{
    if inputs.len() > 0 {
        lemma_ended_session_is_silent(w, inputs.drop_last());
    }
}

/// When the consumer or the stop signal ends the loop of a watching session,
/// the very next poll hands over the pending paths as the one final batch (if
/// there are any) and asks for the watch to be removed; the removal leads to
/// `Stopped`; and whatever comes later is answered with nothing.
pub proof fn lemma_cancellation_ends_session(
    w: WatcherView,
    keep_looping: bool,
    later: Seq<InputView>,
)
    requires
        w.state == WatchState::Watching,
        !keep_looping || !w.keep_watching,
    ensures
        ({
            let (stopping, stop) = next(w, InputView::Poll { keep_looping });
            let (stopped, after) = next(stopping, InputView::Unwatched);
            &&& stop == ActionView::Stop { final_batch: final_batch_of(w.batch) }
            &&& stopping.state == WatchState::Stopping
            &&& stopping.batch == empty_batch()
            &&& after == ActionView::Nothing
            &&& stopped.state == WatchState::Stopped
            &&& forall|k: int|
                0 <= k < later.len() ==> #[trigger] run(stopped, later).1[k] == ActionView::Nothing
        }),
{
    let stopping = next(w, InputView::Poll { keep_looping }).0;
    let stopped = next(stopping, InputView::Unwatched).0;
    lemma_ended_session_is_silent(stopped, later);
}

/// A start that fails is answered with the report of its error, once, and
/// the session is over: whatever comes later is answered with nothing, so no
/// batch is ever delivered.
pub proof fn lemma_failed_start_is_reported_once(
    w: WatcherView,
    error: WatcherInitError,
    later: Seq<InputView>,
)
    requires
        w.state == WatchState::Idle,
    ensures
        ({
            let (stopped, report) = next(w, InputView::StartFailed { error });
            &&& report == ActionView::ReportError { error }
            &&& stopped.state == WatchState::Stopped
            &&& forall|k: int|
                0 <= k < later.len() ==> #[trigger] run(stopped, later).1[k] == ActionView::Nothing
        }),
{
    let stopped = next(w, InputView::StartFailed { error }).0;
    lemma_ended_session_is_silent(stopped, later);
}

/// The time that an input carries, if it carries one.
pub open spec fn time_of(input: InputView) -> Option<int> {
    match input {
        InputView::Change { now, .. } => Some(now),
        InputView::Timeout { now, .. } => Some(now),
        _ => None,
    }
}

/// The paths that an input leaves pending in a watching session.
pub open spec fn paths_of(input: InputView, exclusion_root: Seq<char>) -> Seq<Seq<char>> {
    match input {
        InputView::Change { paths, .. } => classify_spec(paths, exclusion_root),
        _ => Seq::empty(),
    }
}

/// Whether an input is an event with at least one relevant path.
pub open spec fn records(input: InputView, exclusion_root: Seq<char>) -> bool {
    paths_of(input, exclusion_root).len() > 0
}

/// Whether an input belongs to the loop of a watching session that goes on:
/// an event, a timeout, a failed receive, or a poll that the consumer answers
/// with yes.
pub open spec fn keeps_looping(input: InputView) -> bool {
    match input {
        InputView::Change { .. } => true,
        InputView::Timeout { .. } => true,
        InputView::ReceiveFailed => true,
        InputView::Poll { keep_looping } => keep_looping,
        _ => false,
    }
}

/// The relevant paths of all events of `inputs`, in the order of arrival.
pub open spec fn recorded_paths(inputs: Seq<InputView>, exclusion_root: Seq<char>) -> Seq<
    Seq<char>,
>
    decreases inputs.len(),
{
    if inputs.len() == 0 {
        Seq::empty()
    } else {
        recorded_paths(inputs.drop_last(), exclusion_root) + paths_of(
            inputs.last(),
            exclusion_root,
        )
    }
}

/// The time of the last event of `inputs` that has a relevant path.
pub open spec fn last_record_time(inputs: Seq<InputView>, exclusion_root: Seq<char>) -> Option<
    int,
>
    decreases inputs.len(),
{
    if inputs.len() == 0 {
        None
    } else if records(inputs.last(), exclusion_root) {
        time_of(inputs.last())
    } else {
        last_record_time(inputs.drop_last(), exclusion_root)
    }
}

/// Whether the input at `k` comes no later than `min_interval_ms` after an
/// earlier event that has a relevant path.
pub open spec fn follows_a_record(
    inputs: Seq<InputView>,
    k: int,
    exclusion_root: Seq<char>,
    min_interval_ms: int,
) -> bool {
    exists|i: int|
        0 <= i < k && records(#[trigger] inputs[i], exclusion_root) && time_of(inputs[k])->0
            - time_of(inputs[i])->0 <= min_interval_ms
}

/// Whether the times of `inputs` never go backward.
pub open spec fn in_time_order(inputs: Seq<InputView>) -> bool {
    forall|i: int, j: int|
        0 <= i < j < inputs.len() && time_of(#[trigger] inputs[i]) is Some && time_of(
            #[trigger] inputs[j],
        ) is Some ==> time_of(inputs[i])->0 <= time_of(inputs[j])->0
}

/// A burst: inputs of a loop that goes on, in the order of their times, which
/// begin with an event that has a relevant path, and of which every later
/// event and timeout comes no later than `min_interval_ms` after an earlier
/// such event.
pub open spec fn is_burst(
    inputs: Seq<InputView>,
    exclusion_root: Seq<char>,
    min_interval_ms: int,
) -> bool {
    &&& inputs.len() > 0
    &&& records(inputs[0], exclusion_root)
    &&& forall|k: int| 0 <= k < inputs.len() ==> keeps_looping(#[trigger] inputs[k])
    &&& in_time_order(inputs)
    &&& forall|k: int|
        0 < k < inputs.len() && time_of(#[trigger] inputs[k]) is Some ==> follows_a_record(
            inputs,
            k,
            exclusion_root,
            min_interval_ms,
        )
}

/// Among inputs in the order of their times, no event with a relevant path is
/// later than the last of them.
pub proof fn lemma_last_record_is_latest(inputs: Seq<InputView>, exclusion_root: Seq<char>)
    requires
        in_time_order(inputs),
    ensures
        forall|i: int|
            0 <= i < inputs.len() && records(#[trigger] inputs[i], exclusion_root) ==> {
                &&& last_record_time(inputs, exclusion_root) is Some
                &&& time_of(inputs[i])->0 <= last_record_time(inputs, exclusion_root)->0
            },
    decreases inputs.len(),
{
    if inputs.len() > 0 {
        let earlier = inputs.drop_last();
        assert(in_time_order(earlier)) by {
            assert forall|i: int, j: int|
                0 <= i < j < earlier.len() && time_of(#[trigger] earlier[i]) is Some && time_of(
                    #[trigger] earlier[j],
                ) is Some implies time_of(earlier[i])->0 <= time_of(earlier[j])->0 by {
                assert(earlier[i] == inputs[i]);
                assert(earlier[j] == inputs[j]);
            }
        }
        lemma_last_record_is_latest(earlier, exclusion_root);
        assert forall|i: int|
            0 <= i < inputs.len() && records(#[trigger] inputs[i], exclusion_root) implies {
            &&& last_record_time(inputs, exclusion_root) is Some
            &&& time_of(inputs[i])->0 <= last_record_time(inputs, exclusion_root)->0
        } by {
            if i < earlier.len() {
                assert(earlier[i] == inputs[i]);
            }
        }
    }
}

/// A burst that is cut after one of its inputs is still a burst.
pub proof fn lemma_burst_prefix(
    inputs: Seq<InputView>,
    exclusion_root: Seq<char>,
    min_interval_ms: int,
)
    requires
        is_burst(inputs, exclusion_root, min_interval_ms),
        inputs.len() > 1,
    ensures
        is_burst(inputs.drop_last(), exclusion_root, min_interval_ms),
{
    let earlier = inputs.drop_last();
    assert forall|k: int|
        0 < k < earlier.len() && time_of(#[trigger] earlier[k]) is Some implies follows_a_record(
        earlier,
        k,
        exclusion_root,
        min_interval_ms,
    ) by {
        let i = choose|i: int|
            0 <= i < k && records(#[trigger] inputs[i], exclusion_root) && time_of(inputs[k])->0
                - time_of(inputs[i])->0 <= min_interval_ms;
        assert(earlier[i] == inputs[i]);
    }
}

/// While a burst lasts, a watching session that nobody stops delivers
/// nothing: every relevant path of the burst is added to the pending ones, in
/// the order of arrival, and the time of the last update is that of the last
/// event that had a relevant path.
pub proof fn lemma_burst_is_held_back(w: WatcherView, inputs: Seq<InputView>)
    requires
        w.state == WatchState::Watching,
        w.keep_watching,
        is_burst(inputs, w.exclusion_root, w.min_interval_ms),
    ensures
        last_record_time(inputs, w.exclusion_root) is Some,
        run(w, inputs).0 == (WatcherView {
            batch: BatchView {
                paths: w.batch.paths + recorded_paths(inputs, w.exclusion_root),
                last_update_ms: last_record_time(inputs, w.exclusion_root),
            },
            ..w
        }),
        run(w, inputs).1.len() == inputs.len(),
        forall|k: int| 0 <= k < inputs.len() ==> delivered(#[trigger] run(w, inputs).1[k]) is None,
    decreases inputs.len(),
{
    let root = w.exclusion_root;
    let earlier = inputs.drop_last();
    let last = inputs.last();
    if inputs.len() == 1 {
        // The burst is its first event, which records.
        assert(run(w, earlier) == (w, Seq::<ActionView>::empty()));
        assert(w.batch.paths + recorded_paths(inputs, root) =~= w.batch.paths + paths_of(
            last,
            root,
        ));
    } else {
        lemma_burst_prefix(inputs, root, w.min_interval_ms);
        lemma_burst_is_held_back(w, earlier);
        assert(w.batch.paths + recorded_paths(inputs, root) =~= (w.batch.paths + recorded_paths(
            earlier,
            root,
        )) + paths_of(last, root));
        if last is Timeout {
            // The timeout follows an event of the burst closely, and the last
            // update is no earlier than that event: the batch is not due.
            let k = inputs.len() - 1;
            let i = choose|i: int|
                0 <= i < k && records(#[trigger] inputs[i], root) && time_of(inputs[k])->0
                    - time_of(inputs[i])->0 <= w.min_interval_ms;
            lemma_last_record_is_latest(earlier, root);
            assert(earlier[i] == inputs[i]);
        }
    }
}

/// Once a burst is over and more than the quiet interval has passed since its
/// last event with a relevant path, the next timeout flushes the batch: the
/// paths that were pending before, then every relevant path of the burst in
/// the order of arrival. They are delivered as one batch, unless the batch is
/// held back: then it is dropped and nothing is delivered. Either way the
/// batch is empty afterwards, so a further timeout delivers nothing.
pub proof fn lemma_burst_is_flushed_once(
    w: WatcherView,
    inputs: Seq<InputView>,
    now: int,
    lone_path_is_dir: bool,
    later: int,
    later_is_dir: bool,
)
    requires
        w.state == WatchState::Watching,
        w.keep_watching,
        is_burst(inputs, w.exclusion_root, w.min_interval_ms),
        now - last_record_time(inputs, w.exclusion_root)->0 > w.min_interval_ms,
    ensures
        ({
            let (held, during) = run(w, inputs);
            let pending = w.batch.paths + recorded_paths(inputs, w.exclusion_root);
            let (flushed, flush) = next(held, InputView::Timeout { now, lone_path_is_dir });
            &&& forall|k: int| 0 <= k < inputs.len() ==> delivered(#[trigger] during[k]) is None
            &&& recorded_paths(inputs, w.exclusion_root).len() > 0
            &&& held.batch.paths == pending
            &&& flush == if is_held_back(held, lone_path_is_dir) {
                ActionView::Nothing
            } else {
                ActionView::Deliver { paths: pending }
            }
            &&& flushed == WatcherView { batch: empty_batch(), ..w }
            &&& next(flushed, InputView::Timeout { now: later, lone_path_is_dir: later_is_dir })
                == (flushed, ActionView::Nothing)
        }),
{
    lemma_burst_is_held_back(w, inputs);
    lemma_recorded_paths_hold_each_event(inputs, w.exclusion_root, 0);
}

/// The relevant paths of each event of `inputs` are part of the recorded
/// paths, so these are at least as many.
pub proof fn lemma_recorded_paths_hold_each_event(
    inputs: Seq<InputView>,
    exclusion_root: Seq<char>,
    i: int,
)
    requires
        0 <= i < inputs.len(),
    ensures
        paths_of(inputs[i], exclusion_root).len() <= recorded_paths(inputs, exclusion_root).len(),
    decreases inputs.len(),
{
    if i < inputs.len() - 1 {
        lemma_recorded_paths_hold_each_event(inputs.drop_last(), exclusion_root, i);
    }
}

/// Where every event of `inputs` has the one relevant path `path`, the
/// recorded paths are that path, once for each event.
pub proof fn lemma_same_path_is_recorded_per_event(
    inputs: Seq<InputView>,
    exclusion_root: Seq<char>,
    path: Seq<char>,
)
    requires
        forall|k: int|
            0 <= k < inputs.len() && (#[trigger] inputs[k]) is Change ==> paths_of(
                inputs[k],
                exclusion_root,
            ) == seq![path],
    ensures
        recorded_paths(inputs, exclusion_root).len() == inputs.filter(
            |input: InputView| input is Change,
        ).len(),
        forall|j: int|
            0 <= j < recorded_paths(inputs, exclusion_root).len() ==> #[trigger] recorded_paths(
                inputs,
                exclusion_root,
            )[j] == path,
    decreases inputs.len(),
{
    reveal(Seq::filter);
    if inputs.len() > 0 {
        lemma_same_path_is_recorded_per_event(inputs.drop_last(), exclusion_root, path);
    }
}

/// A burst of events that each have the one relevant path `path`, arriving
/// in a watching session with nothing pending: nothing is delivered while the
/// burst lasts; the first timeout after the quiet interval delivers one batch,
/// which holds `path` once for each event; and a further timeout delivers
/// nothing. The one exception is a burst of a single event in a session that
/// looks a lone path up again: where the path is a directory by then, the
/// batch is dropped and nothing is delivered at all.
pub proof fn lemma_same_path_burst_gives_one_batch(
    w: WatcherView,
    inputs: Seq<InputView>,
    path: Seq<char>,
    now: int,
    lone_path_is_dir: bool,
    later: int,
    later_is_dir: bool,
)
    requires
        w.state == WatchState::Watching,
        w.keep_watching,
        w.batch.paths.len() == 0,
        is_burst(inputs, w.exclusion_root, w.min_interval_ms),
        forall|k: int|
            0 <= k < inputs.len() && (#[trigger] inputs[k]) is Change ==> paths_of(
                inputs[k],
                w.exclusion_root,
            ) == seq![path],
        now - last_record_time(inputs, w.exclusion_root)->0 > w.min_interval_ms,
    ensures
        ({
            let (held, during) = run(w, inputs);
            let (flushed, flush) = next(held, InputView::Timeout { now, lone_path_is_dir });
            let events = inputs.filter(|input: InputView| input is Change).len();
            &&& deliveries(during) == Seq::<Seq<Seq<char>>>::empty()
            &&& events >= 1
            &&& flush == if w.recheck_lone_path && events == 1 && lone_path_is_dir {
                ActionView::Nothing
            } else {
                ActionView::Deliver { paths: Seq::new(events, |i: int| path) }
            }
            &&& next(
                flushed,
                InputView::Timeout { now: later, lone_path_is_dir: later_is_dir },
            ).1 == ActionView::Nothing
        }),
{
    let root = w.exclusion_root;
    lemma_burst_is_held_back(w, inputs);
    lemma_burst_is_flushed_once(w, inputs, now, lone_path_is_dir, later, later_is_dir);
    lemma_same_path_is_recorded_per_event(inputs, root, path);
    lemma_nothing_delivered(run(w, inputs).1);
    let events = inputs.filter(|input: InputView| input is Change).len();
    assert(w.batch.paths + recorded_paths(inputs, root) =~= Seq::new(events, |i: int| path));
}

/// Actions of which none hands over a batch deliver nothing.
pub proof fn lemma_nothing_delivered(actions: Seq<ActionView>)
    requires
        forall|k: int| 0 <= k < actions.len() ==> delivered(#[trigger] actions[k]) is None,
    ensures
        deliveries(actions) == Seq::<Seq<Seq<char>>>::empty(),
    decreases actions.len(),
{
    if actions.len() > 0 {
        lemma_nothing_delivered(actions.drop_last());
    }
}

/// Running over `first` and then over `then` is running over both in one go.
pub proof fn lemma_run_continues(w: WatcherView, first: Seq<InputView>, then: Seq<InputView>)
    ensures
        run(w, first + then) == ({
            let (mid, before) = run(w, first);
            let (end, after) = run(mid, then);
            (end, before + after)
        }),
    decreases then.len(),
{
    if then.len() > 0 {
        lemma_run_continues(w, first, then.drop_last());
        assert((first + then).drop_last() =~= first + then.drop_last());
    }
}

/// The deliveries of two runs of actions, one after the other, are those of
/// the first followed by those of the second.
pub proof fn lemma_deliveries_continue(first: Seq<ActionView>, then: Seq<ActionView>)
    ensures
        deliveries(first + then) == deliveries(first) + deliveries(then),
    decreases then.len(),
{
    if then.len() > 0 {
        lemma_deliveries_continue(first, then.drop_last());
        assert((first + then).drop_last() =~= first + then.drop_last());
    }
}

/// An event of which no path is relevant leaves no trace: with the event or
/// without it, at whatever point of a session it arrives, the session ends in
/// the same state and the consumer is handed the same batches. So a path of
/// an event that names only directories, or only probe files, is in no batch
/// on account of that event.
pub proof fn lemma_irrelevant_event_leaves_no_trace(
    w: WatcherView,
    before: Seq<InputView>,
    paths: Seq<PathView>,
    now: int,
    after: Seq<InputView>,
)
    requires
        forall|i: int|
            0 <= i < paths.len() ==> !is_relevant(
                #[trigger] paths[i],
                run(w, before).0.exclusion_root,
            ),
    ensures
        ({
            let with = run(w, before.push(InputView::Change { paths, now }) + after);
            let without = run(w, before + after);
            &&& with.0 == without.0
            &&& deliveries(with.1) == deliveries(without.1)
        }),
{
    let event = InputView::Change { paths, now };
    let (mid, early) = run(w, before);
    let (end, late) = run(mid, after);
    lemma_irrelevant_event_changes_nothing(mid, paths, now);
    assert(before.push(event).drop_last() =~= before);
    lemma_run_continues(w, before.push(event), after);
    lemma_run_continues(w, before, after);
    lemma_deliveries_continue(early.push(ActionView::Nothing), late);
    lemma_deliveries_continue(early, late);
    assert(early.push(ActionView::Nothing).drop_last() =~= early);
}

/// The paths of all batches that `actions` hand to the consumer, one batch
/// after the other.
pub open spec fn delivered_paths(actions: Seq<ActionView>) -> Seq<Seq<char>>
    decreases actions.len(),
{
    if actions.len() == 0 {
        Seq::empty()
    } else {
        delivered_paths(actions.drop_last()) + match delivered(actions.last()) {
            Some(paths) => paths,
            None => Seq::empty(),
        }
    }
}

/// Whether no timeout of `inputs` tells of a lone path that is a directory.
pub open spec fn no_directory_is_reported(inputs: Seq<InputView>) -> bool {
    forall|k: int|
        0 <= k < inputs.len() ==> match #[trigger] inputs[k] {
            InputView::Timeout { lone_path_is_dir, .. } => !lone_path_is_dir,
            _ => true,
        }
}

/// Nothing that is recorded is lost or delivered twice. While the loop of a
/// watching session goes on, and no batch is held back, the paths delivered so
/// far followed by the pending ones are the paths that were pending at first
/// followed by every relevant path of every event, in the order of arrival.
/// When the loop then ends, the final batch hands over what is still pending.
pub proof fn lemma_nothing_is_lost_or_delivered_twice(w: WatcherView, inputs: Seq<InputView>)
    requires
        w.state == WatchState::Watching,
        w.keep_watching,
        forall|k: int| 0 <= k < inputs.len() ==> keeps_looping(#[trigger] inputs[k]),
        w.recheck_lone_path ==> no_directory_is_reported(inputs),
    ensures
        ({
            let (end, actions) = run(w, inputs);
            &&& end == WatcherView { batch: end.batch, ..w }
            &&& delivered_paths(actions) + end.batch.paths == w.batch.paths + recorded_paths(
                inputs,
                w.exclusion_root,
            )
            &&& delivered(next(end, InputView::Poll { keep_looping: false }).1) == final_batch_of(
                end.batch,
            )
        }),
    decreases inputs.len(),
{
    let root = w.exclusion_root;
    if inputs.len() == 0 {
        assert(delivered_paths(run(w, inputs).1) + w.batch.paths =~= w.batch.paths
            + recorded_paths(inputs, root));
    } else {
        let earlier = inputs.drop_last();
        let last = inputs.last();
        assert(keeps_looping(inputs[inputs.len() - 1]));
        assert forall|k: int| 0 <= k < earlier.len() implies keeps_looping(
            #[trigger] earlier[k],
        ) by {
            assert(earlier[k] == inputs[k]);
        }
        if w.recheck_lone_path {
            assert(no_directory_is_reported(earlier)) by {
                assert forall|k: int| 0 <= k < earlier.len() implies match #[trigger] earlier[k] {
                    InputView::Timeout { lone_path_is_dir, .. } => !lone_path_is_dir,
                    _ => true,
                } by {
                    assert(earlier[k] == inputs[k]);
                }
            }
        }
        lemma_nothing_is_lost_or_delivered_twice(w, earlier);
        let (mid, before) = run(w, earlier);
        let (end, action) = next(mid, last);
        let handed = match delivered(action) {
            Some(paths) => paths,
            None => Seq::<Seq<char>>::empty(),
        };
        // The step moves paths from the pending ones to the delivered ones, or
        // adds the event's paths to the pending ones.
        assert(handed + end.batch.paths =~= mid.batch.paths + paths_of(last, root));
        assert(run(w, inputs).1.drop_last() == before);
        assert((delivered_paths(before) + handed) + end.batch.paths =~= (delivered_paths(before)
            + mid.batch.paths) + paths_of(last, root));
        assert((w.batch.paths + recorded_paths(earlier, root)) + paths_of(last, root)
            =~= w.batch.paths + recorded_paths(inputs, root));
    }
}

} // verus!
