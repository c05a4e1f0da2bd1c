//! What holds of the coordinator whatever it is fed: the laws of a single
//! notification, and the laws of whole runs.
//!
//! A run is a coordinator together with a sequence of events given to it one
//! after another, taken or handed back. The laws speak of the coordinator as
//! a value ([`Machine`]), which is what [`SleepCoordinator::step`] is held to:
//! the step leaves the coordinator as [`Machine::after`] says, names the
//! command that is then pending, and hands out what [`Machine::releases`]
//! says.
//!
//! [`SleepCoordinator::step`]: crate::coordinator::SleepCoordinator::step

use vstd::prelude::*;
use crate::bus::SleepNotification;
use crate::coordinator::{Command, Event, Machine};
use crate::hook::{HookOutcome, HookPhase};
use crate::state::{AcquireError, InhibitorState};

verus! {

/// The notification of an imminent sleep.
pub open spec fn going_down<L>() -> Event<L> {
    Event::Notification(SleepNotification { going_down: true })
}

/// The notification of a resume.
pub open spec fn resumed<L>() -> Event<L> {
    Event::Notification(SleepNotification { going_down: false })
}

/// The coordinator once a notification of sleep has been handled to the end:
/// the notification has come and the hook has ended with `outcome`.
pub open spec fn after_sleep<L>(machine: Machine<L>, outcome: HookOutcome) -> Machine<L> {
    machine.after(going_down()).after(Event::HookFinished(outcome))
}

/// The coordinator once a notification of resume has been handled to the end:
/// the notification has come, the hook has ended with `outcome`, and the
/// request for a lock has been answered with `answer`.
pub open spec fn after_resume<L>(
    machine: Machine<L>,
    outcome: HookOutcome,
    answer: Result<L, AcquireError>,
) -> Machine<L> {
    machine.after(resumed()).after(Event::HookFinished(outcome)).after(Event::Acquisition(answer))
}

/// No handle, or the one handle, as a sequence.
pub open spec fn handles<L>(handle: Option<L>) -> Seq<L> {
    match handle {
        Some(lock) => seq![lock],
        None => Seq::empty(),
    }
}

/// The handle that enters the coordinator with `event`: that of a granted
/// lock, where the coordinator was waiting for the answer to its request.
pub open spec fn admits<L>(machine: Machine<L>, event: Event<L>) -> Option<L> {
    match event {
        Event::Acquisition(Ok(lock)) => if machine.expects(event) {
            Some(lock)
        } else {
            None
        },
        _ => None,
    }
}

/// What happens outside the helper because of the coordinator's decisions.
pub enum Effect<L> {
    /// The hook program is run for a phase.
    HookRun(HookPhase),
    /// The power manager is asked for a lock.
    LockRequested,
    /// The lock behind a handle is disposed of.
    LockDisposed(L),
}

/// The effects of one step, in the order in which they happen: first the
/// disposal of the lock that the step lets go, then the work that its command
/// calls for. Waiting, pausing and stopping leave no trace.
pub open spec fn effects_of<L>(machine: Machine<L>, event: Event<L>) -> Seq<Effect<L>> {
    let disposal = match machine.releases(event) {
        Some(lock) => seq![Effect::LockDisposed(lock)],
        None => Seq::empty(),
    };
    let work = if machine.expects(event) {
        match machine.after(event).pending {
            Command::RunHook(phase) => seq![Effect::HookRun(phase)],
            Command::AcquireLock => seq![Effect::LockRequested],
            _ => Seq::empty(),
        }
    } else {
        Seq::empty()
    };
    disposal + work
}

/// The coordinator after a run.
pub open spec fn run<L>(machine: Machine<L>, events: Seq<Event<L>>) -> Machine<L>
    decreases events.len(),
{
    if events.len() == 0 {
        machine
    } else {
        run(machine, events.drop_last()).after(events.last())
    }
}

/// The handles that entered the coordinator during a run, in order.
pub open spec fn admitted<L>(machine: Machine<L>, events: Seq<Event<L>>) -> Seq<L>
    decreases events.len(),
{
    if events.len() == 0 {
        Seq::empty()
    } else {
        admitted(machine, events.drop_last()) + handles(
            admits(run(machine, events.drop_last()), events.last()),
        )
    }
}

/// The handles that a run has to answer for: the one held at the start,
/// followed by those that entered.
pub open spec fn entrusted<L>(machine: Machine<L>, events: Seq<Event<L>>) -> Seq<L> {
    handles(machine.state.held()) + admitted(machine, events)
}

/// The handles that the coordinator handed out for disposal during a run, in
/// order.
pub open spec fn released<L>(machine: Machine<L>, events: Seq<Event<L>>) -> Seq<L>
    decreases events.len(),
{
    if events.len() == 0 {
        Seq::empty()
    } else {
        released(machine, events.drop_last()) + handles(
            run(machine, events.drop_last()).releases(events.last()),
        )
    }
}

/// The effects of a run, in order.
pub open spec fn effects<L>(machine: Machine<L>, events: Seq<Event<L>>) -> Seq<Effect<L>>
    decreases events.len(),
{
    if events.len() == 0 {
        Seq::empty()
    } else {
        effects(machine, events.drop_last()) + effects_of(
            run(machine, events.drop_last()),
            events.last(),
        )
    }
}

/// Handling a notification of sleep never ends with a lock held. Once the
/// hook has ended, however it ended, a coordinator that held a lock has handed
/// it out and waits for the resume; one that held none holds what it held.
/// The lock leaves with the end of the hook and not with the notification.
pub proof fn law_sleep_ends_without_lock<L>(machine: Machine<L>, outcome: HookOutcome)
    requires
        machine.pending == Command::AwaitNotification,
    ensures
        machine.expects(going_down()),
        machine.after(going_down()).expects(Event::HookFinished(outcome)),
        after_sleep(machine, outcome) == (Machine {
            state: machine.state.released(),
            pending: Command::AwaitNotification,
        }),
        !(after_sleep(machine, outcome).state is Holding),
        machine.state is Holding ==> after_sleep(machine, outcome).state is WaitingForResume,
        !(machine.state is Holding) ==> after_sleep(machine, outcome).state == machine.state,
        machine.releases(going_down()) is None,
        machine.after(going_down()).releases(Event::HookFinished(outcome)) == machine.state.held(),
{
}

/// Handling a notification of resume never ends in wait for a resume. Once the
/// hook has ended, however it ended, and the request for a lock is answered,
/// the coordinator holds the granted lock, or nothing where none was granted,
/// whatever it held before; what it held before is handed out with the
/// answer and not earlier.
pub proof fn law_resume_ends_holding_or_unlocked<L>(
    machine: Machine<L>,
    outcome: HookOutcome,
    answer: Result<L, AcquireError>,
)
    requires
        machine.pending == Command::AwaitNotification,
    ensures
        machine.expects(resumed()),
        machine.after(resumed()).expects(Event::HookFinished(outcome)),
        machine.after(resumed()).after(Event::HookFinished(outcome)).expects(
            Event::Acquisition(answer),
        ),
        after_resume(machine, outcome, answer) == (Machine {
            state: InhibitorState::acquired(answer),
            pending: Command::AwaitNotification,
        }),
        !(after_resume(machine, outcome, answer).state is WaitingForResume),
        answer is Ok ==> after_resume(machine, outcome, answer).state == InhibitorState::Holding(
            answer->Ok_0,
        ),
        answer is Err ==> after_resume(machine, outcome, answer).state
            == InhibitorState::<L>::NoLock,
        machine.releases(resumed()) is None,
        machine.after(resumed()).releases(Event::HookFinished(outcome)) is None,
        machine.after(resumed()).after(Event::HookFinished(outcome)).releases(
            Event::Acquisition(answer),
        ) == machine.state.held(),
{
}

/// The hook comes first. A notification changes nothing of the inhibitor and
/// calls for its hook. While that hook is pending, nothing but its end moves
/// the coordinator: no other event makes it let a lock go or ask for one. The
/// end of the hook before sleep then lets the held lock go; the end of the
/// hook at resume then calls for the request, with the inhibitor untouched.
pub proof fn law_hook_comes_first<L>(machine: Machine<L>, notification: SleepNotification)
    requires
        machine.pending == Command::AwaitNotification,
    ensures
        machine.expects(Event::Notification(notification)),
        machine.releases(Event::Notification(notification)) is None,
        machine.after(Event::Notification(notification)) == (Machine {
            state: machine.state,
            pending: Command::RunHook(HookPhase::of(notification)),
        }),
        forall|other: Event<L>|
            !(other is HookFinished) ==> {
                &&& #[trigger] machine.after(Event::Notification(notification)).after(other)
                    == machine.after(Event::Notification(notification))
                &&& machine.after(Event::Notification(notification)).releases(other) is None
            },
        forall|outcome: HookOutcome|
            notification.going_down ==> {
                &&& #[trigger] machine.after(Event::Notification(notification)).releases(
                    Event::HookFinished(outcome),
                ) == machine.state.held()
                &&& machine.after(Event::Notification(notification)).after(
                    Event::HookFinished(outcome),
                ).pending == Command::AwaitNotification
            },
        forall|outcome: HookOutcome|
            !notification.going_down ==> {
                &&& #[trigger] machine.after(Event::Notification(notification)).after(
                    Event::HookFinished(outcome),
                ) == (Machine { state: machine.state, pending: Command::AcquireLock })
                &&& machine.after(Event::Notification(notification)).releases(
                    Event::HookFinished(outcome),
                ) is None
            },
{
}

/// In every run that starts in wait for a notification, a lock is asked for
/// only directly after the hook has been run for the resume, and a lock is
/// disposed of only directly after the hook has been run for the sleep, or
/// directly after a lock has been asked for. And while the result of a hook
/// or of a request is pending, that hook or request is the latest effect:
/// nothing has happened since.
pub proof fn law_effects_follow_hooks<L>(machine: Machine<L>, events: Seq<Event<L>>)
    requires
        machine.pending == Command::AwaitNotification,
    ensures
        forall|i: int|
            0 <= i < effects(machine, events).len() && #[trigger] effects(machine, events)[i]
                == Effect::<L>::LockRequested ==> i > 0 && effects(machine, events)[i - 1]
                == Effect::<L>::HookRun(HookPhase::Post),
        forall|i: int|
            0 <= i < effects(machine, events).len() && (#[trigger] effects(
                machine,
                events,
            )[i]) is LockDisposed ==> i > 0 && (effects(machine, events)[i - 1]
                == Effect::<L>::HookRun(HookPhase::Pre) || effects(machine, events)[i - 1]
                == Effect::<L>::LockRequested),
        run(machine, events).pending is RunHook ==> effects(machine, events).len() > 0
            && effects(machine, events).last() == Effect::<L>::HookRun(
            run(machine, events).pending->RunHook_0,
        ),
        run(machine, events).pending == Command::AcquireLock ==> effects(machine, events).len() > 0
            && effects(machine, events).last() == Effect::<L>::LockRequested,
    decreases events.len(),
{
    if events.len() > 0 {
        law_effects_follow_hooks(machine, events.drop_last());
    }
}

/// No handle is lost and none is made up. In every run, the handles
/// entrusted to the coordinator are, in this order, the handles that it
/// handed out for disposal and the handle that it holds at the end.
pub proof fn law_locks_are_conserved<L>(machine: Machine<L>, events: Seq<Event<L>>)
    ensures
        entrusted(machine, events) == released(machine, events) + handles(
            run(machine, events).state.held(),
        ),
    decreases events.len(),
{
    if events.len() > 0 {
        let earlier = events.drop_last();
        law_locks_are_conserved(machine, earlier);
        // The last step keeps the balance: what it takes in and what was held
        // before is what it hands out and what is held after.
        let before = run(machine, earlier);
        assert(handles(before.state.held()) + handles(admits(before, events.last())) == handles(
            before.releases(events.last()),
        ) + handles(before.after(events.last()).state.held()));
    }
}

/// No lock is disposed of twice. In every run, no handle is handed out for
/// disposal more often than it was entrusted to the coordinator. So where the
/// entrusted handles are all different, which they are where each stands for
/// a lock of its own, the handles handed out are all different too, and none
/// of them is still held at the end.
pub proof fn law_no_lock_is_released_twice<L>(machine: Machine<L>, events: Seq<Event<L>>)
    ensures
        forall|handle: L|
            #[trigger] released(machine, events).to_multiset().count(handle) <= entrusted(
                machine,
                events,
            ).to_multiset().count(handle),
        entrusted(machine, events).no_duplicates() ==> released(machine, events).no_duplicates(),
        entrusted(machine, events).no_duplicates() ==> forall|i: int|
            0 <= i < released(machine, events).len() ==> run(machine, events).state.held() != Some(
                #[trigger] released(machine, events)[i],
            ),
{
    broadcast use vstd::multiset::group_multiset_axioms;

    law_locks_are_conserved(machine, events);
    let out = released(machine, events);
    let kept = handles(run(machine, events).state.held());
    let all = out + kept;
    vstd::seq_lib::lemma_multiset_commutative(out, kept);
    if all.no_duplicates() {
        assert forall|i: int, j: int|
            0 <= i < out.len() && 0 <= j < out.len() && i != j implies out[i] != out[j] by {
            assert(all[i] == out[i] && all[j] == out[j]);
        }
        assert forall|i: int| 0 <= i < out.len() implies run(machine, events).state.held() != Some(
            #[trigger] out[i],
        ) by {
            if run(machine, events).state.held() is Some {
                assert(all[i] == out[i]);
                assert(all[out.len() as int] == kept[0]);
            }
        }
    }
}

/// A refused lock is survived. From then on the coordinator holds nothing and
/// waits for a notification as before: the next notification is taken, sleep
/// is handled with nothing to let go, and the next resume asks for a lock
/// again and keeps the one that is granted. A helper that was refused its
/// first lock starts out in the same way.
pub proof fn law_refusal_is_survived<L>(
    machine: Machine<L>,
    error: AcquireError,
    notification: SleepNotification,
    outcome: HookOutcome,
    lock: L,
)
    requires
        machine.pending == Command::AcquireLock,
    ensures
        machine.expects(Event::Acquisition(Err(error))),
        machine.after(Event::Acquisition(Err(error))) == Machine::<L>::initial(Err(error)),
        Machine::<L>::initial(Err(error)) == (Machine {
            state: InhibitorState::<L>::NoLock,
            pending: Command::AwaitNotification,
        }),
        Machine::<L>::initial(Err(error)).expects(Event::Notification(notification)),
        after_sleep(Machine::<L>::initial(Err(error)), outcome) == Machine::<L>::initial(
            Err(error),
        ),
        Machine::<L>::initial(Err(error)).after(going_down()).releases(
            Event::HookFinished(outcome),
        ) is None,
        after_resume(Machine::<L>::initial(Err(error)), outcome, Ok(lock)).state
            == InhibitorState::Holding(lock),
{
}

/// Faults of the stream change nothing of what is held. An error in place of
/// a message is passed over. The end of the stream calls for a pause, and
/// after the pause the coordinator is where it was.
pub proof fn law_stream_faults_are_absorbed<L>(machine: Machine<L>)
    requires
        machine.pending == Command::AwaitNotification,
    ensures
        machine.expects(Event::ReceiveError),
        machine.after(Event::ReceiveError) == machine,
        machine.releases(Event::ReceiveError) is None,
        machine.expects(Event::StreamEnded),
        machine.after(Event::StreamEnded) == (Machine {
            state: machine.state,
            pending: Command::Pause,
        }),
        machine.releases(Event::StreamEnded) is None,
        machine.after(Event::StreamEnded).expects(Event::PauseElapsed),
        machine.after(Event::StreamEnded).after(Event::PauseElapsed) == machine,
        machine.after(Event::StreamEnded).releases(Event::PauseElapsed) is None,
{
}

/// A message that is no notification ends the helper for good. The
/// coordinator stops with what it held; whatever is reported to it after
/// that, it does not move, hands out no lock and calls for no work.
pub proof fn law_malformed_payload_is_final<L>(machine: Machine<L>, events: Seq<Event<L>>)
    requires
        machine.pending == Command::AwaitNotification,
    ensures
        machine.expects(Event::MalformedPayload),
        machine.releases(Event::MalformedPayload) is None,
        machine.after(Event::MalformedPayload) == (Machine {
            state: machine.state,
            pending: Command::Stop,
        }),
        run(machine.after(Event::MalformedPayload), events) == machine.after(
            Event::MalformedPayload,
        ),
        released(machine.after(Event::MalformedPayload), events) == Seq::<L>::empty(),
        effects(machine.after(Event::MalformedPayload), events) == Seq::<Effect<L>>::empty(),
    decreases events.len(),
{
    if events.len() > 0 {
        law_malformed_payload_is_final(machine, events.drop_last());
    }
}

} // verus!
