//! What holds of every session: who hears of what, and what the runtime is
//! told.

use vstd::prelude::*;

use crate::command::CommandModel;
use crate::context::{ContextModel, DisplayMetrics, RetryModel};
use crate::device::DeviceRequestModel;
use crate::session;
use crate::session::SessionModel;
use crate::task::{TaskError, TaskId, TaskModel, TaskOutcomeModel};
use crate::ui::ScreenModel;

verus! {

// ---------------------------------------------------------------------------
// Hearing of tasks.

/// Every outcome that is reported to the application frees exactly one slot,
/// however the task ended: the context opened for the report has one task fewer
/// in flight than the session had, or none.
pub proof fn law_a_report_frees_one_slot(
    session: SessionModel,
    task: TaskId,
    outcome: TaskOutcomeModel,
)
    requires
        session.delivery(task, outcome) is Report,
    ensures
        ({
            let heard = session.having_heard(task, outcome).opened();
            &&& session.in_flight > 0 ==> heard.in_flight == session.in_flight - 1
            &&& session.in_flight == 0 ==> heard.in_flight == 0
            &&& heard.commands.len() == 0
            &&& heard.retrying.len() == 0
            &&& heard.next_task == session.next_task
            &&& heard.metrics == session.metrics
        }),
{
}

/// Work that is tried again keeps its slot: nothing is freed, and one task
/// starts, under the next number, in place of the one that was heard of.
pub proof fn law_a_second_attempt_keeps_its_slot(
    session: SessionModel,
    task: TaskId,
    outcome: TaskOutcomeModel,
)
    requires
        session.delivery(task, outcome) is Quiet,
        !session.settled,
        session.next_task < u32::MAX,
    ensures
        ({
            let heard = session.having_heard(task, outcome);
            let told = session.delivery(task, outcome)->Quiet_0;
            &&& heard.opened().in_flight == session.in_flight
            &&& heard.next_task == session.next_task + 1
            &&& told.len() == 1
            &&& told[0] matches CommandModel::Spawn { task: started, work }
            &&& started.0 == session.next_task + 1
            &&& session.napping.contains_key(task.0) ==> work == session.napping[task.0].work
            &&& !session.napping.contains_key(task.0) ==> work == TaskModel::Sleep { seconds: 3 }
        }),
{
}

/// The application is kept from hearing of a task in two cases alone: a nap that
/// was not cancelled ended, or work that may be tried again failed because the
/// reader was offline, the host unreachable or the time over.
pub proof fn law_only_passing_failures_are_kept_quiet(
    session: SessionModel,
    task: TaskId,
    outcome: TaskOutcomeModel,
)
    ensures
        ({
            let held = if session.attempts.contains_key(task.0) {
                session.attempts[task.0]
            } else {
                task
            };
            let passing = outcome == TaskOutcomeModel::Failed(TaskError::Offline) || outcome
                == TaskOutcomeModel::Failed(TaskError::Unreachable) || outcome
                == TaskOutcomeModel::Failed(TaskError::TimedOut);
            session.delivery(task, outcome) is Quiet <==> if session.napping.contains_key(task.0) {
                outcome != TaskOutcomeModel::Cancelled
            } else {
                passing && session.retrying.contains_key(held.0)
            }
        }),
{
}

/// What is reported is what happened, under the identifier that the application
/// holds: that of the work a nap is about, of the work a second attempt is of,
/// or otherwise that of the task itself.
pub proof fn law_reports_say_what_happened(
    session: SessionModel,
    task: TaskId,
    outcome: TaskOutcomeModel,
)
    requires
        session.delivery(task, outcome) is Report,
    ensures
        ({
            let report = session.delivery(task, outcome);
            &&& report->outcome == outcome
            &&& session.napping.contains_key(task.0) ==> report->task
                == session.napping[task.0].task
            &&& !session.napping.contains_key(task.0) && session.attempts.contains_key(task.0)
                ==> report->task == session.attempts[task.0]
            &&& !session.napping.contains_key(task.0) && !session.attempts.contains_key(task.0)
                ==> report->task == task
        }),
{
}

/// Hearing of a task touches nothing but what is known of tasks, and of those
/// nothing that is not about this one.
pub proof fn law_hearing_leaves_the_rest_alone(
    session: SessionModel,
    task: TaskId,
    outcome: TaskOutcomeModel,
    other: u32,
)
    requires
        other != task.0,
        !session.attempts.contains_key(task.0) || other != session.attempts[task.0].0,
        session.next_task < u32::MAX,
        other != session.next_task + 1,
    ensures
        ({
            let heard = session.having_heard(task, outcome);
            &&& heard.metrics == session.metrics
            &&& heard.started == session.started
            &&& heard.pending == session.pending
            &&& heard.pending_stores == session.pending_stores
            &&& heard.in_flight == session.in_flight
            &&& heard.displayed == session.displayed
            &&& heard.retrying.contains_key(other) == session.retrying.contains_key(other)
            &&& session.retrying.contains_key(other) ==> heard.retrying[other]
                == session.retrying[other]
            &&& heard.napping.contains_key(other) == session.napping.contains_key(other)
            &&& session.napping.contains_key(other) ==> heard.napping[other]
                == session.napping[other]
            &&& heard.attempts.contains_key(other) == session.attempts.contains_key(other)
            &&& session.attempts.contains_key(other) ==> heard.attempts[other]
                == session.attempts[other]
        }),
{
}

/// Once a task was heard of, nothing stands in for it under its own number any
/// more, and work that was reported is not tried again.
pub proof fn law_what_was_heard_is_over(
    session: SessionModel,
    task: TaskId,
    outcome: TaskOutcomeModel,
)
    requires
        task.0 <= session.next_task < u32::MAX,
    ensures
        ({
            let heard = session.having_heard(task, outcome);
            &&& !heard.napping.contains_key(task.0)
            &&& !session.napping.contains_key(task.0) ==> !heard.attempts.contains_key(task.0)
            &&& session.delivery(task, outcome) is Report && !session.napping.contains_key(task.0)
                ==> !heard.retrying.contains_key(session.delivery(task, outcome)->task.0)
        }),
{
}

// ---------------------------------------------------------------------------
// Callbacks.

/// A session starts with nothing asked for, nothing running and nothing on the
/// panel, and its first callback gets a context that says so.
pub proof fn law_a_session_starts_with_nothing(metrics: DisplayMetrics)
    ensures
        ({
            let session = SessionModel::fresh(metrics);
            &&& !session.started
            &&& session.pending.len() == 0
            &&& session.pending_stores == 0
            &&& session.displayed is None
            &&& session.opened().commands.len() == 0
            &&& session.opened().next_task == 0
            &&& session.opened().in_flight == 0
            &&& session.opened().metrics == metrics
            &&& session.opened().retrying.len() == 0
            &&& forall|number: u32| !#[trigger] session.retrying.contains_key(number)
            &&& forall|number: u32| !#[trigger] session.napping.contains_key(number)
            &&& forall|number: u32| !#[trigger] session.attempts.contains_key(number)
        }),
{
}

/// What a callback did with its tasks is what the next callback finds: the
/// numbers go on where they stopped and as many are in flight, once.
pub proof fn law_the_next_callback_goes_on(session: SessionModel, left: ContextModel)
    ensures
        ({
            let next = session.after(left).opened();
            &&& next.next_task == left.next_task
            &&& next.in_flight == left.in_flight
            &&& next.metrics == session.metrics
            &&& next.commands.len() == 0
            &&& next.retrying.len() == 0
            &&& session.after(left).started == session.started
            &&& session.after(left).napping == session.napping
            &&& session.after(left).attempts == session.attempts
        }),
{
}

/// A callback that ran for up to a quarter of a second is not reported; one that
/// ran for longer is, before anything that it asked for, and nothing that it
/// asked for is lost.
pub proof fn law_overruns_are_reported(session: SessionModel, left: ContextModel, nanos: u128)
    ensures
        ({
            let told = session.told(left, nanos);
            let sent = session.sent(left.commands);
            &&& nanos <= 250_000_000 ==> told == sent
            &&& nanos > 250_000_000 ==> {
                &&& told.len() == sent.len() + 1
                &&& told[0] matches CommandModel::Log { level, message }
                &&& level is Warn
                &&& told.skip(1) == sent
            }
        }),
{
    let told = session.told(left, nanos);
    if nanos > 250_000_000 {
        assert(told.skip(1) =~= session.sent(left.commands));
    }
}

/// Nothing but a cancellation is reworded on its way to the runtime, and that
/// only where something stands in for the task it names.
pub proof fn law_only_cancellations_are_reworded(session: SessionModel, command: CommandModel)
    ensures
        !(command is Cancel) ==> session.translated(command) == command,
        command matches CommandModel::Cancel(held) ==> {
            &&& session.translated(command) is Cancel
            &&& session.translated(command) != command ==> {
                let actual = session.translated(command)->Cancel_0;
                ||| session.attempts.contains_key(actual.0) && session.attempts[actual.0] == held
                ||| session.napping.contains_key(actual.0) && session.napping[actual.0].task
                    == held
            }
            &&& (forall|number: u32| #[trigger]
                session.attempts.contains_key(number) ==> session.attempts[number] != held) && (
            forall|number: u32| #[trigger]
                session.napping.contains_key(number) ==> session.napping[number].task != held)
                ==> session.translated(command) == command
        },
{
    if let CommandModel::Cancel(held) = command {
        if session::first_for(session.attempts, held) is Some {
            let number = choose|number: u32| session::is_first(session.attempts, held, number);
            assert(session::stands_in(session.attempts, held, number));
        }
        let naps = session::awaited(session.napping);
        if session::first_for(naps, held) is Some {
            let number = choose|number: u32| session::is_first(naps, held, number);
            assert(session::stands_in(naps, held, number));
        }
    }
}

/// A cancellation reaches a second attempt under the number that the attempt
/// has, before any nap.
pub proof fn law_cancellations_reach_the_attempt(
    session: SessionModel,
    held: TaskId,
    number: u32,
)
    requires
        session.attempts.contains_key(number),
        session.attempts[number] == held,
        forall|other: u32| #[trigger]
            session.attempts.contains_key(other) && other != number ==> session.attempts[other]
                != held,
    ensures
        session.translated(CommandModel::Cancel(held)) == CommandModel::Cancel(TaskId(number)),
        session.gives_up(CommandModel::Cancel(held), held.0),
{
    assert(session::stands_in(session.attempts, held, number));
    assert(session::is_first(session.attempts, held, number));
    let first = choose|first: u32| session::is_first(session.attempts, held, first);
    assert(session::is_first(session.attempts, held, first));
}

/// What changes nothing on the panel and cancels nothing reaches the runtime
/// just as it was asked for, in the order it was asked for.
pub proof fn law_commands_reach_the_runtime(session: SessionModel, commands: Seq<CommandModel>)
    requires
        forall|i: int|
            0 <= i < commands.len() ==> !(#[trigger] commands[i] is SetScreen) && !(commands[i]
                is Cancel),
    ensures
        session.sent(commands) == commands,
{
    assert(session.translations(commands) =~= commands);
    lemma_nothing_repeats(commands, session.displayed);
}

proof fn lemma_nothing_repeats(commands: Seq<CommandModel>, displayed: Option<ScreenModel>)
    requires
        forall|i: int| 0 <= i < commands.len() ==> !(#[trigger] commands[i] is SetScreen),
    ensures
        session::without_repeats(commands, displayed) == commands,
    decreases commands.len(),
{
    if commands.len() > 0 {
        lemma_nothing_repeats(
            commands.drop_first(),
            session::showing(commands[0], displayed),
        );
        assert(seq![commands[0]] + commands.drop_first() =~= commands);
    } else {
        assert(commands =~= Seq::empty());
    }
}

// ---------------------------------------------------------------------------
// The panel.

/// What each command does to what is believed to be on the panel: a screen is
/// then showing; leaving, launching and handing over pixels make it unknown; and
/// nothing else changes it.
pub proof fn law_what_is_showing(
    commands: Seq<CommandModel>,
    last: CommandModel,
    displayed: Option<ScreenModel>,
)
    ensures
        ({
            let before = session::finally_showing(commands, displayed);
            let after = session::finally_showing(commands.push(last), displayed);
            match last {
                CommandModel::SetScreen(screen) => after == Some(screen),
                CommandModel::Launch(_) => after is None,
                CommandModel::Exit => after is None,
                CommandModel::PutPicture { .. } => after is None,
                _ => after == before,
            }
        }),
    decreases commands.len(),
{
    let all = commands.push(last);
    if commands.len() > 0 {
        assert(all.drop_first() =~= commands.drop_first().push(last));
        law_what_is_showing(
            commands.drop_first(),
            last,
            session::showing(commands[0], displayed),
        );
    } else {
        assert(all.drop_first() =~= Seq::empty());
        reveal_with_fuel(session::finally_showing, 2);
    }
}

/// A command is left out exactly when it shows what is showing by then.
pub proof fn law_a_command_is_left_out_when_it_repeats(
    commands: Seq<CommandModel>,
    last: CommandModel,
    displayed: Option<ScreenModel>,
)
    ensures
        ({
            let by_then = session::finally_showing(commands, displayed);
            let earlier = session::without_repeats(commands, displayed);
            let all = session::without_repeats(commands.push(last), displayed);
            &&& last is SetScreen && by_then == Some(last->SetScreen_0) ==> all == earlier
            &&& !(last is SetScreen) || by_then != Some(last->SetScreen_0) ==> all == earlier.push(
                last,
            )
        }),
    decreases commands.len(),
{
    let all = commands.push(last);
    if commands.len() > 0 {
        let rest = commands.drop_first();
        let shown = session::showing(commands[0], displayed);
        assert(all.drop_first() =~= rest.push(last));
        law_a_command_is_left_out_when_it_repeats(rest, last, shown);
        let earlier = session::without_repeats(rest, shown);
        assert(seq![commands[0]] + earlier.push(last) =~= (seq![commands[0]] + earlier).push(last));
    } else {
        assert(commands =~= Seq::empty());
        assert(all.drop_first() =~= Seq::empty());
        reveal_with_fuel(session::without_repeats, 2);
        assert(seq![last] + Seq::<CommandModel>::empty() =~= Seq::empty().push(last));
    }
}

/// When it is unknown what the panel is showing, any screen is sent, and nothing
/// else was forgotten.
pub proof fn law_an_unseen_screen_is_sent(session: SessionModel, screen: ScreenModel)
    ensures
        session.unseen().sent(seq![CommandModel::SetScreen(screen)]) == seq![
            CommandModel::SetScreen(screen),
        ],
        session.unseen() == (SessionModel { displayed: None, ..session }),
{
    let commands = seq![CommandModel::SetScreen(screen)];
    assert(session.unseen().translations(commands) =~= commands);
    law_a_command_is_left_out_when_it_repeats(
        Seq::empty(),
        CommandModel::SetScreen(screen),
        None,
    );
    assert(Seq::empty().push(CommandModel::SetScreen(screen)) =~= commands);
}

// ---------------------------------------------------------------------------
// Answers.

/// Each device request is awaited in the order it was made, and nothing else is.
pub proof fn law_requests_are_awaited_in_order(commands: Seq<CommandModel>, last: CommandModel)
    ensures
        session::device_requests(Seq::empty()) == Seq::<DeviceRequestModel>::empty(),
        last matches CommandModel::Device(request) ==> session::device_requests(commands.push(last))
            == session::device_requests(commands).push(request),
        !(last is Device) ==> session::device_requests(commands.push(last))
            == session::device_requests(commands),
{
    assert(commands.push(last).drop_last() =~= commands);
}

/// Each store request is counted once, and nothing else is.
pub proof fn law_store_requests_are_counted(
    commands: Seq<CommandModel>,
    last: CommandModel,
    pending: usize,
)
    requires
        session::stores_after(commands, pending) < usize::MAX,
    ensures
        session::stores_after(Seq::empty(), pending) == pending,
        last is Store ==> session::stores_after(commands.push(last), pending)
            == session::stores_after(commands, pending) + 1,
        !(last is Store) ==> session::stores_after(commands.push(last), pending)
            == session::stores_after(commands, pending),
{
    assert(commands.push(last).drop_last() =~= commands);
}

/// What a callback asked of the device and the store is awaited after it, behind
/// what was awaited before.
pub proof fn law_what_was_asked_is_awaited(session: SessionModel, left: ContextModel)
    ensures
        session.after(left).pending == session.pending + session::device_requests(
            session.sent(left.commands),
        ),
        session.after(left).pending_stores == session::stores_after(
            session.sent(left.commands),
            session.pending_stores,
        ),
{
}

/// An answer is for the oldest request: that one is no longer awaited, the
/// others are, and nothing else changes.
pub proof fn law_answers_are_for_the_oldest(
    session: SessionModel,
    oldest: DeviceRequestModel,
    others: Seq<DeviceRequestModel>,
)
    requires
        session.pending == seq![oldest] + others,
    ensures
        session.request_answered() == (SessionModel { pending: others, ..session }),
{
    assert(session.pending.drop_first() =~= others);
}

/// An answer nobody awaits changes nothing, and any other makes one fewer
/// awaited.
pub proof fn law_an_answer_is_counted_once(session: SessionModel)
    ensures
        session.pending.len() == 0 ==> session.request_answered() == session,
        session.pending_stores == 0 ==> session.store_answered() == session,
        session.pending_stores > 0 ==> session.store_answered() == (SessionModel {
            pending_stores: (session.pending_stores - 1) as usize,
            ..session
        }),
{
}

// ---------------------------------------------------------------------------
// Second attempts.

proof fn lemma_put_by(
    retrying: Map<u32, TaskModel>,
    more: Seq<RetryModel>,
    i: int,
)
    requires
        0 <= i < more.len(),
        forall|j: int| i < j < more.len() ==> (#[trigger] more[j]).task.0 != more[i].task.0,
    ensures
        session::put_by(retrying, more).contains_key(more[i].task.0),
        session::put_by(retrying, more)[more[i].task.0] == more[i].work,
    decreases more.len(),
{
    if i < more.len() - 1 {
        assert(more.drop_last()[i] == more[i]);
        lemma_put_by(retrying, more.drop_last(), i);
    }
}

/// Work that was started as worth a second attempt is kept for one, under the
/// number it was started with, unless the same callback gave it up.
pub proof fn law_work_worth_retrying_is_kept(session: SessionModel, left: ContextModel, i: int)
    requires
        0 <= i < left.retrying.len(),
        forall|j: int|
            i < j < left.retrying.len() ==> (#[trigger] left.retrying[j]).task.0
                != left.retrying[i].task.0,
        forall|j: int|
            0 <= j < left.commands.len() ==> #[trigger] left.commands[j] != CommandModel::Cancel(
                left.retrying[i].task,
            ),
    ensures
        session.after(left).retrying.contains_key(left.retrying[i].task.0),
        session.after(left).retrying[left.retrying[i].task.0] == left.retrying[i].work,
{
    lemma_put_by(session.retrying, left.retrying, i);
    let number = left.retrying[i].task.0;
    assert(!session.given_up(left.commands).contains(number)) by {
        if session.given_up(left.commands).contains(number) {
            let j = choose|j: int|
                0 <= j < left.commands.len() && session.gives_up(
                    #[trigger] left.commands[j],
                    number,
                );
            assert(left.commands[j] == CommandModel::Cancel(TaskId(number)));
        }
    }
}

/// A callback that starts nothing worth a second attempt and cancels nothing
/// leaves the work that is kept for one as it was.
pub proof fn law_kept_work_stays_kept(session: SessionModel, left: ContextModel)
    requires
        left.retrying.len() == 0,
        forall|j: int| 0 <= j < left.commands.len() ==> !(#[trigger] left.commands[j] is Cancel),
    ensures
        session.after(left).retrying == session.retrying,
{
    assert(session.given_up(left.commands) =~= Set::empty());
    assert(session.after(left).retrying =~= session.retrying);
}

/// Work whose second attempt is under way is not tried again once it was
/// cancelled.
pub proof fn law_cancelled_work_is_given_up(
    session: SessionModel,
    left: ContextModel,
    held: TaskId,
    number: u32,
    i: int,
)
    requires
        0 <= i < left.commands.len(),
        left.commands[i] == CommandModel::Cancel(held),
        session.attempts.contains_key(number),
        session.attempts[number] == held,
        forall|other: u32| #[trigger]
            session.attempts.contains_key(other) && other != number ==> session.attempts[other]
                != held,
    ensures
        !session.after(left).retrying.contains_key(held.0),
{
    law_cancellations_reach_the_attempt(session, held, number);
    assert(session.given_up(left.commands).contains(held.0));
}

} // verus!
