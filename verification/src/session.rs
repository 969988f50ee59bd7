//! What has been asked for and not answered yet.

use std::collections::{BTreeMap, VecDeque};
use vstd::prelude::*;

use crate::command::{Command, CommandModel};
use crate::context;
use crate::context::{Context, ContextModel, DisplayMetrics, Retry, RetryModel};
use crate::device::{DeviceRequest, DeviceRequestModel, LogLevel};
use crate::item;
use crate::name;
use crate::name::decimal;
use crate::same::Same;
use crate::task::{Task, TaskId, TaskModel, TaskOutcome, TaskOutcomeModel};
use crate::ui::{Screen, ScreenModel};
use crate::wire;

verus! {

/// The longest a callback may run, in milliseconds, before it is reported. A
/// callback that blocks holds the only thread that can repaint the screen.
pub const CALLBACK_DEADLINE: u64 = 250;

/// How long to wait before failed work is tried a second time: enough for a
/// radio to come up.
pub const RETRY_DELAY_SECONDS: u32 = 3;

/// Everything one application has asked for that the runtime has not answered.
#[derive(Debug)]
pub struct Session {
    metrics: DisplayMetrics,
    started: bool,
    pending: VecDeque<DeviceRequest>,
    pending_stores: usize,
    next_task: u32,
    in_flight: usize,
    settled: bool,
    retrying: BTreeMap<u32, Task>,
    napping: BTreeMap<u32, Retry>,
    attempts: BTreeMap<u32, TaskId>,
    displayed: Option<Screen>,
}

/// What a [`Session`] holds.
pub struct SessionModel {
    pub metrics: DisplayMetrics,
    /// Whether the application was told to start.
    pub started: bool,
    /// The device requests still awaiting an answer, oldest first.
    pub pending: Seq<DeviceRequestModel>,
    /// How many store requests are still awaiting an answer.
    pub pending_stores: usize,
    /// The last task identifier that was handed out.
    pub next_task: u32,
    pub in_flight: usize,
    /// Whether a task was heard of that the next context does not count yet.
    pub settled: bool,
    /// Work that has not been given its second chance, by the number the
    /// application holds.
    pub retrying: Map<u32, TaskModel>,
    /// Naps between a first failure and a second attempt, each with the task
    /// the application is waiting on and the work to try again.
    pub napping: Map<u32, RetryModel>,
    /// Second attempts, with the task the application is waiting on.
    pub attempts: Map<u32, TaskId>,
    /// The screen the runtime is believed to be showing.
    pub displayed: Option<ScreenModel>,
}

impl View for Session {
    type V = SessionModel;

    closed spec fn view(&self) -> SessionModel {
        SessionModel {
            metrics: self.metrics,
            started: self.started,
            pending: item::models(self.pending@),
            pending_stores: self.pending_stores,
            next_task: self.next_task,
            in_flight: self.in_flight,
            settled: self.settled,
            retrying: self.retrying@.map_values(|work: Task| work@),
            napping: self.napping@.map_values(|nap: Retry| nap@),
            attempts: self.attempts@,
            displayed: wire::model_of(self.displayed),
        }
    }
}

// ---------------------------------------------------------------------------
// Which task is which.

/// Whether the task of a number is one that stands in for `held`.
pub open spec fn stands_in(stand_ins: Map<u32, TaskId>, held: TaskId, number: u32) -> bool {
    stand_ins.contains_key(number) && stand_ins[number] == held
}

/// Whether a number is the first that stands in for `held`.
pub open spec fn is_first(stand_ins: Map<u32, TaskId>, held: TaskId, number: u32) -> bool {
    &&& stands_in(stand_ins, held, number)
    &&& forall|other: u32| #[trigger] stands_in(stand_ins, held, other) ==> number <= other
}

/// The first task that stands in for `held`.
pub open spec fn first_for(stand_ins: Map<u32, TaskId>, held: TaskId) -> Option<TaskId> {
    if exists|number: u32| is_first(stand_ins, held, number) {
        Some(TaskId(choose|number: u32| is_first(stand_ins, held, number)))
    } else {
        None
    }
}

/// The tasks that naps are about.
pub open spec fn awaited(napping: Map<u32, RetryModel>) -> Map<u32, TaskId> {
    napping.map_values(|nap: RetryModel| nap.task)
}

impl SessionModel {
    /// The identifier the runtime knows a task by, where it is not the one the
    /// application holds.
    pub open spec fn live_attempt(self, held: TaskId) -> Option<TaskId> {
        match first_for(self.attempts, held) {
            Some(actual) => Some(actual),
            None => first_for(awaited(self.napping), held),
        }
    }

    /// A command as the runtime understands it: what is cancelled is named by
    /// the identifier that the runtime holds.
    pub open spec fn translated(self, command: CommandModel) -> CommandModel {
        match command {
            CommandModel::Cancel(held) => match self.live_attempt(held) {
                Some(actual) => CommandModel::Cancel(actual),
                None => command,
            },
            _ => command,
        }
    }

    /// Whether a command gives up on a second attempt at this work.
    pub open spec fn gives_up(self, command: CommandModel, number: u32) -> bool {
        command matches CommandModel::Cancel(held) && held.0 == number && self.live_attempt(held)
            is Some
    }
}

fn find_attempt(attempts: &BTreeMap<u32, TaskId>, held: TaskId) -> (found: Option<TaskId>)
    ensures
        found == first_for(attempts@, held),
{
    let mut best: Option<u32> = None;
    for (number, waiting_on) in entries: attempts.iter()
        invariant
            forall|i: int|
                0 <= i < entries.seq().len() ==> attempts@.contains_key(
                    *(#[trigger] entries.seq()[i]).0,
                ) && attempts@[*entries.seq()[i].0] == *entries.seq()[i].1,
            forall|key: u32| #[trigger]
                attempts@.contains_key(key) ==> entries.seq().contains((&key, &attempts@[key])),
            best is Some ==> stands_in(attempts@, held, best->0),
            forall|i: int|
                0 <= i < entries.index() && *(#[trigger] entries.seq()[i]).1 == held ==>
                    best is Some
                    && best->0 <= *entries.seq()[i].0,
    {
        if waiting_on.0 == held.0 {
            let lower = match best {
                None => true,
                Some(so_far) => *number < so_far,
            };
            if lower {
                best = Some(*number);
            }
        }
    }
    match best {
        None => None,
        Some(number) => {
            assert(is_first(attempts@, held, number));
            Some(TaskId(number))
        },
    }
}

fn find_nap(napping: &BTreeMap<u32, Retry>, held: TaskId) -> (found: Option<TaskId>)
    ensures
        found == first_for(awaited(napping@.map_values(|nap: Retry| nap@)), held),
{
    let ghost stand_ins = awaited(napping@.map_values(|nap: Retry| nap@));
    assert forall|key: u32| #[trigger] stand_ins.contains_key(key) implies napping@.contains_key(key)
        && stand_ins[key] == napping@[key].task by {}
    let mut best: Option<u32> = None;
    for (number, nap) in entries: napping.iter()
        invariant
            stand_ins == awaited(napping@.map_values(|nap: Retry| nap@)),
            forall|i: int|
                0 <= i < entries.seq().len() ==> napping@.contains_key(
                    *(#[trigger] entries.seq()[i]).0,
                ) && napping@[*entries.seq()[i].0] == *entries.seq()[i].1,
            forall|key: u32| #[trigger]
                napping@.contains_key(key) ==> entries.seq().contains((&key, &napping@[key])),
            best is Some ==> stands_in(stand_ins, held, best->0),
            forall|i: int|
                0 <= i < entries.index() && (*(#[trigger] entries.seq()[i]).1).task == held ==> best
                    is Some && best->0 <= *entries.seq()[i].0,
    {
        if nap.task.0 == held.0 {
            let lower = match best {
                None => true,
                Some(so_far) => *number < so_far,
            };
            if lower {
                best = Some(*number);
            }
        }
    }
    match best {
        None => None,
        Some(number) => {
            assert(is_first(stand_ins, held, number));
            Some(TaskId(number))
        },
    }
}

// ---------------------------------------------------------------------------
// What reaches the runtime.

/// Whether a command would show what is already showing.
pub open spec fn repeats(command: CommandModel, displayed: Option<ScreenModel>) -> bool {
    command matches CommandModel::SetScreen(screen) && displayed == Some(screen)
}

/// The screen the runtime is showing after a command, as far as is known.
///
/// Handing over the panel makes that unknown, and so does handing over pixels:
/// a screen names a picture by handle, so filling in the handle changes what is
/// on the panel without changing the screen.
pub open spec fn showing(command: CommandModel, displayed: Option<ScreenModel>) -> Option<
    ScreenModel,
> {
    match command {
        CommandModel::SetScreen(screen) => Some(screen),
        CommandModel::Launch(_) | CommandModel::Exit => None,
        CommandModel::PutPicture { .. } => None,
        _ => displayed,
    }
}

/// The commands without those that would show what is already showing.
pub open spec fn without_repeats(
    commands: Seq<CommandModel>,
    displayed: Option<ScreenModel>,
) -> Seq<CommandModel>
    decreases commands.len(),
{
    if commands.len() == 0 {
        Seq::empty()
    } else {
        let rest = without_repeats(commands.drop_first(), showing(commands[0], displayed));
        if repeats(commands[0], displayed) {
            rest
        } else {
            seq![commands[0]] + rest
        }
    }
}

/// The screen the runtime is showing after a run of commands.
pub open spec fn finally_showing(
    commands: Seq<CommandModel>,
    displayed: Option<ScreenModel>,
) -> Option<ScreenModel>
    decreases commands.len(),
{
    if commands.len() == 0 {
        displayed
    } else {
        finally_showing(commands.drop_first(), showing(commands[0], displayed))
    }
}

/// The device requests among a run of commands.
pub open spec fn device_requests(commands: Seq<CommandModel>) -> Seq<DeviceRequestModel>
    decreases commands.len(),
{
    if commands.len() == 0 {
        Seq::empty()
    } else {
        let earlier = device_requests(commands.drop_last());
        match commands.last() {
            CommandModel::Device(request) => earlier.push(request),
            _ => earlier,
        }
    }
}

/// A count of unanswered store requests after a run of commands.
pub open spec fn stores_after(commands: Seq<CommandModel>, pending: usize) -> usize
    decreases commands.len(),
{
    if commands.len() == 0 {
        pending
    } else {
        let earlier = stores_after(commands.drop_last(), pending);
        if commands.last() is Store && earlier < usize::MAX {
            (earlier + 1) as usize
        } else {
            earlier
        }
    }
}

/// Work kept for a second attempt, with more put by.
pub open spec fn put_by(retrying: Map<u32, TaskModel>, more: Seq<RetryModel>) -> Map<u32, TaskModel>
    decreases more.len(),
{
    if more.len() == 0 {
        retrying
    } else {
        put_by(retrying, more.drop_last()).insert(more.last().task.0, more.last().work)
    }
}

/// What is said of a callback that ran for `millis` milliseconds.
pub open spec fn overrun(millis: nat) -> CommandModel {
    CommandModel::Log {
        level: LogLevel::Warn,
        message: "a lifecycle callback ran for "@ + name::spelled(millis) + " ms, over the "@
            + name::spelled(CALLBACK_DEADLINE as nat)
            + " ms deadline; move this work to Context::spawn"@,
    }
}

impl SessionModel {
    /// A session in which nothing has happened.
    pub open spec fn fresh(metrics: DisplayMetrics) -> SessionModel {
        SessionModel {
            metrics,
            started: false,
            pending: Seq::empty(),
            pending_stores: 0,
            next_task: 0,
            in_flight: 0,
            settled: false,
            retrying: Map::empty(),
            napping: Map::empty(),
            attempts: Map::empty(),
            displayed: None,
        }
    }

    /// A context in which nothing has been asked for yet.
    pub open spec fn context(self) -> ContextModel {
        ContextModel::fresh(self.next_task, self.in_flight, self.metrics)
    }

    /// The context that the next callback gets.
    pub open spec fn opened(self) -> ContextModel {
        let fresh = self.context();
        if self.settled {
            fresh.settled()
        } else {
            fresh
        }
    }

    /// The commands of a callback as the runtime understands them.
    pub open spec fn translations(self, commands: Seq<CommandModel>) -> Seq<CommandModel> {
        commands.map_values(|command: CommandModel| self.translated(command))
    }

    /// The commands of a callback that reach the runtime.
    pub open spec fn sent(self, commands: Seq<CommandModel>) -> Seq<CommandModel> {
        without_repeats(self.translations(commands), self.displayed)
    }

    /// What the runtime is told after a callback that asked for what a context
    /// holds and took `nanos` nanoseconds.
    pub open spec fn told(self, context: ContextModel, nanos: u128) -> Seq<CommandModel> {
        if nanos > CALLBACK_DEADLINE * 1_000_000 {
            seq![overrun((nanos / 1_000_000) as nat)] + self.sent(context.commands)
        } else {
            self.sent(context.commands)
        }
    }

    /// The work whose second attempt is given up by a run of commands.
    pub open spec fn given_up(self, commands: Seq<CommandModel>) -> Set<u32> {
        Set::new(
            |number: u32|
                exists|i: int|
                    0 <= i < commands.len() && self.gives_up(#[trigger] commands[i], number),
        )
    }

    /// The work kept for a second attempt after a callback.
    pub open spec fn still_retrying(self, context: ContextModel) -> Map<u32, TaskModel> {
        put_by(self.retrying, context.retrying).remove_keys(self.given_up(context.commands))
    }

    /// The session after a callback that left its context like this.
    pub open spec fn after(self, context: ContextModel) -> SessionModel {
        SessionModel {
            pending: self.pending + device_requests(self.sent(context.commands)),
            pending_stores: stores_after(self.sent(context.commands), self.pending_stores),
            next_task: context.next_task,
            in_flight: context.in_flight,
            settled: false,
            retrying: self.still_retrying(context),
            displayed: finally_showing(self.translations(context.commands), self.displayed),
            ..self
        }
    }
}

/// What is done about an answer.
#[derive(Debug)]
pub enum Delivery {
    /// The application does not hear of it, and the runtime is told this.
    Quiet(Vec<Command>),
    /// The application hears of it.
    Report { task: TaskId, outcome: TaskOutcome },
}

/// What a [`Delivery`] says.
pub enum DeliveryModel {
    Quiet(Seq<CommandModel>),
    Report { task: TaskId, outcome: TaskOutcomeModel },
}

impl View for Delivery {
    type V = DeliveryModel;

    open spec fn view(&self) -> DeliveryModel {
        match *self {
            Delivery::Quiet(commands) => DeliveryModel::Quiet(item::models(commands@)),
            Delivery::Report { task, outcome } => DeliveryModel::Report {
                task,
                outcome: outcome@,
            },
        }
    }
}

impl SessionModel {
    /// The session once the application was told to start.
    pub open spec fn begun(self) -> SessionModel {
        SessionModel { started: true, ..self }
    }

    /// The session once it is unknown what the panel is showing.
    pub open spec fn unseen(self) -> SessionModel {
        SessionModel { displayed: None, ..self }
    }

    /// The session after the oldest device request was answered.
    pub open spec fn request_answered(self) -> SessionModel {
        SessionModel {
            pending: if self.pending.len() == 0 {
                self.pending
            } else {
                self.pending.drop_first()
            },
            ..self
        }
    }

    /// The session after a store request was answered.
    pub open spec fn store_answered(self) -> SessionModel {
        SessionModel {
            pending_stores: if self.pending_stores == 0 {
                0
            } else {
                (self.pending_stores - 1) as usize
            },
            ..self
        }
    }

    /// The identifier that the next piece of work gets.
    pub open spec fn next_id(self) -> TaskId {
        TaskId(context::following(self.next_task))
    }

    /// The identifier the application holds for a task.
    pub open spec fn held(self, task: TaskId) -> TaskId {
        if self.attempts.contains_key(task.0) {
            self.attempts[task.0]
        } else {
            task
        }
    }

    /// Whether an outcome earns a task its second attempt.
    pub open spec fn earns_another(self, task: TaskId, outcome: TaskOutcomeModel) -> bool {
        &&& outcome matches TaskOutcomeModel::Failed(error)
        &&& error.passes_with_time()
        &&& self.retrying.contains_key(self.held(task).0)
    }

    /// What is done about the outcome of a task.
    pub open spec fn delivery(self, task: TaskId, outcome: TaskOutcomeModel) -> DeliveryModel {
        if self.napping.contains_key(task.0) {
            let nap = self.napping[task.0];
            if outcome is Cancelled {
                DeliveryModel::Report { task: nap.task, outcome }
            } else {
                DeliveryModel::Quiet(
                    seq![CommandModel::Spawn { task: self.next_id(), work: nap.work }],
                )
            }
        } else if self.earns_another(task, outcome) {
            DeliveryModel::Quiet(
                seq![
                    CommandModel::Spawn {
                        task: self.next_id(),
                        work: TaskModel::Sleep { seconds: RETRY_DELAY_SECONDS },
                    },
                ],
            )
        } else {
            DeliveryModel::Report { task: self.held(task), outcome }
        }
    }

    /// The session after hearing the outcome of a task.
    pub open spec fn having_heard(self, task: TaskId, outcome: TaskOutcomeModel) -> SessionModel {
        let held = self.held(task);
        if self.napping.contains_key(task.0) {
            let nap = self.napping[task.0];
            if outcome is Cancelled {
                SessionModel { napping: self.napping.remove(task.0), settled: true, ..self }
            } else {
                SessionModel {
                    napping: self.napping.remove(task.0),
                    next_task: self.next_id().0,
                    attempts: self.attempts.insert(self.next_id().0, nap.task),
                    ..self
                }
            }
        } else if self.earns_another(task, outcome) {
            SessionModel {
                attempts: self.attempts.remove(task.0),
                retrying: self.retrying.remove(held.0),
                next_task: self.next_id().0,
                napping: self.napping.insert(
                    self.next_id().0,
                    RetryModel { task: held, work: self.retrying[held.0] },
                ),
                ..self
            }
        } else {
            SessionModel {
                attempts: self.attempts.remove(task.0),
                retrying: self.retrying.remove(held.0),
                settled: true,
                ..self
            }
        }
    }
}

/// The task that a command cancels.
spec fn held_by(command: CommandModel) -> TaskId {
    command->Cancel_0
}

proof fn lemma_given_up(session: SessionModel, commands: Seq<CommandModel>, index: int)
    requires
        0 <= index < commands.len(),
    ensures
        session.retrying.remove_keys(session.given_up(commands.take(index + 1))) == ({
            let earlier = session.retrying.remove_keys(session.given_up(commands.take(index)));
            if commands[index] is Cancel && session.live_attempt(held_by(commands[index])) is Some {
                earlier.remove(held_by(commands[index]).0)
            } else {
                earlier
            }
        }),
{
    let earlier = session.retrying.remove_keys(session.given_up(commands.take(index)));
    let now = session.retrying.remove_keys(session.given_up(commands.take(index + 1)));
    assert forall|number: u32| session.given_up(commands.take(index)).contains(number) implies
        session.given_up(commands.take(index + 1)).contains(number) by {
        let i = choose|i: int|
            0 <= i < commands.take(index).len() && session.gives_up(
                #[trigger] commands.take(index)[i],
                number,
            );
        assert(commands.take(index + 1)[i] == commands.take(index)[i]);
    }
    assert forall|number: u32| session.given_up(commands.take(index + 1)).contains(number) implies
        session.given_up(commands.take(index)).contains(number) || session.gives_up(
            commands[index],
            number,
        ) by {
        let i = choose|i: int|
            0 <= i < commands.take(index + 1).len() && session.gives_up(
                #[trigger] commands.take(index + 1)[i],
                number,
            );
        if i < index {
            assert(commands.take(index)[i] == commands.take(index + 1)[i]);
        }
    }
    if commands[index] is Cancel && session.live_attempt(held_by(commands[index])) is Some {
        let number = held_by(commands[index]).0;
        assert(session.gives_up(commands.take(index + 1)[index], number));
        assert(session.given_up(commands.take(index + 1)).contains(number));
        assert(now =~= earlier.remove(number));
    } else {
        assert(now =~= earlier);
    }
}

impl Session {
    #[must_use]
    pub fn new(metrics: DisplayMetrics) -> (session: Session)
        ensures
            session@ == SessionModel::fresh(metrics),
    {
        let session = Session {
            metrics,
            started: false,
            pending: VecDeque::new(),
            pending_stores: 0,
            next_task: 0,
            in_flight: 0,
            settled: false,
            retrying: BTreeMap::new(),
            napping: BTreeMap::new(),
            attempts: BTreeMap::new(),
            displayed: None,
        };
        assert(session@.pending =~= Seq::empty());
        assert(session@.retrying =~= Map::empty());
        assert(session@.napping =~= Map::empty());
        session
    }

    /// A context in which nothing has been asked for yet.
    #[must_use]
    pub fn context(&self) -> (context: Context)
        ensures
            context@ == self@.context(),
    {
        Context::opened(self.next_task, self.in_flight, self.metrics)
    }

    /// The context that the next callback gets.
    #[must_use]
    pub fn open(&self) -> (context: Context)
        ensures
            context@ == self@.opened(),
    {
        let mut context = Context::opened(self.next_task, self.in_flight, self.metrics);
        if self.settled {
            context.settle();
        }
        context
    }

    /// The identifier the runtime knows a task by, where it is not the one the
    /// application holds.
    fn live_attempt(&self, held: TaskId) -> (actual: Option<TaskId>)
        ensures
            actual == self@.live_attempt(held),
    {
        match find_attempt(&self.attempts, held) {
            Some(actual) => Some(actual),
            None => find_nap(&self.napping, held),
        }
    }

    /// Keeps work for a second attempt.
    fn put_by(&mut self, more: Vec<Retry>)
        ensures
            final(self)@ == (SessionModel {
                retrying: put_by(old(self)@.retrying, item::models(more@)),
                ..old(self)@
            }),
    {
        let ghost all = item::models(more@);
        assert(all.take(0) =~= Seq::empty());
        for retry in entries: more
            invariant
                all == item::models(entries.seq()),
                self@ == (SessionModel {
                    retrying: put_by(old(self)@.retrying, all.take(entries.index() as int)),
                    ..old(self)@
                }),
        {
            let ghost before = self@.retrying;
            self.retrying.insert(retry.task.0, retry.work);
            proof {
                let index = entries.index() as int;
                assert(all[index] == retry@);
                assert(all.take(index + 1).drop_last() =~= all.take(index));
                assert(self@.retrying =~= before.insert(retry.task.0, retry.work@));
            }
        }
        assert(all.take(all.len() as int) =~= all);
    }

    /// Names what is cancelled by the identifiers that the runtime holds.
    fn translate(&mut self, commands: &mut Vec<Command>)
        ensures
            item::models(final(commands)@) == old(self)@.translations(
                item::models(old(commands)@),
            ),
            final(self)@ == (SessionModel {
                retrying: old(self)@.retrying.remove_keys(
                    old(self)@.given_up(item::models(old(commands)@)),
                ),
                ..old(self)@
            }),
    {
        let ghost before = old(self)@;
        let ghost asked = item::models(old(commands)@);
        let ghost nothing = before.given_up(asked.take(0));
        assert(before.retrying.remove_keys(nothing) =~= before.retrying);
        let mut index: usize = 0;
        while index < commands.len()
            invariant
                index <= commands@.len(),
                commands@.len() == asked.len(),
                before == old(self)@,
                asked == item::models(old(commands)@),
                forall|i: int|
                    0 <= i < index ==> (#[trigger] commands@[i])@ == before.translated(asked[i]),
                forall|i: int| index <= i < asked.len() ==> (#[trigger] commands@[i])@ == asked[i],
                self@ == (SessionModel {
                    retrying: before.retrying.remove_keys(
                        before.given_up(asked.take(index as int)),
                    ),
                    ..before
                }),
            decreases commands@.len() - index,
        {
            let ghost earlier = asked.take(index as int);
            let ghost now = asked.take(index + 1);
            let cancelled = match &commands[index] {
                Command::Cancel(held) => Some(*held),
                _ => None,
            };
            assert(cancelled matches Some(held) ==> asked[index as int] == CommandModel::Cancel(
                held,
            ));
            assert(cancelled is None ==> !(asked[index as int] is Cancel));
            if let Some(held) = cancelled {
                if let Some(actual) = self.live_attempt(held) {
                    let ghost kept = self@.retrying;
                    self.retrying.remove(&held.0);
                    assert(self@.retrying =~= kept.remove(held.0));
                    commands.set(index, Command::Cancel(actual));
                }
            }
            proof {
                assert(before.live_attempt(held_by(asked[index as int])) == self@.live_attempt(
                    held_by(asked[index as int]),
                ));
                lemma_given_up(before, asked, index as int);
            }
            index = index + 1;
        }
        assert(asked.take(asked.len() as int) =~= asked);
        assert(item::models(commands@) =~= before.translations(asked));
    }

    /// Leaves out what would show what is already showing.
    fn leave_out_repeats(&mut self, commands: &mut Vec<Command>)
        ensures
            item::models(final(commands)@) == without_repeats(
                item::models(old(commands)@),
                old(self)@.displayed,
            ),
            final(self)@ == (SessionModel {
                displayed: finally_showing(item::models(old(commands)@), old(self)@.displayed),
                ..old(self)@
            }),
    {
        let ghost before = old(self)@;
        let ghost asked = item::models(old(commands)@);
        let mut index: usize = 0;
        assert(item::models(commands@.take(0)) =~= Seq::empty());
        assert(item::models(commands@.skip(0)) =~= asked);
        while index < commands.len()
            invariant
                index <= commands@.len(),
                before == old(self)@,
                asked == item::models(old(commands)@),
                self@ == (SessionModel { displayed: self@.displayed, ..before }),
                item::models(commands@.take(index as int)) + without_repeats(
                    item::models(commands@.skip(index as int)),
                    self@.displayed,
                ) == without_repeats(asked, before.displayed),
                finally_showing(item::models(commands@.skip(index as int)), self@.displayed)
                    == finally_showing(asked, before.displayed),
            decreases commands@.len() - index,
        {
            let ghost left = item::models(commands@.skip(index as int));
            let ghost shown = self@.displayed;
            let ghost list = commands@;
            assert(left[0] == commands@[index as int]@);
            assert(left.drop_first() =~= item::models(list.skip(index + 1)));
            let mut repeated = false;
            match &commands[index] {
                Command::SetScreen(screen) => {
                    repeated = match &self.displayed {
                        None => false,
                        Some(displayed) => displayed.same(screen),
                    };
                    if !repeated {
                        self.displayed = Some(screen.clone());
                    }
                },
                Command::Launch(_) | Command::Exit => {
                    self.displayed = None;
                },
                Command::PutPicture { .. } => {
                    self.displayed = None;
                },
                _ => {},
            }
            assert(repeated == repeats(left[0], shown));
            assert(self@.displayed == showing(left[0], shown));
            if repeated {
                let _ = commands.remove(index);
                assert(commands@.take(index as int) =~= list.take(index as int));
                assert(commands@.skip(index as int) =~= list.skip(index + 1));
            } else {
                index = index + 1;
                assert(item::models(list.take(index as int)) =~= item::models(
                    list.take(index - 1),
                ) + seq![left[0]]);
                assert(item::models(list.take(index - 1)) + (seq![left[0]] + without_repeats(
                    left.drop_first(),
                    self@.displayed,
                )) =~= item::models(list.take(index as int)) + without_repeats(
                    left.drop_first(),
                    self@.displayed,
                ));
            }
        }
        assert(commands@.take(index as int) =~= commands@);
        assert(item::models(commands@.skip(index as int)) =~= Seq::empty());
    }

    /// Counts the answers that a run of commands will bring.
    fn expect_answers(&mut self, commands: &Vec<Command>)
        ensures
            final(self)@ == (SessionModel {
                pending: old(self)@.pending + device_requests(item::models(commands@)),
                pending_stores: stores_after(
                    item::models(commands@),
                    old(self)@.pending_stores,
                ),
                ..old(self)@
            }),
    {
        let ghost before = old(self)@;
        let ghost all = item::models(commands@);
        let mut index: usize = 0;
        assert(before.pending + device_requests(all.take(0)) =~= before.pending);
        while index < commands.len()
            invariant
                index <= commands@.len(),
                all == item::models(commands@),
                before == old(self)@,
                self@ == (SessionModel {
                    pending: before.pending + device_requests(all.take(index as int)),
                    pending_stores: stores_after(all.take(index as int), before.pending_stores),
                    ..before
                }),
            decreases commands@.len() - index,
        {
            let ghost so_far = self@.pending;
            let ghost now = all.take(index + 1);
            assert(now.drop_last() =~= all.take(index as int));
            assert(now.last() == commands@[index as int]@);
            match &commands[index] {
                Command::Device(request) => {
                    let request = request.clone();
                    self.pending.push_back(request);
                    assert(self@.pending =~= so_far.push(request@));
                    assert(so_far.push(request@) =~= before.pending + device_requests(now));
                },
                Command::Store(_) => {
                    self.pending_stores = self.pending_stores.saturating_add(1);
                },
                _ => {},
            }
            index = index + 1;
        }
        assert(all.take(all.len() as int) =~= all);
    }

    /// Takes in what a callback left behind, and says what the runtime is told
    /// of it.
    ///
    /// An overrun cannot be prevented from here, so it is reported.
    pub fn conclude(&mut self, context: Context, nanos: u128) -> (commands: Vec<Command>)
        ensures
            item::models(commands@) == old(self)@.told(context@, nanos),
            final(self)@ == old(self)@.after(context@),
    {
        let ghost before = self@;
        let ghost left = context@;
        let mut done = context;
        self.settled = false;
        self.next_task = done.last_task();
        self.in_flight = done.tasks_in_flight();
        self.put_by(done.take_retrying());
        let mut commands = done.take_commands();
        let ghost asked = left.commands;
        let ghost put = self@;
        assert forall|held: TaskId| put.live_attempt(held) == before.live_attempt(held) by {}
        assert(put.translations(asked) =~= before.translations(asked));
        assert(put.given_up(asked) =~= before.given_up(asked));
        self.translate(&mut commands);
        self.leave_out_repeats(&mut commands);
        self.expect_answers(&commands);
        if nanos > CALLBACK_DEADLINE as u128 * 1_000_000 {
            let mut message = "a lifecycle callback ran for ".to_owned();
            message.append(decimal(nanos / 1_000_000).as_str());
            message.append(" ms, over the ");
            message.append(decimal(CALLBACK_DEADLINE as u128).as_str());
            message.append(" ms deadline; move this work to Context::spawn");
            let ghost rest = commands@;
            let warning = Command::Log { level: LogLevel::Warn, message };
            commands.insert(0, warning);
            assert(item::models(commands@) =~= seq![warning@] + item::models(rest));
        }
        commands
    }

    /// Starts work the application did not ask for directly. One task has just
    /// been heard of and one starts in its place, so the count of tasks in
    /// flight does not move.
    fn hand_over(&mut self, work: Task) -> (handed: (TaskId, Vec<Command>))
        ensures
            handed.0 == old(self)@.next_id(),
            item::models(handed.1@) == seq![
                CommandModel::Spawn { task: old(self)@.next_id(), work: work@ },
            ],
            final(self)@ == (SessionModel { next_task: old(self)@.next_id().0, ..old(self)@ }),
    {
        self.next_task = self.next_task.saturating_add(1);
        let task = TaskId(self.next_task);
        let mut commands: Vec<Command> = Vec::new();
        let command = Command::Spawn { task, work };
        commands.push(command);
        assert(item::models(commands@) =~= seq![command@]);
        (task, commands)
    }

    /// Hears what became of a task.
    ///
    /// A nap between two attempts is not news for the application, which never
    /// learned there was one; and a second attempt reports under the identifier
    /// the application is holding.
    pub fn hear(&mut self, task: TaskId, outcome: TaskOutcome) -> (delivery: Delivery)
        ensures
            delivery@ == old(self)@.delivery(task, outcome@),
            final(self)@ == old(self)@.having_heard(task, outcome@),
    {
        let ghost before = self@;
        if let Some(nap) = self.napping.remove(&task.0) {
            assert(self@.napping =~= before.napping.remove(task.0));
            assert(nap@ == before.napping[task.0]);
            if let TaskOutcome::Cancelled = outcome {
                self.settled = true;
                return Delivery::Report { task: nap.task, outcome };
            }
            let (again, commands) = self.hand_over(nap.work);
            self.attempts.insert(again.0, nap.task);
            return Delivery::Quiet(commands);
        }
        assert(self@.napping =~= before.napping);
        let held = match self.attempts.remove(&task.0) {
            Some(held) => held,
            None => task,
        };
        assert(held == before.held(task));
        assert(self@.attempts =~= before.attempts.remove(task.0));
        let ghost known = self@;
        let passing = match &outcome {
            TaskOutcome::Failed(error) => error.worth_retrying(),
            _ => false,
        };
        if passing {
            if let Some(work) = self.retrying.remove(&held.0) {
                assert(self@.retrying =~= known.retrying.remove(held.0));
                assert(work@ == known.retrying[held.0]);
                let ghost shortened = self@;
                let (nap, commands) = self.hand_over(Task::Sleep { seconds: RETRY_DELAY_SECONDS });
                let retry = Retry { task: held, work };
                self.napping.insert(nap.0, retry);
                assert(self@.napping =~= shortened.napping.insert(nap.0, retry@));
                return Delivery::Quiet(commands);
            }
            assert(self@.retrying =~= known.retrying.remove(held.0));
            assert(!known.retrying.contains_key(held.0));
        } else {
            let _ = self.retrying.remove(&held.0);
            assert(self@.retrying =~= known.retrying.remove(held.0));
        }
        self.settled = true;
        Delivery::Report { task: held, outcome }
    }

    /// Whether this is the first start.
    pub fn begin(&mut self) -> (first: bool)
        ensures
            first == !old(self)@.started,
            final(self)@ == old(self)@.begun(),
    {
        let first = !self.started;
        self.started = true;
        first
    }

    /// The oldest device request that is still awaiting an answer, which has
    /// just been given. An answer with nothing outstanding is nobody's.
    pub fn answered_request(&mut self) -> (request: Option<DeviceRequest>)
        ensures
            wire::model_of(request) == if old(self)@.pending.len() == 0 {
                None
            } else {
                Some(old(self)@.pending[0])
            },
            final(self)@ == old(self)@.request_answered(),
    {
        let ghost before = self@;
        let request = self.pending.pop_front();
        proof {
            if before.pending.len() > 0 {
                assert(self@.pending =~= before.pending.drop_first());
            } else {
                assert(self@.pending =~= before.pending);
            }
        }
        request
    }

    /// A store request was answered.
    pub fn answered_store(&mut self)
        ensures
            final(self)@ == old(self)@.store_answered(),
    {
        self.pending_stores = self.pending_stores.saturating_sub(1);
    }

    /// Forgets what the panel is believed to be showing.
    pub fn forget_displayed(&mut self)
        ensures
            final(self)@ == old(self)@.unseen(),
    {
        self.displayed = None;
    }

    /// The device requests still awaiting an answer.
    #[must_use]
    pub fn outstanding_requests(&self) -> (count: usize)
        ensures
            count == self@.pending.len(),
    {
        self.pending.len()
    }

    /// Whether the runtime still owes this application an answer.
    #[must_use]
    pub fn is_owed_answers(&self) -> (owed: bool)
        ensures
            owed == (self@.pending.len() + self@.pending_stores > 0),
    {
        self.pending.len() > 0 || self.pending_stores > 0
    }

    /// Every answer the runtime still owes this application.
    #[must_use]
    pub fn outstanding_answers(&self) -> (count: usize)
        requires
            self@.pending.len() + self@.pending_stores <= usize::MAX,
        ensures
            count == self@.pending.len() + self@.pending_stores,
    {
        self.pending.len() + self.pending_stores
    }

    #[must_use]
    pub fn tasks_in_flight(&self) -> (count: usize)
        ensures
            count == self@.in_flight,
    {
        self.in_flight
    }
}

// ---------------------------------------------------------------------------
// Laws.

/// Every stand-in has a number that was handed out.
pub open spec fn numbered(session: SessionModel) -> bool {
    &&& forall|number: u32| #[trigger]
        session.napping.contains_key(number) ==> number <= session.next_task
    &&& forall|number: u32| #[trigger]
        session.attempts.contains_key(number) ==> number <= session.next_task
}

/// A session starts out with no stand-ins, and neither an answer nor a callback
/// makes one with a number that was not handed out.
pub proof fn law_numbers_stay_handed_out(
    session: SessionModel,
    metrics: DisplayMetrics,
    task: TaskId,
    outcome: TaskOutcomeModel,
    context: ContextModel,
)
    requires
        numbered(session),
        session.next_task <= context.next_task,
    ensures
        numbered(SessionModel::fresh(metrics)),
        numbered(session.having_heard(task, outcome)),
        numbered(session.after(context)),
        session.next_task <= session.having_heard(task, outcome).next_task,
        session.next_task <= session.after(context).next_task,
{
}

/// The numbers of tasks never repeat from one callback to the next: whatever a
/// later callback starts has a larger number than anything an earlier one
/// started.
pub proof fn law_numbers_do_not_repeat(
    session: SessionModel,
    earlier: ContextModel,
    later: ContextModel,
    first: u32,
    second: u32,
    i: int,
    j: int,
)
    requires
        context::orderly(earlier, session.next_task),
        context::orderly(later, session.after(earlier).next_task),
        0 <= i < earlier.commands.len(),
        context::starts(earlier.commands[i], first),
        0 <= j < later.commands.len(),
        context::starts(later.commands[j], second),
    ensures
        first < second,
{
}

/// No more tasks are in flight after a callback than may be.
pub proof fn law_tasks_in_flight_are_bounded(session: SessionModel, context: ContextModel)
    requires
        context::orderly(context, session.next_task),
    ensures
        session.after(context).in_flight <= context::MAX_TASKS_IN_FLIGHT,
        session.after(context).opened().in_flight <= context::MAX_TASKS_IN_FLIGHT,
{
}

/// Work that fails for a reason that passes is tried a second time after a nap,
/// and no more than that: whatever becomes of the second attempt is reported,
/// under the identifier the application holds. Meanwhile no more tasks are in
/// flight than before, and a cancellation reaches whatever stands in for the
/// work.
pub proof fn law_work_is_tried_twice(
    session: SessionModel,
    task: TaskId,
    error: crate::task::TaskError,
    slept: Seq<u8>,
    second: TaskOutcomeModel,
)
    requires
        numbered(session),
        session.next_task < u32::MAX - 1,
        session.retrying.contains_key(task.0),
        !session.napping.contains_key(task.0),
        !session.attempts.contains_key(task.0),
        forall|number: u32| !stands_in(session.attempts, task, number),
        forall|number: u32| !stands_in(awaited(session.napping), task, number),
        error.passes_with_time(),
        task.0 <= session.next_task,
    ensures
        ({
            let nap = session.next_id();
            let napping = session.having_heard(task, TaskOutcomeModel::Failed(error));
            let again = napping.next_id();
            let trying = napping.having_heard(nap, TaskOutcomeModel::Completed(slept));
            let done = trying.having_heard(again, second);
            &&& session.delivery(task, TaskOutcomeModel::Failed(error)) == DeliveryModel::Quiet(
                seq![
                    CommandModel::Spawn {
                        task: nap,
                        work: TaskModel::Sleep { seconds: RETRY_DELAY_SECONDS },
                    },
                ],
            )
            &&& napping.translated(CommandModel::Cancel(task)) == CommandModel::Cancel(nap)
            &&& napping.delivery(nap, TaskOutcomeModel::Completed(slept)) == DeliveryModel::Quiet(
                seq![CommandModel::Spawn { task: again, work: session.retrying[task.0] }],
            )
            &&& trying.translated(CommandModel::Cancel(task)) == CommandModel::Cancel(again)
            &&& trying.delivery(again, second) == DeliveryModel::Report { task, outcome: second }
            &&& napping.in_flight == session.in_flight
            &&& trying.in_flight == session.in_flight
            &&& done.live_attempt(task) is None
            &&& !done.retrying.contains_key(task.0)
        }),
{
    let nap = session.next_id();
    let napping = session.having_heard(task, TaskOutcomeModel::Failed(error));
    let again = napping.next_id();
    let trying = napping.having_heard(nap, TaskOutcomeModel::Completed(slept));
    let done = trying.having_heard(again, second);
    lemma_only(awaited(session.napping), awaited(napping.napping), task, nap.0);
    assert(napping.attempts =~= session.attempts);
    assert(awaited(trying.napping) =~= awaited(session.napping));
    lemma_only(session.attempts, trying.attempts, task, again.0);
    assert(done.attempts =~= session.attempts);
    assert(awaited(done.napping) =~= awaited(session.napping));
}

proof fn lemma_only(
    before: Map<u32, TaskId>,
    after: Map<u32, TaskId>,
    held: TaskId,
    number: u32,
)
    requires
        forall|other: u32| !stands_in(before, held, other),
        forall|other: u32| #[trigger]
            after.contains_key(other) <==> (other == number || before.contains_key(other)),
        forall|other: u32| #[trigger]
            before.contains_key(other) && other != number ==> after[other] == before[other],
        after[number] == held,
    ensures
        first_for(after, held) == Some(TaskId(number)),
{
    assert forall|other: u32| #[trigger] stands_in(after, held, other) implies other == number by {
        assert(!stands_in(before, held, other));
    }
    assert(is_first(after, held, number));
}

/// A screen that is showing is not sent again, and any other screen is sent.
pub proof fn law_an_unchanged_screen_is_not_sent(
    session: SessionModel,
    screen: ScreenModel,
    other: ScreenModel,
)
    requires
        session.displayed == Some(screen),
        other != screen,
    ensures
        session.sent(seq![CommandModel::SetScreen(screen)]) == Seq::<CommandModel>::empty(),
        session.sent(seq![CommandModel::SetScreen(other)]) == seq![CommandModel::SetScreen(other)],
{
    reveal_with_fuel(without_repeats, 2);
    let same = seq![CommandModel::SetScreen(screen)];
    assert(session.translations(same) =~= same);
    assert(same.drop_first() =~= Seq::empty());
    let different = seq![CommandModel::SetScreen(other)];
    assert(session.translations(different) =~= different);
    assert(different.drop_first() =~= Seq::empty());
    assert(session.sent(different) =~= different);
}

/// Pixels handed over after the screen that names them still reach the panel:
/// the screen is sent again.
pub proof fn law_new_pixels_repaint(
    session: SessionModel,
    screen: ScreenModel,
    picture: CommandModel,
)
    requires
        picture is PutPicture,
    ensures
        session.sent(seq![picture, CommandModel::SetScreen(screen)]) == seq![
            picture,
            CommandModel::SetScreen(screen),
        ],
{
    reveal_with_fuel(without_repeats, 3);
    let commands = seq![picture, CommandModel::SetScreen(screen)];
    assert(session.translations(commands) =~= commands);
    assert(commands.drop_first() =~= seq![CommandModel::SetScreen(screen)]);
    assert(commands.drop_first().drop_first() =~= Seq::empty());
    assert(session.sent(commands) =~= commands);
}

/// Nothing but a repeated screen is ever left out.
pub proof fn law_only_repeated_screens_are_left_out(
    commands: Seq<CommandModel>,
    displayed: Option<ScreenModel>,
)
    ensures
        without_repeats(commands, displayed).filter(|command: CommandModel| !(command is SetScreen))
            == commands.filter(|command: CommandModel| !(command is SetScreen)),
    decreases commands.len(),
{
    let drawn_over = |command: CommandModel| !(command is SetScreen);
    if commands.len() > 0 {
        let rest = commands.drop_first();
        law_only_repeated_screens_are_left_out(rest, showing(commands[0], displayed));
        assert(commands =~= seq![commands[0]] + rest);
        Seq::filter_distributes_over_add(seq![commands[0]], rest, drawn_over);
        Seq::filter_distributes_over_add(
            seq![commands[0]],
            without_repeats(rest, showing(commands[0], displayed)),
            drawn_over,
        );
        if repeats(commands[0], displayed) {
            reveal_with_fuel(Seq::filter, 2);
            assert(seq![commands[0]].drop_last() =~= Seq::empty());
            assert(seq![commands[0]].filter(drawn_over) =~= Seq::empty());
            assert(commands.filter(drawn_over) =~= rest.filter(drawn_over));
        }
    }
}

} // verus!
