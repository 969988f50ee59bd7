//! What driving an application comes to: whatever happens, the application hears
//! of it as it happened, in a context in which nothing was asked for yet, and
//! what it asks for there is what is passed on.

use vstd::prelude::*;

use crate::client::ClientEvent;
use crate::command::{Command, CommandModel};
use crate::context::{Context, ContextModel, DisplayMetrics};
use crate::device::{DeviceRequest, DeviceResult};
use crate::item;
use crate::name;
use crate::runner::{AppRunner, KoboApp, TextHit};
use crate::session::{Delivery, Session, SessionModel};
use crate::shell::ShellEvent;
use crate::store::{Lifecycle, StoreResult};
use crate::task::{TaskId, TaskOutcome};
use crate::ui::ActionId;

verus! {

/// Whether an application did what `does` tells of it, starting from `start`:
/// given as it was, with a context in which nothing was asked for yet, it was
/// left as it is now, and what it asked for was passed on.
pub open spec fn did<A>(
    before: AppRunner<A>,
    start: SessionModel,
    commands: Seq<Command>,
    after: AppRunner<A>,
    does: spec_fn(A, ContextModel, A, ContextModel) -> bool,
) -> bool {
    exists|asked: ContextModel, nanos: u128|
        {
            &&& does(before.application(), start.opened(), after.application(), asked)
            &&& item::models(commands) == #[trigger] start.told(asked, nanos)
            &&& after@ == start.after(asked)
        }
}

/// An application is started the first time it is asked for.
pub proof fn law_starting_is_heard_once<A: KoboApp>(
    runner: &mut AppRunner<A>,
    commands: Vec<Command>,
    does: spec_fn(A, ContextModel, A, ContextModel) -> bool,
)
    requires
        forall|app: &mut A, context: &mut Context| #[trigger]
            call_ensures(A::on_start, (app, context), ()) ==> does(
                *app,
                (*context)@,
                *final(app),
                (*final(context))@,
            ),
        !old(runner)@.started,
    ensures
        call_ensures(AppRunner::<A>::start, (runner,), commands) ==> did(
            *old(runner),
            (SessionModel { started: true, ..old(runner)@ }),
            commands@,
            *final(runner),
            does,
        ),
{
}

/// An action is heard by the application, unless it is the one that the runner
/// answers itself.
pub proof fn law_actions_are_heard<A: KoboApp>(
    runner: &mut AppRunner<A>,
    action: ActionId,
    commands: Vec<Command>,
    does: spec_fn(A, ContextModel, A, ContextModel) -> bool,
)
    requires
        forall|app: &mut A, context: &mut Context| #[trigger]
            call_ensures(A::on_action, (app, context, action), ()) ==> does(
                *app,
                (*context)@,
                *final(app),
                (*final(context))@,
            ),
        action != name::action_of(crate::failure::JOIN_WIFI@),
    ensures
        call_ensures(AppRunner::<A>::action, (runner, action), commands) ==> did(
            *old(runner),
            old(runner)@,
            commands@,
            *final(runner),
            does,
        ),
        call_ensures(AppRunner::<A>::deliver, (runner, ClientEvent::Action(action)), commands) ==>
            did(
            *old(runner),
            old(runner)@,
            commands@,
            *final(runner),
            does,
        ),
{
}

/// A run of text that was held is heard with the action it is held for.
pub proof fn law_held_text_is_heard<A: KoboApp>(
    runner: &mut AppRunner<A>,
    action: ActionId,
    hit: TextHit,
    commands: Vec<Command>,
    does: spec_fn(A, ContextModel, A, ContextModel) -> bool,
)
    requires
        forall|app: &mut A, context: &mut Context| #[trigger]
            call_ensures(A::on_text_hold, (app, context, action, hit), ()) ==> does(
                *app,
                (*context)@,
                *final(app),
                (*final(context))@,
            ),
    ensures
        call_ensures(AppRunner::<A>::text_hold, (runner, action, hit), commands) ==> did(
            *old(runner),
            old(runner)@,
            commands@,
            *final(runner),
            does,
        ),
        call_ensures(
            AppRunner::<A>::deliver,
            (runner, (ClientEvent::TextHold { action, hit })),
            commands,
        ) ==>
            did(
            *old(runner),
            old(runner)@,
            commands@,
            *final(runner),
            does,
        ),
{
}

/// The application hears that the reader woke.
pub proof fn law_waking_is_heard<A: KoboApp>(
    runner: &mut AppRunner<A>,
    commands: Vec<Command>,
    does: spec_fn(A, ContextModel, A, ContextModel) -> bool,
)
    requires
        forall|app: &mut A, context: &mut Context| #[trigger]
            call_ensures(A::on_resume, (app, context), ()) ==> does(
                *app,
                (*context)@,
                *final(app),
                (*final(context))@,
            ),
    ensures
        call_ensures(AppRunner::<A>::resume, (runner,), commands) ==> did(
            *old(runner),
            old(runner)@,
            commands@,
            *final(runner),
            does,
        ),
{
}

/// The application hears that the reader goes to sleep.
pub proof fn law_sleeping_is_heard<A: KoboApp>(
    runner: &mut AppRunner<A>,
    commands: Vec<Command>,
    does: spec_fn(A, ContextModel, A, ContextModel) -> bool,
)
    requires
        forall|app: &mut A, context: &mut Context| #[trigger]
            call_ensures(A::on_suspend, (app, context), ()) ==> does(
                *app,
                (*context)@,
                *final(app),
                (*final(context))@,
            ),
    ensures
        call_ensures(AppRunner::<A>::suspend, (runner,), commands) ==> did(
            *old(runner),
            old(runner)@,
            commands@,
            *final(runner),
            does,
        ),
{
}

/// The application hears that the time it asked to be woken at has come.
pub proof fn law_scheduled_wakes_are_heard<A: KoboApp>(
    runner: &mut AppRunner<A>,
    commands: Vec<Command>,
    does: spec_fn(A, ContextModel, A, ContextModel) -> bool,
)
    requires
        forall|app: &mut A, context: &mut Context| #[trigger]
            call_ensures(A::on_scheduled_wake, (app, context), ()) ==> does(
                *app,
                (*context)@,
                *final(app),
                (*final(context))@,
            ),
    ensures
        call_ensures(AppRunner::<A>::scheduled_wake, (runner,), commands) ==> did(
            *old(runner),
            old(runner)@,
            commands@,
            *final(runner),
            does,
        ),
{
}

/// The application hears that it is to leave.
pub proof fn law_leaving_is_heard<A: KoboApp>(
    runner: &mut AppRunner<A>,
    commands: Vec<Command>,
    does: spec_fn(A, ContextModel, A, ContextModel) -> bool,
)
    requires
        forall|app: &mut A, context: &mut Context| #[trigger]
            call_ensures(A::on_exit, (app, context), ()) ==> does(
                *app,
                (*context)@,
                *final(app),
                (*final(context))@,
            ),
    ensures
        call_ensures(AppRunner::<A>::exit, (runner,), commands) ==> did(
            *old(runner),
            old(runner)@,
            commands@,
            *final(runner),
            does,
        ),
        call_ensures(AppRunner::<A>::deliver, (runner, ClientEvent::Exit), commands) ==> did(
            *old(runner),
            old(runner)@,
            commands@,
            *final(runner),
            does,
        ),
{
}

/// A magnet that came or went is heard as having come or gone.
pub proof fn law_covers_are_heard<A: KoboApp>(
    runner: &mut AppRunner<A>,
    magnet_present: bool,
    commands: Vec<Command>,
    does: spec_fn(A, ContextModel, A, ContextModel) -> bool,
)
    requires
        forall|app: &mut A, context: &mut Context| #[trigger]
            call_ensures(A::on_cover_change, (app, context, magnet_present), ()) ==> does(
                *app,
                (*context)@,
                *final(app),
                (*final(context))@,
            ),
    ensures
        call_ensures(AppRunner::<A>::cover_changed, (runner, magnet_present), commands) ==> did(
            *old(runner),
            old(runner)@,
            commands@,
            *final(runner),
            does,
        ),
        call_ensures(
            AppRunner::<A>::deliver,
            (runner, ClientEvent::CoverChanged(magnet_present)),
            commands,
        ) ==>
            did(
            *old(runner),
            old(runner)@,
            commands@,
            *final(runner),
            does,
        ),
{
}

/// A page turn is heard in the direction that it was made in.
pub proof fn law_page_turns_are_heard<A: KoboApp>(
    runner: &mut AppRunner<A>,
    forward: bool,
    commands: Vec<Command>,
    does: spec_fn(A, ContextModel, A, ContextModel) -> bool,
)
    requires
        forall|app: &mut A, context: &mut Context| #[trigger]
            call_ensures(A::on_page_turn, (app, context, forward), ()) ==> does(
                *app,
                (*context)@,
                *final(app),
                (*final(context))@,
            ),
    ensures
        call_ensures(AppRunner::<A>::page_turn, (runner, forward), commands) ==> did(
            *old(runner),
            old(runner)@,
            commands@,
            *final(runner),
            does,
        ),
        call_ensures(
            AppRunner::<A>::deliver,
            (runner, ClientEvent::PageTurn(forward)),
            commands,
        ) ==>
            did(
            *old(runner),
            old(runner)@,
            commands@,
            *final(runner),
            does,
        ),
{
}

/// The answer to a store request is heard, and one answer fewer is awaited.
pub proof fn law_store_answers_are_heard<A: KoboApp>(
    runner: &mut AppRunner<A>,
    result: StoreResult,
    commands: Vec<Command>,
    does: spec_fn(A, ContextModel, A, ContextModel) -> bool,
)
    requires
        forall|app: &mut A, context: &mut Context| #[trigger]
            call_ensures(A::on_store, (app, context, result), ()) ==> does(
                *app,
                (*context)@,
                *final(app),
                (*final(context))@,
            ),
    ensures
        call_ensures(AppRunner::<A>::store_result, (runner, result), commands) ==> did(
            *old(runner),
            (SessionModel {
                pending_stores: if old(runner)@.pending_stores == 0 {
                    0
                } else {
                    (old(runner)@.pending_stores - 1) as usize
                },
                ..old(runner)@
            }),
            commands@,
            *final(runner),
            does,
        ),
        call_ensures(AppRunner::<A>::deliver, (runner, ClientEvent::Store(result)), commands) ==>
            did(
            *old(runner),
            (SessionModel {
                pending_stores: if old(runner)@.pending_stores == 0 {
                    0
                } else {
                    (old(runner)@.pending_stores - 1) as usize
                },
                ..old(runner)@
            }),
            commands@,
            *final(runner),
            does,
        ),
{
}

/// What a terminal says is heard.
pub proof fn law_terminals_are_heard<A: KoboApp>(
    runner: &mut AppRunner<A>,
    event: ShellEvent,
    commands: Vec<Command>,
    does: spec_fn(A, ContextModel, A, ContextModel) -> bool,
)
    requires
        forall|app: &mut A, context: &mut Context| #[trigger]
            call_ensures(A::on_shell_event, (app, context, event), ()) ==> does(
                *app,
                (*context)@,
                *final(app),
                (*final(context))@,
            ),
    ensures
        call_ensures(AppRunner::<A>::shell_event, (runner, event), commands) ==> did(
            *old(runner),
            old(runner)@,
            commands@,
            *final(runner),
            does,
        ),
        call_ensures(AppRunner::<A>::deliver, (runner, ClientEvent::Shell(event)), commands) ==>
            did(
            *old(runner),
            old(runner)@,
            commands@,
            *final(runner),
            does,
        ),
{
}

/// The application hears that the reader came back to it.
pub proof fn law_coming_back_is_heard<A: KoboApp>(
    runner: &mut AppRunner<A>,
    commands: Vec<Command>,
    does: spec_fn(A, ContextModel, A, ContextModel) -> bool,
)
    requires
        forall|app: &mut A, context: &mut Context| #[trigger]
            call_ensures(A::on_foreground, (app, context), ()) ==> does(
                *app,
                (*context)@,
                *final(app),
                (*final(context))@,
            ),
    ensures
        call_ensures(AppRunner::<A>::lifecycle, (runner, Lifecycle::Foreground), commands) ==> did(
            *old(runner),
            old(runner)@,
            commands@,
            *final(runner),
            does,
        ),
        call_ensures(
            AppRunner::<A>::deliver,
            (runner, ClientEvent::Lifecycle(Lifecycle::Foreground)),
            commands,
        ) ==>
            did(
            *old(runner),
            old(runner)@,
            commands@,
            *final(runner),
            does,
        ),
{
}

/// The application hears that the reader left it, and what it last showed is no
/// longer taken to be on the panel.
pub proof fn law_going_away_is_heard<A: KoboApp>(
    runner: &mut AppRunner<A>,
    commands: Vec<Command>,
    does: spec_fn(A, ContextModel, A, ContextModel) -> bool,
)
    requires
        forall|app: &mut A, context: &mut Context| #[trigger]
            call_ensures(A::on_background, (app, context), ()) ==> does(
                *app,
                (*context)@,
                *final(app),
                (*final(context))@,
            ),
    ensures
        call_ensures(AppRunner::<A>::lifecycle, (runner, Lifecycle::Background), commands) ==> did(
            *old(runner),
            (SessionModel { displayed: None, ..old(runner)@ }),
            commands@,
            *final(runner),
            does,
        ),
        call_ensures(
            AppRunner::<A>::deliver,
            (runner, ClientEvent::Lifecycle(Lifecycle::Background)),
            commands,
        ) ==>
            did(
            *old(runner),
            (SessionModel { displayed: None, ..old(runner)@ }),
            commands@,
            *final(runner),
            does,
        ),
{
}

/// The answer to a device request is heard with the request that was made first,
/// which is then no longer awaited.
pub proof fn law_device_answers_are_heard<A: KoboApp>(
    runner: &mut AppRunner<A>,
    result: DeviceResult,
    commands: Vec<Command>,
    does: spec_fn(A, ContextModel, A, ContextModel) -> bool,
)
    requires
        forall|app: &mut A, context: &mut Context, request: DeviceRequest| #[trigger]
            call_ensures(A::on_device_result, (app, context, request, result), ())
                && request@ == old(runner)@.pending[0] ==> does(
                *app,
                (*context)@,
                *final(app),
                (*final(context))@,
            ),
        old(runner)@.pending.len() > 0,
    ensures
        call_ensures(AppRunner::<A>::device_result, (runner, result), commands) ==> did(
            *old(runner),
            (SessionModel { pending: old(runner)@.pending.drop_first(), ..old(runner)@ }),
            commands@,
            *final(runner),
            does,
        ),
        call_ensures(AppRunner::<A>::deliver, (runner, ClientEvent::Device(result)), commands) ==>
            did(
            *old(runner),
            (SessionModel { pending: old(runner)@.pending.drop_first(), ..old(runner)@ }),
            commands@,
            *final(runner),
            does,
        ),
{
}

/// An outcome that is reported is heard as it was, under the identifier that the
/// application holds.
pub proof fn law_outcomes_are_heard<A: KoboApp>(
    runner: &mut AppRunner<A>,
    task: TaskId,
    outcome: TaskOutcome,
    commands: Vec<Command>,
    does: spec_fn(A, ContextModel, A, ContextModel) -> bool,
)
    requires
        forall|app: &mut A, context: &mut Context, held: TaskId, news: TaskOutcome| #[trigger]
            call_ensures(A::on_task, (app, context, held, news), ())
                && held == old(runner)@.delivery(task, outcome@)->Report_task
                    && news@ == outcome@ ==>
                    does(
                *app,
                (*context)@,
                *final(app),
                (*final(context))@,
            ),
        old(runner)@.delivery(task, outcome@) is Report,
    ensures
        call_ensures(AppRunner::<A>::task_outcome, (runner, task, outcome), commands) ==> did(
            *old(runner),
            old(runner)@.having_heard(task, outcome@),
            commands@,
            *final(runner),
            does,
        ),
        call_ensures(
            AppRunner::<A>::deliver,
            (runner, (ClientEvent::Task { task, outcome })),
            commands,
        ) ==>
            did(
            *old(runner),
            old(runner)@.having_heard(task, outcome@),
            commands@,
            *final(runner),
            does,
        ),
{
}

/// Starting again, and an answer that nothing was asked for, come to nothing.
pub proof fn law_nothing_is_heard_twice<A: KoboApp>(
    runner: &mut AppRunner<A>,
    result: DeviceResult,
    commands: Vec<Command>,
)
    ensures
        old(runner)@.started && call_ensures(AppRunner::<A>::start, (runner,), commands)
            ==> commands@.len() == 0 && final(runner)@ == old(runner)@
            && final(runner).application() == old(runner).application(),
        old(runner)@.pending.len() == 0 && call_ensures(
            AppRunner::<A>::device_result,
            (runner, result),
            commands,
        ) ==> commands@.len() == 0 && final(runner)@ == old(runner)@
            && final(runner).application() == old(runner).application(),
        old(runner)@.pending.len() == 0 && call_ensures(
            AppRunner::<A>::deliver,
            (runner, ClientEvent::Device(result)),
            commands,
        ) ==> commands@.len() == 0 && final(runner)@ == old(runner)@
            && final(runner).application() == old(runner).application(),
{
}

/// An outcome that the application is kept from leaves the application as it was.
pub proof fn law_quiet_outcomes_are_not_heard<A: KoboApp>(
    runner: &mut AppRunner<A>,
    task: TaskId,
    outcome: TaskOutcome,
    commands: Vec<Command>,
)
    requires
        old(runner)@.delivery(task, outcome@) is Quiet,
        call_ensures(AppRunner::<A>::task_outcome, (runner, task, outcome), commands)
            || call_ensures(
            AppRunner::<A>::deliver,
            (runner, (ClientEvent::Task { task, outcome })),
            commands,
        ),
    ensures
        final(runner).application() == old(runner).application(),
        commands@.len() == 1,
        commands@[0] is Spawn,
        final(runner)@.in_flight == old(runner)@.in_flight,
        final(runner)@.pending == old(runner)@.pending,
        final(runner)@.displayed == old(runner)@.displayed,
{
    let told = item::models(commands@);
    assert(told.len() == commands@.len());
    assert(told.len() == 1 && told[0] is Spawn);
    assert(told[0] == commands@[0]@);
}

/// The action that leads to a network is answered without the application: the
/// panel is handed to the settings, and to nothing else.
pub proof fn law_joining_a_network_is_answered<A: KoboApp>(
    runner: &mut AppRunner<A>,
    action: ActionId,
    commands: Vec<Command>,
)
    requires
        action == name::action_of("kobo.join-wifi"@),
        call_ensures(AppRunner::<A>::action, (runner, action), commands) || call_ensures(
            AppRunner::<A>::deliver,
            (runner, ClientEvent::Action(action)),
            commands,
        ),
    ensures
        final(runner).application() == old(runner).application(),
        1 <= commands@.len() <= 2,
        commands@.last() matches Command::Launch(app) && app@ == "settings"@,
{
    let asked = crate::runner::to_network_settings(old(runner)@);
    let nanos = choose|nanos: u128|
        {
            &&& item::models(commands@) == #[trigger] old(runner)@.told(asked, nanos)
            &&& final(runner)@ == old(runner)@.after(asked)
        };
    let launch = CommandModel::Launch("settings"@);
    assert(asked.commands =~= seq![launch]);
    assert(old(runner)@.translations(asked.commands) =~= seq![launch]);
    reveal_with_fuel(crate::session::without_repeats, 3);
    let sent = old(runner)@.sent(asked.commands);
    assert(seq![launch].drop_first() =~= Seq::<CommandModel>::empty());
    assert(seq![launch].drop_last() =~= Seq::<CommandModel>::empty());
    assert(sent =~= seq![launch]);
    assert(item::models(commands@).last() == launch);
    assert(item::models(commands@).last() == commands@.last()@);
}

/// A runner holds the application it was given, on the panel it was given, and
/// nothing has happened in it.
pub proof fn law_runners_hold_their_application<A: KoboApp>(
    app: A,
    metrics: DisplayMetrics,
    made: AppRunner<A>,
    runner: &AppRunner<A>,
    held: &A,
    context: Context,
)
    ensures
        call_ensures(AppRunner::<A>::with_metrics, (app, metrics), made) ==> {
            &&& made.application() == app
            &&& made@.metrics == metrics
            &&& !made@.started
            &&& made@.pending.len() == 0
            &&& made@.pending_stores == 0
            &&& made@.in_flight == 0
            &&& made@.next_task == 0
            &&& made@.displayed is None
        },
        call_ensures(AppRunner::<A>::new, (app,), made) ==> {
            &&& made.application() == app
            &&& made@.metrics.width == 1072
            &&& made@.metrics.height == 1448
            &&& !made@.started
            &&& made@.pending.len() == 0
            &&& made@.pending_stores == 0
            &&& made@.in_flight == 0
        },
        call_ensures(AppRunner::<A>::app, (runner,), held) ==> *held == runner.application(),
        call_ensures(AppRunner::<A>::context, (runner,), context) ==> {
            &&& context@.commands.len() == 0
            &&& context@.metrics == runner@.metrics
            &&& context@.in_flight == runner@.in_flight
            &&& context@.next_task == runner@.next_task
        },
{
}

/// What a runner tells of what it awaits is what its session awaits.
pub proof fn law_runners_tell_what_they_await<A: KoboApp>(
    runner: &AppRunner<A>,
    forgetting: &mut AppRunner<A>,
    requests: usize,
    owed: bool,
    answers: usize,
    tasks: usize,
)
    ensures
        call_ensures(AppRunner::<A>::outstanding_requests, (runner,), requests) ==> requests
            == runner@.pending.len(),
        call_ensures(AppRunner::<A>::is_owed_answers, (runner,), owed) ==> (owed
            <==> runner@.pending.len() > 0 || runner@.pending_stores > 0),
        call_ensures(AppRunner::<A>::outstanding_answers, (runner,), answers) ==> answers
            == runner@.pending.len() + runner@.pending_stores,
        call_ensures(AppRunner::<A>::tasks_in_flight, (runner,), tasks) ==> tasks
            == runner@.in_flight,
        call_ensures(AppRunner::<A>::forget_displayed, (forgetting,), ()) ==> {
            &&& final(forgetting).application() == old(forgetting).application()
            &&& final(forgetting)@ == (SessionModel { displayed: None, ..old(forgetting)@ })
        },
{
}

// ---------------------------------------------------------------------------
// Sessions.

/// An outcome that is reported frees one slot in the context that is opened for
/// the report, however the task ended, and says what happened.
pub proof fn law_reported_outcomes_free_their_slot(
    heard: &mut Session,
    session: &Session,
    task: TaskId,
    outcome: TaskOutcome,
    delivery: Delivery,
    context: Context,
)
    requires
        call_ensures(Session::hear, (heard, task, outcome), delivery),
        *session == *final(heard),
        call_ensures(Session::open, (session,), context),
        delivery is Report,
    ensures
        delivery->outcome@ == outcome@,
        old(heard)@.in_flight > 0 ==> context@.in_flight == old(heard)@.in_flight - 1,
        old(heard)@.in_flight == 0 ==> context@.in_flight == 0,
        context@.commands.len() == 0,
        context@.next_task == old(heard)@.next_task,
{
}

/// An outcome that is not reported starts one task and frees no slot.
pub proof fn law_quiet_outcomes_start_one_task(
    heard: &mut Session,
    task: TaskId,
    outcome: TaskOutcome,
    delivery: Delivery,
)
    requires
        call_ensures(Session::hear, (heard, task, outcome), delivery),
        delivery is Quiet,
    ensures
        item::models(delivery->Quiet_0@).len() == 1,
        item::models(delivery->Quiet_0@)[0] is Spawn,
        final(heard)@.in_flight == old(heard)@.in_flight,
        final(heard)@.settled == old(heard)@.settled,
        final(heard)@.pending == old(heard)@.pending,
        final(heard)@.pending_stores == old(heard)@.pending_stores,
        final(heard)@.displayed == old(heard)@.displayed,
        final(heard)@.started == old(heard)@.started,
        old(heard)@.next_task < u32::MAX ==> final(heard)@.next_task == old(heard)@.next_task + 1,
{
}

/// A session begins once; answers are matched to what was asked first; and a
/// store answer is counted once, as long as one is awaited.
pub proof fn law_sessions_count_their_answers(
    session: &mut Session,
    first: bool,
    request: Option<DeviceRequest>,
)
    ensures
        call_ensures(Session::begin, (session,), first) ==> first == !old(session)@.started
            && final(session)@ == (SessionModel { started: true, ..old(session)@ }),
        call_ensures(Session::answered_request, (session,), request) ==> {
            &&& request is Some <==> old(session)@.pending.len() > 0
            &&& request matches Some(known) ==> known@ == old(session)@.pending[0]
                && final(session)@ == (SessionModel {
                pending: old(session)@.pending.drop_first(),
                ..old(session)@
            })
            &&& request is None ==> final(session)@ == old(session)@
        },
        call_ensures(Session::answered_store, (session,), ()) ==> {
            &&& old(session)@.pending_stores > 0 ==> final(session)@.pending_stores == old(
                session,
            )@.pending_stores - 1
            &&& old(session)@.pending_stores == 0 ==> final(session)@.pending_stores == 0
            &&& final(session)@.pending == old(session)@.pending
            &&& final(session)@.in_flight == old(session)@.in_flight
        },
        call_ensures(Session::forget_displayed, (session,), ()) ==> final(session)@ == (
        SessionModel { displayed: None, ..old(session)@ }),
{
}

/// What a session tells of itself is what it awaits and what is in flight.
pub proof fn law_sessions_tell_what_they_await(
    session: &Session,
    requests: usize,
    owed: bool,
    answers: usize,
    tasks: usize,
    fresh: Context,
    metrics: DisplayMetrics,
    made: Session,
)
    ensures
        call_ensures(Session::outstanding_requests, (session,), requests) ==> requests
            == session@.pending.len(),
        call_ensures(Session::is_owed_answers, (session,), owed) ==> (owed
            <==> session@.pending.len() > 0 || session@.pending_stores > 0),
        call_ensures(Session::outstanding_answers, (session,), answers) ==> answers
            == session@.pending.len() + session@.pending_stores,
        call_ensures(Session::tasks_in_flight, (session,), tasks) ==> tasks == session@.in_flight,
        call_ensures(Session::context, (session,), fresh) ==> fresh@.commands.len() == 0
            && fresh@.metrics == session@.metrics && fresh@.in_flight == session@.in_flight
            && fresh@.next_task == session@.next_task && fresh@.retrying.len() == 0,
        call_ensures(Session::new, (metrics,), made) ==> made@.metrics == metrics && !made@.started
            && made@.pending.len() == 0 && made@.pending_stores == 0 && made@.in_flight == 0
            && made@.next_task == 0 && !made@.settled && made@.displayed is None,
{
}

/// At the end of a callback what it asked for is passed on, behind one more thing
/// to say if it took longer than a quarter of a second; the tasks it started are
/// in flight, and nothing is left to settle.
pub proof fn law_callbacks_are_concluded(
    session: &mut Session,
    context: Context,
    nanos: u128,
    commands: Vec<Command>,
)
    requires
        call_ensures(Session::conclude, (session, context, nanos), commands),
    ensures
        final(session)@.next_task == context@.next_task,
        final(session)@.in_flight == context@.in_flight,
        !final(session)@.settled,
        final(session)@.metrics == old(session)@.metrics,
        final(session)@.started == old(session)@.started,
        final(session)@.napping == old(session)@.napping,
        final(session)@.attempts == old(session)@.attempts,
        nanos <= 250_000_000 ==> item::models(commands@) == old(session)@.sent(context@.commands),
        nanos > 250_000_000 ==> item::models(commands@).len() == old(session)@.sent(
            context@.commands,
        ).len() + 1 && item::models(commands@).drop_first() == old(session)@.sent(
            context@.commands,
        ),
        final(session)@ == old(session)@.after(context@),
{
    if nanos > 250_000_000 {
        assert(item::models(commands@).drop_first() =~= old(session)@.sent(context@.commands));
    }
}

} // verus!
