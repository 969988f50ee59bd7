//! Driving an application.

use std::time::Instant;
use vstd::prelude::*;

use crate::client::ClientEvent;
use crate::command::{Command, CommandModel};
use crate::context::{Context, ContextModel, DisplayMetrics};
use crate::device::{DeviceRequest, DeviceResult};
use crate::failure::{JOIN_WIFI, NETWORK_SETTINGS_APP};
use crate::item;
use crate::name;
use crate::name::action_id;
use crate::session::{Delivery, DeliveryModel, Session, SessionModel};
use crate::shell::ShellEvent;
use crate::store::{Lifecycle, StoreResult};
use crate::task::{TaskId, TaskOutcome};
use crate::ui::ActionId;

verus! {

/// A moment, as the machine's clock tells it.
#[verifier::external_type_specification]
#[verifier::external_body]
pub struct ExInstant(Instant);

/// `Instant::now` reads the clock: nothing is claimed of what it says.
pub assume_specification[ Instant::now ]() -> (moment: Instant)
;

/// How many nanoseconds ago a moment was, as `Instant::elapsed` tells it from
/// the machine's clock: nothing is claimed of how many.
#[verifier::external_body]
fn nanos_since(moment: &Instant) -> (nanos: u128) {
    moment.elapsed().as_nanos()
}

/// A run of text that the reader held, in the application's own coordinates.
#[derive(Clone, Copy, Debug, PartialEq, Eq, Structural)]
pub struct TextHit {
    pub context: u64,
    pub start: u32,
    pub end: u32,
}

/// An application, as the platform drives it.
pub trait KoboApp: Sized {
    fn on_start(&mut self, context: &mut Context);

    fn on_action(&mut self, context: &mut Context, action: ActionId);

    /// Receives a held word. Applications that have not opted into selection
    /// hear of it as an action.
    fn on_text_hold(&mut self, context: &mut Context, action: ActionId, _hit: TextHit)
        default_ensures
            exists|app: &mut Self, inner: &mut Context|
                {
                    &&& *app == *old(self)
                    &&& *inner == *old(context)
                    &&& #[trigger] call_ensures(Self::on_action, (app, inner, action), ())
                    &&& *final(app) == *final(self)
                    &&& *final(inner) == *final(context)
                },
    {
        self.on_action(context, action);
    }

    fn on_resume(&mut self, _context: &mut Context)
        default_ensures
            *final(self) == *old(self),
            *final(_context) == *old(_context),
    {
    }

    fn on_suspend(&mut self, _context: &mut Context)
        default_ensures
            *final(self) == *old(self),
            *final(_context) == *old(_context),
    {
    }

    fn on_scheduled_wake(&mut self, _context: &mut Context)
        default_ensures
            *final(self) == *old(self),
            *final(_context) == *old(_context),
    {
    }

    fn on_exit(&mut self, _context: &mut Context)
        default_ensures
            *final(self) == *old(self),
            *final(_context) == *old(_context),
    {
    }

    /// Receives the answer to exactly one earlier device request.
    fn on_device_result(
        &mut self,
        _context: &mut Context,
        _request: DeviceRequest,
        _result: DeviceResult,
    )
        default_ensures
            *final(self) == *old(self),
            *final(_context) == *old(_context),
    {
    }

    /// A magnet arrived at, or left, the hall sensor.
    fn on_cover_change(&mut self, _context: &mut Context, _magnet_present: bool)
        default_ensures
            *final(self) == *old(self),
            *final(_context) == *old(_context),
    {
    }

    /// Receives a physical page-turn key press, already resolved to intent.
    fn on_page_turn(&mut self, _context: &mut Context, _forward: bool)
        default_ensures
            *final(self) == *old(self),
            *final(_context) == *old(_context),
    {
    }

    /// Receives the outcome of exactly one earlier task.
    fn on_task(&mut self, _context: &mut Context, _task: TaskId, _outcome: TaskOutcome)
        default_ensures
            *final(self) == *old(self),
            *final(_context) == *old(_context),
    {
    }

    /// The reader left this application for another one. Nothing is stopped, and
    /// nothing drawn from here is seen until the reader comes back.
    fn on_background(&mut self, _context: &mut Context)
        default_ensures
            *final(self) == *old(self),
            *final(_context) == *old(_context),
    {
    }

    /// The reader came back.
    fn on_foreground(&mut self, _context: &mut Context)
        default_ensures
            *final(self) == *old(self),
            *final(_context) == *old(_context),
    {
    }

    /// Receives the answer to exactly one earlier store request.
    fn on_store(&mut self, _context: &mut Context, _result: StoreResult)
        default_ensures
            *final(self) == *old(self),
            *final(_context) == *old(_context),
    {
    }

    /// Receives everything a terminal has to say.
    fn on_shell_event(&mut self, _context: &mut Context, _event: ShellEvent)
        default_ensures
            *final(self) == *old(self),
            *final(_context) == *old(_context),
    {
    }
}

/// An application and everything it has asked for.
#[derive(Debug)]
pub struct AppRunner<A> {
    app: A,
    session: Session,
}

impl<A> View for AppRunner<A> {
    type V = SessionModel;

    closed spec fn view(&self) -> SessionModel {
        self.session@
    }
}

impl<A> AppRunner<A> {
    /// The application itself.
    pub closed spec fn application(&self) -> A {
        self.app
    }
}

/// A context in which the panel is handed to the application that owns the
/// radio.
pub open spec fn to_network_settings(session: SessionModel) -> ContextModel {
    session.opened().asking(CommandModel::Launch(NETWORK_SETTINGS_APP@))
}

/// Whether one callback came to this: given `before`'s application and a
/// context that `start` opens, it left the application and the context as they
/// are in `left` and `asked`, and after `nanos` the runner passed on `commands`
/// and became `after`.
pub open spec fn ran<A>(
    before: AppRunner<A>,
    start: SessionModel,
    app: A,
    context: ContextModel,
    left: A,
    asked: ContextModel,
    nanos: u128,
    commands: Seq<Command>,
    after: AppRunner<A>,
) -> bool {
    &&& app == before.application()
    &&& context == start.opened()
    &&& left == after.application()
    &&& item::models(commands) == start.told(asked, nanos)
    &&& after@ == start.after(asked)
}

impl<A: KoboApp> AppRunner<A> {
    /// Runs an application against the panel of a Clara BW.
    #[must_use]
    pub fn new(app: A) -> (runner: Self)
        ensures
            runner.application() == app,
            runner@ == SessionModel::fresh(DisplayMetrics::clara_bw()),
    {
        AppRunner { app, session: Session::new(DisplayMetrics::default()) }
    }

    /// Runs an application against a specific panel.
    #[must_use]
    pub fn with_metrics(app: A, metrics: DisplayMetrics) -> (runner: Self)
        ensures
            runner.application() == app,
            runner@ == SessionModel::fresh(metrics),
    {
        AppRunner { app, session: Session::new(metrics) }
    }

    #[must_use]
    pub fn app(&self) -> (app: &A)
        ensures
            *app == self.application(),
    {
        &self.app
    }

    pub fn app_mut(&mut self) -> (app: &mut A)
        ensures
            *app == old(self).application(),
            final(self).application() == *final(app),
            final(self)@ == old(self)@,
    {
        &mut self.app
    }

    /// A context measuring against the same panel the application runs on.
    #[must_use]
    pub fn context(&self) -> (context: Context)
        ensures
            context@ == self@.context(),
    {
        self.session.context()
    }

    /// Starts the application. Starting it again does nothing.
    pub fn start(&mut self) -> (commands: Vec<Command>)
        ensures
            old(self)@.started ==> commands@.len() == 0 && final(self)@ == old(self)@
                && final(self).application() == old(self).application(),
            !old(self)@.started ==> exists|app: &mut A, context: &mut Context, nanos: u128|
                    #![trigger
                        call_ensures(A::on_start, (app, context), ()),
                        old(self)@.begun().told((*final(context))@, nanos)
                    ]
                    {
                        &&& call_ensures(A::on_start, (app, context), ())
                        &&& ran(
                            *old(self), old(self)@.begun(), *app, (*context)@,
                            *final(app), (*final(context))@, nanos, commands@, *final(self),
                        )
                    },
    {
        if !self.session.begin() {
            return Vec::new();
        }
        let ghost before = self@;
        let mut context = self.session.open();
        let started = Instant::now();
        self.app.on_start(&mut context);
        let nanos: u128 = nanos_since(&started);
        assert(self@ == before);
        self.session.conclude(context, nanos)
    }

    /// Delivers what the reader did. Joining a network is answered here: the
    /// application never learns which application owns the radio.
    pub fn action(&mut self, action: ActionId) -> (commands: Vec<Command>)
        ensures
            action == name::action_of(JOIN_WIFI@) ==>
                final(self).application() == old(self).application() && exists|nanos: u128|
                {
                    &&& item::models(commands@) == #[trigger] old(self)@.told(
                        to_network_settings(old(self)@),
                        nanos,
                    )
                    &&& final(self)@ == old(self)@.after(to_network_settings(old(self)@))
                },
            action != name::action_of(JOIN_WIFI@) ==>
                exists|app: &mut A, context: &mut Context, nanos: u128|
                    #![trigger
                        call_ensures(A::on_action, (app, context, action), ()),
                        old(self)@.told((*final(context))@, nanos)
                    ]
                    {
                        &&& call_ensures(A::on_action, (app, context, action), ())
                        &&& ran(
                            *old(self), old(self)@, *app, (*context)@,
                            *final(app), (*final(context))@, nanos, commands@, *final(self),
                        )
                    },
    {
        if action == action_id(JOIN_WIFI) {
            let mut context = self.session.open();
            let started = Instant::now();
            context.launch(NETWORK_SETTINGS_APP);
            let nanos: u128 = nanos_since(&started);
            return self.session.conclude(context, nanos);
        }
        let ghost before = self@;
        let mut context = self.session.open();
        let started = Instant::now();
        self.app.on_action(&mut context, action);
        let nanos: u128 = nanos_since(&started);
        assert(self@ == before);
        self.session.conclude(context, nanos)
    }

    /// Delivers a run of text that the reader held.
    pub fn text_hold(&mut self, action: ActionId, hit: TextHit) -> (commands: Vec<Command>)
        ensures
            exists|app: &mut A, context: &mut Context, nanos: u128|
                    #![trigger
                        call_ensures(A::on_text_hold, (app, context, action, hit), ()),
                        old(self)@.told((*final(context))@, nanos)
                    ]
                    {
                        &&& call_ensures(A::on_text_hold, (app, context, action, hit), ())
                        &&& ran(
                            *old(self), old(self)@, *app, (*context)@,
                            *final(app), (*final(context))@, nanos, commands@, *final(self),
                        )
                    },
    {
        let ghost before = self@;
        let mut context = self.session.open();
        let started = Instant::now();
        self.app.on_text_hold(&mut context, action, hit);
        let nanos: u128 = nanos_since(&started);
        assert(self@ == before);
        self.session.conclude(context, nanos)
    }

    /// The reader woke.
    pub fn resume(&mut self) -> (commands: Vec<Command>)
        ensures
            exists|app: &mut A, context: &mut Context, nanos: u128|
                    #![trigger
                        call_ensures(A::on_resume, (app, context), ()),
                        old(self)@.told((*final(context))@, nanos)
                    ]
                    {
                        &&& call_ensures(A::on_resume, (app, context), ())
                        &&& ran(
                            *old(self), old(self)@, *app, (*context)@,
                            *final(app), (*final(context))@, nanos, commands@, *final(self),
                        )
                    },
    {
        let ghost before = self@;
        let mut context = self.session.open();
        let started = Instant::now();
        self.app.on_resume(&mut context);
        let nanos: u128 = nanos_since(&started);
        assert(self@ == before);
        self.session.conclude(context, nanos)
    }

    /// The reader is going to sleep.
    pub fn suspend(&mut self) -> (commands: Vec<Command>)
        ensures
            exists|app: &mut A, context: &mut Context, nanos: u128|
                    #![trigger
                        call_ensures(A::on_suspend, (app, context), ()),
                        old(self)@.told((*final(context))@, nanos)
                    ]
                    {
                        &&& call_ensures(A::on_suspend, (app, context), ())
                        &&& ran(
                            *old(self), old(self)@, *app, (*context)@,
                            *final(app), (*final(context))@, nanos, commands@, *final(self),
                        )
                    },
    {
        let ghost before = self@;
        let mut context = self.session.open();
        let started = Instant::now();
        self.app.on_suspend(&mut context);
        let nanos: u128 = nanos_since(&started);
        assert(self@ == before);
        self.session.conclude(context, nanos)
    }

    /// The time the application asked to be woken at has come.
    pub fn scheduled_wake(&mut self) -> (commands: Vec<Command>)
        ensures
            exists|app: &mut A, context: &mut Context, nanos: u128|
                    #![trigger
                        call_ensures(A::on_scheduled_wake, (app, context), ()),
                        old(self)@.told((*final(context))@, nanos)
                    ]
                    {
                        &&& call_ensures(A::on_scheduled_wake, (app, context), ())
                        &&& ran(
                            *old(self), old(self)@, *app, (*context)@,
                            *final(app), (*final(context))@, nanos, commands@, *final(self),
                        )
                    },
    {
        let ghost before = self@;
        let mut context = self.session.open();
        let started = Instant::now();
        self.app.on_scheduled_wake(&mut context);
        let nanos: u128 = nanos_since(&started);
        assert(self@ == before);
        self.session.conclude(context, nanos)
    }

    /// The panel is being taken back.
    pub fn exit(&mut self) -> (commands: Vec<Command>)
        ensures
            exists|app: &mut A, context: &mut Context, nanos: u128|
                    #![trigger
                        call_ensures(A::on_exit, (app, context), ()),
                        old(self)@.told((*final(context))@, nanos)
                    ]
                    {
                        &&& call_ensures(A::on_exit, (app, context), ())
                        &&& ran(
                            *old(self), old(self)@, *app, (*context)@,
                            *final(app), (*final(context))@, nanos, commands@, *final(self),
                        )
                    },
    {
        let ghost before = self@;
        let mut context = self.session.open();
        let started = Instant::now();
        self.app.on_exit(&mut context);
        let nanos: u128 = nanos_since(&started);
        assert(self@ == before);
        self.session.conclude(context, nanos)
    }

    /// Delivers one hall-sensor change, which nothing asked for.
    pub fn cover_changed(&mut self, magnet_present: bool) -> (commands: Vec<Command>)
        ensures
            exists|app: &mut A, context: &mut Context, nanos: u128|
                    #![trigger
                        call_ensures(A::on_cover_change, (app, context, magnet_present), ()),
                        old(self)@.told((*final(context))@, nanos)
                    ]
                    {
                        &&& call_ensures(A::on_cover_change, (app, context, magnet_present), ())
                        &&& ran(
                            *old(self), old(self)@, *app, (*context)@,
                            *final(app), (*final(context))@, nanos, commands@, *final(self),
                        )
                    },
    {
        let ghost before = self@;
        let mut context = self.session.open();
        let started = Instant::now();
        self.app.on_cover_change(&mut context, magnet_present);
        let nanos: u128 = nanos_since(&started);
        assert(self@ == before);
        self.session.conclude(context, nanos)
    }

    /// Delivers one page-turn key press, which nothing asked for.
    pub fn page_turn(&mut self, forward: bool) -> (commands: Vec<Command>)
        ensures
            exists|app: &mut A, context: &mut Context, nanos: u128|
                    #![trigger
                        call_ensures(A::on_page_turn, (app, context, forward), ()),
                        old(self)@.told((*final(context))@, nanos)
                    ]
                    {
                        &&& call_ensures(A::on_page_turn, (app, context, forward), ())
                        &&& ran(
                            *old(self), old(self)@, *app, (*context)@,
                            *final(app), (*final(context))@, nanos, commands@, *final(self),
                        )
                    },
    {
        let ghost before = self@;
        let mut context = self.session.open();
        let started = Instant::now();
        self.app.on_page_turn(&mut context, forward);
        let nanos: u128 = nanos_since(&started);
        assert(self@ == before);
        self.session.conclude(context, nanos)
    }

    /// Delivers one device answer, matched to the request that produced it.
    /// Answers arrive in request order; one with nothing outstanding is ignored
    /// rather than mismatched.
    pub fn device_result(&mut self, result: DeviceResult) -> (commands: Vec<Command>)
        ensures
            old(self)@.pending.len() == 0 ==> commands@.len() == 0 && final(self)@ == old(self)@
                && final(self).application() == old(self).application(),
            old(self)@.pending.len() > 0 ==>
                exists|app: &mut A, context: &mut Context, request: DeviceRequest, nanos: u128|
                    #![trigger
                        call_ensures(A::on_device_result, (app, context, request, result), ()),
                        old(self)@.request_answered().told((*final(context))@, nanos)
                    ]
                    {
                        &&& request@ == old(self)@.pending[0]
                        &&& call_ensures(A::on_device_result, (app, context, request, result), ())
                        &&& ran(
                            *old(self), old(self)@.request_answered(), *app, (*context)@,
                            *final(app), (*final(context))@, nanos, commands@, *final(self),
                        )
                    },
    {
        match self.session.answered_request() {
            None => Vec::new(),
            Some(request) => {
                let ghost before = self@;
                let mut context = self.session.open();
                let started = Instant::now();
                self.app.on_device_result(&mut context, request, result);
                let nanos: u128 = nanos_since(&started);
                assert(self@ == before);
                self.session.conclude(context, nanos)
            },
        }
    }

    /// Delivers the outcome of one task, or tries the work again without the
    /// application hearing of it.
    pub fn task_outcome(&mut self, task: TaskId, outcome: TaskOutcome) -> (commands: Vec<Command>)
        ensures
            old(self)@.delivery(task, outcome@) matches DeliveryModel::Quiet(told)
                ==> item::models(commands@) == told && final(self)@ == old(self)@.having_heard(
                task,
                outcome@,
            ) && final(self).application() == old(self).application(),
            old(self)@.delivery(task, outcome@) is Report ==>
                exists|
                    app: &mut A,
                    context: &mut Context,
                    held: TaskId,
                    news: TaskOutcome,
                    nanos: u128,
                |
                    #![trigger
                        call_ensures(A::on_task, (app, context, held, news), ()),
                        old(self)@.having_heard(task, outcome@).told((*final(context))@, nanos)
                    ]
                    {
                        &&& old(self)@.delivery(task, outcome@) == DeliveryModel::Report {
                        task: held,
                        outcome: news@,
                    }
                        &&& call_ensures(A::on_task, (app, context, held, news), ())
                        &&& ran(
                            *old(self), old(self)@.having_heard(task, outcome@), *app, (*context)@,
                            *final(app), (*final(context))@, nanos, commands@, *final(self),
                        )
                    },
    {
        let delivery = self.session.hear(task, outcome);
        match delivery {
            Delivery::Quiet(commands) => commands,
            Delivery::Report { task: held, outcome: news } => {
                let ghost before = self@;
                let mut context = self.session.open();
                let started = Instant::now();
                self.app.on_task(&mut context, held, news);
                let nanos: u128 = nanos_since(&started);
                assert(self@ == before);
                self.session.conclude(context, nanos)
            },
        }
    }

    /// Tells the application it gained or lost the panel. Once somebody else has
    /// had the panel, the next screen is sent even if it is the same one.
    pub fn lifecycle(&mut self, state: Lifecycle) -> (commands: Vec<Command>)
        ensures
            state == Lifecycle::Foreground ==>
                exists|app: &mut A, context: &mut Context, nanos: u128|
                    #![trigger
                        call_ensures(A::on_foreground, (app, context), ()),
                        old(self)@.told((*final(context))@, nanos)
                    ]
                    {
                        &&& call_ensures(A::on_foreground, (app, context), ())
                        &&& ran(
                            *old(self), old(self)@, *app, (*context)@,
                            *final(app), (*final(context))@, nanos, commands@, *final(self),
                        )
                    },
            state == Lifecycle::Background ==>
                exists|app: &mut A, context: &mut Context, nanos: u128|
                    #![trigger
                        call_ensures(A::on_background, (app, context), ()),
                        old(self)@.unseen().told((*final(context))@, nanos)
                    ]
                    {
                        &&& call_ensures(A::on_background, (app, context), ())
                        &&& ran(
                            *old(self), old(self)@.unseen(), *app, (*context)@,
                            *final(app), (*final(context))@, nanos, commands@, *final(self),
                        )
                    },
    {
        match state {
            Lifecycle::Foreground => {
                let ghost before = self@;
                let mut context = self.session.open();
                let started = Instant::now();
                self.app.on_foreground(&mut context);
                let nanos: u128 = nanos_since(&started);
                assert(self@ == before);
                self.session.conclude(context, nanos)
            },
            Lifecycle::Background => {
                self.session.forget_displayed();
                let ghost before = self@;
                let mut context = self.session.open();
                let started = Instant::now();
                self.app.on_background(&mut context);
                let nanos: u128 = nanos_since(&started);
                assert(self@ == before);
                self.session.conclude(context, nanos)
            },
        }
    }

    /// Forgets what the panel is believed to be showing, for a host that
    /// repaints from somewhere else.
    pub fn forget_displayed(&mut self)
        ensures
            final(self)@ == old(self)@.unseen(),
            final(self).application() == old(self).application(),
    {
        self.session.forget_displayed();
    }

    /// Delivers one store answer.
    pub fn store_result(&mut self, result: StoreResult) -> (commands: Vec<Command>)
        ensures
            exists|app: &mut A, context: &mut Context, nanos: u128|
                    #![trigger
                        call_ensures(A::on_store, (app, context, result), ()),
                        old(self)@.store_answered().told((*final(context))@, nanos)
                    ]
                    {
                        &&& call_ensures(A::on_store, (app, context, result), ())
                        &&& ran(
                            *old(self), old(self)@.store_answered(), *app, (*context)@,
                            *final(app), (*final(context))@, nanos, commands@, *final(self),
                        )
                    },
    {
        self.session.answered_store();
        let ghost before = self@;
        let mut context = self.session.open();
        let started = Instant::now();
        self.app.on_store(&mut context, result);
        let nanos: u128 = nanos_since(&started);
        assert(self@ == before);
        self.session.conclude(context, nanos)
    }

    /// Delivers one terminal event.
    pub fn shell_event(&mut self, event: ShellEvent) -> (commands: Vec<Command>)
        ensures
            exists|app: &mut A, context: &mut Context, nanos: u128|
                    #![trigger
                        call_ensures(A::on_shell_event, (app, context, event), ()),
                        old(self)@.told((*final(context))@, nanos)
                    ]
                    {
                        &&& call_ensures(A::on_shell_event, (app, context, event), ())
                        &&& ran(
                            *old(self), old(self)@, *app, (*context)@,
                            *final(app), (*final(context))@, nanos, commands@, *final(self),
                        )
                    },
    {
        let ghost before = self@;
        let mut context = self.session.open();
        let started = Instant::now();
        self.app.on_shell_event(&mut context, event);
        let nanos: u128 = nanos_since(&started);
        assert(self@ == before);
        self.session.conclude(context, nanos)
    }

    /// Delivers whatever the runtime said.
    pub fn deliver(&mut self, event: ClientEvent) -> (commands: Vec<Command>)
        ensures
            event matches ClientEvent::Action(action) ==>
                (action == name::action_of(JOIN_WIFI@) ==>
                final(self).application() == old(self).application() && exists|nanos: u128|
                {
                    &&& item::models(commands@) == #[trigger] old(self)@.told(
                        to_network_settings(old(self)@),
                        nanos,
                    )
                    &&& final(self)@ == old(self)@.after(to_network_settings(old(self)@))
                }),
            event matches ClientEvent::Action(action) ==>
                (action != name::action_of(JOIN_WIFI@) ==>
                exists|app: &mut A, context: &mut Context, nanos: u128|
                    #![trigger
                        call_ensures(A::on_action, (app, context, action), ()),
                        old(self)@.told((*final(context))@, nanos)
                    ]
                    {
                        &&& call_ensures(A::on_action, (app, context, action), ())
                        &&& ran(
                            *old(self), old(self)@, *app, (*context)@,
                            *final(app), (*final(context))@, nanos, commands@, *final(self),
                        )
                    }),
            event matches ClientEvent::TextHold { action, hit } ==>
                exists|app: &mut A, context: &mut Context, nanos: u128|
                    #![trigger
                        call_ensures(A::on_text_hold, (app, context, action, hit), ()),
                        old(self)@.told((*final(context))@, nanos)
                    ]
                    {
                        &&& call_ensures(A::on_text_hold, (app, context, action, hit), ())
                        &&& ran(
                            *old(self), old(self)@, *app, (*context)@,
                            *final(app), (*final(context))@, nanos, commands@, *final(self),
                        )
                    },
            event matches ClientEvent::Device(result) ==>
                (old(self)@.pending.len() == 0 ==> commands@.len() == 0
                    && final(self)@ == old(self)@
                    && final(self).application() == old(self).application()),
            event matches ClientEvent::Device(result) ==> (old(self)@.pending.len() > 0 ==>
                exists|app: &mut A, context: &mut Context, request: DeviceRequest, nanos: u128|
                    #![trigger
                        call_ensures(A::on_device_result, (app, context, request, result), ()),
                        old(self)@.request_answered().told((*final(context))@, nanos)
                    ]
                    {
                        &&& request@ == old(self)@.pending[0]
                        &&& call_ensures(A::on_device_result, (app, context, request, result), ())
                        &&& ran(
                            *old(self), old(self)@.request_answered(), *app, (*context)@,
                            *final(app), (*final(context))@, nanos, commands@, *final(self),
                        )
                    }),
            event matches ClientEvent::Task { task, outcome } ==>
                (old(self)@.delivery(task, outcome@) is Quiet ==>
                    item::models(commands@) == old(self)@.delivery(task, outcome@)->Quiet_0
                    && final(self)@ == old(self)@.having_heard(task, outcome@)
                    && final(self).application() == old(self).application()),
            event matches ClientEvent::Task { task, outcome } ==>
                (old(self)@.delivery(task, outcome@) is Report ==>
                exists|
                    app: &mut A,
                    context: &mut Context,
                    held: TaskId,
                    news: TaskOutcome,
                    nanos: u128,
                |
                    #![trigger
                        call_ensures(A::on_task, (app, context, held, news), ()),
                        old(self)@.having_heard(task, outcome@).told((*final(context))@, nanos)
                    ]
                    {
                        &&& old(self)@.delivery(task, outcome@) == DeliveryModel::Report {
                        task: held,
                        outcome: news@,
                    }
                        &&& call_ensures(A::on_task, (app, context, held, news), ())
                        &&& ran(
                            *old(self), old(self)@.having_heard(task, outcome@), *app, (*context)@,
                            *final(app), (*final(context))@, nanos, commands@, *final(self),
                        )
                    }),
            event matches ClientEvent::Store(result) ==>
                exists|app: &mut A, context: &mut Context, nanos: u128|
                    #![trigger
                        call_ensures(A::on_store, (app, context, result), ()),
                        old(self)@.store_answered().told((*final(context))@, nanos)
                    ]
                    {
                        &&& call_ensures(A::on_store, (app, context, result), ())
                        &&& ran(
                            *old(self), old(self)@.store_answered(), *app, (*context)@,
                            *final(app), (*final(context))@, nanos, commands@, *final(self),
                        )
                    },
            event matches ClientEvent::Lifecycle(state) ==>
                (state == Lifecycle::Foreground ==>
                exists|app: &mut A, context: &mut Context, nanos: u128|
                    #![trigger
                        call_ensures(A::on_foreground, (app, context), ()),
                        old(self)@.told((*final(context))@, nanos)
                    ]
                    {
                        &&& call_ensures(A::on_foreground, (app, context), ())
                        &&& ran(
                            *old(self), old(self)@, *app, (*context)@,
                            *final(app), (*final(context))@, nanos, commands@, *final(self),
                        )
                    }),
            event matches ClientEvent::Lifecycle(state) ==>
                (state == Lifecycle::Background ==>
                exists|app: &mut A, context: &mut Context, nanos: u128|
                    #![trigger
                        call_ensures(A::on_background, (app, context), ()),
                        old(self)@.unseen().told((*final(context))@, nanos)
                    ]
                    {
                        &&& call_ensures(A::on_background, (app, context), ())
                        &&& ran(
                            *old(self), old(self)@.unseen(), *app, (*context)@,
                            *final(app), (*final(context))@, nanos, commands@, *final(self),
                        )
                    }),
            event matches ClientEvent::Shell(event) ==>
                exists|app: &mut A, context: &mut Context, nanos: u128|
                    #![trigger
                        call_ensures(A::on_shell_event, (app, context, event), ()),
                        old(self)@.told((*final(context))@, nanos)
                    ]
                    {
                        &&& call_ensures(A::on_shell_event, (app, context, event), ())
                        &&& ran(
                            *old(self), old(self)@, *app, (*context)@,
                            *final(app), (*final(context))@, nanos, commands@, *final(self),
                        )
                    },
            event matches ClientEvent::CoverChanged(present) ==>
                exists|app: &mut A, context: &mut Context, nanos: u128|
                    #![trigger
                        call_ensures(A::on_cover_change, (app, context, present), ()),
                        old(self)@.told((*final(context))@, nanos)
                    ]
                    {
                        &&& call_ensures(A::on_cover_change, (app, context, present), ())
                        &&& ran(
                            *old(self), old(self)@, *app, (*context)@,
                            *final(app), (*final(context))@, nanos, commands@, *final(self),
                        )
                    },
            event matches ClientEvent::PageTurn(forward) ==>
                exists|app: &mut A, context: &mut Context, nanos: u128|
                    #![trigger
                        call_ensures(A::on_page_turn, (app, context, forward), ()),
                        old(self)@.told((*final(context))@, nanos)
                    ]
                    {
                        &&& call_ensures(A::on_page_turn, (app, context, forward), ())
                        &&& ran(
                            *old(self), old(self)@, *app, (*context)@,
                            *final(app), (*final(context))@, nanos, commands@, *final(self),
                        )
                    },
            event is Exit ==> exists|app: &mut A, context: &mut Context, nanos: u128|
                    #![trigger
                        call_ensures(A::on_exit, (app, context), ()),
                        old(self)@.told((*final(context))@, nanos)
                    ]
                    {
                        &&& call_ensures(A::on_exit, (app, context), ())
                        &&& ran(
                            *old(self), old(self)@, *app, (*context)@,
                            *final(app), (*final(context))@, nanos, commands@, *final(self),
                        )
                    },
    {
        match event {
            ClientEvent::Action(action) => self.action(action),
            ClientEvent::TextHold { action, hit } => self.text_hold(action, hit),
            ClientEvent::Device(result) => self.device_result(result),
            ClientEvent::Task { task, outcome } => self.task_outcome(task, outcome),
            ClientEvent::Store(result) => self.store_result(result),
            ClientEvent::Lifecycle(state) => self.lifecycle(state),
            ClientEvent::Shell(event) => self.shell_event(event),
            ClientEvent::CoverChanged(present) => self.cover_changed(present),
            ClientEvent::PageTurn(forward) => self.page_turn(forward),
            ClientEvent::Exit => self.exit(),
        }
    }

    /// The device requests still awaiting an answer.
    #[must_use]
    pub fn outstanding_requests(&self) -> (count: usize)
        ensures
            count == self@.pending.len(),
    {
        self.session.outstanding_requests()
    }

    /// Whether the runtime still owes this application an answer.
    #[must_use]
    pub fn is_owed_answers(&self) -> (owed: bool)
        ensures
            owed == (self@.pending.len() + self@.pending_stores > 0),
    {
        self.session.is_owed_answers()
    }

    /// Every answer the runtime still owes this application. Leaving while one
    /// is on its way closes the socket under a runtime about to write to it.
    #[must_use]
    pub fn outstanding_answers(&self) -> (count: usize)
        requires
            self@.pending.len() + self@.pending_stores <= usize::MAX,
        ensures
            count == self@.pending.len() + self@.pending_stores,
    {
        self.session.outstanding_answers()
    }

    #[must_use]
    pub fn tasks_in_flight(&self) -> (count: usize)
        ensures
            count == self@.in_flight,
    {
        self.session.tasks_in_flight()
    }
}

} // verus!
