//! A clock for a screen that is waiting on something slow.

use vstd::prelude::*;

use crate::context::{Context, ContextModel};
use crate::name;
use crate::name::decimal;
use crate::span::Span;
use crate::task::{Task, TaskId, TaskModel, TaskOutcome};

verus! {

/// How often a clock ticks when nobody says otherwise.
pub const DEFAULT_HEARTBEAT_SECONDS: u32 = 5;

/// A clock made of naps.
///
/// Nothing else on the reader ticks: a screen that waits on a slow request looks
/// exactly like one that has crashed. So each nap that ends is a tick, and each
/// tick asks for another nap until somebody stops it.
#[derive(Clone, Copy, Debug, PartialEq, Eq)]
pub struct Heartbeat {
    /// The nap under way.
    pub task: Option<TaskId>,
    /// How long a nap is.
    pub seconds: u32,
    /// How long the wait has been.
    pub waited: u32,
}

/// The sum of two lengths, or the longest there is.
pub open spec fn longer(waited: u32, seconds: u32) -> u32 {
    if waited + seconds > u32::MAX {
        u32::MAX
    } else {
        (waited + seconds) as u32
    }
}

/// The wait in words. A wait that has not ticked yet says nothing.
pub open spec fn words_for(waited: u32) -> Seq<char> {
    if waited == 0 {
        Seq::empty()
    } else if waited < 60 {
        name::spelled(waited as nat) + " seconds so far"@
    } else if waited % 60 == 0 {
        name::spelled((waited / 60) as nat) + " min so far"@
    } else {
        name::spelled((waited / 60) as nat) + " min "@ + name::spelled((waited % 60) as nat)
            + " s so far"@
    }
}

impl Heartbeat {
    /// The nap between two ticks, which is never for no time at all.
    pub open spec fn nap(self) -> TaskModel {
        TaskModel::Sleep {
            seconds: if self.seconds == 0 {
                1
            } else {
                self.seconds
            },
        }
    }

    /// The clock after it asked for a nap: running if there was room for one.
    pub open spec fn armed_in(self, context: ContextModel) -> Heartbeat {
        Heartbeat {
            task: if context.takes(self.nap()) {
                Some(context.next_id())
            } else {
                None
            },
            ..self
        }
    }

    /// A context after this clock asked for a nap in it.
    pub open spec fn arming(self, context: ContextModel) -> ContextModel {
        if context.takes(self.nap()) {
            context.spawning(self.nap())
        } else {
            context
        }
    }

    /// The clock at the end of a nap.
    pub open spec fn ticked(self) -> Heartbeat {
        Heartbeat { task: None, waited: longer(self.waited, self.seconds), ..self }
    }

    /// A clock that ticks every `seconds`, not yet running.
    #[must_use]
    pub fn every(seconds: u32) -> (clock: Heartbeat)
        ensures
            clock.task is None,
            clock.waited == 0,
            clock.seconds == if seconds == 0 {
                1
            } else {
                seconds
            },
    {
        Heartbeat {
            task: None,
            seconds: if seconds == 0 {
                1
            } else {
                seconds
            },
            waited: 0,
        }
    }

    /// Starts ticking from zero. Starting one that is already running does
    /// nothing, so this is safe on every stage change.
    pub fn start(&mut self, context: &mut Context)
        ensures
            old(self).task is Some ==> *final(self) == *old(self) && final(context)@ == old(
                context,
            )@,
            old(self).task is None ==> ({
                let rewound = Heartbeat { waited: 0, ..*old(self) };
                &&& *final(self) == rewound.armed_in(old(context)@)
                &&& final(context)@ == rewound.arming(old(context)@)
            }),
    {
        if self.task.is_some() {
            return;
        }
        self.waited = 0;
        self.arm(context);
    }

    /// Stops ticking, and forgets the wait. The nap is cancelled rather than
    /// left to expire, because its tick would start another.
    pub fn stop(&mut self, context: &mut Context)
        ensures
            *final(self) == (Heartbeat { task: None, waited: 0, ..*old(self) }),
            final(context)@ == match old(self).task {
                Some(task) => old(context)@.asking(
                    crate::command::CommandModel::Cancel(task),
                ),
                None => old(context)@,
            },
    {
        if let Some(task) = self.task {
            context.cancel(task);
        }
        self.task = None;
        self.waited = 0;
    }

    /// Whether `task` was this clock's, asking for another nap if so. A nap that
    /// was cancelled is not a tick.
    pub fn on_task(&mut self, context: &mut Context, task: TaskId, outcome: &TaskOutcome) -> (mine:
        bool)
        ensures
            mine == (old(self).task == Some(task)),
            !mine ==> *final(self) == *old(self) && final(context)@ == old(context)@,
            mine && outcome@ is Cancelled ==> *final(self) == (Heartbeat {
                task: None,
                ..*old(self)
            }) && final(context)@ == old(context)@,
            mine && !(outcome@ is Cancelled) ==> *final(self) == old(self).ticked().armed_in(
                old(context)@,
            ) && final(context)@ == old(self).ticked().arming(old(context)@),
    {
        match self.task {
            None => {
                return false;
            },
            Some(nap) => {
                if nap.0 != task.0 {
                    return false;
                }
            },
        }
        self.task = None;
        match outcome {
            TaskOutcome::Cancelled => {
                return true;
            },
            _ => {},
        }
        self.waited = self.waited.saturating_add(self.seconds);
        self.arm(context);
        true
    }

    /// How long this has been waiting, to the tick.
    #[must_use]
    pub fn waited(&self) -> (span: Span)
        ensures
            span == (Span { seconds: self.waited as u64, nanos: 0 }),
    {
        Span::from_secs(self.waited as u64)
    }

    /// Whether the clock is running.
    #[must_use]
    pub fn is_running(&self) -> (running: bool)
        ensures
            running == (self.task is Some),
    {
        self.task.is_some()
    }

    /// The wait as words, for the line under an activity label. Empty until the
    /// first tick.
    #[must_use]
    pub fn waited_words(&self) -> (words: String)
        ensures
            words@ == words_for(self.waited),
    {
        if self.waited == 0 {
            return String::new();
        }
        if self.waited < 60 {
            let mut words = decimal(self.waited as u128);
            words.append(" seconds so far");
            return words;
        }
        let minutes: u32 = self.waited / 60;
        let rest: u32 = self.waited % 60;
        let mut words = decimal(minutes as u128);
        if rest == 0 {
            words.append(" min so far");
        } else {
            words.append(" min ");
            let seconds = decimal(rest as u128);
            words.append(seconds.as_str());
            words.append(" s so far");
        }
        words
    }

    fn arm(&mut self, context: &mut Context)
        ensures
            *final(self) == old(self).armed_in(old(context)@),
            final(context)@ == old(self).arming(old(context)@),
    {
        let seconds: u32 = if self.seconds == 0 {
            1
        } else {
            self.seconds
        };
        self.task = context.spawn(Task::Sleep { seconds });
    }
}

impl Default for Heartbeat {
    /// The sensible cadence: a clock that ticked every zero seconds would spin.
    fn default() -> (clock: Heartbeat)
        ensures
            clock == (Heartbeat { task: None, seconds: DEFAULT_HEARTBEAT_SECONDS, waited: 0 }),
    {
        Heartbeat::every(DEFAULT_HEARTBEAT_SECONDS)
    }
}

/// A wait says something from its first tick on, and nothing before it.
pub proof fn law_a_wait_speaks_from_its_first_tick(waited: u32)
    ensures
        words_for(waited).len() == 0 <==> waited == 0,
{
    reveal_strlit(" seconds so far");
    reveal_strlit(" min so far");
    reveal_strlit(" min ");
    reveal_strlit(" s so far");
}

/// A running clock that ticks with room for another nap keeps running, and has
/// waited longer.
pub proof fn law_a_tick_starts_the_next(clock: Heartbeat, context: ContextModel)
    requires
        clock.seconds > 0,
        clock.waited < u32::MAX,
        context.in_flight < crate::context::MAX_TASKS_IN_FLIGHT,
    ensures
        clock.ticked().armed_in(context).task == Some(context.next_id()),
        clock.ticked().armed_in(context).waited > clock.waited,
{
}

/// A wait is told in seconds up to a minute, and then in minutes and whatever
/// seconds are over.
pub proof fn law_a_wait_is_told_in_minutes_and_seconds(minutes: nat, seconds: nat, waited: u32)
    requires
        seconds < 60,
        waited == 60 * minutes + seconds,
    ensures
        minutes == 0 && seconds > 0 ==> words_for(waited) == name::spelled(seconds)
            + " seconds so far"@,
        minutes > 0 && seconds == 0 ==> words_for(waited) == name::spelled(minutes)
            + " min so far"@,
        minutes > 0 && seconds > 0 ==> words_for(waited) == name::spelled(minutes) + " min "@
            + name::spelled(seconds) + " s so far"@,
{
}

/// Every tick adds one nap to the wait, or the wait is as long as can be told;
/// the nap itself stays as long as it was, and is never of no length.
pub proof fn law_ticks_add_up(clock: Heartbeat)
    ensures
        clock.ticked().seconds == clock.seconds,
        clock.ticked().task is None,
        clock.waited + clock.seconds <= u32::MAX ==> clock.ticked().waited == clock.waited
            + clock.seconds,
        clock.waited + clock.seconds > u32::MAX ==> clock.ticked().waited == u32::MAX,
        clock.nap() matches TaskModel::Sleep { seconds } && (clock.seconds > 0 ==> seconds
            == clock.seconds) && (clock.seconds == 0 ==> seconds == 1),
{
}

/// A clock that asks for a nap runs exactly when the nap was started, and then
/// waits for that very task; the wait it counts is untouched.
pub proof fn law_a_clock_waits_for_its_own_nap(clock: Heartbeat, context: ContextModel)
    ensures
        ({
            let armed = clock.armed_in(context);
            let after = clock.arming(context);
            &&& armed.waited == clock.waited
            &&& armed.seconds == clock.seconds
            &&& armed.task is Some <==> context.in_flight < crate::context::MAX_TASKS_IN_FLIGHT
            &&& armed.task is None ==> after == context
            &&& armed.task matches Some(nap) ==> {
                &&& after.commands.len() == context.commands.len() + 1
                &&& after.commands.drop_last() == context.commands
                &&& after.commands.last() == crate::command::CommandModel::Spawn {
                    task: nap,
                    work: clock.nap(),
                }
                &&& after.in_flight == context.in_flight + 1
            }
        }),
{
    if clock.armed_in(context).task is Some {
        assert(clock.arming(context).commands.drop_last() =~= context.commands);
    }
}

} // verus!
