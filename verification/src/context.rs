//! What an application does during one callback.

use vstd::prelude::*;

use crate::command::{Command, CommandModel};
use crate::device::LogLevel;
use crate::item;
use crate::limits::{MAX_FONT_BYTES, MAX_PICTURE_BYTES, MAX_STRING_LEN};
use crate::picture::{PictureFormat, PicturePixels, PicturePixelsModel};
use crate::task;
use crate::task::{Task, TaskId, TaskModel};
use crate::ui::{FontHandle, PictureHandle, Screen, TextScale, TilePicture};
use crate::wire;
use crate::wire::byte_len;

verus! {

/// The most tasks an application may have in flight at once. Each one is a real
/// connection or file handle.
pub const MAX_TASKS_IN_FLIGHT: usize = 4;

/// The panel an application is drawn on.
#[derive(Clone, Copy, Debug, PartialEq, Eq, Structural)]
pub struct DisplayMetrics {
    pub width: i32,
    pub height: i32,
    pub pixels_per_inch: i32,
    pub text_scale: TextScale,
    pub picture_format: PictureFormat,
}

impl DisplayMetrics {
    /// The panel of a Clara BW.
    pub open spec fn clara_bw() -> DisplayMetrics {
        DisplayMetrics {
            width: 1072,
            height: 1448,
            pixels_per_inch: 300,
            text_scale: TextScale::Default,
            picture_format: PictureFormat::Gray8,
        }
    }
}

impl Default for DisplayMetrics {
    fn default() -> (metrics: DisplayMetrics)
        ensures
            metrics == DisplayMetrics::clara_bw(),
    {
        DisplayMetrics {
            width: 1072,
            height: 1448,
            pixels_per_inch: 300,
            text_scale: TextScale::Default,
            picture_format: PictureFormat::Gray8,
        }
    }
}

/// Work that is tried a second time when it fails for a reason that passes.
#[derive(Clone, Debug, PartialEq, Eq)]
pub struct Retry {
    pub task: TaskId,
    pub work: Task,
}

/// What a [`Retry`] says.
pub struct RetryModel {
    pub task: TaskId,
    pub work: TaskModel,
}

impl View for Retry {
    type V = RetryModel;

    open spec fn view(&self) -> RetryModel {
        RetryModel { task: self.task, work: self.work@ }
    }
}

/// Everything an application asked for during one callback.
#[derive(Clone, Debug, PartialEq, Eq)]
pub struct Context {
    commands: Vec<Command>,
    next_task: u32,
    in_flight: usize,
    metrics: DisplayMetrics,
    retrying: Vec<Retry>,
}

/// What a [`Context`] holds.
pub struct ContextModel {
    /// What was asked for, in order.
    pub commands: Seq<CommandModel>,
    /// The last task identifier that was handed out.
    pub next_task: u32,
    /// How many tasks have not been heard of.
    pub in_flight: usize,
    pub metrics: DisplayMetrics,
    /// The work that is worth a second attempt.
    pub retrying: Seq<RetryModel>,
}

impl View for Context {
    type V = ContextModel;

    closed spec fn view(&self) -> ContextModel {
        ContextModel {
            commands: item::models(self.commands@),
            next_task: self.next_task,
            in_flight: self.in_flight,
            metrics: self.metrics,
            retrying: item::models(self.retrying@),
        }
    }
}

/// The next task identifier. They run out rather than start again.
pub open spec fn following(id: u32) -> u32 {
    if id == u32::MAX {
        id
    } else {
        (id + 1) as u32
    }
}

/// Whether a picture's pixels are exactly what its size says, and no more than
/// the runtime holds.
pub open spec fn picture_fits(width: u32, height: u32, pixels: PicturePixelsModel) -> bool {
    let expected = pixels.format().size(width, height);
    &&& expected <= usize::MAX
    &&& expected != 0
    &&& expected == pixels.bytes().len()
    &&& expected <= MAX_PICTURE_BYTES
}

/// Whether a font is something the runtime could hold.
pub open spec fn font_fits(name: Seq<char>, bytes: Seq<u8>) -> bool {
    &&& 0 < bytes.len() <= MAX_FONT_BYTES
    &&& wire::utf8_len(name) <= MAX_STRING_LEN
}

impl ContextModel {
    /// A context in which nothing has been asked for.
    pub open spec fn fresh(
        next_task: u32,
        in_flight: usize,
        metrics: DisplayMetrics,
    ) -> ContextModel {
        ContextModel {
            commands: Seq::empty(),
            next_task,
            in_flight,
            metrics,
            retrying: Seq::empty(),
        }
    }

    /// The context after one more thing was asked for.
    pub open spec fn asking(self, command: CommandModel) -> ContextModel {
        ContextModel { commands: self.commands.push(command), ..self }
    }

    /// Whether there is room for work, and the work is something that can be
    /// sent.
    pub open spec fn takes(self, work: TaskModel) -> bool {
        self.in_flight < MAX_TASKS_IN_FLIGHT && task::sendable(work)
    }

    /// The identifier that the next piece of work gets.
    pub open spec fn next_id(self) -> TaskId {
        TaskId(following(self.next_task))
    }

    /// The context after work was started.
    pub open spec fn spawning(self, work: TaskModel) -> ContextModel {
        ContextModel {
            next_task: following(self.next_task),
            in_flight: (self.in_flight + 1) as usize,
            ..self.asking(CommandModel::Spawn { task: self.next_id(), work })
        }
    }

    /// The context after work was started that is worth a second attempt.
    pub open spec fn spawning_retrying(self, work: TaskModel) -> ContextModel {
        ContextModel {
            retrying: self.retrying.push(RetryModel { task: self.next_id(), work }),
            ..self.spawning(work)
        }
    }

    /// The context after a task was heard of.
    pub open spec fn settled(self) -> ContextModel {
        ContextModel {
            in_flight: if self.in_flight == 0 {
                0
            } else {
                (self.in_flight - 1) as usize
            },
            ..self
        }
    }
}

impl Default for Context {
    fn default() -> (context: Context)
        ensures
            context@ == ContextModel::fresh(0, 0, DisplayMetrics::clara_bw()),
    {
        Context::opened(0, 0, DisplayMetrics::default())
    }
}

impl Context {
    /// A context in which nothing has been asked for.
    pub(crate) fn opened(next_task: u32, in_flight: usize, metrics: DisplayMetrics) -> (context:
        Context)
        ensures
            context@ == ContextModel::fresh(next_task, in_flight, metrics),
    {
        let context = Context {
            commands: Vec::new(),
            next_task,
            in_flight,
            metrics,
            retrying: Vec::new(),
        };
        assert(context@.commands =~= Seq::empty());
        assert(context@.retrying =~= Seq::empty());
        context
    }

    /// The panel this application is running on.
    #[must_use]
    pub fn metrics(&self) -> (metrics: DisplayMetrics)
        ensures
            metrics == self@.metrics,
    {
        self.metrics
    }

    /// The panel with its text at another size.
    #[must_use]
    pub fn metrics_at(&self, scale: TextScale) -> (metrics: DisplayMetrics)
        ensures
            metrics == (DisplayMetrics { text_scale: scale, ..self@.metrics }),
    {
        let mut metrics = self.metrics;
        metrics.text_scale = scale;
        metrics
    }

    /// Asks for something.
    pub(crate) fn queue(&mut self, command: Command)
        ensures
            final(self)@ == old(self)@.asking(command@),
    {
        self.commands.push(command);
        assert(self@.commands =~= old(self)@.commands.push(command@));
    }

    /// Hands the panel to another application.
    pub fn launch(&mut self, name: &str)
        ensures
            final(self)@ == old(self)@.asking(CommandModel::Launch(name@)),
    {
        self.queue(Command::Launch(name.to_owned()));
    }

    pub fn set_screen(&mut self, screen: Screen)
        ensures
            final(self)@ == old(self)@.asking(CommandModel::SetScreen(screen@)),
    {
        self.queue(Command::SetScreen(screen));
    }

    pub fn log(&mut self, level: LogLevel, message: &str)
        ensures
            final(self)@ == old(self)@.asking(CommandModel::Log { level, message: message@ }),
    {
        self.queue(Command::Log { level, message: message.to_owned() });
    }

    pub fn exit(&mut self)
        ensures
            final(self)@ == old(self)@.asking(CommandModel::Exit),
    {
        self.queue(Command::Exit);
    }

    /// Hands over a picture, unless its pixels are not what its size says or
    /// are more than the runtime holds.
    pub fn put_picture(
        &mut self,
        handle: PictureHandle,
        width: u32,
        height: u32,
        pixels: PicturePixels,
    ) -> (picture: Option<TilePicture>)
        ensures
            picture == if picture_fits(width, height, pixels@) {
                Some(TilePicture { handle, source: (width, height) })
            } else {
                None
            },
            final(self)@ == if picture_fits(width, height, pixels@) {
                old(self)@.asking(
                    CommandModel::PutPicture { handle, width, height, pixels: pixels@ },
                )
            } else {
                old(self)@
            },
    {
        let expected: usize = match pixels.format().byte_len(width, height) {
            None => {
                return None;
            },
            Some(expected) => expected,
        };
        if expected == 0 || expected != pixels.byte_count() || expected > MAX_PICTURE_BYTES {
            return None;
        }
        self.queue(Command::PutPicture { handle, width, height, pixels });
        Some(TilePicture::new(handle, width, height))
    }

    pub fn drop_picture(&mut self, handle: PictureHandle)
        ensures
            final(self)@ == old(self)@.asking(CommandModel::DropPicture(handle)),
    {
        self.queue(Command::DropPicture(handle));
    }

    /// Hands over a publisher font, unless it is empty, too large, named at too
    /// great a length or no face that can be set in.
    ///
    /// Only a typesetter can tell whether bytes are a supported TrueType or
    /// OpenType face. `supported` is what it said of these; nothing here looks
    /// into them.
    pub fn put_font(
        &mut self,
        handle: FontHandle,
        name: &str,
        bytes: Vec<u8>,
        supported: bool,
    ) -> (font: Option<FontHandle>)
        ensures
            font == if font_fits(name@, bytes@) && supported {
                Some(handle)
            } else {
                None
            },
            final(self)@ == if font_fits(name@, bytes@) && supported {
                old(self)@.asking(CommandModel::PutFont { handle, name: name@, bytes: bytes@ })
            } else {
                old(self)@
            },
    {
        if bytes.len() == 0 || bytes.len() > MAX_FONT_BYTES || byte_len(name) > MAX_STRING_LEN {
            return None;
        }
        if !supported {
            return None;
        }
        self.queue(Command::PutFont { handle, name: name.to_owned(), bytes });
        Some(handle)
    }

    /// Releases a publisher font in the runtime. Whoever set pages in it here
    /// releases it too.
    pub fn drop_font(&mut self, handle: FontHandle)
        ensures
            final(self)@ == old(self)@.asking(CommandModel::DropFont(handle)),
    {
        self.queue(Command::DropFont(handle));
    }

    /// Starts work, or refuses it: when too much is in flight already, or when
    /// it is nothing that could be sent.
    pub fn spawn(&mut self, work: Task) -> (task: Option<TaskId>)
        ensures
            task == if old(self)@.takes(work@) {
                Some(old(self)@.next_id())
            } else {
                None
            },
            final(self)@ == if old(self)@.takes(work@) {
                old(self)@.spawning(work@)
            } else {
                old(self)@
            },
    {
        if self.in_flight >= MAX_TASKS_IN_FLIGHT || !work.is_sendable() {
            return None;
        }
        self.next_task = self.next_task.saturating_add(1);
        let task = TaskId(self.next_task);
        self.in_flight = self.in_flight + 1;
        self.queue(Command::Spawn { task, work });
        Some(task)
    }

    /// Starts work that is tried a second time, without the application hearing
    /// of it, when it fails for a reason that passes.
    pub fn spawn_retrying(&mut self, work: Task) -> (task: Option<TaskId>)
        ensures
            task == if old(self)@.takes(work@) {
                Some(old(self)@.next_id())
            } else {
                None
            },
            final(self)@ == if old(self)@.takes(work@) {
                old(self)@.spawning_retrying(work@)
            } else {
                old(self)@
            },
    {
        match self.spawn(work.clone()) {
            None => None,
            Some(task) => {
                let retry = Retry { task, work };
                self.retrying.push(retry);
                assert(self@.retrying =~= old(self)@.retrying.push(retry@));
                Some(task)
            },
        }
    }

    pub fn cancel(&mut self, task: TaskId)
        ensures
            final(self)@ == old(self)@.asking(CommandModel::Cancel(task)),
    {
        self.queue(Command::Cancel(task));
    }

    /// A task was heard of.
    pub(crate) fn settle(&mut self)
        ensures
            final(self)@ == old(self)@.settled(),
    {
        self.in_flight = self.in_flight.saturating_sub(1);
    }

    /// The last task identifier that was handed out.
    pub(crate) fn last_task(&self) -> (id: u32)
        ensures
            id == self@.next_task,
    {
        self.next_task
    }

    #[must_use]
    pub fn tasks_in_flight(&self) -> (count: usize)
        ensures
            count == self@.in_flight,
    {
        self.in_flight
    }

    /// What was asked for so far.
    #[must_use]
    pub fn commands(&self) -> (commands: &[Command])
        ensures
            item::models(commands@) == self@.commands,
    {
        self.commands.as_slice()
    }

    /// What was asked for, which is then no longer asked for.
    #[must_use]
    pub fn take_commands(&mut self) -> (commands: Vec<Command>)
        ensures
            item::models(commands@) == old(self)@.commands,
            final(self)@ == (ContextModel { commands: Seq::empty(), ..old(self)@ }),
    {
        let mut commands: Vec<Command> = Vec::new();
        std::mem::swap(&mut commands, &mut self.commands);
        assert(self@.commands =~= Seq::empty());
        commands
    }

    /// The work that is worth a second attempt, which is then no longer kept.
    pub(crate) fn take_retrying(&mut self) -> (retrying: Vec<Retry>)
        ensures
            item::models(retrying@) == old(self)@.retrying,
            final(self)@ == (ContextModel { retrying: Seq::empty(), ..old(self)@ }),
    {
        let mut retrying: Vec<Retry> = Vec::new();
        std::mem::swap(&mut retrying, &mut self.retrying);
        assert(self@.retrying =~= Seq::empty());
        retrying
    }
}

// ---------------------------------------------------------------------------
// Laws.

/// Whether a command starts a task of this number.
pub open spec fn starts(command: CommandModel, number: u32) -> bool {
    command matches CommandModel::Spawn { task, work } && task.0 == number
}

/// The tasks that a context starts have numbers after `base`, each larger than
/// the one before, and no more of them are in flight than may be.
pub open spec fn orderly(context: ContextModel, base: u32) -> bool {
    &&& base <= context.next_task
    &&& context.in_flight <= MAX_TASKS_IN_FLIGHT
    &&& forall|i: int, number: u32|
        0 <= i < context.commands.len() && #[trigger] starts(context.commands[i], number) ==> base
            < number <= context.next_task
    &&& forall|i: int, j: int, first: u32, second: u32|
        0 <= i < j < context.commands.len() && #[trigger] starts(context.commands[i], first)
            && #[trigger] starts(context.commands[j], second) ==> first < second
}

/// A context starts out orderly.
pub proof fn law_a_fresh_context_is_orderly(
    next_task: u32,
    in_flight: usize,
    metrics: DisplayMetrics,
)
    requires
        in_flight <= MAX_TASKS_IN_FLIGHT,
    ensures
        orderly(ContextModel::fresh(next_task, in_flight, metrics), next_task),
{
}

/// Asking for anything but a task keeps a context orderly.
pub proof fn law_asking_keeps_order(context: ContextModel, base: u32, command: CommandModel)
    requires
        orderly(context, base),
        !(command is Spawn),
    ensures
        orderly(context.asking(command), base),
{
}

/// Starting work keeps a context orderly as long as identifiers last: no two
/// tasks have one identifier, and no more are in flight than may be.
pub proof fn law_spawning_keeps_order(context: ContextModel, base: u32, work: TaskModel)
    requires
        orderly(context, base),
        context.takes(work),
        context.next_task < u32::MAX,
    ensures
        orderly(context.spawning(work), base),
        orderly(context.spawning_retrying(work), base),
        starts(context.spawning(work).commands.last(), context.next_id().0),
{
}

/// Hearing of a task makes room for another.
pub proof fn law_settling_makes_room(context: ContextModel, base: u32)
    requires
        orderly(context, base),
    ensures
        orderly(context.settled(), base),
        context.settled().in_flight < MAX_TASKS_IN_FLIGHT,
{
}

} // verus!
