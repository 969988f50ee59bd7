//! What the operations of a transfer, a clock, a history and a connection do,
//! told by what is given to them and what comes out.

use vstd::prelude::*;

use crate::client;
use crate::client::ClientEvent;
use crate::command::{Command, CommandModel};
use crate::context::Context;
use crate::error::ProtocolError;
use crate::failure::{Failure, StandardState};
use crate::frame;
use crate::heartbeat::Heartbeat;
use crate::item;
use crate::limits::MAX_SHELF_CHUNK;
use crate::message::{Frame, Message, MessageModel};
use crate::message_codec;
use crate::name;
use crate::navigator::Navigator;
use crate::picture;
use crate::picture::{PictureFormat, PicturePixels};
use crate::shelf::{ShelfDownload, ShelfProgress, ShelfUpload};
use crate::span::Span;
use crate::store::{StoreError, StoreRequestModel, StoreResult, StoreResultModel};
use crate::task::{TaskError, TaskId, TaskModel, TaskOutcome};

verus! {

// ---------------------------------------------------------------------------
// Transfers.

/// An upload starts with all of what it was given still to send, and starting it
/// asks for the first piece to be written at the very beginning.
pub proof fn law_uploads_start_at_the_beginning(
    name: &str,
    bytes: Vec<u8>,
    made: ShelfUpload,
    upload: &mut ShelfUpload,
    context: &mut Context,
)
    ensures
        call_ensures(ShelfUpload::new, (name, bytes), made) ==> made@.name == name@ && made@.bytes
            == bytes@ && made@.sent == 0,
        call_ensures(ShelfUpload::start, (upload, context), ()) ==> {
            let whole = old(upload)@.bytes;
            let asked = final(context)@.commands;
            &&& final(upload)@.name == old(upload)@.name
            &&& final(upload)@.bytes == whole
            &&& final(upload)@.sent == 0
            &&& asked.len() == old(context)@.commands.len() + 1
            &&& asked.drop_last() == old(context)@.commands
            &&& asked.last() matches CommandModel::Store(
                StoreRequestModel::ShelfWrite { name: to, offset, bytes: piece, last },
            )
            &&& to == old(upload)@.name
            &&& offset == 0
            &&& whole.len() <= MAX_SHELF_CHUNK ==> piece == whole && last
            &&& whole.len() > MAX_SHELF_CHUNK ==> piece == whole.take(MAX_SHELF_CHUNK as int)
                && !last
        },
{
    if call_ensures(ShelfUpload::start, (upload, context), ()) {
        let whole = old(upload)@.bytes;
        assert(final(context)@.commands.drop_last() =~= old(context)@.commands);
        assert(whole.subrange(0, whole.len() as int) =~= whole);
    }
}

/// A download starts with nothing, takes at most thirty-two mebibytes or what it
/// is told if that is less, and starting it asks for the beginning of the blob.
pub proof fn law_downloads_start_with_nothing(
    name: &str,
    made: ShelfDownload,
    given: ShelfDownload,
    limit: usize,
    limited: ShelfDownload,
    download: &mut ShelfDownload,
    context: &mut Context,
)
    ensures
        call_ensures(ShelfDownload::new, (name,), made) ==> made@.name == name@ && made@.bytes.len()
            == 0 && made@.limit == 33_554_432,
        call_ensures(ShelfDownload::at_most, (given, limit), limited) ==> {
            &&& limited@.name == given@.name
            &&& limited@.bytes == given@.bytes
            &&& limit <= 33_554_432 ==> limited@.limit == limit
            &&& limit > 33_554_432 ==> limited@.limit == 33_554_432
        },
        call_ensures(ShelfDownload::start, (download, context), ()) ==> {
            let asked = final(context)@.commands;
            &&& final(download)@.name == old(download)@.name
            &&& final(download)@.limit == old(download)@.limit
            &&& final(download)@.bytes.len() == 0
            &&& asked.len() == old(context)@.commands.len() + 1
            &&& asked.drop_last() == old(context)@.commands
            &&& asked.last() matches CommandModel::Store(
                StoreRequestModel::ShelfRead { name: of, offset, length },
            )
            &&& of == old(download)@.name
            &&& offset == 0
            &&& length == MAX_SHELF_CHUNK
        },
{
    if call_ensures(ShelfDownload::start, (download, context), ()) {
        assert(final(context)@.commands.drop_last() =~= old(context)@.commands);
    }
}

/// An answer about another blob is left to whoever it is for: the transfer says
/// that it is not its own, stays as it was and asks for nothing.
pub proof fn law_transfers_leave_other_answers_alone(
    upload: &mut ShelfUpload,
    download: &mut ShelfDownload,
    context: &mut Context,
    result: &StoreResult,
    progress: ShelfProgress,
)
    ensures
        ({
            &&& call_ensures(ShelfUpload::advance, (upload, context, result), progress)
            &&& result@ matches StoreResultModel::ShelfWritten { name, .. }
            &&& name != old(upload)@.name
        }) ==> progress is Elsewhere && final(upload)@ == old(upload)@ && final(context)@ == old(
            context,
        )@,
        ({
            &&& call_ensures(ShelfDownload::advance, (download, context, result), progress)
            &&& result@ matches StoreResultModel::ShelfRead { name, .. }
            &&& name != old(download)@.name
        }) ==> progress is Elsewhere && final(download)@ == old(download)@ && final(context)@
            == old(context)@,
{
}

/// A transfer that is refused fails with the reason given, and asks for nothing
/// more.
pub proof fn law_refused_transfers_say_why(
    upload: &mut ShelfUpload,
    download: &mut ShelfDownload,
    context: &mut Context,
    result: &StoreResult,
    progress: ShelfProgress,
    error: StoreError,
)
    requires
        result@ == StoreResultModel::Denied(error),
    ensures
        call_ensures(ShelfUpload::advance, (upload, context, result), progress) ==> progress
            == ShelfProgress::Failed(error) && final(upload)@ == old(upload)@ && final(context)@
            == old(context)@,
        call_ensures(ShelfDownload::advance, (download, context, result), progress) ==> progress
            == ShelfProgress::Failed(error) && final(download)@ == old(download)@ && final(context)@
            == old(context)@,
{
}

/// What a download hands out is what has arrived, under the name it was given.
pub proof fn law_downloads_hand_out_what_arrived(
    upload: &ShelfUpload,
    download: &ShelfDownload,
    finished: ShelfDownload,
    name: &str,
    bytes: &[u8],
    taken: Vec<u8>,
)
    ensures
        call_ensures(ShelfUpload::name, (upload,), name) ==> name@ == upload@.name,
        call_ensures(ShelfDownload::name, (download,), name) ==> name@ == download@.name,
        call_ensures(ShelfDownload::bytes, (download,), bytes) ==> bytes@ == download@.bytes,
        call_ensures(ShelfDownload::take, (finished,), taken) ==> taken@ == finished@.bytes,
{
}

// ---------------------------------------------------------------------------
// Clocks.

/// A clock ticks as often as it was told, or every second where it was told no
/// time at all; it does not run and has not waited.
pub proof fn law_clocks_stand_still_at_first(seconds: u32, clock: Heartbeat)
    requires
        call_ensures(Heartbeat::every, (seconds,), clock),
    ensures
        seconds > 0 ==> clock.seconds == seconds,
        seconds == 0 ==> clock.seconds == 1,
        clock.waited == 0,
        clock.task is None,
{
}

/// Starting a clock that runs changes nothing. Starting another makes it wait
/// from zero, for a nap of its own length, wherever there is room for one.
pub proof fn law_clocks_start_once(clock: &mut Heartbeat, context: &mut Context)
    requires
        call_ensures(Heartbeat::start, (clock, context), ()),
        old(clock).seconds > 0,
    ensures
        old(clock).task is Some ==> *final(clock) == *old(clock) && final(context)@ == old(
            context,
        )@,
        old(clock).task is None ==> {
            &&& final(clock).waited == 0
            &&& final(clock).seconds == old(clock).seconds
            &&& final(clock).task is Some <==> old(context)@.in_flight < 4
            &&& final(clock).task is None ==> final(context)@ == old(context)@
            &&& final(clock).task matches Some(task) ==> final(context)@.commands == old(
                context,
            )@.commands.push(
                CommandModel::Spawn {
                    task,
                    work: TaskModel::Sleep { seconds: old(clock).seconds },
                },
            ) && final(context)@.in_flight == old(context)@.in_flight + 1
        },
{
}

/// Stopping a clock forgets its wait and gives up the nap that it was in.
pub proof fn law_clocks_give_up_their_nap(clock: &mut Heartbeat, context: &mut Context)
    requires
        call_ensures(Heartbeat::stop, (clock, context), ()),
    ensures
        final(clock).task is None,
        final(clock).waited == 0,
        final(clock).seconds == old(clock).seconds,
        old(clock).task is None ==> final(context)@ == old(context)@,
        old(clock).task matches Some(task) ==> final(context)@.commands == old(
            context,
        )@.commands.push(CommandModel::Cancel(task)),
{
}

/// A clock hears its own nap alone. A nap that ran out makes the wait longer by
/// its length and is followed by another; one that was cancelled ends there.
pub proof fn law_clocks_hear_their_own_nap(
    clock: &mut Heartbeat,
    context: &mut Context,
    task: TaskId,
    outcome: &TaskOutcome,
    mine: bool,
)
    requires
        call_ensures(Heartbeat::on_task, (clock, context, task, outcome), mine),
        old(clock).seconds > 0,
        old(clock).waited + old(clock).seconds <= u32::MAX,
    ensures
        mine <==> old(clock).task == Some(task),
        !mine ==> *final(clock) == *old(clock) && final(context)@ == old(context)@,
        mine && *outcome is Cancelled ==> final(clock).task is None && final(clock).waited == old(
            clock,
        ).waited && final(clock).seconds == old(clock).seconds && final(context)@ == old(context)@,
        mine && !(*outcome is Cancelled) ==> {
            &&& final(clock).waited == old(clock).waited + old(clock).seconds
            &&& final(clock).seconds == old(clock).seconds
            &&& final(clock).task is Some <==> old(context)@.in_flight < 4
            &&& final(clock).task is None ==> final(context)@ == old(context)@
            &&& final(clock).task matches Some(next) ==> final(context)@.commands == old(
                context,
            )@.commands.push(
                CommandModel::Spawn {
                    task: next,
                    work: TaskModel::Sleep { seconds: old(clock).seconds },
                },
            )
        },
{
}

/// What a clock tells of itself: whether it runs, how many whole seconds it has
/// waited, and the same in words.
pub proof fn law_clocks_tell_their_wait(
    clock: &Heartbeat,
    running: bool,
    span: Span,
    words: String,
)
    ensures
        call_ensures(Heartbeat::is_running, (clock,), running) ==> (running
            <==> clock.task is Some),
        call_ensures(Heartbeat::waited, (clock,), span) ==> span.seconds == clock.waited
            && span.nanos == 0,
        call_ensures(Heartbeat::waited_words, (clock,), words) ==> {
            let waited = clock.waited as nat;
            &&& waited == 0 ==> words@.len() == 0
            &&& 0 < waited < 60 ==> words@ == name::spelled(waited) + " seconds so far"@
            &&& waited >= 60 && waited % 60 == 0 ==> words@ == name::spelled(waited / 60)
                + " min so far"@
            &&& waited >= 60 && waited % 60 != 0 ==> words@ == name::spelled(waited / 60)
                + " min "@ + name::spelled(waited % 60) + " s so far"@
        },
{
}

// ---------------------------------------------------------------------------
// Histories.

/// A history starts at its root, and starting over leads to a new one, whatever
/// came before.
pub proof fn law_histories_start_at_their_root<Route>(
    root: Route,
    made: Navigator<Route>,
    navigator: &mut Navigator<Route>,
)
    ensures
        call_ensures(Navigator::<Route>::new, (root,), made) ==> made@.len() == 1 && made@[0]
            == root,
        call_ensures(Navigator::<Route>::reset, (navigator, root), ()) ==> final(navigator)@.len()
            == 1 && final(navigator)@[0] == root,
{
}

/// Going somewhere and back leads to where one was, and going back says whether
/// it led anywhere: at the root it does not.
pub proof fn law_histories_lead_back<Route>(
    there: &mut Navigator<Route>,
    again: &mut Navigator<Route>,
    route: Route,
    moved: bool,
)
    ensures
        ({
            &&& call_ensures(Navigator::<Route>::push, (there, route), ())
            &&& final(there)@ == old(again)@
            &&& old(there)@.len() >= 1
            &&& call_ensures(Navigator::<Route>::back, (again,), moved)
        }) ==> moved && final(again)@ == old(there)@,
        call_ensures(Navigator::<Route>::back, (again,), moved) && old(again)@.len() == 1 ==> !moved
            && final(again)@ == old(again)@,
        call_ensures(Navigator::<Route>::push, (there, route), ()) ==> final(there)@.len() == old(
            there,
        )@.len() + 1,
{
    if call_ensures(Navigator::<Route>::push, (there, route), ()) {
        assert(old(there)@.push(route).drop_last() =~= old(there)@);
    }
}

/// Where one is, is where one last went or what it was replaced with, and how
/// deep that is counts the root.
pub proof fn law_histories_tell_where_they_are<Route>(
    gone: &mut Navigator<Route>,
    navigator: &Navigator<Route>,
    route: Route,
    current: &Route,
    can: bool,
    depth: usize,
)
    ensures
        call_ensures(Navigator::<Route>::push, (gone, route), ()) && *final(gone) == *navigator
            && call_ensures(Navigator::<Route>::current, (navigator,), current) ==> *current
            == route,
        call_ensures(Navigator::<Route>::replace, (gone, route), ()) && *final(gone) == *navigator
            && call_ensures(Navigator::<Route>::current, (navigator,), current) && old(gone)@.len()
            >= 1 ==> *current == route && navigator@.len() == old(gone)@.len() && (forall|i: int|
            0 <= i < navigator@.len() - 1 ==> navigator@[i] == old(gone)@[i]),
        call_ensures(Navigator::<Route>::can_go_back, (navigator,), can) ==> (can
            <==> navigator@.len() > 1),
        call_ensures(Navigator::<Route>::depth, (navigator,), depth) ==> depth == navigator@.len(),
{
}

// ---------------------------------------------------------------------------
// Connections.

/// An application introduces itself by its name, in the first request, and the
/// requests that follow never use that number again.
pub proof fn law_introductions_come_first(
    app_name: &str,
    introduced: Frame,
    request_id: u32,
    next: u32,
)
    ensures
        call_ensures(client::introduction, (app_name,), introduced) ==> introduced@.request_id == 1
            && introduced@.message == (MessageModel::Hello { name: app_name@ }),
        call_ensures(client::next_request_id, (request_id,), next) ==> {
            &&& next != 1
            &&& next != 0
            &&& 1 <= request_id < u32::MAX ==> next == request_id + 1
            &&& request_id == u32::MAX || request_id == 0 ==> next == 2
        },
{
}

/// An application leaves exactly when leaving is among what it asked for.
pub proof fn law_leaving_is_asked_for(commands: &Vec<Command>, leaving: bool)
    requires
        call_ensures(client::is_leaving, (commands,), leaving),
    ensures
        leaving <==> exists|i: int| 0 <= i < commands@.len() && #[trigger] commands@[i] is Exit,
{
    let models = item::models(commands@);
    if leaving {
        let i = choose|i: int| 0 <= i < models.len() && models[i] == CommandModel::Exit;
        assert(models[i] == commands@[i]@);
        assert(commands@[i] is Exit);
    }
    if exists|i: int| 0 <= i < commands@.len() && #[trigger] commands@[i] is Exit {
        let i = choose|i: int| 0 <= i < commands@.len() && #[trigger] commands@[i] is Exit;
        assert(models[i] == CommandModel::Exit);
    }
}

/// An event carries what the message that it comes from carried, and nothing
/// but what the runtime tells an application is an event.
pub proof fn law_events_are_what_was_said(message: Message, event: Option<ClientEvent>)
    requires
        call_ensures(client::event, (message,), event),
    ensures
        match message@ {
            MessageModel::Action { action } => event == Some(
                ClientEvent::Action(action),
            ),
            MessageModel::TextHold { action, context, start, end } => {
                &&& event matches Some(ClientEvent::TextHold { action: used, hit })
                &&& used == action
                &&& hit.context == context
                &&& hit.start == start
                &&& hit.end == end
            },
            MessageModel::DeviceResult(result) => event matches Some(
                ClientEvent::Device(heard),
            ) && heard@ == result,
            MessageModel::TaskOutcome { task, outcome } => {
                &&& event matches Some(ClientEvent::Task { task: known, outcome: heard })
                &&& known == task
                &&& heard@ == outcome
            },
            MessageModel::StoreResult(result) => event matches Some(
                ClientEvent::Store(heard),
            ) && heard@ == result,
            MessageModel::Lifecycle(state) => event == Some(
                ClientEvent::Lifecycle(state),
            ),
            MessageModel::ShellEvent(said) => event matches Some(
                ClientEvent::Shell(heard),
            ) && heard@ == said,
            MessageModel::CoverChanged { magnet_present } => event == Some(
                ClientEvent::CoverChanged(magnet_present),
            ),
            MessageModel::PageTurn { forward } => event == Some(
                ClientEvent::PageTurn(forward),
            ),
            MessageModel::Exit => event == Some(ClientEvent::Exit),
            _ => event is None,
        },
{
}

/// What is asked for is sent as the messages that carry it, or is refused.
pub proof fn law_what_is_asked_for_is_sent(
    command: Command,
    result: Result<Vec<Message>, ProtocolError>,
)
    requires
        call_ensures(client::messages, (command,), result),
    ensures
        !(command is PutPicture) ==> result is Ok && result->Ok_0@.len() == 1,
        result is Ok ==> client::messages_of(command@) == Ok::<Seq<MessageModel>, ProtocolError>(
            item::models(result->Ok_0@),
        ),
        result is Err ==> client::messages_of(command@) == Err::<Seq<MessageModel>, ProtocolError>(
            result->Err_0,
        ),
{
    if !(command is PutPicture) {
        client::law_messages_carry_what_was_asked(command@);
        if result is Ok {
            assert(item::models(result->Ok_0@).len() == result->Ok_0@.len());
        }
    }
}

/// A wait ends when the reader does something or the runtime ends it, and for
/// nothing else that is heard meanwhile.
pub proof fn law_waits_end_when_the_reader_acts(event: &ClientEvent, ends: bool)
    requires
        call_ensures(client::ends_the_wait, (event,), ends),
    ensures
        ends <==> *event is Action || *event is TextHold || *event is Exit,
{
}

/// What one side sends is what the other receives, under the same number.
pub proof fn law_what_is_sent_arrives(
    sent: &Frame,
    bytes: Vec<u8>,
    slice: &[u8],
    received: Result<Frame, ProtocolError>,
    length: Result<usize, ProtocolError>,
)
    requires
        call_ensures(frame::encode, (sent,), Ok(bytes)),
        message_codec::message_faithful(sent@.message),
    ensures
        slice@ == bytes@ && call_ensures(frame::decode, (slice,), received) ==> received is Ok
            && received->Ok_0@ == sent@,
        bytes@.len() >= 14,
        slice@ == bytes@ && call_ensures(frame::announced_len, (slice,), length)
            ==> length == Ok::<usize, ProtocolError>((bytes@.len() - 14) as usize),
{
    frame::law_frames_read_back(sent@);
    frame::law_lengths_are_predicted(sent@);
    frame::law_headers_announce_payloads(sent@);
}

// ---------------------------------------------------------------------------
// Pictures.

/// A picture takes one byte for each pixel in gray and three in color, wherever
/// the machine can count them; its bytes are the ones given, in the format
/// given.
pub proof fn law_pictures_are_counted_by_the_pixel(
    width: u32,
    height: u32,
    length: Option<usize>,
    format: PictureFormat,
    bytes: Vec<u8>,
    made: PicturePixels,
)
    ensures
        call_ensures(PictureFormat::byte_len, (PictureFormat::Gray8, width, height), length) ==> (
        if width * height <= usize::MAX {
            length == Some((width * height) as usize)
        } else {
            length is None
        }),
        call_ensures(PictureFormat::byte_len, (PictureFormat::Rgb8, width, height), length) ==>
            (if 3
            * (width * height) <= usize::MAX {
            length == Some((3 * (width * height)) as usize)
        } else {
            length is None
        }),
        call_ensures(PicturePixels::of, (format, bytes), made) ==> match format {
            PictureFormat::Gray8 => made matches PicturePixels::Gray8(inner) && inner@ == bytes@,
            PictureFormat::Rgb8 => made matches PicturePixels::Rgb8(inner) && inner@ == bytes@,
        },
{
    picture::law_pixels_take_one_byte_or_three(width, height);
}

/// What is told of pixels is their format, their bytes and how many there are.
pub proof fn law_pixels_tell_what_they_are(
    pixels: &PicturePixels,
    format: PictureFormat,
    bytes: &Vec<u8>,
    count: usize,
)
    ensures
        call_ensures(PicturePixels::format, (pixels,), format) ==> (format is Gray8 <==> *pixels
            is Gray8) && (format is Rgb8 <==> *pixels is Rgb8),
        call_ensures(PicturePixels::bytes, (pixels,), bytes) ==> match *pixels {
            PicturePixels::Gray8(inner) => bytes@ == inner@,
            PicturePixels::Rgb8(inner) => bytes@ == inner@,
        },
        call_ensures(PicturePixels::byte_count, (pixels,), count) ==> match *pixels {
            PicturePixels::Gray8(inner) => count == inner@.len(),
            PicturePixels::Rgb8(inner) => count == inner@.len(),
        },
{
}

// ---------------------------------------------------------------------------
// Failures.

/// A failure says what would change it: another try where time may pass it, a
/// network where there is none, a permission where one is missing.
pub proof fn law_failures_say_what_would_help(error: TaskError, failure: Failure)
    requires
        call_ensures(Failure::of, (error,), failure),
    ensures
        failure.retryable <==> error == TaskError::Offline || error == TaskError::Unreachable
            || error == TaskError::TimedOut,
        failure.state is Offline <==> error == TaskError::Offline,
        failure.state is PermissionDenied <==> error == TaskError::Denied || error
            == TaskError::Unauthorized || error == TaskError::NoCredential,
        failure.state is Empty <==> error == TaskError::NotFound,
{
}

/// A write that was refused is not worth trying again, and leaves an empty
/// screen exactly when the file is gone.
pub proof fn law_refused_writes_stay_refused(error: StoreError, failure: Failure)
    requires
        call_ensures(Failure::storing, (error,), failure),
    ensures
        !failure.retryable,
        failure.state is Empty <==> error == StoreError::Missing,
        failure.state is Error <==> error != StoreError::Missing,
{
}

/// The title of a failure is that of its condition, and no two conditions have
/// the same one.
pub proof fn law_conditions_have_titles_of_their_own(
    one: StandardState,
    other: StandardState,
    failure: Failure,
    first: &'static str,
    second: &'static str,
)
    ensures
        call_ensures(StandardState::title, (one,), first) && call_ensures(
            StandardState::title,
            (other,),
            second,
        ) && one != other ==> first@ != second@,
        call_ensures(StandardState::title, (failure.state,), first) && call_ensures(
            Failure::title,
            (failure,),
            second,
        ) ==> first@ == second@,
{
    reveal_strlit("Nothing here yet");
    reveal_strlit("You're offline");
    reveal_strlit("Permission needed");
    reveal_strlit("Something went wrong");
    assert("Nothing here yet"@.len() == 16);
    assert("You're offline"@.len() == 14);
    assert("Permission needed"@.len() == 17);
    assert("Something went wrong"@.len() == 20);
}

} // verus!
