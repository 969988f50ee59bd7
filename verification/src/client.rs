//! What an application and the runtime say to each other, in order.

use vstd::prelude::*;
use vstd::slice::{slice_subrange, slice_to_vec};

use crate::command::{Command, CommandModel};
use crate::context::DisplayMetrics;
use crate::device::{DeviceResult, DeviceResultModel};
use crate::error::ProtocolError;
use crate::item;
use crate::limits::{MAX_INLINE_PICTURE_BYTES, MAX_PICTURE_BYTES, MAX_PICTURE_CHUNK_BYTES};
use crate::message::{Frame, FrameModel, Message, MessageModel};
use crate::picture;
use crate::picture::PicturePixelsModel;
use crate::runner::TextHit;
use crate::sending;
use crate::shell::{ShellEvent, ShellEventModel};
use crate::store::{Lifecycle, StoreResult, StoreResultModel};
use crate::task::{TaskId, TaskOutcome, TaskOutcomeModel};
use crate::ui::{ActionId, PictureHandle};
use crate::wire;

verus! {

/// Something the runtime tells an application.
#[derive(Debug, PartialEq, Eq)]
pub enum ClientEvent {
    /// The reader used a control.
    Action(ActionId),
    /// The reader held a run of text.
    TextHold { action: ActionId, hit: TextHit },
    /// A device request was answered.
    Device(DeviceResult),
    /// A task was heard of.
    Task { task: TaskId, outcome: TaskOutcome },
    /// A store request was answered.
    Store(StoreResult),
    Lifecycle(Lifecycle),
    Shell(ShellEvent),
    /// A magnet arrived at, or left, the hall sensor. Unsolicited.
    CoverChanged(bool),
    /// A physical page-turn key was pressed. Unsolicited; `true` is forward.
    PageTurn(bool),
    Exit,
}

/// What a [`ClientEvent`] says.
pub enum ClientEventModel {
    Action(ActionId),
    TextHold { action: ActionId, hit: TextHit },
    Device(DeviceResultModel),
    Task { task: TaskId, outcome: TaskOutcomeModel },
    Store(StoreResultModel),
    Lifecycle(Lifecycle),
    Shell(ShellEventModel),
    CoverChanged(bool),
    PageTurn(bool),
    Exit,
}

impl View for ClientEvent {
    type V = ClientEventModel;

    open spec fn view(&self) -> ClientEventModel {
        match *self {
            ClientEvent::Action(inner) => ClientEventModel::Action(inner),
            ClientEvent::TextHold { action, hit } => ClientEventModel::TextHold {
                action,
                hit,
            },
            ClientEvent::Device(inner) => ClientEventModel::Device(inner@),
            ClientEvent::Task { task, outcome } => ClientEventModel::Task {
                task,
                outcome: outcome@,
            },
            ClientEvent::Store(inner) => ClientEventModel::Store(inner@),
            ClientEvent::Lifecycle(inner) => ClientEventModel::Lifecycle(inner),
            ClientEvent::Shell(inner) => ClientEventModel::Shell(inner@),
            ClientEvent::CoverChanged(inner) => ClientEventModel::CoverChanged(inner),
            ClientEvent::PageTurn(inner) => ClientEventModel::PageTurn(inner),
            ClientEvent::Exit => ClientEventModel::Exit,
        }
    }
}

impl Clone for ClientEvent {
    fn clone(&self) -> (copy: Self)
        ensures
            copy@ == self@,
    {
        match self {
            ClientEvent::Action(inner) => ClientEvent::Action(*inner),
            ClientEvent::TextHold { action, hit } => {
                ClientEvent::TextHold {
                    action: *action,
                    hit: *hit,
                }
            },
            ClientEvent::Device(inner) => ClientEvent::Device(inner.clone()),
            ClientEvent::Task { task, outcome } => {
                ClientEvent::Task {
                    task: *task,
                    outcome: outcome.clone(),
                }
            },
            ClientEvent::Store(inner) => ClientEvent::Store(inner.clone()),
            ClientEvent::Lifecycle(inner) => ClientEvent::Lifecycle(*inner),
            ClientEvent::Shell(inner) => ClientEvent::Shell(inner.clone()),
            ClientEvent::CoverChanged(inner) => ClientEvent::CoverChanged(*inner),
            ClientEvent::PageTurn(inner) => ClientEvent::PageTurn(*inner),
            ClientEvent::Exit => ClientEvent::Exit,
        }
    }
}

// ---------------------------------------------------------------------------
// Introductions.

/// How an application introduces itself.
#[must_use]
pub fn introduction(app_name: &str) -> (frame: Frame)
    ensures
        frame@ == (FrameModel { request_id: 1, message: MessageModel::Hello { name: app_name@ } }),
{
    Frame { request_id: 1, message: Message::Hello { name: app_name.to_owned() } }
}

/// The panel that a runtime describes in its first message.
pub open spec fn panel_of(message: MessageModel) -> Option<DisplayMetrics> {
    match message {
        MessageModel::Welcome { width, height, pixels_per_inch, text_scale, picture_format } =>
            Some(
                DisplayMetrics {
                    width: width as i32,
                    height: height as i32,
                    pixels_per_inch: pixels_per_inch as i32,
                    text_scale,
                    picture_format,
                },
            ),
        _ => None,
    }
}

/// The panel that a runtime describes in its first message. Anything but a
/// welcome is not a runtime.
#[must_use]
pub fn welcomed(message: &Message) -> (metrics: Option<DisplayMetrics>)
    ensures
        metrics == panel_of(message@),
{
    match message {
        Message::Welcome { width, height, pixels_per_inch, text_scale, picture_format } => Some(
            DisplayMetrics {
                width: *width as i32,
                height: *height as i32,
                pixels_per_inch: *pixels_per_inch as i32,
                text_scale: *text_scale,
                picture_format: *picture_format,
            },
        ),
        _ => None,
    }
}

/// The number of the first request after the introduction.
pub const FIRST_REQUEST: u32 = 2;

/// The number of the request after another. They start over without ever being
/// that of the introduction.
pub open spec fn next_number(request_id: u32) -> u32 {
    if request_id < FIRST_REQUEST - 1 || request_id == u32::MAX {
        FIRST_REQUEST
    } else {
        (request_id + 1) as u32
    }
}

/// The number of the request after another.
#[must_use]
pub fn next_request_id(request_id: u32) -> (next: u32)
    ensures
        next == next_number(request_id),
        next >= FIRST_REQUEST,
{
    let next: u32 = request_id.wrapping_add(1);
    if next < FIRST_REQUEST {
        FIRST_REQUEST
    } else {
        next
    }
}

// ---------------------------------------------------------------------------
// What an application says.

/// Where the chunk that begins at `from` ends.
pub open spec fn end_of_chunk(length: int, from: int) -> int {
    if from + MAX_PICTURE_CHUNK_BYTES < length {
        from + MAX_PICTURE_CHUNK_BYTES
    } else {
        length
    }
}

/// The chunks of a picture from `from` on.
pub open spec fn chunks(handle: PictureHandle, bytes: Seq<u8>, from: int) -> Seq<MessageModel>
    decreases bytes.len() - from,
{
    if from < 0 || from >= bytes.len() {
        Seq::empty()
    } else {
        let end = end_of_chunk(bytes.len() as int, from);
        seq![
            MessageModel::PictureChunk {
                handle,
                offset: from as u32,
                bytes: bytes.subrange(from, end),
            },
        ] + chunks(handle, bytes, end)
    }
}

/// The messages that hand over a picture: one if it is small, and otherwise a
/// beginning, its chunks and an end.
pub open spec fn picture_messages(
    handle: PictureHandle,
    width: u32,
    height: u32,
    pixels: PicturePixelsModel,
) -> Result<Seq<MessageModel>, ProtocolError> {
    let expected = pixels.format().size(width, height);
    if expected > usize::MAX {
        Err(ProtocolError::FrameTooLarge)
    } else if expected == 0 || expected != pixels.bytes().len() {
        Err(ProtocolError::InvalidValue("picture size"))
    } else if expected > MAX_PICTURE_BYTES {
        Err(ProtocolError::FrameTooLarge)
    } else if pixels.bytes().len() <= MAX_INLINE_PICTURE_BYTES {
        Ok(seq![MessageModel::PutPicture { handle, width, height, pixels }])
    } else {
        Ok(
            seq![MessageModel::BeginPicture { handle, width, height, format: pixels.format() }]
                + chunks(handle, pixels.bytes(), 0) + seq![MessageModel::CommitPicture { handle }],
        )
    }
}

/// The messages that a command is sent as, or why it cannot be.
pub open spec fn messages_of(command: CommandModel) -> Result<Seq<MessageModel>, ProtocolError> {
    match command {
        CommandModel::SetScreen(screen) => Ok(seq![MessageModel::SetScreen(screen)]),
        CommandModel::Log { level, message } => Ok(seq![MessageModel::Log { level, message }]),
        CommandModel::Device(request) => Ok(seq![MessageModel::DeviceRequest(request)]),
        CommandModel::Spawn { task, work } => Ok(seq![MessageModel::Spawn { task, work }]),
        CommandModel::Cancel(task) => Ok(seq![MessageModel::Cancel { task }]),
        CommandModel::Store(request) => Ok(seq![MessageModel::StoreRequest(request)]),
        CommandModel::Shell(request) => Ok(seq![MessageModel::ShellRequest(request)]),
        CommandModel::Exit => Ok(seq![MessageModel::Exit]),
        CommandModel::Launch(name) => Ok(seq![MessageModel::Launch { name }]),
        CommandModel::PutPicture { handle, width, height, pixels } => picture_messages(
            handle,
            width,
            height,
            pixels,
        ),
        CommandModel::DropPicture(handle) => Ok(seq![MessageModel::DropPicture { handle }]),
        CommandModel::PutFont { handle, name, bytes } => Ok(
            seq![MessageModel::PutFont { handle, name, bytes }],
        ),
        CommandModel::DropFont(handle) => Ok(seq![MessageModel::DropFont { handle }]),
    }
}

/// The models of a run of messages, or why there are none.
pub open spec fn spoken(result: Result<Vec<Message>, ProtocolError>) -> Result<
    Seq<MessageModel>,
    ProtocolError,
> {
    match result {
        Ok(messages) => Ok(item::models(messages@)),
        Err(error) => Err(error),
    }
}

fn one(message: Message) -> (messages: Vec<Message>)
    ensures
        item::models(messages@) == seq![message@],
{
    let mut messages: Vec<Message> = Vec::new();
    messages.push(message);
    assert(item::models(messages@) =~= seq![message@]);
    messages
}

/// The chunks of a picture, after what was said before them.
fn push_chunks(messages: &mut Vec<Message>, handle: PictureHandle, bytes: &Vec<u8>)
    requires
        bytes@.len() <= u32::MAX,
    ensures
        item::models(final(messages)@) == item::models(old(messages)@) + chunks(handle, bytes@, 0),
{
    let ghost before = item::models(old(messages)@);
    let mut from: usize = 0;
    while from < bytes.len()
        invariant
            from <= bytes@.len() <= u32::MAX,
            before == item::models(old(messages)@),
            item::models(messages@) + chunks(handle, bytes@, from as int) == before + chunks(
                handle,
                bytes@,
                0,
            ),
        decreases bytes@.len() - from,
    {
        let end: usize = if bytes.len() - from > MAX_PICTURE_CHUNK_BYTES {
            from + MAX_PICTURE_CHUNK_BYTES
        } else {
            bytes.len()
        };
        let ghost so_far = item::models(messages@);
        let chunk = Message::PictureChunk {
            handle,
            offset: from as u32,
            bytes: slice_to_vec(slice_subrange(bytes.as_slice(), from, end)),
        };
        messages.push(chunk);
        proof {
            assert(chunks(handle, bytes@, from as int) == seq![chunk@] + chunks(
                handle,
                bytes@,
                end as int,
            ));
            assert(item::models(messages@) =~= so_far + seq![chunk@]);
            assert(so_far + (seq![chunk@] + chunks(handle, bytes@, end as int)) =~= item::models(
                messages@,
            ) + chunks(handle, bytes@, end as int));
        }
        from = end;
    }
    assert(item::models(messages@) + Seq::empty() =~= item::models(messages@));
}

/// The messages that a command is sent as, or why it cannot be.
pub fn messages(command: Command) -> (result: Result<Vec<Message>, ProtocolError>)
    ensures
        spoken(result) == messages_of(command@),
{
    match command {
        Command::SetScreen(screen) => Ok(one(Message::SetScreen(screen))),
        Command::Log { level, message } => Ok(one(Message::Log { level, message })),
        Command::Device(request) => Ok(one(Message::DeviceRequest(request))),
        Command::Spawn { task, work } => Ok(one(Message::Spawn { task, work })),
        Command::Cancel(task) => Ok(one(Message::Cancel { task })),
        Command::Store(request) => Ok(one(Message::StoreRequest(request))),
        Command::Shell(request) => Ok(one(Message::ShellRequest(request))),
        Command::Exit => Ok(one(Message::Exit)),
        Command::Launch(name) => Ok(one(Message::Launch { name })),
        Command::PutPicture { handle, width, height, pixels } => {
            let format = pixels.format();
            let expected: usize = match format.byte_len(width, height) {
                None => {
                    return Err(ProtocolError::FrameTooLarge);
                },
                Some(expected) => expected,
            };
            if expected == 0 || expected != pixels.byte_count() {
                return Err(ProtocolError::InvalidValue("picture size"));
            }
            if expected > MAX_PICTURE_BYTES {
                return Err(ProtocolError::FrameTooLarge);
            }
            if expected <= MAX_INLINE_PICTURE_BYTES {
                return Ok(one(Message::PutPicture { handle, width, height, pixels }));
            }
            let mut messages = one(Message::BeginPicture { handle, width, height, format });
            push_chunks(&mut messages, handle, pixels.bytes());
            let ghost so_far = item::models(messages@);
            messages.push(Message::CommitPicture { handle });
            assert(item::models(messages@) =~= so_far + seq![
                MessageModel::CommitPicture { handle },
            ]);
            Ok(messages)
        },
        Command::DropPicture(handle) => Ok(one(Message::DropPicture { handle })),
        Command::PutFont {
            handle,
            name,
            bytes,
        } => Ok(one(Message::PutFont { handle, name, bytes })),
        Command::DropFont(handle) => Ok(one(Message::DropFont { handle })),
    }
}

/// Whether an application asked to leave.
pub fn is_leaving(commands: &Vec<Command>) -> (leaving: bool)
    ensures
        leaving == item::models(commands@).contains(CommandModel::Exit),
{
    let mut index: usize = 0;
    while index < commands.len()
        invariant
            index <= commands@.len(),
            forall|i: int| 0 <= i < index ==> (#[trigger] commands@[i])@ != CommandModel::Exit,
        decreases commands@.len() - index,
    {
        if let Command::Exit = &commands[index] {
            assert(item::models(commands@)[index as int] == CommandModel::Exit);
            return true;
        }
        index = index + 1;
    }
    false
}

// ---------------------------------------------------------------------------
// What the runtime says.

/// What a message tells an application, if it is one for an application.
pub open spec fn event_in(message: MessageModel) -> Option<ClientEventModel> {
    match message {
        MessageModel::Action { action } => Some(ClientEventModel::Action(action)),
        MessageModel::TextHold { action, context, start, end } => Some(
            ClientEventModel::TextHold { action, hit: TextHit { context, start, end } },
        ),
        MessageModel::DeviceResult(result) => Some(ClientEventModel::Device(result)),
        MessageModel::TaskOutcome { task, outcome } => Some(
            ClientEventModel::Task { task, outcome },
        ),
        MessageModel::StoreResult(result) => Some(ClientEventModel::Store(result)),
        MessageModel::Lifecycle(state) => Some(ClientEventModel::Lifecycle(state)),
        MessageModel::ShellEvent(event) => Some(ClientEventModel::Shell(event)),
        MessageModel::CoverChanged { magnet_present } => Some(
            ClientEventModel::CoverChanged(magnet_present),
        ),
        MessageModel::PageTurn { forward } => Some(ClientEventModel::PageTurn(forward)),
        MessageModel::Exit => Some(ClientEventModel::Exit),
        _ => None,
    }
}

/// What a message tells an application. Only the runtime says these things, and
/// it says nothing else.
#[must_use]
pub fn event(message: Message) -> (event: Option<ClientEvent>)
    ensures
        wire::model_of(event) == event_in(message@),
{
    match message {
        Message::Action { action } => Some(ClientEvent::Action(action)),
        Message::TextHold { action, context, start, end } => Some(
            ClientEvent::TextHold { action, hit: TextHit { context, start, end } },
        ),
        Message::DeviceResult(result) => Some(ClientEvent::Device(result)),
        Message::TaskOutcome { task, outcome } => Some(ClientEvent::Task { task, outcome }),
        Message::StoreResult(result) => Some(ClientEvent::Store(result)),
        Message::Lifecycle(state) => Some(ClientEvent::Lifecycle(state)),
        Message::ShellEvent(event) => Some(ClientEvent::Shell(event)),
        Message::CoverChanged { magnet_present } => Some(ClientEvent::CoverChanged(magnet_present)),
        Message::PageTurn { forward } => Some(ClientEvent::PageTurn(forward)),
        Message::Exit => Some(ClientEvent::Exit),
        _ => None,
    }
}

/// Whether an event ends a run that only waits for its answers.
#[must_use]
pub fn ends_the_wait(event: &ClientEvent) -> (ends: bool)
    ensures
        ends == (event@ is Action || event@ is TextHold || event@ is Exit),
{
    match event {
        ClientEvent::Action(_) | ClientEvent::Exit => true,
        ClientEvent::TextHold { .. } => true,
        _ => false,
    }
}

// ---------------------------------------------------------------------------
// Laws.

/// The bytes that a run of messages carries in chunks.
pub open spec fn carried(messages: Seq<MessageModel>) -> Seq<u8>
    decreases messages.len(),
{
    if messages.len() == 0 {
        Seq::empty()
    } else {
        let rest = carried(messages.drop_first());
        match messages[0] {
            MessageModel::PictureChunk { handle, offset, bytes } => bytes + rest,
            _ => rest,
        }
    }
}

proof fn lemma_chunks_carry(handle: PictureHandle, bytes: Seq<u8>, from: int)
    requires
        0 <= from <= bytes.len(),
    ensures
        carried(chunks(handle, bytes, from)) == bytes.skip(from),
    decreases bytes.len() - from,
{
    if from < bytes.len() {
        let end = end_of_chunk(bytes.len() as int, from);
        let all = chunks(handle, bytes, from);
        assert(all.drop_first() =~= chunks(handle, bytes, end));
        lemma_chunks_carry(handle, bytes, end);
        assert(bytes.subrange(from, end) + bytes.skip(end) =~= bytes.skip(from));
    } else {
        assert(bytes.skip(from) =~= Seq::empty());
    }
}

/// Chunks carry a picture whole: put together, they are its bytes.
pub proof fn law_chunks_carry_the_picture(handle: PictureHandle, bytes: Seq<u8>)
    ensures
        carried(chunks(handle, bytes, 0)) == bytes,
{
    lemma_chunks_carry(handle, bytes, 0);
    assert(bytes.skip(0) =~= bytes);
}

/// Every chunk is one the wire takes: there is something in it and no more than
/// a chunk may hold, and it says where in the picture it belongs.
pub proof fn law_chunks_fit(handle: PictureHandle, bytes: Seq<u8>, from: int, i: int)
    requires
        0 <= from <= bytes.len() <= u32::MAX,
        0 <= i < chunks(handle, bytes, from).len(),
    ensures
        chunks(handle, bytes, from)[i] matches MessageModel::PictureChunk {
            handle: held,
            offset,
            bytes: chunk,
        } && held == handle && 0 < chunk.len() <= MAX_PICTURE_CHUNK_BYTES && offset + chunk.len()
            <= bytes.len() && chunk == bytes.subrange(offset as int, offset + chunk.len()),
    decreases bytes.len() - from,
{
    let end = end_of_chunk(bytes.len() as int, from);
    if i > 0 {
        assert(chunks(handle, bytes, from)[i] == chunks(handle, bytes, end)[i - 1]);
        law_chunks_fit(handle, bytes, end, i - 1);
    }
}

/// A number is used again only after all the others, and never that of the
/// introduction.
pub proof fn law_request_numbers_move_on(request_id: u32)
    requires
        FIRST_REQUEST <= request_id,
    ensures
        next_number(request_id) != request_id,
        next_number(request_id) >= FIRST_REQUEST,
        request_id < u32::MAX ==> next_number(request_id) == request_id + 1,
{
}

/// What the runtime says reaches the application unchanged: the event of a
/// message carries every value that the message carries.
pub proof fn law_events_carry_what_was_said(message: MessageModel)
    ensures
        ({
            let event = event_in(message);
            match message {
                MessageModel::Action { action } => event matches Some(
                    ClientEventModel::Action(used),
                ) && used == action,
                MessageModel::TextHold { action, context, start, end } => {
                    &&& event matches Some(ClientEventModel::TextHold { action: used, hit })
                    &&& used == action
                    &&& hit.context == context
                    &&& hit.start == start
                    &&& hit.end == end
                },
                MessageModel::DeviceResult(result) => event matches Some(
                    ClientEventModel::Device(heard),
                ) && heard == result,
                MessageModel::TaskOutcome { task, outcome } => {
                    &&& event matches Some(ClientEventModel::Task { task: known, outcome: heard })
                    &&& known == task
                    &&& heard == outcome
                },
                MessageModel::StoreResult(result) => event matches Some(
                    ClientEventModel::Store(heard),
                ) && heard == result,
                MessageModel::Lifecycle(state) => event matches Some(
                    ClientEventModel::Lifecycle(heard),
                ) && heard == state,
                MessageModel::ShellEvent(said) => event matches Some(
                    ClientEventModel::Shell(heard),
                ) && heard == said,
                MessageModel::CoverChanged { magnet_present } => event matches Some(
                    ClientEventModel::CoverChanged(present),
                ) && present == magnet_present,
                MessageModel::PageTurn { forward } => event matches Some(
                    ClientEventModel::PageTurn(turned),
                ) && turned == forward,
                MessageModel::Exit => event == Some(ClientEventModel::Exit),
                _ => event is None,
            }
        }),
{
}

/// Two different messages for an application are two different events.
pub proof fn law_events_stay_apart(a: MessageModel, b: MessageModel)
    requires
        event_in(a) is Some,
        a != b,
    ensures
        event_in(a) != event_in(b),
{
}

/// What an application asks for reaches the runtime unchanged: anything but a
/// picture is one message, which carries every value that was asked for.
pub proof fn law_messages_carry_what_was_asked(command: CommandModel)
    requires
        !(command is PutPicture),
    ensures
        ({
            let said = messages_of(command)->Ok_0;
            &&& messages_of(command) is Ok
            &&& said.len() == 1
            &&& match command {
                CommandModel::SetScreen(screen) => said[0] matches MessageModel::SetScreen(shown)
                    && shown == screen,
                CommandModel::Log { level, message } => {
                    &&& said[0] matches MessageModel::Log { level: marked, message: text }
                    &&& marked == level
                    &&& text == message
                },
                CommandModel::Device(request) => said[0] matches MessageModel::DeviceRequest(asked)
                    && asked == request,
                CommandModel::Spawn { task, work } => {
                    &&& said[0] matches MessageModel::Spawn { task: known, work: asked }
                    &&& known == task
                    &&& asked == work
                },
                CommandModel::Cancel(task) => said[0] matches MessageModel::Cancel { task: known }
                    && known == task,
                CommandModel::Store(request) => said[0] matches MessageModel::StoreRequest(asked)
                    && asked == request,
                CommandModel::Shell(request) => said[0] matches MessageModel::ShellRequest(asked)
                    && asked == request,
                CommandModel::Exit => said[0] is Exit,
                CommandModel::Launch(name) => said[0] matches MessageModel::Launch { name: app }
                    && app == name,
                CommandModel::DropPicture(handle) => said[0] matches MessageModel::DropPicture {
                    handle: held,
                } && held == handle,
                CommandModel::PutFont { handle, name, bytes } => {
                    &&& said[0] matches MessageModel::PutFont {
                        handle: held,
                        name: called,
                        bytes: face,
                    }
                    &&& held == handle
                    &&& called == name
                    &&& face == bytes
                },
                CommandModel::DropFont(handle) => said[0] matches MessageModel::DropFont {
                    handle: held,
                } && held == handle,
                CommandModel::PutPicture { .. } => true,
            }
        }),
{
}

/// A picture whose bytes are as many as its size says, and no more than the
/// runtime holds, is handed over: in one message up to the most that one takes,
/// and otherwise as a beginning of that size, pieces that put together are its
/// bytes, and an end. Any other picture is refused.
pub proof fn law_pictures_are_handed_over(
    handle: PictureHandle,
    width: u32,
    height: u32,
    pixels: PicturePixelsModel,
)
    ensures
        ({
            let said = messages_of(CommandModel::PutPicture { handle, width, height, pixels });
            let area = width * height;
            let bytes = match pixels {
                PicturePixelsModel::Gray8(bytes) => bytes,
                PicturePixelsModel::Rgb8(bytes) => bytes,
            };
            let agrees = match pixels {
                PicturePixelsModel::Gray8(_) => bytes.len() == area,
                PicturePixelsModel::Rgb8(_) => bytes.len() == 3 * area,
            };
            &&& said is Ok <==> agrees && 0 < bytes.len() <= MAX_PICTURE_BYTES
            &&& said is Ok && bytes.len() <= MAX_INLINE_PICTURE_BYTES ==> said->Ok_0 == seq![
                MessageModel::PutPicture { handle, width, height, pixels },
            ]
            &&& said is Ok && bytes.len() > MAX_INLINE_PICTURE_BYTES ==> {
                let messages = said->Ok_0;
                &&& messages.len() > 2
                &&& messages[0] matches MessageModel::BeginPicture {
                    handle: held,
                    width: wide,
                    height: high,
                    format,
                }
                &&& held == handle
                &&& wide == width
                &&& high == height
                &&& format is Gray8 <==> pixels is Gray8
                &&& messages.last() == MessageModel::CommitPicture { handle }
                &&& carried(messages.subrange(1, messages.len() - 1)) == bytes
                &&& forall|i: int|
                    0 < i < messages.len() - 1 ==> (#[trigger] messages[i] matches
                        MessageModel::PictureChunk { handle: held, offset, bytes: piece } && held
                        == handle && piece == bytes.subrange(
                        offset as int,
                        offset + piece.len(),
                    ))
            }
        }),
{
    picture::law_pixels_take_one_byte_or_three(width, height);
    let said = messages_of(CommandModel::PutPicture { handle, width, height, pixels });
    let bytes = pixels.bytes();
    if said is Ok && bytes.len() > MAX_INLINE_PICTURE_BYTES {
        let messages = said->Ok_0;
        let pieces = chunks(handle, bytes, 0);
        law_chunks_carry_the_picture(handle, bytes);
        assert(messages.subrange(1, messages.len() - 1) =~= pieces);
        assert forall|i: int| 0 < i < messages.len() - 1 implies (#[trigger] messages[i] matches
            MessageModel::PictureChunk { handle: held, offset, bytes: piece } && held == handle
            && piece == bytes.subrange(offset as int, offset + piece.len())) by {
            assert(messages[i] == pieces[i - 1]);
            law_chunks_fit(handle, bytes, 0, i - 1);
        }
    }
}

/// Whatever a picture is handed over as can be sent.
pub proof fn law_pictures_can_be_sent(
    handle: PictureHandle,
    width: u32,
    height: u32,
    pixels: PicturePixelsModel,
    request_id: u32,
    i: int,
)
    requires
        messages_of(CommandModel::PutPicture { handle, width, height, pixels }) is Ok,
        0 <= i < messages_of(
            CommandModel::PutPicture { handle, width, height, pixels },
        )->Ok_0.len(),
    ensures
        sending::posted(
            request_id,
            messages_of(CommandModel::PutPicture { handle, width, height, pixels })->Ok_0[i],
        ) is Ok,
{
    picture::law_pixels_take_one_byte_or_three(width, height);
    let messages = messages_of(CommandModel::PutPicture { handle, width, height, pixels })->Ok_0;
    let bytes = pixels.bytes();
    let pieces = chunks(handle, bytes, 0);
    sending::law_whole_pictures_are_sent(request_id, handle, width, height, pixels);
    sending::law_pictures_begin(request_id, handle, width, height, pixels.format());
    sending::law_fixed_messages_are_sent(request_id, messages[i]);
    if bytes.len() > MAX_INLINE_PICTURE_BYTES && 0 < i < messages.len() - 1 {
        assert(messages[i] == pieces[i - 1]);
        law_chunks_fit(handle, bytes, 0, i - 1);
        match pieces[i - 1] {
            MessageModel::PictureChunk { handle, offset, bytes } =>
                sending::law_picture_chunks_are_sent(request_id, handle, offset, bytes),
            _ => {},
        }
    }
}

/// The panel an application is told of is the one the runtime described, and
/// nothing but a welcome describes one. A size is told as it is, as far as the
/// wire can say.
pub proof fn law_the_panel_is_the_one_described(message: MessageModel)
    ensures
        match message {
            MessageModel::Welcome {
                width,
                height,
                pixels_per_inch,
                text_scale,
                picture_format,
            } => {
                &&& panel_of(message) matches Some(panel)
                &&& panel.width == width
                &&& panel.height == height
                &&& panel.pixels_per_inch == pixels_per_inch
                &&& panel.text_scale == text_scale
                &&& panel.picture_format == picture_format
            },
            _ => panel_of(message) is None,
        },
{
}

} // verus!
