//! What the two sides say to each other.

use vstd::prelude::*;

use crate::device::{
    DeviceRequest, DeviceRequestModel, DeviceResult, DeviceResultModel, LogLevel,
};
use crate::item::copied;
use crate::picture::{PictureFormat, PicturePixels, PicturePixelsModel};
use crate::shell::{ShellEvent, ShellEventModel, ShellRequest, ShellRequestModel};
use crate::store::{
    Lifecycle, StoreRequest, StoreRequestModel, StoreResult, StoreResultModel,
};
use crate::task::{Task, TaskId, TaskModel, TaskOutcome, TaskOutcomeModel};
use crate::ui::{ActionId, FontHandle, PictureHandle, Screen, ScreenModel, TextScale};

verus! {

/// One thing one side says to the other.
#[allow(inconsistent_fields)]
#[derive(Debug, PartialEq, Eq)]
pub enum Message {
    /// An application introduces itself.
    Hello { name: String },
    /// The runtime describes the panel.
    Welcome {
        width: u16,
        height: u16,
        pixels_per_inch: u16,
        text_scale: TextScale,
        picture_format: PictureFormat,
    },
    /// An application shows a screen.
    SetScreen(Screen),
    /// The reader used a control.
    Action { action: ActionId },
    /// The reader held a run of text.
    TextHold { action: ActionId, context: u64, start: u32, end: u32 },
    Log { level: LogLevel, message: String },
    Exit,
    /// An application asks for another one.
    Launch { name: String },
    DeviceRequest(DeviceRequest),
    DeviceResult(DeviceResult),
    Spawn { task: TaskId, work: Task },
    Cancel { task: TaskId },
    TaskOutcome { task: TaskId, outcome: TaskOutcome },
    StoreRequest(StoreRequest),
    Lifecycle(Lifecycle),
    StoreResult(StoreResult),
    ShellRequest(ShellRequest),
    ShellEvent(ShellEvent),
    /// The cover opened or closed.
    CoverChanged { magnet_present: bool },
    /// The reader pressed a page button.
    PageTurn { forward: bool },
    /// A small picture, whole.
    PutPicture { handle: PictureHandle, width: u32, height: u32, pixels: PicturePixels },
    /// A large picture, to follow in chunks.
    BeginPicture { handle: PictureHandle, width: u32, height: u32, format: PictureFormat },
    PictureChunk { handle: PictureHandle, offset: u32, bytes: Vec<u8> },
    CommitPicture { handle: PictureHandle },
    DropPicture { handle: PictureHandle },
    PutFont { handle: FontHandle, name: String, bytes: Vec<u8> },
    DropFont { handle: FontHandle },
}

/// What a [`Message`] says.
#[allow(inconsistent_fields)]
pub enum MessageModel {
    Hello { name: Seq<char> },
    Welcome {
        width: u16,
        height: u16,
        pixels_per_inch: u16,
        text_scale: TextScale,
        picture_format: PictureFormat,
    },
    SetScreen(ScreenModel),
    Action { action: ActionId },
    TextHold { action: ActionId, context: u64, start: u32, end: u32 },
    Log { level: LogLevel, message: Seq<char> },
    Exit,
    Launch { name: Seq<char> },
    DeviceRequest(DeviceRequestModel),
    DeviceResult(DeviceResultModel),
    Spawn { task: TaskId, work: TaskModel },
    Cancel { task: TaskId },
    TaskOutcome { task: TaskId, outcome: TaskOutcomeModel },
    StoreRequest(StoreRequestModel),
    Lifecycle(Lifecycle),
    StoreResult(StoreResultModel),
    ShellRequest(ShellRequestModel),
    ShellEvent(ShellEventModel),
    CoverChanged { magnet_present: bool },
    PageTurn { forward: bool },
    PutPicture { handle: PictureHandle, width: u32, height: u32, pixels: PicturePixelsModel },
    BeginPicture { handle: PictureHandle, width: u32, height: u32, format: PictureFormat },
    PictureChunk { handle: PictureHandle, offset: u32, bytes: Seq<u8> },
    CommitPicture { handle: PictureHandle },
    DropPicture { handle: PictureHandle },
    PutFont { handle: FontHandle, name: Seq<char>, bytes: Seq<u8> },
    DropFont { handle: FontHandle },
}

impl View for Message {
    type V = MessageModel;

    open spec fn view(&self) -> MessageModel {
        match *self {
            Message::Hello { name } => MessageModel::Hello {
                name: name@,
            },
            Message::Welcome {
                width,
                height,
                pixels_per_inch,
                text_scale,
                picture_format,
            } => MessageModel::Welcome {
                width,
                height,
                pixels_per_inch,
                text_scale,
                picture_format,
            },
            Message::SetScreen(inner) => MessageModel::SetScreen(inner@),
            Message::Action { action } => MessageModel::Action {
                action,
            },
            Message::TextHold { action, context, start, end } => MessageModel::TextHold {
                action,
                context,
                start,
                end,
            },
            Message::Log { level, message } => MessageModel::Log {
                level,
                message: message@,
            },
            Message::Exit => MessageModel::Exit,
            Message::Launch { name } => MessageModel::Launch {
                name: name@,
            },
            Message::DeviceRequest(inner) => MessageModel::DeviceRequest(inner@),
            Message::DeviceResult(inner) => MessageModel::DeviceResult(inner@),
            Message::Spawn { task, work } => MessageModel::Spawn {
                task,
                work: work@,
            },
            Message::Cancel { task } => MessageModel::Cancel {
                task,
            },
            Message::TaskOutcome { task, outcome } => MessageModel::TaskOutcome {
                task,
                outcome: outcome@,
            },
            Message::StoreRequest(inner) => MessageModel::StoreRequest(inner@),
            Message::Lifecycle(inner) => MessageModel::Lifecycle(inner),
            Message::StoreResult(inner) => MessageModel::StoreResult(inner@),
            Message::ShellRequest(inner) => MessageModel::ShellRequest(inner@),
            Message::ShellEvent(inner) => MessageModel::ShellEvent(inner@),
            Message::CoverChanged { magnet_present } => MessageModel::CoverChanged {
                magnet_present,
            },
            Message::PageTurn { forward } => MessageModel::PageTurn {
                forward,
            },
            Message::PutPicture { handle, width, height, pixels } => MessageModel::PutPicture {
                handle,
                width,
                height,
                pixels: pixels@,
            },
            Message::BeginPicture { handle, width, height, format } => MessageModel::BeginPicture {
                handle,
                width,
                height,
                format,
            },
            Message::PictureChunk { handle, offset, bytes } => MessageModel::PictureChunk {
                handle,
                offset,
                bytes: bytes@,
            },
            Message::CommitPicture { handle } => MessageModel::CommitPicture {
                handle,
            },
            Message::DropPicture { handle } => MessageModel::DropPicture {
                handle,
            },
            Message::PutFont { handle, name, bytes } => MessageModel::PutFont {
                handle,
                name: name@,
                bytes: bytes@,
            },
            Message::DropFont { handle } => MessageModel::DropFont {
                handle,
            },
        }
    }
}

impl Clone for Message {
    fn clone(&self) -> (copy: Self)
        ensures
            copy@ == self@,
    {
        match self {
            Message::Hello { name } => {
                Message::Hello {
                    name: name.clone(),
                }
            },
            Message::Welcome { width, height, pixels_per_inch, text_scale, picture_format } => {
                Message::Welcome {
                    width: *width,
                    height: *height,
                    pixels_per_inch: *pixels_per_inch,
                    text_scale: *text_scale,
                    picture_format: *picture_format,
                }
            },
            Message::SetScreen(inner) => Message::SetScreen(inner.clone()),
            Message::Action { action } => {
                Message::Action {
                    action: *action,
                }
            },
            Message::TextHold { action, context, start, end } => {
                Message::TextHold {
                    action: *action,
                    context: *context,
                    start: *start,
                    end: *end,
                }
            },
            Message::Log { level, message } => {
                Message::Log {
                    level: *level,
                    message: message.clone(),
                }
            },
            Message::Exit => Message::Exit,
            Message::Launch { name } => {
                Message::Launch {
                    name: name.clone(),
                }
            },
            Message::DeviceRequest(inner) => Message::DeviceRequest(inner.clone()),
            Message::DeviceResult(inner) => Message::DeviceResult(inner.clone()),
            Message::Spawn { task, work } => {
                Message::Spawn {
                    task: *task,
                    work: work.clone(),
                }
            },
            Message::Cancel { task } => {
                Message::Cancel {
                    task: *task,
                }
            },
            Message::TaskOutcome { task, outcome } => {
                Message::TaskOutcome {
                    task: *task,
                    outcome: outcome.clone(),
                }
            },
            Message::StoreRequest(inner) => Message::StoreRequest(inner.clone()),
            Message::Lifecycle(inner) => Message::Lifecycle(*inner),
            Message::StoreResult(inner) => Message::StoreResult(inner.clone()),
            Message::ShellRequest(inner) => Message::ShellRequest(inner.clone()),
            Message::ShellEvent(inner) => Message::ShellEvent(inner.clone()),
            Message::CoverChanged { magnet_present } => {
                Message::CoverChanged {
                    magnet_present: *magnet_present,
                }
            },
            Message::PageTurn { forward } => {
                Message::PageTurn {
                    forward: *forward,
                }
            },
            Message::PutPicture { handle, width, height, pixels } => {
                Message::PutPicture {
                    handle: *handle,
                    width: *width,
                    height: *height,
                    pixels: pixels.clone(),
                }
            },
            Message::BeginPicture { handle, width, height, format } => {
                Message::BeginPicture {
                    handle: *handle,
                    width: *width,
                    height: *height,
                    format: *format,
                }
            },
            Message::PictureChunk { handle, offset, bytes } => {
                Message::PictureChunk {
                    handle: *handle,
                    offset: *offset,
                    bytes: copied(bytes),
                }
            },
            Message::CommitPicture { handle } => {
                Message::CommitPicture {
                    handle: *handle,
                }
            },
            Message::DropPicture { handle } => {
                Message::DropPicture {
                    handle: *handle,
                }
            },
            Message::PutFont { handle, name, bytes } => {
                Message::PutFont {
                    handle: *handle,
                    name: name.clone(),
                    bytes: copied(bytes),
                }
            },
            Message::DropFont { handle } => {
                Message::DropFont {
                    handle: *handle,
                }
            },
        }
    }
}

/// A message and the request it belongs to.
#[derive(Debug, PartialEq, Eq)]
pub struct Frame {
    pub request_id: u32,
    pub message: Message,
}

/// What a [`Frame`] says.
pub struct FrameModel {
    pub request_id: u32,
    pub message: MessageModel,
}

impl View for Frame {
    type V = FrameModel;

    open spec fn view(&self) -> FrameModel {
        FrameModel {
            request_id: self.request_id,
            message: self.message@,
        }
    }
}

impl Clone for Frame {
    fn clone(&self) -> (copy: Self)
        ensures
            copy@ == self@,
    {
        Frame {
            request_id: self.request_id,
            message: self.message.clone(),
        }
    }
}

} // verus!
