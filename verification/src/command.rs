//! What an application asks of the runtime.

use vstd::prelude::*;

use crate::device::{DeviceRequest, DeviceRequestModel, LogLevel};
use crate::item::copied;
use crate::picture::{PicturePixels, PicturePixelsModel};
use crate::shell::{ShellRequest, ShellRequestModel};
use crate::store::{StoreRequest, StoreRequestModel};
use crate::task::{Task, TaskId, TaskModel};
use crate::ui::{FontHandle, PictureHandle, Screen, ScreenModel};

verus! {

/// One thing an application asks of the runtime.
#[allow(inconsistent_fields)]
#[derive(Debug, PartialEq, Eq)]
pub enum Command {
    /// Show a screen.
    SetScreen(Screen),
    Log { level: LogLevel, message: String },
    /// Ask something of the device.
    Device(DeviceRequest),
    /// Start work under an identifier.
    Spawn { task: TaskId, work: Task },
    Cancel(TaskId),
    /// Read or write the application's own small state.
    Store(StoreRequest),
    /// Drive a terminal the runtime owns.
    Shell(ShellRequest),
    Exit,
    /// Hand the panel to another application by name.
    Launch(String),
    /// Give the runtime a picture to hold.
    PutPicture { handle: PictureHandle, width: u32, height: u32, pixels: PicturePixels },
    /// Release a picture the runtime is holding.
    DropPicture(PictureHandle),
    /// Give the runtime a publisher font to hold for reading screens.
    PutFont { handle: FontHandle, name: String, bytes: Vec<u8> },
    /// Release a publisher font.
    DropFont(FontHandle),
}

/// What a [`Command`] says.
#[allow(inconsistent_fields)]
pub enum CommandModel {
    SetScreen(ScreenModel),
    Log { level: LogLevel, message: Seq<char> },
    Device(DeviceRequestModel),
    Spawn { task: TaskId, work: TaskModel },
    Cancel(TaskId),
    Store(StoreRequestModel),
    Shell(ShellRequestModel),
    Exit,
    Launch(Seq<char>),
    PutPicture { handle: PictureHandle, width: u32, height: u32, pixels: PicturePixelsModel },
    DropPicture(PictureHandle),
    PutFont { handle: FontHandle, name: Seq<char>, bytes: Seq<u8> },
    DropFont(FontHandle),
}

impl View for Command {
    type V = CommandModel;

    open spec fn view(&self) -> CommandModel {
        match *self {
            Command::SetScreen(inner) => CommandModel::SetScreen(inner@),
            Command::Log { level, message } => CommandModel::Log {
                level,
                message: message@,
            },
            Command::Device(inner) => CommandModel::Device(inner@),
            Command::Spawn { task, work } => CommandModel::Spawn {
                task,
                work: work@,
            },
            Command::Cancel(inner) => CommandModel::Cancel(inner),
            Command::Store(inner) => CommandModel::Store(inner@),
            Command::Shell(inner) => CommandModel::Shell(inner@),
            Command::Exit => CommandModel::Exit,
            Command::Launch(inner) => CommandModel::Launch(inner@),
            Command::PutPicture { handle, width, height, pixels } => CommandModel::PutPicture {
                handle,
                width,
                height,
                pixels: pixels@,
            },
            Command::DropPicture(inner) => CommandModel::DropPicture(inner),
            Command::PutFont { handle, name, bytes } => CommandModel::PutFont {
                handle,
                name: name@,
                bytes: bytes@,
            },
            Command::DropFont(inner) => CommandModel::DropFont(inner),
        }
    }
}

impl Clone for Command {
    fn clone(&self) -> (copy: Self)
        ensures
            copy@ == self@,
    {
        match self {
            Command::SetScreen(inner) => Command::SetScreen(inner.clone()),
            Command::Log { level, message } => {
                Command::Log {
                    level: *level,
                    message: message.clone(),
                }
            },
            Command::Device(inner) => Command::Device(inner.clone()),
            Command::Spawn { task, work } => {
                Command::Spawn {
                    task: *task,
                    work: work.clone(),
                }
            },
            Command::Cancel(inner) => Command::Cancel(*inner),
            Command::Store(inner) => Command::Store(inner.clone()),
            Command::Shell(inner) => Command::Shell(inner.clone()),
            Command::Exit => Command::Exit,
            Command::Launch(inner) => Command::Launch(inner.clone()),
            Command::PutPicture { handle, width, height, pixels } => {
                Command::PutPicture {
                    handle: *handle,
                    width: *width,
                    height: *height,
                    pixels: pixels.clone(),
                }
            },
            Command::DropPicture(inner) => Command::DropPicture(*inner),
            Command::PutFont { handle, name, bytes } => {
                Command::PutFont {
                    handle: *handle,
                    name: name.clone(),
                    bytes: copied(bytes),
                }
            },
            Command::DropFont(inner) => Command::DropFont(*inner),
        }
    }
}

} // verus!
