//! A terminal session the runtime runs for an application.

use vstd::prelude::*;

use crate::error::ProtocolError;
use crate::item::copied;

verus! {

/// What an application asks of a session.
#[derive(Debug, PartialEq, Eq)]
pub enum ShellRequest {
    /// Starts a session of this size.
    Open { columns: u16, rows: u16 },
    /// What the reader typed.
    Input(Vec<u8>),
    Resize { columns: u16, rows: u16 },
    Close,
}

/// What a [`ShellRequest`] says.
pub enum ShellRequestModel {
    Open { columns: u16, rows: u16 },
    Input(Seq<u8>),
    Resize { columns: u16, rows: u16 },
    Close,
}

impl View for ShellRequest {
    type V = ShellRequestModel;

    open spec fn view(&self) -> ShellRequestModel {
        match *self {
            ShellRequest::Open { columns, rows } => ShellRequestModel::Open {
                columns,
                rows,
            },
            ShellRequest::Input(inner) => ShellRequestModel::Input(inner@),
            ShellRequest::Resize { columns, rows } => ShellRequestModel::Resize {
                columns,
                rows,
            },
            ShellRequest::Close => ShellRequestModel::Close,
        }
    }
}

impl Clone for ShellRequest {
    fn clone(&self) -> (copy: Self)
        ensures
            copy@ == self@,
    {
        match self {
            ShellRequest::Open { columns, rows } => {
                ShellRequest::Open {
                    columns: *columns,
                    rows: *rows,
                }
            },
            ShellRequest::Input(inner) => ShellRequest::Input(copied(inner)),
            ShellRequest::Resize { columns, rows } => {
                ShellRequest::Resize {
                    columns: *columns,
                    rows: *rows,
                }
            },
            ShellRequest::Close => ShellRequest::Close,
        }
    }
}

/// What a session reports.
#[derive(Debug, PartialEq, Eq)]
pub enum ShellEvent {
    Opened,
    /// What the session printed.
    Output(Vec<u8>),
    /// It ended, with this exit status.
    Closed { status: i32 },
    Refused(ShellError),
}

/// What a [`ShellEvent`] says.
pub enum ShellEventModel {
    Opened,
    Output(Seq<u8>),
    Closed { status: i32 },
    Refused(ShellError),
}

impl View for ShellEvent {
    type V = ShellEventModel;

    open spec fn view(&self) -> ShellEventModel {
        match *self {
            ShellEvent::Opened => ShellEventModel::Opened,
            ShellEvent::Output(inner) => ShellEventModel::Output(inner@),
            ShellEvent::Closed { status } => ShellEventModel::Closed {
                status,
            },
            ShellEvent::Refused(inner) => ShellEventModel::Refused(inner),
        }
    }
}

impl Clone for ShellEvent {
    fn clone(&self) -> (copy: Self)
        ensures
            copy@ == self@,
    {
        match self {
            ShellEvent::Opened => ShellEvent::Opened,
            ShellEvent::Output(inner) => ShellEvent::Output(copied(inner)),
            ShellEvent::Closed { status } => {
                ShellEvent::Closed {
                    status: *status,
                }
            },
            ShellEvent::Refused(inner) => ShellEvent::Refused(*inner),
        }
    }
}

/// Why a session was refused.
#[derive(Clone, Copy, Debug, PartialEq, Eq, Structural)]
pub enum ShellError {
    NotPermitted,
    Unavailable,
    AlreadyOpen,
    NotOpen,
    Failed,
}

impl ShellError {
    pub open spec fn tag(self) -> u8 {
        match self {
            ShellError::NotPermitted => 0,
            ShellError::Unavailable => 1,
            ShellError::AlreadyOpen => 2,
            ShellError::NotOpen => 3,
            ShellError::Failed => 4,
        }
    }

    /// What a tag means.
    pub open spec fn of_tag(tag: u8) -> Result<ShellError, ProtocolError> {
        if tag == 0 {
            Ok(ShellError::NotPermitted)
        } else if tag == 1 {
            Ok(ShellError::Unavailable)
        } else if tag == 2 {
            Ok(ShellError::AlreadyOpen)
        } else if tag == 3 {
            Ok(ShellError::NotOpen)
        } else if tag == 4 {
            Ok(ShellError::Failed)
        } else {
            Err(ProtocolError::InvalidValue("shell error"))
        }
    }

    pub fn to_tag(self) -> (tag: u8)
        ensures
            tag == self.tag(),
    {
        match self {
            ShellError::NotPermitted => 0,
            ShellError::Unavailable => 1,
            ShellError::AlreadyOpen => 2,
            ShellError::NotOpen => 3,
            ShellError::Failed => 4,
        }
    }

    pub fn from_tag(tag: u8) -> (result: Result<ShellError, ProtocolError>)
        ensures
            result == Self::of_tag(tag),
    {
        match tag {
            0 => Ok(ShellError::NotPermitted),
            1 => Ok(ShellError::Unavailable),
            2 => Ok(ShellError::AlreadyOpen),
            3 => Ok(ShellError::NotOpen),
            4 => Ok(ShellError::Failed),
            _ => Err(ProtocolError::InvalidValue("shell error")),
        }
    }
}

impl TryFrom<u8> for ShellError {
    type Error = ProtocolError;

    fn try_from(tag: u8) -> (result: Result<ShellError, ProtocolError>) {
        ShellError::from_tag(tag)
    }
}

impl vstd::std_specs::convert::TryFromSpecImpl<u8> for ShellError {
    open spec fn obeys_try_from_spec() -> bool {
        true
    }

    open spec fn try_from_spec(tag: u8) -> Result<ShellError, ProtocolError> {
        ShellError::of_tag(tag)
    }
}

} // verus!
