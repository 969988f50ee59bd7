//! Work the runtime carries out on an application's behalf.

use vstd::prelude::*;

use crate::item;
use crate::item::copied;
use crate::limits::{
    MAX_HEADERS, MAX_HEADER_NAME, MAX_HEADER_VALUE, MAX_POST_BODY_LEN, MAX_STRING_LEN, MAX_URL_LEN,
};
use crate::text;
use crate::text::{drawn_from, Alphabet};
use crate::wire;
use crate::wire::byte_len;

verus! {

/// A handle to work the runtime is carrying out on an application's behalf.
#[derive(Clone, Copy, Debug, Default, PartialEq, Eq, PartialOrd, Ord, Hash, Structural)]
pub struct TaskId(pub u32);

/// One header an application supplies.
#[derive(Debug, PartialEq, Eq)]
pub struct Header {
    pub name: String,
    pub value: String,
}

/// What a [`Header`] says.
pub struct HeaderModel {
    pub name: Seq<char>,
    pub value: Seq<char>,
}

impl View for Header {
    type V = HeaderModel;

    open spec fn view(&self) -> HeaderModel {
        HeaderModel {
            name: self.name@,
            value: self.value@,
        }
    }
}

impl Clone for Header {
    fn clone(&self) -> (copy: Self)
        ensures
            copy@ == self@,
    {
        Header {
            name: self.name.clone(),
            value: self.value.clone(),
        }
    }
}

/// Where a credential goes in the request.
#[derive(Debug, PartialEq, Eq)]
pub enum SecretHeader {
    /// `Authorization: Bearer <value>`.
    Bearer,
    /// A header carrying the value alone, such as `x-api-key`.
    Named(String),
    /// `Authorization: Basic <base64 of the stored value>`. The stored value is
    /// the whole `user:password` pair, and the runtime encodes it.
    Basic,
}

/// What a [`SecretHeader`] says.
pub enum SecretHeaderModel {
    Bearer,
    Named(Seq<char>),
    Basic,
}

impl View for SecretHeader {
    type V = SecretHeaderModel;

    open spec fn view(&self) -> SecretHeaderModel {
        match *self {
            SecretHeader::Bearer => SecretHeaderModel::Bearer,
            SecretHeader::Named(inner) => SecretHeaderModel::Named(inner@),
            SecretHeader::Basic => SecretHeaderModel::Basic,
        }
    }
}

impl Clone for SecretHeader {
    fn clone(&self) -> (copy: Self)
        ensures
            copy@ == self@,
    {
        match self {
            SecretHeader::Bearer => SecretHeader::Bearer,
            SecretHeader::Named(inner) => SecretHeader::Named(inner.clone()),
            SecretHeader::Basic => SecretHeader::Basic,
        }
    }
}

/// A credential an application may use and never see: the name of a secret
/// the runtime holds, and where it goes.
#[derive(Debug, PartialEq, Eq)]
pub struct Credential {
    pub secret: String,
    pub header: SecretHeader,
}

/// What a [`Credential`] says.
pub struct CredentialModel {
    pub secret: Seq<char>,
    pub header: SecretHeaderModel,
}

impl View for Credential {
    type V = CredentialModel;

    open spec fn view(&self) -> CredentialModel {
        CredentialModel {
            secret: self.secret@,
            header: self.header@,
        }
    }
}

impl Clone for Credential {
    fn clone(&self) -> (copy: Self)
        ensures
            copy@ == self@,
    {
        Credential {
            secret: self.secret.clone(),
            header: self.header.clone(),
        }
    }
}

/// Something an application asks the runtime to do.
#[allow(inconsistent_fields)]
#[derive(Debug, PartialEq, Eq)]
pub enum Task {
    /// Reads a resource from `offset`, and no more than `max_bytes` of it.
    Fetch {
        url: String,
        offset: u32,
        max_bytes: u32,
        credential: Option<Credential>,
        headers: Vec<Header>,
    },
    /// Sends a body and reads the answer.
    Post {
        url: String,
        body: String,
        content_type: String,
        credential: Option<Credential>,
        headers: Vec<Header>,
        max_bytes: u32,
    },
    /// Signs an account out, here and at the far end.
    RevokeCredential { credential: String },
    /// Reads a file the application may read.
    ReadFile { path: String },
    /// Waits.
    Sleep { seconds: u32 },
}

/// What a [`Task`] says.
#[allow(inconsistent_fields)]
pub enum TaskModel {
    Fetch {
        url: Seq<char>,
        offset: u32,
        max_bytes: u32,
        credential: Option<CredentialModel>,
        headers: Seq<HeaderModel>,
    },
    Post {
        url: Seq<char>,
        body: Seq<char>,
        content_type: Seq<char>,
        credential: Option<CredentialModel>,
        headers: Seq<HeaderModel>,
        max_bytes: u32,
    },
    RevokeCredential { credential: Seq<char> },
    ReadFile { path: Seq<char> },
    Sleep { seconds: u32 },
}

impl View for Task {
    type V = TaskModel;

    open spec fn view(&self) -> TaskModel {
        match *self {
            Task::Fetch { url, offset, max_bytes, credential, headers } => TaskModel::Fetch {
                url: url@,
                offset,
                max_bytes,
                credential: match credential { None => None, Some(inner) => Some(inner@) },
                headers: item::models(headers@),
            },
            Task::Post {
                url,
                body,
                content_type,
                credential,
                headers,
                max_bytes,
            } => TaskModel::Post {
                url: url@,
                body: body@,
                content_type: content_type@,
                credential: match credential { None => None, Some(inner) => Some(inner@) },
                headers: item::models(headers@),
                max_bytes,
            },
            Task::RevokeCredential { credential } => TaskModel::RevokeCredential {
                credential: credential@,
            },
            Task::ReadFile { path } => TaskModel::ReadFile {
                path: path@,
            },
            Task::Sleep { seconds } => TaskModel::Sleep {
                seconds,
            },
        }
    }
}

impl Clone for Task {
    fn clone(&self) -> (copy: Self)
        ensures
            copy@ == self@,
    {
        match self {
            Task::Fetch { url, offset, max_bytes, credential, headers } => {
                let copy_of_headers = headers.clone();
                assert(item::models(copy_of_headers@) =~= item::models(headers@));
                Task::Fetch {
                    url: url.clone(),
                    offset: *offset,
                    max_bytes: *max_bytes,
                    credential: match credential {
                        None => None,
                        Some(inner) => Some(inner.clone()),
                    },
                    headers: copy_of_headers,
                }
            },
            Task::Post { url, body, content_type, credential, headers, max_bytes } => {
                let copy_of_headers = headers.clone();
                assert(item::models(copy_of_headers@) =~= item::models(headers@));
                Task::Post {
                    url: url.clone(),
                    body: body.clone(),
                    content_type: content_type.clone(),
                    credential: match credential {
                        None => None,
                        Some(inner) => Some(inner.clone()),
                    },
                    headers: copy_of_headers,
                    max_bytes: *max_bytes,
                }
            },
            Task::RevokeCredential { credential } => {
                Task::RevokeCredential {
                    credential: credential.clone(),
                }
            },
            Task::ReadFile { path } => {
                Task::ReadFile {
                    path: path.clone(),
                }
            },
            Task::Sleep { seconds } => {
                Task::Sleep {
                    seconds: *seconds,
                }
            },
        }
    }
}

/// Why work did not finish.
#[derive(Clone, Copy, Debug, PartialEq, Eq, Structural)]
pub enum TaskError {
    /// The application does not hold the permission.
    Denied,
    /// The reader has no secret of that name.
    NoCredential,
    /// The reader is not on a network.
    Offline,
    /// The host did not answer.
    Unreachable,
    /// The answer was larger than the limit declared for it.
    TooLarge,
    TimedOut,
    NotFound,
    /// The host will not answer without a credential.
    Unauthorized,
    /// The runtime could not update its own storage.
    LocalStorage,
    /// Signed out here, and not known to be signed out there.
    RevocationUnconfirmed,
}

/// What became of work.
#[derive(Debug, PartialEq, Eq)]
pub enum TaskOutcome {
    /// It finished, with these bytes.
    Completed(Vec<u8>),
    Failed(TaskError),
    Cancelled,
}

/// What a [`TaskOutcome`] says.
pub enum TaskOutcomeModel {
    Completed(Seq<u8>),
    Failed(TaskError),
    Cancelled,
}

impl View for TaskOutcome {
    type V = TaskOutcomeModel;

    open spec fn view(&self) -> TaskOutcomeModel {
        match *self {
            TaskOutcome::Completed(inner) => TaskOutcomeModel::Completed(inner@),
            TaskOutcome::Failed(inner) => TaskOutcomeModel::Failed(inner),
            TaskOutcome::Cancelled => TaskOutcomeModel::Cancelled,
        }
    }
}

impl Clone for TaskOutcome {
    fn clone(&self) -> (copy: Self)
        ensures
            copy@ == self@,
    {
        match self {
            TaskOutcome::Completed(inner) => TaskOutcome::Completed(copied(inner)),
            TaskOutcome::Failed(inner) => TaskOutcome::Failed(*inner),
            TaskOutcome::Cancelled => TaskOutcome::Cancelled,
        }
    }
}

// ---------------------------------------------------------------------------
// Rules.

pub open spec fn header_ok(header: HeaderModel) -> bool {
    &&& 0 < wire::utf8_len(header.name) <= MAX_HEADER_NAME
    &&& wire::utf8_len(header.value) <= MAX_HEADER_VALUE
    &&& text::is_drawn_from(header.name, Alphabet::Token)
    &&& text::is_drawn_from(header.value, Alphabet::Visible)
}

pub open spec fn headers_ok(headers: Seq<HeaderModel>) -> bool {
    forall|i: int| 0 <= i < headers.len() ==> header_ok(#[trigger] headers[i])
}

pub open spec fn credential_ok(credential: CredentialModel) -> bool {
    &&& 0 < wire::utf8_len(credential.secret) <= MAX_HEADER_NAME
    &&& match credential.header {
        SecretHeaderModel::Bearer => true,
        SecretHeaderModel::Basic => true,
        SecretHeaderModel::Named(name) => 0 < wire::utf8_len(name) <= MAX_HEADER_NAME
            && text::is_drawn_from(name, Alphabet::Token),
    }
}

pub open spec fn credential_absent_or_ok(credential: Option<CredentialModel>) -> bool {
    match credential {
        None => true,
        Some(credential) => credential_ok(credential),
    }
}

/// Whether work is something an application may send.
pub open spec fn sendable(task: TaskModel) -> bool {
    match task {
        TaskModel::Fetch { url, offset, max_bytes, credential, headers } => {
            &&& wire::utf8_len(url) <= MAX_URL_LEN
            &&& headers.len() <= MAX_HEADERS
            &&& headers_ok(headers)
            &&& credential_absent_or_ok(credential)
        },
        TaskModel::Post { url, body, content_type, credential, headers, max_bytes } => {
            &&& wire::utf8_len(url) <= MAX_URL_LEN
            &&& wire::utf8_len(body) <= MAX_POST_BODY_LEN
            &&& wire::utf8_len(content_type) <= MAX_STRING_LEN
            &&& headers.len() <= MAX_HEADERS
            &&& headers_ok(headers)
            &&& credential_absent_or_ok(credential)
        },
        TaskModel::RevokeCredential { credential } => 0 < wire::utf8_len(credential)
            <= MAX_HEADER_NAME && text::is_drawn_from(credential, Alphabet::SecretName),
        TaskModel::ReadFile { path } => wire::utf8_len(path) <= MAX_STRING_LEN,
        TaskModel::Sleep { seconds } => true,
    }
}

impl Header {
    pub fn new(name: &str, value: &str) -> (header: Header)
        ensures
            header@ == (HeaderModel { name: name@, value: value@ }),
    {
        Header { name: name.to_owned(), value: value.to_owned() }
    }

    /// Whether this is something an application may send: a name of token
    /// characters and a value of visible ones, so that neither can smuggle in
    /// another header.
    pub fn is_well_formed(&self) -> (ok: bool)
        ensures
            ok == header_ok(self@),
    {
        let name: usize = byte_len(self.name.as_str());
        name > 0 && name <= MAX_HEADER_NAME && byte_len(self.value.as_str()) <= MAX_HEADER_VALUE
            && drawn_from(self.name.as_str(), Alphabet::Token) && drawn_from(
            self.value.as_str(),
            Alphabet::Visible,
        )
    }
}

/// Whether every header is something an application may send.
pub fn all_well_formed(headers: &Vec<Header>) -> (ok: bool)
    ensures
        ok == headers_ok(item::models(headers@)),
{
    let mut index: usize = 0;
    while index < headers.len()
        invariant
            index <= headers@.len(),
            forall|i: int| 0 <= i < index ==> header_ok(#[trigger] item::models(headers@)[i]),
        decreases headers@.len() - index,
    {
        if !headers[index].is_well_formed() {
            assert(!header_ok(item::models(headers@)[index as int]));
            return false;
        }
        index = index + 1;
    }
    true
}

impl Credential {
    /// The usual convention: `Authorization: Bearer <value>`.
    pub fn bearer(secret: &str) -> (credential: Credential)
        ensures
            credential@ == (CredentialModel { secret: secret@, header: SecretHeaderModel::Bearer }),
    {
        Credential { secret: secret.to_owned(), header: SecretHeader::Bearer }
    }

    /// The credential a site asks for with `WWW-Authenticate: Basic`.
    pub fn basic(secret: &str) -> (credential: Credential)
        ensures
            credential@ == (CredentialModel { secret: secret@, header: SecretHeaderModel::Basic }),
    {
        Credential { secret: secret.to_owned(), header: SecretHeader::Basic }
    }

    /// A named header, such as `x-api-key`.
    pub fn in_header(secret: &str, header: &str) -> (credential: Credential)
        ensures
            credential@ == (CredentialModel {
                secret: secret@,
                header: SecretHeaderModel::Named(header@),
            }),
    {
        Credential { secret: secret.to_owned(), header: SecretHeader::Named(header.to_owned()) }
    }

    /// The header name this credential is sent under.
    pub fn header_name(&self) -> (name: &str)
        ensures
            name@ == match self@.header {
                SecretHeaderModel::Named(name) => name,
                _ => "Authorization"@,
            },
    {
        match &self.header {
            SecretHeader::Bearer | SecretHeader::Basic => "Authorization",
            SecretHeader::Named(name) => name.as_str(),
        }
    }

    pub fn is_well_formed(&self) -> (ok: bool)
        ensures
            ok == credential_ok(self@),
    {
        let secret: usize = byte_len(self.secret.as_str());
        if secret == 0 || secret > MAX_HEADER_NAME {
            return false;
        }
        match &self.header {
            SecretHeader::Bearer | SecretHeader::Basic => true,
            SecretHeader::Named(name) => {
                let length: usize = byte_len(name.as_str());
                length > 0 && length <= MAX_HEADER_NAME && drawn_from(
                    name.as_str(),
                    Alphabet::Token,
                )
            },
        }
    }
}

/// Whether a credential is absent or one an application may use.
pub fn absent_or_well_formed(credential: &Option<Credential>) -> (ok: bool)
    ensures
        ok == credential_absent_or_ok(wire::model_of(*credential)),
{
    match credential {
        None => true,
        Some(credential) => credential.is_well_formed(),
    }
}

impl Task {
    /// Whether this is something an application may send.
    pub fn is_sendable(&self) -> (ok: bool)
        ensures
            ok == sendable(self@),
    {
        match self {
            Task::Fetch { url, offset: _, max_bytes: _, credential, headers } => byte_len(
                url.as_str(),
            ) <= MAX_URL_LEN && headers.len() <= MAX_HEADERS && all_well_formed(headers)
                && absent_or_well_formed(credential),
            Task::Post { url, body, content_type, credential, headers, max_bytes: _ } => byte_len(
                url.as_str(),
            ) <= MAX_URL_LEN && byte_len(body.as_str()) <= MAX_POST_BODY_LEN && byte_len(
                content_type.as_str(),
            ) <= MAX_STRING_LEN && headers.len() <= MAX_HEADERS && all_well_formed(headers)
                && absent_or_well_formed(credential),
            Task::RevokeCredential { credential } => {
                let length: usize = byte_len(credential.as_str());
                length > 0 && length <= MAX_HEADER_NAME && drawn_from(
                    credential.as_str(),
                    Alphabet::SecretName,
                )
            },
            Task::ReadFile { path } => byte_len(path.as_str()) <= MAX_STRING_LEN,
            Task::Sleep { seconds: _ } => true,
        }
    }
}

impl TaskError {
    /// Whether the same work could succeed later with nothing else changed.
    pub open spec fn passes_with_time(self) -> bool {
        self is Offline || self is Unreachable || self is TimedOut
    }

    /// Whether the same work could succeed if it were only tried again.
    pub fn worth_retrying(self) -> (worth: bool)
        ensures
            worth == self.passes_with_time(),
    {
        match self {
            TaskError::Offline | TaskError::Unreachable | TaskError::TimedOut => true,
            _ => false,
        }
    }

    /// The sentence for a reader.
    pub open spec fn sentence(self) -> Seq<char> {
        match self {
            TaskError::Denied => "the application does not hold this permission"@,
            TaskError::NoCredential => "this reader has no key for that service"@,
            TaskError::Offline => "this reader is not on a network"@,
            TaskError::Unreachable => "the host did not answer"@,
            TaskError::TooLarge => "the response was larger than the limit the task declared"@,
            TaskError::TimedOut => "the task ran out of time"@,
            TaskError::NotFound => "not found"@,
            TaskError::Unauthorized => "the host will not answer without a credential"@,
            TaskError::LocalStorage => "the runtime could not update local credential storage"@,
            TaskError::RevocationUnconfirmed =>
                "the account is signed out locally but remote revocation was not confirmed"@,
        }
    }

    /// The sentence for a reader.
    pub fn to_string(self) -> (text: String)
        ensures
            text@ == self.sentence(),
    {
        let words = match self {
            TaskError::Denied => "the application does not hold this permission",
            TaskError::NoCredential => "this reader has no key for that service",
            TaskError::Offline => "this reader is not on a network",
            TaskError::Unreachable => "the host did not answer",
            TaskError::TooLarge => "the response was larger than the limit the task declared",
            TaskError::TimedOut => "the task ran out of time",
            TaskError::NotFound => "not found",
            TaskError::Unauthorized => "the host will not answer without a credential",
            TaskError::LocalStorage => "the runtime could not update local credential storage",
            TaskError::RevocationUnconfirmed =>
                "the account is signed out locally but remote revocation was not confirmed",
        };
        words.to_owned()
    }
}

} // verus!
