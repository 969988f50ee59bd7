//! Tasks and their outcomes on the wire.

use vstd::prelude::*;

use crate::blob;
use crate::blob::{add_blob_len, push_blob, read_blob};
use crate::error::ProtocolError;
use crate::item;
use crate::item::{add_all_len, read_all, write_all, Wire};
use crate::limits::{
    MAX_FRAME_LEN, MAX_HEADERS, MAX_HEADER_NAME, MAX_HEADER_VALUE, MAX_POST_BODY_LEN,
    MAX_TASK_BYTES, MAX_TASK_BYTES_U32, MAX_URL_LEN,
};
use crate::task;
use crate::task::{
    absent_or_well_formed, all_well_formed, Credential, CredentialModel, Header, HeaderModel,
    SecretHeader, SecretHeaderModel, Task, TaskError, TaskModel, TaskOutcome, TaskOutcomeModel,
};
use crate::wire;
use crate::wire::{
    add_body_len, add_encoded_len, add_text_len, byte_len, push_body, push_text, push_u32,
    push_u8, Reader,
};

verus! {

// ---------------------------------------------------------------------------
// Why work failed. Tags are only ever appended, so that two sides of different
// ages agree about what went wrong.

pub open spec fn task_error_tag(error: TaskError) -> u8 {
    match error {
        TaskError::Denied => 0,
        TaskError::Unreachable => 1,
        TaskError::TooLarge => 2,
        TaskError::TimedOut => 3,
        TaskError::NotFound => 4,
        TaskError::Offline => 5,
        TaskError::NoCredential => 6,
        TaskError::Unauthorized => 7,
        TaskError::LocalStorage => 8,
        TaskError::RevocationUnconfirmed => 9,
    }
}

/// What a tag means. One that nobody has written yet is refused rather than
/// guessed.
pub open spec fn task_error_of(tag: u8) -> Result<TaskError, ProtocolError> {
    if exists|error: TaskError| task_error_tag(error) == tag {
        Ok(choose|error: TaskError| task_error_tag(error) == tag)
    } else {
        Err(ProtocolError::InvalidValue("task error"))
    }
}

/// No two failures share a tag.
pub proof fn law_task_error_tags_differ(a: TaskError, b: TaskError)
    ensures
        task_error_tag(a) == task_error_tag(b) ==> a == b,
{
}

/// A failure survives the wire.
pub broadcast proof fn lemma_task_error_read_back(error: TaskError)
    ensures
        task_error_of(#[trigger] task_error_tag(error)) == Ok::<_, ProtocolError>(error),
{
    let back = choose|other: TaskError| task_error_tag(other) == task_error_tag(error);
    assert(task_error_tag(back) == task_error_tag(error));
}

pub fn encode_task_error(error: TaskError) -> (tag: u8)
    ensures
        tag == task_error_tag(error),
{
    match error {
        TaskError::Denied => 0,
        TaskError::Unreachable => 1,
        TaskError::TooLarge => 2,
        TaskError::TimedOut => 3,
        TaskError::NotFound => 4,
        TaskError::Offline => 5,
        TaskError::NoCredential => 6,
        TaskError::Unauthorized => 7,
        TaskError::LocalStorage => 8,
        TaskError::RevocationUnconfirmed => 9,
    }
}

pub fn decode_task_error(tag: u8) -> (result: Result<TaskError, ProtocolError>)
    ensures
        result == task_error_of(tag),
{
    broadcast use lemma_task_error_read_back;

    let error = match tag {
        0 => TaskError::Denied,
        1 => TaskError::Unreachable,
        2 => TaskError::TooLarge,
        3 => TaskError::TimedOut,
        4 => TaskError::NotFound,
        5 => TaskError::Offline,
        6 => TaskError::NoCredential,
        7 => TaskError::Unauthorized,
        8 => TaskError::LocalStorage,
        9 => TaskError::RevocationUnconfirmed,
        _ => return Err(ProtocolError::InvalidValue("task error")),
    };
    assert(task_error_tag(error) == tag);
    Ok(error)
}

// ---------------------------------------------------------------------------
// Headers.

impl Wire for Header {
    open spec fn bytes(model: HeaderModel) -> Seq<u8> {
        wire::text_bytes(model.name) + wire::text_bytes(model.value)
    }

    open spec fn fits(model: HeaderModel) -> bool {
        wire::text_fits(model.name) && wire::text_fits(model.value)
    }

    open spec fn grown(model: HeaderModel, total: int) -> Result<int, ProtocolError> {
        wire::grown_text(wire::grown_text(Ok(total), model.name), model.value)
    }

    open spec fn parse(s: Seq<u8>) -> wire::Parsed<HeaderModel> {
        match wire::parse_text(s) {
            Err(e) => Err(e),
            Ok((name, s)) => match wire::parse_text(s) {
                Err(e) => Err(e),
                Ok((value, s)) => {
                    let header = HeaderModel { name, value };
                    if task::header_ok(header) {
                        Ok((header, s))
                    } else {
                        Err(ProtocolError::InvalidValue("request header"))
                    }
                },
            },
        }
    }

    open spec fn faithful(model: HeaderModel) -> bool {
        task::header_ok(model)
    }

    proof fn lemma_counted(model: HeaderModel, total: int) {
        broadcast use wire::group_lengths;

    }

    proof fn lemma_read_back(model: HeaderModel, rest: Seq<u8>) {
        broadcast use wire::group_reading;

    }

    fn add_len(&self, total: usize) -> (result: Result<usize, ProtocolError>) {
        let so_far: usize = add_text_len(total, self.name.as_str())?;
        add_text_len(so_far, self.value.as_str())
    }

    fn write(&self, output: &mut Vec<u8>) {
        broadcast use wire::group_writing;

        push_text(output, self.name.as_str());
        push_text(output, self.value.as_str());
    }

    fn read(reader: &mut Reader<'_>) -> (result: Result<Self, ProtocolError>) {
        let name = reader.string()?;
        let value = reader.string()?;
        let header = Header { name, value };
        if !header.is_well_formed() {
            return Err(ProtocolError::InvalidValue("request header"));
        }
        Ok(header)
    }
}

// ---------------------------------------------------------------------------
// Credentials.

#[verifier::opaque]
pub open spec fn credential_bytes(credential: Option<CredentialModel>) -> Seq<u8> {
    match credential {
        None => seq![0u8],
        Some(credential) => match credential.header {
            SecretHeaderModel::Bearer => seq![1u8] + wire::text_bytes(credential.secret),
            SecretHeaderModel::Named(name) => seq![2u8] + wire::text_bytes(name)
                + wire::text_bytes(credential.secret),
            SecretHeaderModel::Basic => seq![3u8] + wire::text_bytes(credential.secret),
        },
    }
}

pub open spec fn credential_fits(credential: Option<CredentialModel>) -> bool {
    match credential {
        None => true,
        Some(credential) => wire::text_fits(credential.secret) && match credential.header {
            SecretHeaderModel::Named(name) => wire::text_fits(name),
            _ => true,
        },
    }
}

/// A running length after what a credential says beyond its tag.
pub open spec fn grown_by_credential(
    total: Result<int, ProtocolError>,
    credential: Option<CredentialModel>,
) -> Result<int, ProtocolError> {
    match credential {
        None => total,
        Some(credential) => {
            let with_secret = wire::grown_text(total, credential.secret);
            match credential.header {
                SecretHeaderModel::Named(name) => wire::grown_text(with_secret, name),
                _ => with_secret,
            }
        },
    }
}

pub open spec fn parse_any_credential(s: Seq<u8>) -> wire::Parsed<Option<CredentialModel>> {
    match wire::parse_u8(s) {
        Err(e) => Err(e),
        Ok((tag, s)) => if tag == 0 {
            Ok((None, s))
        } else if tag == 1 || tag == 3 {
            match wire::parse_text(s) {
                Err(e) => Err(e),
                Ok((secret, s)) => Ok(
                    (
                        Some(
                            CredentialModel {
                                secret,
                                header: if tag == 1 {
                                    SecretHeaderModel::Bearer
                                } else {
                                    SecretHeaderModel::Basic
                                },
                            },
                        ),
                        s,
                    ),
                ),
            }
        } else if tag == 2 {
            match wire::parse_text(s) {
                Err(e) => Err(e),
                Ok((name, s)) => match wire::parse_text(s) {
                    Err(e) => Err(e),
                    Ok((secret, s)) => Ok(
                        (
                            Some(
                                CredentialModel { secret, header: SecretHeaderModel::Named(name) },
                            ),
                            s,
                        ),
                    ),
                },
            }
        } else {
            Err(ProtocolError::InvalidValue("credential"))
        },
    }
}

#[verifier::opaque]
pub open spec fn parse_credential(s: Seq<u8>) -> wire::Parsed<Option<CredentialModel>> {
    match parse_any_credential(s) {
        Err(e) => Err(e),
        Ok((credential, s)) => if task::credential_absent_or_ok(credential) {
            Ok((credential, s))
        } else {
            Err(ProtocolError::InvalidValue("credential"))
        },
    }
}

proof fn lemma_credential_counted(total: int, credential: Option<CredentialModel>)
    requires
        grown_by_credential(Ok(total), credential) is Ok,
    ensures
        credential_fits(credential),
        grown_by_credential(Ok(total), credential)->Ok_0 + 1 == total + credential_bytes(
            credential,
        ).len(),
{
    broadcast use wire::group_lengths;

    reveal(credential_bytes);
}

/// A credential survives the wire if it is well formed, or absent, and is
/// refused when it is read if it is not.
pub proof fn law_credentials_read_back(credential: Option<CredentialModel>, rest: Seq<u8>)
    requires
        credential_fits(credential),
    ensures
        parse_credential(credential_bytes(credential) + rest)
            == if task::credential_absent_or_ok(credential) {
            Ok::<_, ProtocolError>((credential, rest))
        } else {
            Err(ProtocolError::InvalidValue("credential"))
        },
{
    broadcast use wire::group_reading;

    reveal(credential_bytes);
    reveal(parse_credential);
}

/// A credential sent in a way nobody knows is refused and never guessed at.
pub proof fn law_unknown_credentials_are_refused(tag: u8, rest: Seq<u8>)
    requires
        tag > 3,
    ensures
        parse_credential(seq![tag] + rest) == Err::<
            (Option<CredentialModel>, Seq<u8>),
            ProtocolError,
        >(ProtocolError::InvalidValue("credential")),
{
    broadcast use wire::group_reading;

    reveal(parse_credential);
}

fn add_credential_len(total: usize, credential: &Option<Credential>) -> (result: Result<
    usize,
    ProtocolError,
>)
    requires
        total <= MAX_FRAME_LEN,
    ensures
        wire::counts(result, grown_by_credential(Ok(total as int), wire::model_of(*credential))),
{
    match credential {
        None => Ok(total),
        Some(credential) => {
            let so_far: usize = add_text_len(total, credential.secret.as_str())?;
            match &credential.header {
                SecretHeader::Named(name) => add_text_len(so_far, name.as_str()),
                _ => Ok(so_far),
            }
        },
    }
}

/// Writes a credential, or the absence of one.
pub fn push_credential(output: &mut Vec<u8>, credential: &Option<Credential>)
    requires
        credential_fits(wire::model_of(*credential)),
    ensures
        final(output)@ == old(output)@ + credential_bytes(wire::model_of(*credential)),
{
    broadcast use wire::group_writing;

    reveal(credential_bytes);
    match credential {
        None => push_u8(output, 0),
        Some(credential) => match &credential.header {
            SecretHeader::Bearer => {
                push_u8(output, 1);
                push_text(output, credential.secret.as_str());
            },
            SecretHeader::Named(name) => {
                push_u8(output, 2);
                push_text(output, name.as_str());
                push_text(output, credential.secret.as_str());
            },
            SecretHeader::Basic => {
                push_u8(output, 3);
                push_text(output, credential.secret.as_str());
            },
        },
    }
}

/// Reads a credential back, refusing what it does not know.
pub fn take_credential(reader: &mut Reader<'_>) -> (result: Result<Option<Credential>, ProtocolError>)
    ensures
        wire::finds(result, final(reader)@, parse_credential(old(reader)@)),
{
    reveal(parse_credential);
    let tag: u8 = reader.u8()?;
    let credential = match tag {
        0 => None,
        1 => {
            let secret = reader.string()?;
            Some(Credential { secret, header: SecretHeader::Bearer })
        },
        2 => {
            let name = reader.string()?;
            let secret = reader.string()?;
            Some(Credential { secret, header: SecretHeader::Named(name) })
        },
        3 => {
            let secret = reader.string()?;
            Some(Credential { secret, header: SecretHeader::Basic })
        },
        _ => return Err(ProtocolError::InvalidValue("credential")),
    };
    if !absent_or_well_formed(&credential) {
        return Err(ProtocolError::InvalidValue("credential"));
    }
    Ok(credential)
}

// ---------------------------------------------------------------------------
// Tasks.

#[verifier::opaque]
pub open spec fn task_bytes(work: TaskModel) -> Seq<u8> {
    match work {
        TaskModel::Fetch { url, offset, max_bytes, credential, headers } => seq![0u8]
            + wire::text_bytes(url) + wire::be32(offset) + wire::be32(max_bytes)
            + credential_bytes(credential) + seq![headers.len() as u8] + item::bytes_of_all::<
            Header,
        >(headers),
        TaskModel::ReadFile { path } => seq![1u8] + wire::text_bytes(path),
        TaskModel::Sleep { seconds } => seq![2u8] + wire::be32(seconds),
        TaskModel::Post { url, body, content_type, credential, headers, max_bytes } => seq![3u8]
            + wire::text_bytes(url) + wire::body_bytes(body) + wire::text_bytes(content_type)
            + credential_bytes(credential) + seq![headers.len() as u8] + item::bytes_of_all::<
            Header,
        >(headers) + wire::be32(max_bytes),
        TaskModel::RevokeCredential { credential } => seq![4u8] + wire::text_bytes(credential),
    }
}

/// Why a request cannot be sent: one of its headers, or its credential.
pub open spec fn request_refusal(
    headers: Seq<HeaderModel>,
    credential: Option<CredentialModel>,
) -> Option<ProtocolError> {
    if headers.len() > MAX_HEADERS || !task::headers_ok(headers) {
        Some(ProtocolError::InvalidValue("request header"))
    } else if !task::credential_absent_or_ok(credential) {
        Some(ProtocolError::InvalidValue("credential"))
    } else {
        None
    }
}

/// The length of a task on the wire, with the identifier in front of it.
#[verifier::opaque]
pub open spec fn task_size(work: TaskModel) -> Result<int, ProtocolError> {
    match work {
        TaskModel::Fetch { url, offset, max_bytes, credential, headers } => match request_refusal(
            headers,
            credential,
        ) {
            Some(e) => Err(e),
            None => item::grown_by_all::<Header>(
                headers,
                grown_by_credential(
                    wire::grown_text(wire::grown(Ok(5), 10), url),
                    credential,
                ),
            ),
        },
        TaskModel::Post {
            url,
            body,
            content_type,
            credential,
            headers,
            max_bytes,
        } => match request_refusal(
            headers,
            credential,
        ) {
            Some(e) => Err(e),
            None => item::grown_by_all::<Header>(
                headers,
                grown_by_credential(
                    wire::grown_text(
                        wire::grown_body(wire::grown_text(wire::grown(Ok(5), 6), url), body),
                        content_type,
                    ),
                    credential,
                ),
            ),
        },
        TaskModel::ReadFile { path } => wire::grown_text(Ok(5), path),
        TaskModel::Sleep { seconds } => wire::grown(Ok(5), 4),
        TaskModel::RevokeCredential { credential } => wire::grown_text(Ok(5), credential),
    }
}

/// Whether every text and list of a task has room for its length.
#[verifier::opaque]
pub open spec fn task_fits(work: TaskModel) -> bool {
    match work {
        TaskModel::Fetch { url, offset, max_bytes, credential, headers } => {
            &&& wire::text_fits(url)
            &&& credential_fits(credential)
            &&& headers.len() <= MAX_HEADERS
            &&& item::all_fit::<Header>(headers)
        },
        TaskModel::Post { url, body, content_type, credential, headers, max_bytes } => {
            &&& wire::text_fits(url)
            &&& wire::body_fits(body)
            &&& wire::text_fits(content_type)
            &&& credential_fits(credential)
            &&& headers.len() <= MAX_HEADERS
            &&& item::all_fit::<Header>(headers)
        },
        TaskModel::ReadFile { path } => wire::text_fits(path),
        TaskModel::Sleep { seconds } => true,
        TaskModel::RevokeCredential { credential } => wire::text_fits(credential),
    }
}

/// Whether a task says nothing that reading would clip or refuse: an address
/// no longer than one may be, and no more asked for than one answer carries.
pub open spec fn task_faithful(work: TaskModel) -> bool {
    match work {
        TaskModel::Fetch { url, offset, max_bytes, credential, headers } => wire::utf8_len(url)
            <= MAX_URL_LEN && max_bytes <= MAX_TASK_BYTES_U32,
        TaskModel::Post { url, body, content_type, credential, headers, max_bytes } =>
            wire::utf8_len(url) <= MAX_URL_LEN && max_bytes <= MAX_TASK_BYTES_U32,
        _ => true,
    }
}

/// The address a task asks, if it asks one, is no longer than one may be.
pub open spec fn address_fits(work: TaskModel) -> bool {
    match work {
        TaskModel::Fetch { url, .. } => wire::utf8_len(url) <= MAX_URL_LEN,
        TaskModel::Post { url, .. } => wire::utf8_len(url) <= MAX_URL_LEN,
        _ => true,
    }
}

/// What may be asked for at once: no more than one answer carries.
pub open spec fn ceiling(wanted: u32) -> u32 {
    if wanted <= MAX_TASK_BYTES_U32 {
        wanted
    } else {
        MAX_TASK_BYTES_U32
    }
}

/// A task as it arrives: asking for no more than one answer carries, and
/// otherwise what it was.
pub open spec fn clipped(work: TaskModel) -> TaskModel {
    match work {
        TaskModel::Fetch { url, offset, max_bytes, credential, headers } => TaskModel::Fetch {
            url,
            offset,
            max_bytes: ceiling(max_bytes),
            credential,
            headers,
        },
        TaskModel::Post { url, body, content_type, credential, headers, max_bytes } =>
            TaskModel::Post {
                url,
                body,
                content_type,
                credential,
                headers,
                max_bytes: ceiling(max_bytes),
            },
        _ => work,
    }
}

/// An address, refused when it is longer than one may be.
pub open spec fn parse_url(s: Seq<u8>) -> wire::Parsed<Seq<char>> {
    match wire::parse_text(s) {
        Err(e) => Err(e),
        Ok((url, s)) => if wire::utf8_len(url) > MAX_URL_LEN {
            Err(ProtocolError::StringTooLarge)
        } else {
            Ok((url, s))
        },
    }
}

/// What may be asked for at once, clipped to what one answer carries.
pub open spec fn parse_ceiling(s: Seq<u8>) -> wire::Parsed<u32> {
    match wire::parse_u32(s) {
        Err(e) => Err(e),
        Ok((wanted, s)) => Ok((ceiling(wanted), s)),
    }
}

pub open spec fn parse_headers(s: Seq<u8>) -> wire::Parsed<Seq<HeaderModel>> {
    match wire::parse_u8(s) {
        Err(e) => Err(e),
        Ok((count, s)) => if count > MAX_HEADERS {
            Err(ProtocolError::InvalidValue("too many headers"))
        } else {
            item::parse_all::<Header>(s, count as nat)
        },
    }
}

pub open spec fn parse_fetch(s: Seq<u8>) -> wire::Parsed<TaskModel> {
    match parse_url(s) {
        Err(e) => Err(e),
        Ok((url, s)) => match wire::parse_u32(s) {
            Err(e) => Err(e),
            Ok((offset, s)) => match parse_ceiling(s) {
                Err(e) => Err(e),
                Ok((max_bytes, s)) => match parse_credential(s) {
                    Err(e) => Err(e),
                    Ok((credential, s)) => match parse_headers(s) {
                        Err(e) => Err(e),
                        Ok((headers, s)) => Ok(
                            (TaskModel::Fetch { url, offset, max_bytes, credential, headers }, s),
                        ),
                    },
                },
            },
        },
    }
}

pub open spec fn parse_post(s: Seq<u8>) -> wire::Parsed<TaskModel> {
    match parse_url(s) {
        Err(e) => Err(e),
        Ok((url, s)) => match wire::parse_body(s) {
            Err(e) => Err(e),
            Ok((body, s)) => match wire::parse_text(s) {
                Err(e) => Err(e),
                Ok((content_type, s)) => match parse_credential(s) {
                    Err(e) => Err(e),
                    Ok((credential, s)) => match parse_headers(s) {
                        Err(e) => Err(e),
                        Ok((headers, s)) => match parse_ceiling(s) {
                            Err(e) => Err(e),
                            Ok((max_bytes, s)) => Ok(
                                (
                                    TaskModel::Post {
                                        url,
                                        body,
                                        content_type,
                                        credential,
                                        headers,
                                        max_bytes,
                                    },
                                    s,
                                ),
                            ),
                        },
                    },
                },
            },
        },
    }
}

pub open spec fn parse_task(s: Seq<u8>) -> wire::Parsed<TaskModel> {
    match wire::parse_u8(s) {
        Err(e) => Err(e),
        Ok((tag, s)) => if tag == 0 {
            parse_fetch(s)
        } else if tag == 1 {
            match wire::parse_text(s) {
                Err(e) => Err(e),
                Ok((path, s)) => Ok((TaskModel::ReadFile { path }, s)),
            }
        } else if tag == 2 {
            match wire::parse_u32(s) {
                Err(e) => Err(e),
                Ok((seconds, s)) => Ok((TaskModel::Sleep { seconds }, s)),
            }
        } else if tag == 3 {
            parse_post(s)
        } else if tag == 4 {
            match wire::parse_text(s) {
                Err(e) => Err(e),
                Ok((credential, s)) => Ok((TaskModel::RevokeCredential { credential }, s)),
            }
        } else {
            Err(ProtocolError::InvalidValue("task kind"))
        },
    }
}

/// A task that has a size fits, and its size is its length.
pub proof fn lemma_task_counted(work: TaskModel)
    requires
        task_size(work) is Ok,
    ensures
        task_fits(work),
        task_size(work)->Ok_0 == 4 + task_bytes(work).len(),
{
    broadcast use wire::group_lengths;

    reveal(task_size);
    reveal(task_bytes);
    reveal(task_fits);
    match work {
        TaskModel::Fetch { url, offset, max_bytes, credential, headers } => {
            let before = wire::grown_text(wire::grown(Ok(5), 10), url);
            let held = grown_by_credential(before, credential);
            reveal_with_fuel(item::grown_by_all, 1);
            lemma_credential_counted(before->Ok_0, credential);
            item::lemma_all_counted::<Header>(headers, held->Ok_0);
        },
        TaskModel::Post { url, body, content_type, credential, headers, max_bytes } => {
            let before = wire::grown_text(
                wire::grown_body(wire::grown_text(wire::grown(Ok(5), 6), url), body),
                content_type,
            );
            let held = grown_by_credential(before, credential);
            reveal_with_fuel(item::grown_by_all, 1);
            lemma_credential_counted(before->Ok_0, credential);
            item::lemma_all_counted::<Header>(headers, held->Ok_0);
        },
        _ => {},
    }
}

proof fn lemma_headers_read_back(headers: Seq<HeaderModel>, rest: Seq<u8>)
    requires
        headers.len() <= MAX_HEADERS,
        item::all_fit::<Header>(headers),
        task::headers_ok(headers),
    ensures
        parse_headers(seq![headers.len() as u8] + (item::bytes_of_all::<Header>(headers) + rest))
            == Ok::<_, ProtocolError>((headers, rest)),
{
    wire::lemma_parse_u8(headers.len() as u8, item::bytes_of_all::<Header>(headers) + rest);
    item::lemma_all_read_back::<Header>(headers, rest);
}

/// A task is read back as it was, but for what it asks for at once, or refused
/// for its address.
pub proof fn lemma_task_arrives(work: TaskModel, rest: Seq<u8>)
    requires
        task_size(work) is Ok,
    ensures
        parse_task(task_bytes(work) + rest) == if address_fits(work) {
            Ok::<_, ProtocolError>((clipped(work), rest))
        } else {
            Err(ProtocolError::StringTooLarge)
        },
{
    lemma_task_counted(work);
    reveal(task_size);
    reveal(task_bytes);
    reveal(task_fits);
    match work {
        TaskModel::Fetch { url, offset, max_bytes, credential, headers } => {
            let after_credential = seq![headers.len() as u8] + (item::bytes_of_all::<Header>(
                headers,
            ) + rest);
            let after_ceiling = credential_bytes(credential) + after_credential;
            let after_offset = wire::be32(max_bytes) + after_ceiling;
            let after_url = wire::be32(offset) + after_offset;
            let after_tag = wire::text_bytes(url) + after_url;
            assert(task_bytes(work) + rest == seq![0u8] + after_tag) by {
                broadcast use wire::lemma_concat_to_the_right;

            }
            wire::lemma_parse_u8(0u8, after_tag);
            wire::lemma_parse_text(url, after_url);
            wire::lemma_parse_u32(offset, after_offset);
            wire::lemma_parse_u32(max_bytes, after_ceiling);
            law_credentials_read_back(credential, after_credential);
            lemma_headers_read_back(headers, rest);
        },
        TaskModel::Post { url, body, content_type, credential, headers, max_bytes } => {
            let last = wire::be32(max_bytes) + rest;
            let after_credential = seq![headers.len() as u8] + (item::bytes_of_all::<Header>(
                headers,
            ) + last);
            let after_type = credential_bytes(credential) + after_credential;
            let after_body = wire::text_bytes(content_type) + after_type;
            let after_url = wire::body_bytes(body) + after_body;
            let after_tag = wire::text_bytes(url) + after_url;
            assert(task_bytes(work) + rest == seq![3u8] + after_tag) by {
                broadcast use wire::lemma_concat_to_the_right;

            }
            wire::lemma_parse_u8(3u8, after_tag);
            wire::lemma_parse_text(url, after_url);
            wire::lemma_parse_body(body, after_body);
            wire::lemma_parse_text(content_type, after_type);
            law_credentials_read_back(credential, after_credential);
            lemma_headers_read_back(headers, last);
            wire::lemma_parse_u32(max_bytes, rest);
        },
        _ => {
            broadcast use wire::group_reading;

        },
    }
}

/// A task that loses nothing on the wire is read back as it was.
pub proof fn lemma_task_read_back(work: TaskModel, rest: Seq<u8>)
    requires
        task_size(work) is Ok,
        task_faithful(work),
    ensures
        parse_task(task_bytes(work) + rest) == Ok::<_, ProtocolError>((work, rest)),
{
    lemma_task_arrives(work, rest);
}

proof fn lemma_headers_count(headers: Seq<HeaderModel>, total: int)
    requires
        task::headers_ok(headers),
        0 <= total,
        total + headers.len() * (MAX_HEADER_NAME + MAX_HEADER_VALUE + 4) <= MAX_FRAME_LEN,
    ensures
        item::grown_by_all::<Header>(headers, Ok(total)) is Ok,
    decreases headers.len(),
{
    if headers.len() > 0 {
        let each = (MAX_HEADER_NAME + MAX_HEADER_VALUE + 4) as int;
        assert(headers.len() * each == (headers.len() - 1) * each + each) by (nonlinear_arith);
        assert((headers.len() - 1) * each >= 0) by (nonlinear_arith)
            requires
                headers.len() > 0,
                each >= 0,
        ;
        let tail = headers.drop_first();
        assert(task::header_ok(headers[0]));
        assert(task::headers_ok(tail)) by {
            assert forall|i: int| 0 <= i < tail.len() implies task::header_ok(
                #[trigger] tail[i],
            ) by {
                assert(tail[i] == headers[i + 1]);
            }
        }
        lemma_headers_count(tail, Header::grown(headers[0], total)->Ok_0);
    }
}

proof fn lemma_few_headers(count: nat)
    requires
        count <= MAX_HEADERS,
    ensures
        0 <= count * (MAX_HEADER_NAME + MAX_HEADER_VALUE + 4) <= 4_096,
{
    assert(0 <= count * 324 <= 4_096);
}

/// Work that an application may send has a length, and an address that is not
/// refused when it is read.
pub proof fn lemma_sendable_is_counted(work: TaskModel)
    requires
        task::sendable(work),
    ensures
        task_size(work) is Ok,
        address_fits(work),
{
    reveal(task_size);
    match work {
        TaskModel::Fetch { url, offset, max_bytes, credential, headers } => {
            let before = wire::grown_text(wire::grown(Ok(5), 10), url);
            let held = grown_by_credential(before, credential);
            assert(before is Ok && before->Ok_0 <= MAX_URL_LEN + 100);
            assert(held is Ok && held->Ok_0 <= MAX_URL_LEN + 1_000);
            lemma_few_headers(headers.len());
            lemma_headers_count(headers, held->Ok_0);
        },
        TaskModel::Post { url, body, content_type, credential, headers, max_bytes } => {
            let before = wire::grown_text(
                wire::grown_body(wire::grown_text(wire::grown(Ok(5), 6), url), body),
                content_type,
            );
            let held = grown_by_credential(before, credential);
            assert(before is Ok && before->Ok_0 <= MAX_POST_BODY_LEN + 20_000);
            assert(held is Ok && held->Ok_0 <= MAX_POST_BODY_LEN + 21_000);
            lemma_few_headers(headers.len());
            lemma_headers_count(headers, held->Ok_0);
        },
        _ => {},
    }
}

/// The length of a task on the wire, refusing one that may not be sent.
pub fn task_len(work: &Task) -> (result: Result<usize, ProtocolError>)
    ensures
        wire::counts(result, task_size(work@)),
{
    reveal(task_size);
    let mut length: usize = 5;
    match work {
        Task::Fetch { url, offset: _, max_bytes: _, credential, headers } => {
            if headers.len() > MAX_HEADERS || !all_well_formed(headers) {
                return Err(ProtocolError::InvalidValue("request header"));
            }
            if !absent_or_well_formed(credential) {
                return Err(ProtocolError::InvalidValue("credential"));
            }
            length = add_encoded_len(length, 10)?;
            length = add_text_len(length, url.as_str())?;
            length = add_credential_len(length, credential)?;
            add_all_len(headers, length)
        },
        Task::Post { url, body, content_type, credential, headers, max_bytes: _ } => {
            if headers.len() > MAX_HEADERS || !all_well_formed(headers) {
                return Err(ProtocolError::InvalidValue("request header"));
            }
            if !absent_or_well_formed(credential) {
                return Err(ProtocolError::InvalidValue("credential"));
            }
            length = add_encoded_len(length, 6)?;
            length = add_text_len(length, url.as_str())?;
            length = add_body_len(length, body.as_str())?;
            length = add_text_len(length, content_type.as_str())?;
            length = add_credential_len(length, credential)?;
            add_all_len(headers, length)
        },
        Task::ReadFile { path } => add_text_len(length, path.as_str()),
        Task::Sleep { seconds: _ } => add_encoded_len(length, 4),
        Task::RevokeCredential { credential } => add_text_len(length, credential.as_str()),
    }
}

pub fn write_task(output: &mut Vec<u8>, work: &Task)
    requires
        task_fits(work@),
    ensures
        final(output)@ == old(output)@ + task_bytes(work@),
{
    broadcast use wire::group_writing;

    reveal(task_bytes);
    reveal(task_fits);
    match work {
        Task::Fetch { url, offset, max_bytes, credential, headers } => {
            push_u8(output, 0);
            push_text(output, url.as_str());
            push_u32(output, *offset);
            push_u32(output, *max_bytes);
            push_credential(output, credential);
            push_u8(output, headers.len() as u8);
            write_all(output, headers);
        },
        Task::ReadFile { path } => {
            push_u8(output, 1);
            push_text(output, path.as_str());
        },
        Task::Sleep { seconds } => {
            push_u8(output, 2);
            push_u32(output, *seconds);
        },
        Task::Post { url, body, content_type, credential, headers, max_bytes } => {
            push_u8(output, 3);
            push_text(output, url.as_str());
            push_body(output, body.as_str());
            push_text(output, content_type.as_str());
            push_credential(output, credential);
            push_u8(output, headers.len() as u8);
            write_all(output, headers);
            push_u32(output, *max_bytes);
        },
        Task::RevokeCredential { credential } => {
            push_u8(output, 4);
            push_text(output, credential.as_str());
        },
    }
}

fn read_url(reader: &mut Reader<'_>) -> (result: Result<String, ProtocolError>)
    ensures
        wire::reads(result, final(reader)@, parse_url(old(reader)@)),
{
    let url = reader.string()?;
    if byte_len(url.as_str()) > MAX_URL_LEN {
        return Err(ProtocolError::StringTooLarge);
    }
    Ok(url)
}

fn read_ceiling(reader: &mut Reader<'_>) -> (result: Result<u32, ProtocolError>)
    ensures
        wire::yields(result, final(reader)@, parse_ceiling(old(reader)@)),
{
    let wanted: u32 = reader.u32()?;
    if wanted <= MAX_TASK_BYTES_U32 {
        Ok(wanted)
    } else {
        Ok(MAX_TASK_BYTES_U32)
    }
}

fn read_headers(reader: &mut Reader<'_>) -> (result: Result<Vec<Header>, ProtocolError>)
    ensures
        item::reads_all(result, final(reader)@, parse_headers(old(reader)@)),
{
    let count: u8 = reader.u8()?;
    if count as usize > MAX_HEADERS {
        return Err(ProtocolError::InvalidValue("too many headers"));
    }
    read_all::<Header>(reader, count as usize)
}

pub fn read_task(reader: &mut Reader<'_>) -> (result: Result<Task, ProtocolError>)
    ensures
        wire::reads(result, final(reader)@, parse_task(old(reader)@)),
{
    let tag: u8 = reader.u8()?;
    match tag {
        0 => {
            let url = read_url(reader)?;
            let offset: u32 = reader.u32()?;
            let max_bytes: u32 = read_ceiling(reader)?;
            let credential = take_credential(reader)?;
            let headers = read_headers(reader)?;
            Ok(Task::Fetch { url, offset, max_bytes, credential, headers })
        },
        1 => {
            let path = reader.string()?;
            Ok(Task::ReadFile { path })
        },
        2 => {
            let seconds: u32 = reader.u32()?;
            Ok(Task::Sleep { seconds })
        },
        3 => {
            let url = read_url(reader)?;
            let body = reader.long_string()?;
            let content_type = reader.string()?;
            let credential = take_credential(reader)?;
            let headers = read_headers(reader)?;
            let max_bytes: u32 = read_ceiling(reader)?;
            Ok(Task::Post { url, body, content_type, credential, headers, max_bytes })
        },
        4 => {
            let credential = reader.string()?;
            Ok(Task::RevokeCredential { credential })
        },
        _ => Err(ProtocolError::InvalidValue("task kind")),
    }
}

// ---------------------------------------------------------------------------
// Outcomes.

pub open spec fn outcome_bytes(outcome: TaskOutcomeModel) -> Seq<u8> {
    match outcome {
        TaskOutcomeModel::Completed(bytes) => seq![0u8] + blob::blob_bytes(bytes),
        TaskOutcomeModel::Failed(error) => seq![1u8] + seq![task_error_tag(error)],
        TaskOutcomeModel::Cancelled => seq![2u8],
    }
}

/// The length of an outcome, with the identifier of its task in front of it.
pub open spec fn outcome_size(outcome: TaskOutcomeModel) -> Result<int, ProtocolError> {
    match outcome {
        TaskOutcomeModel::Completed(bytes) => if bytes.len() > MAX_TASK_BYTES {
            Err(ProtocolError::FrameTooLarge)
        } else {
            blob::grown_by_blob(Ok(5), bytes)
        },
        TaskOutcomeModel::Failed(error) => Ok(6),
        TaskOutcomeModel::Cancelled => Ok(5),
    }
}

pub open spec fn parse_outcome(s: Seq<u8>) -> wire::Parsed<TaskOutcomeModel> {
    match wire::parse_u8(s) {
        Err(e) => Err(e),
        Ok((tag, s)) => if tag == 0 {
            match blob::parse_blob(s, MAX_TASK_BYTES as int) {
                Err(e) => Err(e),
                Ok((bytes, s)) => Ok((TaskOutcomeModel::Completed(bytes), s)),
            }
        } else if tag == 1 {
            match wire::parse_u8(s) {
                Err(e) => Err(e),
                Ok((tag, s)) => match task_error_of(tag) {
                    Err(e) => Err(e),
                    Ok(error) => Ok((TaskOutcomeModel::Failed(error), s)),
                },
            }
        } else if tag == 2 {
            Ok((TaskOutcomeModel::Cancelled, s))
        } else {
            Err(ProtocolError::InvalidValue("task outcome"))
        },
    }
}

pub proof fn lemma_outcome_counted(outcome: TaskOutcomeModel)
    requires
        outcome_size(outcome) is Ok,
    ensures
        outcome_size(outcome)->Ok_0 == 4 + outcome_bytes(outcome).len(),
{
    broadcast use wire::group_lengths;

}

/// An outcome that can be sent is read back as it was.
pub proof fn lemma_outcome_read_back(outcome: TaskOutcomeModel, rest: Seq<u8>)
    requires
        outcome_size(outcome) is Ok,
    ensures
        parse_outcome(outcome_bytes(outcome) + rest) == Ok::<_, ProtocolError>((outcome, rest)),
{
    broadcast use {wire::group_reading, lemma_task_error_read_back};

    if let TaskOutcomeModel::Completed(bytes) = outcome {
        blob::lemma_blob_read_back(bytes, MAX_TASK_BYTES as int, rest);
    }
}

pub fn outcome_len(outcome: &TaskOutcome) -> (result: Result<usize, ProtocolError>)
    ensures
        wire::counts(result, outcome_size(outcome@)),
{
    match outcome {
        TaskOutcome::Completed(bytes) => {
            if bytes.len() > MAX_TASK_BYTES {
                return Err(ProtocolError::FrameTooLarge);
            }
            add_blob_len(5, bytes)
        },
        TaskOutcome::Failed(_) => Ok(6),
        TaskOutcome::Cancelled => Ok(5),
    }
}

pub fn write_outcome(output: &mut Vec<u8>, outcome: &TaskOutcome)
    requires
        outcome_size(outcome@) is Ok,
    ensures
        final(output)@ == old(output)@ + outcome_bytes(outcome@),
{
    broadcast use wire::group_writing;

    match outcome {
        TaskOutcome::Completed(bytes) => {
            push_u8(output, 0);
            push_blob(output, bytes);
        },
        TaskOutcome::Failed(error) => {
            push_u8(output, 1);
            push_u8(output, encode_task_error(*error));
        },
        TaskOutcome::Cancelled => push_u8(output, 2),
    }
}

pub fn read_outcome(reader: &mut Reader<'_>) -> (result: Result<TaskOutcome, ProtocolError>)
    ensures
        wire::reads(result, final(reader)@, parse_outcome(old(reader)@)),
{
    let tag: u8 = reader.u8()?;
    match tag {
        0 => {
            let bytes = read_blob(reader, MAX_TASK_BYTES)?;
            Ok(TaskOutcome::Completed(bytes))
        },
        1 => {
            let error = decode_task_error(reader.u8()?)?;
            Ok(TaskOutcome::Failed(error))
        },
        2 => Ok(TaskOutcome::Cancelled),
        _ => Err(ProtocolError::InvalidValue("task outcome")),
    }
}

/// A task that was counted is no longer than a frame may be.
pub proof fn lemma_task_bounded(work: TaskModel)
    requires
        task_size(work) is Ok,
    ensures
        task_size(work)->Ok_0 <= MAX_FRAME_LEN,
{
    reveal(task_size);
    reveal_with_fuel(item::grown_by_all, 1);
    match work {
        TaskModel::Fetch { url, offset, max_bytes, credential, headers } => {
            let held = grown_by_credential(
                wire::grown_text(wire::grown(Ok(5), 10), url),
                credential,
            );
            item::lemma_all_bounded::<Header>(headers, held->Ok_0);
        },
        TaskModel::Post { url, body, content_type, credential, headers, max_bytes } => {
            let held = grown_by_credential(
                wire::grown_text(
                    wire::grown_body(wire::grown_text(wire::grown(Ok(5), 6), url), body),
                    content_type,
                ),
                credential,
            );
            item::lemma_all_bounded::<Header>(headers, held->Ok_0);
        },
        _ => {},
    }
}

} // verus!
