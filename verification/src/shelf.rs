//! Moving a blob to and from an application's shelf, in as many pieces as it
//! takes.

use vstd::prelude::*;
use vstd::slice::{slice_subrange, slice_to_vec};

use crate::command::CommandModel;
use crate::context::{Context, ContextModel};
use crate::limits::MAX_SHELF_CHUNK;
use crate::message::MessageModel;
use crate::sending;
use crate::span;
use crate::store::{StoreError, StoreRequestModel, StoreResult, StoreResultModel};
use crate::wire::push_bytes;

verus! {

/// The most an application may pull back into memory in one download.
pub const MAX_SHELF_DOWNLOAD: usize = 32 * 1024 * 1024;

/// How a transfer answered the last result it was shown.
#[derive(Clone, Copy, Debug, PartialEq, Eq, Structural)]
pub enum ShelfProgress {
    /// Not this transfer's answer. Show it to whatever else is waiting.
    Elsewhere,
    /// Still going: `done` of `total` bytes have moved, and the next request
    /// has been queued.
    Moving { done: u32, total: u32 },
    /// Finished.
    Done,
    /// Refused, and no further request was made.
    Failed(StoreError),
}

// ---------------------------------------------------------------------------
// Cutting.

pub open spec fn least(a: int, b: int) -> int {
    if a < b {
        a
    } else {
        b
    }
}

/// Where the piece that begins at `from` ends.
pub open spec fn end_of_piece(length: int, from: int) -> int {
    least(from + MAX_SHELF_CHUNK, length)
}

/// The piece of a blob that begins at `from`.
pub open spec fn piece(bytes: Seq<u8>, from: int) -> Seq<u8> {
    bytes.subrange(from, end_of_piece(bytes.len() as int, from))
}

// ---------------------------------------------------------------------------
// Writing.

/// Writes a blob to the shelf.
///
/// Each answer says how much of the blob exists, and the next piece is cut from
/// there: two counters that are supposed to agree eventually do not.
#[derive(Clone, Debug)]
pub struct ShelfUpload {
    name: String,
    bytes: Vec<u8>,
    sent: u32,
}

/// What a [`ShelfUpload`] is up to.
pub struct ShelfUploadModel {
    pub name: Seq<char>,
    pub bytes: Seq<u8>,
    pub sent: u32,
}

impl View for ShelfUpload {
    type V = ShelfUploadModel;

    closed spec fn view(&self) -> ShelfUploadModel {
        ShelfUploadModel { name: self.name@, bytes: self.bytes@, sent: self.sent }
    }
}

impl ShelfUploadModel {
    /// The request for the next piece.
    pub open spec fn request(self) -> CommandModel {
        let from = least(self.sent as int, self.bytes.len() as int);
        CommandModel::Store(
            StoreRequestModel::ShelfWrite {
                name: self.name,
                offset: self.sent,
                bytes: piece(self.bytes, from),
                last: end_of_piece(self.bytes.len() as int, from) == self.bytes.len(),
            },
        )
    }

    /// How much there is in all, as far as the wire can say.
    pub open spec fn size(self) -> u32 {
        span::at_most_u32(self.bytes.len() as int)
    }

    /// Whether an answer is about this blob.
    pub open spec fn concerns(self, result: StoreResultModel) -> bool {
        result matches StoreResultModel::ShelfWritten { name, size } && name == self.name
    }

    /// How much of the blob exists after an answer.
    pub open spec fn sent_after(self, result: StoreResultModel) -> u32 {
        if self.concerns(result) {
            result->ShelfWritten_size
        } else {
            self.sent
        }
    }

    /// The transfer after an answer.
    pub open spec fn after(self, result: StoreResultModel) -> ShelfUploadModel {
        ShelfUploadModel { sent: self.sent_after(result), ..self }
    }

    /// What an answer means for this transfer.
    pub open spec fn progress(self, result: StoreResultModel) -> ShelfProgress {
        match result {
            StoreResultModel::ShelfWritten { name, size } if name == self.name => if size
                >= self.bytes.len() {
                ShelfProgress::Done
            } else {
                ShelfProgress::Moving { done: size, total: self.size() }
            },
            StoreResultModel::Denied(error) => ShelfProgress::Failed(error),
            _ => ShelfProgress::Elsewhere,
        }
    }

    /// A context after this transfer was shown an answer in it.
    pub open spec fn carried_on(
        self,
        result: StoreResultModel,
        context: ContextModel,
    ) -> ContextModel {
        if self.progress(result) is Moving {
            context.asking(self.after(result).request())
        } else {
            context
        }
    }
}

impl ShelfUpload {
    #[must_use]
    pub fn new(name: &str, bytes: Vec<u8>) -> (upload: ShelfUpload)
        ensures
            upload@ == (ShelfUploadModel { name: name@, bytes: bytes@, sent: 0 }),
    {
        ShelfUpload { name: name.to_owned(), bytes, sent: 0 }
    }

    /// Queues the first piece. Beginning at zero also discards anything left
    /// from an earlier attempt that never finished.
    pub fn start(&mut self, context: &mut Context)
        ensures
            final(self)@ == (ShelfUploadModel { sent: 0, ..old(self)@ }),
            final(context)@ == old(context)@.asking(final(self)@.request()),
    {
        self.sent = 0;
        self.send(context);
    }

    /// Feeds this transfer one store answer.
    pub fn advance(&mut self, context: &mut Context, result: &StoreResult) -> (progress:
        ShelfProgress)
        ensures
            progress == old(self)@.progress(result@),
            final(self)@ == old(self)@.after(result@),
            final(context)@ == old(self)@.carried_on(result@, old(context)@),
    {
        match result {
            StoreResult::ShelfWritten { name, size } => {
                if *name != self.name {
                    return ShelfProgress::Elsewhere;
                }
                self.sent = *size;
                if *size as usize >= self.bytes.len() {
                    ShelfProgress::Done
                } else {
                    self.send(context);
                    ShelfProgress::Moving { done: *size, total: self.total() }
                }
            },
            StoreResult::Denied(error) => ShelfProgress::Failed(*error),
            _ => ShelfProgress::Elsewhere,
        }
    }

    fn send(&self, context: &mut Context)
        ensures
            final(context)@ == old(context)@.asking(self@.request()),
    {
        let length: usize = self.bytes.len();
        let sent: usize = self.sent as usize;
        let from: usize = if sent < length {
            sent
        } else {
            length
        };
        let to: usize = if length - from > MAX_SHELF_CHUNK {
            from + MAX_SHELF_CHUNK
        } else {
            length
        };
        let bytes = slice_to_vec(slice_subrange(self.bytes.as_slice(), from, to));
        context.shelf().write(self.name.as_str(), self.sent, bytes, to == length);
    }

    fn total(&self) -> (total: u32)
        ensures
            total == self@.size(),
    {
        if self.bytes.len() > u32::MAX as usize {
            u32::MAX
        } else {
            self.bytes.len() as u32
        }
    }

    #[must_use]
    pub fn name(&self) -> (name: &str)
        ensures
            name@ == self@.name,
    {
        self.name.as_str()
    }
}

// ---------------------------------------------------------------------------
// Reading.

/// Reads a blob back from the shelf.
#[derive(Clone, Debug)]
pub struct ShelfDownload {
    name: String,
    bytes: Vec<u8>,
    limit: usize,
}

/// What a [`ShelfDownload`] is up to.
pub struct ShelfDownloadModel {
    pub name: Seq<char>,
    /// What has arrived.
    pub bytes: Seq<u8>,
    /// The largest blob it takes.
    pub limit: usize,
}

impl View for ShelfDownload {
    type V = ShelfDownloadModel;

    closed spec fn view(&self) -> ShelfDownloadModel {
        ShelfDownloadModel { name: self.name@, bytes: self.bytes@, limit: self.limit }
    }
}

impl ShelfDownloadModel {
    /// The request for the next piece.
    pub open spec fn request(self) -> CommandModel {
        CommandModel::Store(
            StoreRequestModel::ShelfRead {
                name: self.name,
                offset: span::at_most_u32(self.bytes.len() as int),
                length: MAX_SHELF_CHUNK as u32,
            },
        )
    }

    /// Whether an answer is the piece that joins on to what has arrived, of a
    /// blob that is not too large.
    pub open spec fn joins(self, result: StoreResultModel) -> bool {
        result matches StoreResultModel::ShelfRead { name, offset, bytes, size } && name
            == self.name && offset == self.bytes.len() && size <= self.limit
    }

    /// The transfer after an answer.
    pub open spec fn after(self, result: StoreResultModel) -> ShelfDownloadModel {
        if self.joins(result) {
            ShelfDownloadModel { bytes: self.bytes + result->ShelfRead_bytes, ..self }
        } else {
            self
        }
    }

    /// What an answer means for this transfer. A piece that does not join on
    /// would splice a file that parses and is not the file, and an empty piece
    /// before the end would be asked for again forever.
    pub open spec fn progress(self, result: StoreResultModel) -> ShelfProgress {
        match result {
            StoreResultModel::ShelfRead { name, offset, bytes, size } => {
                let done = span::at_most_u32((self.bytes.len() + bytes.len()) as int);
                if name != self.name {
                    ShelfProgress::Elsewhere
                } else if offset != self.bytes.len() {
                    ShelfProgress::Failed(StoreError::Missing)
                } else if size > self.limit {
                    ShelfProgress::Failed(StoreError::TooFull)
                } else if done >= size {
                    ShelfProgress::Done
                } else if bytes.len() == 0 {
                    ShelfProgress::Failed(StoreError::Missing)
                } else {
                    ShelfProgress::Moving { done, total: size }
                }
            },
            StoreResultModel::Denied(error) => ShelfProgress::Failed(error),
            _ => ShelfProgress::Elsewhere,
        }
    }

    /// A context after this transfer was shown an answer in it.
    pub open spec fn carried_on(
        self,
        result: StoreResultModel,
        context: ContextModel,
    ) -> ContextModel {
        if self.progress(result) is Moving {
            context.asking(self.after(result).request())
        } else {
            context
        }
    }
}

impl ShelfDownload {
    #[must_use]
    pub fn new(name: &str) -> (download: ShelfDownload)
        ensures
            download@ == (ShelfDownloadModel {
                name: name@,
                bytes: Seq::empty(),
                limit: MAX_SHELF_DOWNLOAD,
            }),
    {
        ShelfDownload { name: name.to_owned(), bytes: Vec::new(), limit: MAX_SHELF_DOWNLOAD }
    }

    /// Takes no blob of more than `limit` bytes, where that is fewer than
    /// [`MAX_SHELF_DOWNLOAD`].
    #[must_use]
    pub fn at_most(self, limit: usize) -> (download: ShelfDownload)
        ensures
            download@ == (ShelfDownloadModel {
                limit: least(limit as int, MAX_SHELF_DOWNLOAD as int) as usize,
                ..self@
            }),
    {
        let mut download = self;
        download.limit = if limit < MAX_SHELF_DOWNLOAD {
            limit
        } else {
            MAX_SHELF_DOWNLOAD
        };
        download
    }

    /// Queues the first read.
    pub fn start(&mut self, context: &mut Context)
        ensures
            final(self)@ == (ShelfDownloadModel { bytes: Seq::empty(), ..old(self)@ }),
            final(context)@ == old(context)@.asking(final(self)@.request()),
    {
        self.bytes.clear();
        self.request(context);
    }

    /// Feeds this transfer one store answer.
    pub fn advance(&mut self, context: &mut Context, result: &StoreResult) -> (progress:
        ShelfProgress)
        ensures
            progress == old(self)@.progress(result@),
            final(self)@ == old(self)@.after(result@),
            final(context)@ == old(self)@.carried_on(result@, old(context)@),
    {
        match result {
            StoreResult::ShelfRead { name, offset, bytes, size } => {
                if *name != self.name {
                    return ShelfProgress::Elsewhere;
                }
                if *offset as usize != self.bytes.len() {
                    return ShelfProgress::Failed(StoreError::Missing);
                }
                if *size as usize > self.limit {
                    return ShelfProgress::Failed(StoreError::TooFull);
                }
                push_bytes(&mut self.bytes, bytes.as_slice());
                let done: u32 = self.arrived();
                if done >= *size {
                    return ShelfProgress::Done;
                }
                if bytes.len() == 0 {
                    return ShelfProgress::Failed(StoreError::Missing);
                }
                self.request(context);
                ShelfProgress::Moving { done, total: *size }
            },
            StoreResult::Denied(error) => ShelfProgress::Failed(*error),
            _ => ShelfProgress::Elsewhere,
        }
    }

    fn arrived(&self) -> (count: u32)
        ensures
            count == span::at_most_u32(self@.bytes.len() as int),
    {
        if self.bytes.len() > u32::MAX as usize {
            u32::MAX
        } else {
            self.bytes.len() as u32
        }
    }

    fn request(&self, context: &mut Context)
        ensures
            final(context)@ == old(context)@.asking(self@.request()),
    {
        let offset: u32 = self.arrived();
        context.shelf().read(self.name.as_str(), offset, MAX_SHELF_CHUNK as u32);
    }

    /// What has arrived so far, which is the whole blob once
    /// [`ShelfProgress::Done`] has been returned.
    #[must_use]
    pub fn bytes(&self) -> (bytes: &[u8])
        ensures
            bytes@ == self@.bytes,
    {
        self.bytes.as_slice()
    }

    #[must_use]
    pub fn take(self) -> (bytes: Vec<u8>)
        ensures
            bytes@ == self@.bytes,
    {
        self.bytes
    }

    #[must_use]
    pub fn name(&self) -> (name: &str)
        ensures
            name@ == self@.name,
    {
        self.name.as_str()
    }
}

// ---------------------------------------------------------------------------
// Laws.

/// Every piece joins on to what was sent before it and moves a blob that is not
/// all there yet further along; the piece that completes it is the one marked
/// last.
pub proof fn law_pieces_join_on(upload: ShelfUploadModel)
    requires
        upload.sent <= upload.bytes.len(),
    ensures
        ({
            let end = end_of_piece(upload.bytes.len() as int, upload.sent as int);
            &&& upload.request()->Store_0 matches StoreRequestModel::ShelfWrite {
                name,
                offset,
                bytes,
                last,
            }
            &&& name == upload.name
            &&& offset == upload.sent
            &&& bytes.len() <= MAX_SHELF_CHUNK
            &&& upload.bytes.take(upload.sent as int) + bytes == upload.bytes.take(end)
            &&& last == (end == upload.bytes.len())
            &&& upload.sent < upload.bytes.len() ==> upload.sent < end
        }),
{
    let end = end_of_piece(upload.bytes.len() as int, upload.sent as int);
    assert(upload.bytes.take(upload.sent as int) + piece(upload.bytes, upload.sent as int)
        =~= upload.bytes.take(end));
}

/// What a shelf holds after taking the piece that an upload asks it to write.
pub open spec fn shelved(upload: ShelfUploadModel, held: Seq<u8>) -> Seq<u8> {
    held + upload.request()->Store_0->ShelfWrite_bytes
}

/// The answer of a shelf that took a piece.
pub open spec fn acknowledgement(name: Seq<char>, held: Seq<u8>) -> StoreResultModel {
    StoreResultModel::ShelfWritten { name, size: held.len() as u32 }
}

/// An upload that keeps being answered by a shelf, until it no longer asks:
/// what the shelf holds then, and what the upload made of the last answer.
pub open spec fn uploaded(upload: ShelfUploadModel, held: Seq<u8>) -> (Seq<u8>, ShelfProgress)
    decreases upload.bytes.len() - held.len(),
{
    let now = shelved(upload, held);
    let reply = acknowledgement(upload.name, now);
    if upload.progress(reply) is Moving && held.len() < now.len() <= upload.bytes.len() {
        uploaded(upload.after(reply), now)
    } else {
        (now, upload.progress(reply))
    }
}

proof fn lemma_uploaded(upload: ShelfUploadModel, held: Seq<u8>)
    requires
        upload.bytes.len() <= u32::MAX,
        upload.sent == held.len(),
        held.len() <= upload.bytes.len(),
        held == upload.bytes.take(held.len() as int),
    ensures
        uploaded(upload, held) == (upload.bytes, ShelfProgress::Done),
    decreases upload.bytes.len() - held.len(),
{
    law_pieces_join_on(upload);
    let now = shelved(upload, held);
    let reply = acknowledgement(upload.name, now);
    if now.len() < upload.bytes.len() {
        lemma_uploaded(upload.after(reply), now);
    } else {
        assert(now =~= upload.bytes);
    }
}

/// An upload finishes, and what it leaves on the shelf is the blob.
pub proof fn law_an_upload_leaves_the_blob(name: Seq<char>, bytes: Seq<u8>)
    requires
        bytes.len() <= u32::MAX,
    ensures
        uploaded(ShelfUploadModel { name, bytes, sent: 0 }, Seq::empty()) == (
            bytes,
            ShelfProgress::Done,
        ),
{
    assert(bytes.take(0) =~= Seq::empty());
    lemma_uploaded(ShelfUploadModel { name, bytes, sent: 0 }, Seq::empty());
}

/// The answer of a shelf that holds `blob` to a request for the piece that
/// begins at `from`.
pub open spec fn answer(name: Seq<char>, blob: Seq<u8>, from: int) -> StoreResultModel {
    StoreResultModel::ShelfRead {
        name,
        offset: from as u32,
        bytes: piece(blob, from),
        size: blob.len() as u32,
    }
}

/// A download that keeps being answered by a shelf, until it no longer asks.
pub open spec fn downloaded(download: ShelfDownloadModel, blob: Seq<u8>) -> (
    ShelfDownloadModel,
    ShelfProgress,
)
    decreases blob.len() - download.bytes.len(),
{
    let reply = answer(download.name, blob, download.bytes.len() as int);
    let after = download.after(reply);
    if download.progress(reply) is Moving
        && download.bytes.len() < after.bytes.len() <= blob.len() {
        downloaded(after, blob)
    } else {
        (after, download.progress(reply))
    }
}

proof fn lemma_downloaded(download: ShelfDownloadModel, blob: Seq<u8>)
    requires
        blob.len() <= download.limit,
        blob.len() <= u32::MAX,
        download.bytes.len() <= blob.len(),
        download.bytes == blob.take(download.bytes.len() as int),
    ensures
        downloaded(download, blob) == (
            ShelfDownloadModel { bytes: blob, ..download },
            ShelfProgress::Done,
        ),
    decreases blob.len() - download.bytes.len(),
{
    let from = download.bytes.len() as int;
    let reply = answer(download.name, blob, from);
    let after = download.after(reply);
    assert(after.bytes =~= blob.take(end_of_piece(blob.len() as int, from)));
    if after.bytes.len() < blob.len() {
        lemma_downloaded(after, blob);
    } else {
        assert(after.bytes =~= blob);
    }
}

/// A download of a blob that is not too large finishes, and what it brings back
/// is the blob.
pub proof fn law_a_download_brings_the_blob_back(name: Seq<char>, limit: usize, blob: Seq<u8>)
    requires
        blob.len() <= limit,
        blob.len() <= u32::MAX,
    ensures
        downloaded(ShelfDownloadModel { name, bytes: Seq::empty(), limit }, blob) == (
            ShelfDownloadModel { name, bytes: blob, limit },
            ShelfProgress::Done,
        ),
{
    assert(blob.take(0) =~= Seq::empty());
    lemma_downloaded(ShelfDownloadModel { name, bytes: Seq::empty(), limit }, blob);
}

/// What goes up comes down: a blob that was written piece by piece and is then
/// downloaded is the blob that was written.
pub proof fn law_a_blob_survives_the_round_trip(name: Seq<char>, bytes: Seq<u8>)
    requires
        bytes.len() <= MAX_SHELF_DOWNLOAD,
    ensures
        downloaded(
            ShelfDownloadModel { name, bytes: Seq::empty(), limit: MAX_SHELF_DOWNLOAD },
            uploaded(ShelfUploadModel { name, bytes, sent: 0 }, Seq::empty()).0,
        ) == (
            ShelfDownloadModel { name, bytes, limit: MAX_SHELF_DOWNLOAD },
            ShelfProgress::Done,
        ),
{
    law_an_upload_leaves_the_blob(name, bytes);
    law_a_download_brings_the_blob_back(name, MAX_SHELF_DOWNLOAD, bytes);
}

/// A download never holds more than its limit of a blob it was told the size
/// of.
pub proof fn law_a_download_stays_within_its_limit(
    download: ShelfDownloadModel,
    result: StoreResultModel,
)
    requires
        download.progress(result) is Moving,
    ensures
        download.after(result).bytes.len() < download.limit,
{
}

/// An answer about another blob never touches a transfer: it is left for
/// whatever else is waiting, the transfer is as it was and nothing is asked for.
pub proof fn law_other_blobs_are_left_alone(
    upload: ShelfUploadModel,
    download: ShelfDownloadModel,
    name: Seq<char>,
    offset: u32,
    bytes: Seq<u8>,
    size: u32,
    context: ContextModel,
)
    ensures
        name != download.name ==> {
            let other = StoreResultModel::ShelfRead { name, offset, bytes, size };
            &&& download.progress(other) == ShelfProgress::Elsewhere
            &&& download.after(other) == download
            &&& download.carried_on(other, context) == context
        },
        name != upload.name ==> {
            let other = StoreResultModel::ShelfWritten { name, size };
            &&& upload.progress(other) == ShelfProgress::Elsewhere
            &&& upload.after(other) == upload
            &&& upload.carried_on(other, context) == context
        },
{
}

/// A transfer listens to the one kind of answer that is about it, and to
/// refusals: an upload is not moved by what was read, a download not by what
/// was written, and neither by anything said of keys.
pub proof fn law_other_answers_are_left_alone(
    upload: ShelfUploadModel,
    download: ShelfDownloadModel,
    result: StoreResultModel,
    context: ContextModel,
)
    requires
        !(result is Denied),
    ensures
        !(result is ShelfWritten) ==> {
            &&& upload.progress(result) == ShelfProgress::Elsewhere
            &&& upload.after(result) == upload
            &&& upload.carried_on(result, context) == context
        },
        !(result is ShelfRead) ==> {
            &&& download.progress(result) == ShelfProgress::Elsewhere
            &&& download.after(result) == download
            &&& download.carried_on(result, context) == context
        },
{
}

/// A refusal ends a transfer with the reason that was given: what has moved
/// stays as it was and nothing more is asked for.
pub proof fn law_a_refusal_ends_a_transfer(
    upload: ShelfUploadModel,
    download: ShelfDownloadModel,
    error: StoreError,
    context: ContextModel,
)
    ensures
        ({
            let refusal = StoreResultModel::Denied(error);
            &&& upload.progress(refusal) == ShelfProgress::Failed(error)
            &&& upload.after(refusal) == upload
            &&& upload.carried_on(refusal, context) == context
            &&& download.progress(refusal) == ShelfProgress::Failed(error)
            &&& download.after(refusal) == download
            &&& download.carried_on(refusal, context) == context
        }),
{
}

/// An upload goes on from as much of the blob as exists: it is done exactly
/// when all of it does, and otherwise asks for one thing, to write what follows.
pub proof fn law_an_upload_goes_on_from_what_exists(
    upload: ShelfUploadModel,
    size: u32,
    context: ContextModel,
)
    requires
        upload.bytes.len() <= u32::MAX,
    ensures
        ({
            let result = StoreResultModel::ShelfWritten { name: upload.name, size };
            let length = upload.bytes.len() as int;
            let progress = upload.progress(result);
            let asked = upload.carried_on(result, context);
            &&& upload.after(result) == (ShelfUploadModel { sent: size, ..upload })
            &&& size >= length ==> progress == ShelfProgress::Done && asked == context
            &&& size < length ==> {
                let end = if length - size <= MAX_SHELF_CHUNK {
                    length
                } else {
                    size + MAX_SHELF_CHUNK
                };
                &&& progress == ShelfProgress::Moving { done: size, total: length as u32 }
                &&& asked.commands.len() == context.commands.len() + 1
                &&& asked.commands.drop_last() == context.commands
                &&& asked.commands.last() == CommandModel::Store(
                    StoreRequestModel::ShelfWrite {
                        name: upload.name,
                        offset: size,
                        bytes: upload.bytes.subrange(size as int, end),
                        last: length - size <= MAX_SHELF_CHUNK,
                    },
                )
                &&& asked == (ContextModel { commands: asked.commands, ..context })
            }
        }),
{
    let result = StoreResultModel::ShelfWritten { name: upload.name, size };
    assert(upload.carried_on(result, context).commands.drop_last() =~= context.commands
        || size >= upload.bytes.len());
}

/// A download takes in a piece exactly when it begins where what has arrived
/// ends and the blob is not too large, and then it holds that much more. It is
/// done when it holds the whole blob, and otherwise asks for one thing, to read
/// what follows; a piece that brings nothing ends it.
pub proof fn law_a_download_goes_on_from_what_arrived(
    download: ShelfDownloadModel,
    offset: u32,
    bytes: Seq<u8>,
    size: u32,
    context: ContextModel,
)
    requires
        download.bytes.len() + bytes.len() <= u32::MAX,
    ensures
        ({
            let result = StoreResultModel::ShelfRead { name: download.name, offset, bytes, size };
            let held = download.bytes.len() as int;
            let now = held + bytes.len();
            let progress = download.progress(result);
            let after = download.after(result);
            let asked = download.carried_on(result, context);
            &&& offset != held ==> progress == ShelfProgress::Failed(StoreError::Missing) && after
                == download && asked == context
            &&& offset == held && size > download.limit ==> progress == ShelfProgress::Failed(
                StoreError::TooFull,
            ) && after == download && asked == context
            &&& offset == held && size <= download.limit ==> {
                &&& after.bytes == download.bytes + bytes
                &&& after.name == download.name
                &&& after.limit == download.limit
                &&& now >= size ==> progress == ShelfProgress::Done && asked == context
                &&& now < size && bytes.len() == 0 ==> progress == ShelfProgress::Failed(
                    StoreError::Missing,
                ) && asked == context
                &&& now < size && bytes.len() > 0 ==> {
                    &&& progress == ShelfProgress::Moving { done: now as u32, total: size }
                    &&& asked.commands.len() == context.commands.len() + 1
                    &&& asked.commands.drop_last() == context.commands
                    &&& asked.commands.last() == CommandModel::Store(
                        StoreRequestModel::ShelfRead {
                            name: download.name,
                            offset: now as u32,
                            length: 262_144,
                        },
                    )
                    &&& asked == (ContextModel { commands: asked.commands, ..context })
                }
            }
        }),
{
    let result = StoreResultModel::ShelfRead { name: download.name, offset, bytes, size };
    let asked = download.carried_on(result, context);
    if download.progress(result) is Moving {
        assert(asked.commands.drop_last() =~= context.commands);
    }
}

/// Whatever a transfer asks for can be sent, if the name of its blob fits: every
/// piece of an upload, the largest ones too, and every read of a download.
pub proof fn law_every_piece_can_be_sent(
    upload: ShelfUploadModel,
    download: ShelfDownloadModel,
    request_id: u32,
)
    ensures
        sending::short(upload.name) ==> sending::posted(
            request_id,
            MessageModel::StoreRequest(upload.request()->Store_0),
        ) is Ok,
        sending::short(download.name) ==> sending::posted(
            request_id,
            MessageModel::StoreRequest(download.request()->Store_0),
        ) is Ok,
{
    sending::law_store_requests_are_sent(request_id, upload.request()->Store_0);
    sending::law_store_requests_are_sent(request_id, download.request()->Store_0);
}

} // verus!
