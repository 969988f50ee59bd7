//! The format itself: which bytes stand for what.
//!
//! Two sides of different ages talk to each other, so what a byte stands for
//! never changes once it was given out.

use vstd::prelude::*;
use vstd::utf8::*;

use crate::device::{
    AudioPlaybackState, BluetoothDeviceKind, DenyReason, DeviceError, DeviceRequestModel,
    DeviceResultModel, LogLevel,
};
use crate::device_request;
use crate::device_result;
use crate::error::ProtocolError;
use crate::frame;
use crate::glyph;
use crate::glyph::Glyph;
use crate::leaf;
use crate::message::{FrameModel, MessageModel};
use crate::message_codec;
use crate::node;
use crate::parts;
use crate::picture::PictureFormat;
use crate::prose;
use crate::screen;
use crate::sending;
use crate::shell::{ShellError, ShellEventModel, ShellRequestModel};
use crate::shell_codec;
use crate::store::{Lifecycle, StoreError, StoreRequestModel, StoreResultModel};
use crate::store_codec;
use crate::task::{TaskError, TaskModel, TaskOutcomeModel};
use crate::task_codec;
use crate::ui::{
    BandAlign, BannerLevel, BarStyle, ControlState, Emphasis, NodeModel, ParagraphAlignment,
    QuoteRole, RowState, Space, TextScale, TileShape, TileState,
};
use crate::wire;

verus! {

// ---------------------------------------------------------------------------
// Numbers and texts.

/// The number that bytes say, most significant first.
pub open spec fn number(bytes: Seq<u8>) -> int
    decreases bytes.len(),
{
    if bytes.len() == 0 {
        0
    } else {
        256 * number(bytes.drop_last()) + bytes.last()
    }
}

proof fn lemma_number_joins(a: Seq<u8>, b: Seq<u8>, scale: int)
    requires
        b.len() == 2 && scale == 65_536 || b.len() == 4 && scale == 4_294_967_296,
    ensures
        number(a + b) == scale * number(a) + number(b),
{
    reveal_with_fuel(number, 5);
    let both = a + b;
    if b.len() == 2 {
        assert(both.drop_last().drop_last() =~= a);
        assert(b.drop_last().drop_last() =~= Seq::empty());
    } else {
        assert(both.drop_last().drop_last().drop_last().drop_last() =~= a);
        assert(b.drop_last().drop_last().drop_last().drop_last() =~= Seq::empty());
    }
}

/// A number goes out in two, four or eight bytes that say it, most significant
/// first.
pub proof fn law_numbers_are_said_in_bytes(half: u16, word: u32, double: u64)
    ensures
        wire::be16(half).len() == 2,
        number(wire::be16(half)) == half,
        wire::be32(word).len() == 4,
        number(wire::be32(word)) == word,
        wire::be64(double).len() == 8,
        number(wire::be64(double)) == double,
{
    broadcast use wire::group_lengths;

    lemma_half(half);
    lemma_word(word);
    let high = (double / 0x1_0000_0000) as u32;
    let low = (double % 0x1_0000_0000) as u32;
    reveal(wire::be64);
    lemma_word(high);
    lemma_word(low);
    lemma_number_joins(wire::be32(high), wire::be32(low), 4_294_967_296);
}

proof fn lemma_half(half: u16)
    ensures
        number(wire::be16(half)) == half,
        wire::be16(half).len() == 2,
{
    reveal(wire::be16);
    reveal_with_fuel(number, 3);
    let bytes = wire::be16(half);
    assert(bytes.drop_last().drop_last() =~= Seq::empty());
    assert(bytes.drop_last().last() == bytes[0]);
}

proof fn lemma_word(word: u32)
    ensures
        number(wire::be32(word)) == word,
        wire::be32(word).len() == 4,
{
    broadcast use wire::group_lengths;

    reveal(wire::be32);
    let high = (word / 0x1_0000) as u16;
    let low = (word % 0x1_0000) as u16;
    lemma_half(high);
    lemma_half(low);
    lemma_number_joins(wire::be16(high), wire::be16(low), 65_536);
}

/// A number below none goes out as what is left of the next power, and comes back
/// as it was; a flag is one or none.
pub proof fn law_signs_are_said_in_bits(word: i32, half: i16, flag: bool)
    ensures
        word >= 0 ==> wire::bits_of_i32(word) == word,
        word < 0 ==> wire::bits_of_i32(word) == 4_294_967_296 + word,
        wire::i32_of_bits(wire::bits_of_i32(word)) == word,
        half >= 0 ==> wire::bits_of_i16(half) == half,
        half < 0 ==> wire::bits_of_i16(half) == 65_536 + half,
        wire::i16_of_bits(wire::bits_of_i16(half)) == half,
        flag ==> wire::flag_byte(flag) == 1,
        !flag ==> wire::flag_byte(flag) == 0,
{
}

/// A text goes out as how many bytes it takes, in two bytes, and then those
/// bytes; a body says how many in four.
pub proof fn law_texts_are_said_with_their_length(text: Seq<char>)
    requires
        wire::utf8_len(text) <= 65_535,
    ensures
        ({
            let label = wire::text_bytes(text);
            let body = wire::body_bytes(text);
            let said = encode_utf8(text);
            &&& label.len() == 2 + said.len()
            &&& number(label.take(2)) == said.len()
            &&& label.skip(2) == said
            &&& body.len() == 4 + said.len()
            &&& number(body.take(4)) == said.len()
            &&& body.skip(4) == said
        }),
{
    reveal(wire::text_bytes);
    reveal(wire::body_bytes);
    let said = encode_utf8(text);
    law_numbers_are_said_in_bytes(said.len() as u16, said.len() as u32, 0);
    assert(wire::text_bytes(text).take(2) =~= wire::be16(said.len() as u16));
    assert(wire::text_bytes(text).skip(2) =~= said);
    assert(wire::body_bytes(text).take(4) =~= wire::be32(said.len() as u32));
    assert(wire::body_bytes(text).skip(4) =~= said);
}

// ---------------------------------------------------------------------------
// Frames.

/// A frame begins with four letters, the version, the kind of its message, how
/// long its payload is and the number it was sent under; then comes the payload.
pub proof fn law_frames_begin_alike(request_id: u32, message: MessageModel)
    requires
        sending::posted(request_id, message) is Ok,
    ensures
        ({
            let bytes = sending::posted(request_id, message)->Ok_0;
            &&& bytes.len() >= 14
            &&& bytes[0] == 75
            &&& bytes[1] == 79
            &&& bytes[2] == 66
            &&& bytes[3] == 79
            &&& bytes[4] == 12
            &&& bytes[5] == message_codec::message_kind(message)
            &&& number(bytes.subrange(6, 10)) == bytes.len() - 14
            &&& number(bytes.subrange(10, 14)) == request_id
            &&& bytes.skip(14) == message_codec::message_bytes(message)
        }),
{
    broadcast use wire::group_lengths;

    let bytes = sending::posted(request_id, message)->Ok_0;
    let payload = message_codec::message_bytes(message);
    message_codec::lemma_message_counted(message);
    law_numbers_are_said_in_bytes(0, payload.len() as u32, 0);
    law_numbers_are_said_in_bytes(0, request_id, 0);
    assert(bytes.subrange(6, 10) =~= wire::be32(payload.len() as u32));
    assert(bytes.subrange(10, 14) =~= wire::be32(request_id));
    assert(bytes.skip(14) =~= payload);
}

/// What is no frame is refused for the first thing that is wrong with it: it is
/// cut short, it begins with other letters, it is of another version, or it
/// announces more than a frame may hold or other than what follows.
pub proof fn law_other_bytes_are_no_frame(bytes: Seq<u8>)
    ensures
        bytes.len() < 14 ==> frame::decoded(bytes) == Err::<FrameModel, _>(
            ProtocolError::Truncated,
        ),
        bytes.len() >= 14 && bytes.take(4) != seq![75u8, 79u8, 66u8, 79u8] ==> frame::decoded(bytes)
            == Err::<FrameModel, _>(ProtocolError::BadMagic),
        bytes.len() >= 14 && bytes.take(4) == seq![75u8, 79u8, 66u8, 79u8] && bytes[4] != 12
            ==> frame::decoded(bytes) == Err::<FrameModel, _>(
            ProtocolError::UnsupportedVersion(bytes[4]),
        ),
        frame::decoded(bytes) is Ok ==> bytes.len() <= 14 + 8_388_608,
{
    assert(frame::magic() =~= seq![75u8, 79u8, 66u8, 79u8]);
}

// ---------------------------------------------------------------------------
// What a byte stands for.

/// The byte of each level of a log, and what a byte means.
pub proof fn law_log_levels(level: LogLevel, tag: u8)
    ensures
        level.tag() == 1 <==> level is Debug,
        level.tag() == 2 <==> level is Info,
        level.tag() == 3 <==> level is Warn,
        level.tag() == 4 <==> level is Error,
        LogLevel::of_tag(level.tag()) == Ok::<_, ProtocolError>(level),
        LogLevel::of_tag(tag) is Ok <==> 1 <= tag <= 4,
{
}

/// The byte of each state of a player, and what a byte means.
pub proof fn law_playback_states(state: AudioPlaybackState, tag: u8)
    ensures
        state.tag() == 1 <==> state is Idle,
        state.tag() == 2 <==> state is Loading,
        state.tag() == 3 <==> state is Ready,
        state.tag() == 4 <==> state is Playing,
        state.tag() == 5 <==> state is Paused,
        state.tag() == 6 <==> state is Finished,
        AudioPlaybackState::of_tag(state.tag()) == Ok::<_, ProtocolError>(state),
        AudioPlaybackState::of_tag(tag) is Ok <==> 1 <= tag <= 6,
{
}

/// The byte of each kind of radio peer, and what a byte means.
pub proof fn law_radio_kinds(kind: BluetoothDeviceKind, tag: u8)
    ensures
        kind.tag() == 1 <==> kind is Audio,
        kind.tag() == 2 <==> kind is Keyboard,
        kind.tag() == 3 <==> kind is Input,
        kind.tag() == 4 <==> kind is Other,
        BluetoothDeviceKind::of_tag(kind.tag()) == Ok::<_, ProtocolError>(kind),
        BluetoothDeviceKind::of_tag(tag) is Ok <==> 1 <= tag <= 4,
{
}

/// The byte of each way a device fails, and what a byte means.
pub proof fn law_device_errors(error: DeviceError, tag: u8)
    ensures
        error.tag() == 1 <==> error is NotFound,
        error.tag() == 2 <==> error is Authentication,
        error.tag() == 3 <==> error is TimedOut,
        error.tag() == 4 <==> error is Unreachable,
        error.tag() == 5 <==> error is InvalidInput,
        error.tag() == 6 <==> error is Backend,
        error.tag() == 7 <==> error is Integrity,
        DeviceError::of_tag(error.tag()) == Ok::<_, ProtocolError>(error),
        DeviceError::of_tag(tag) is Ok <==> 1 <= tag <= 7,
{
}

/// The byte of each reason for a refusal, and what a byte means.
pub proof fn law_deny_reasons(reason: DenyReason, tag: u8)
    ensures
        reason.tag() == 1 <==> reason is NotDeclared,
        reason.tag() == 2 <==> reason is WithheldForBattery,
        reason.tag() == 3 <==> reason is Unsupported,
        reason.tag() == 4 <==> reason is PolicyRejected,
        reason.tag() == 5 <==> reason is Busy,
        DenyReason::of_tag(reason.tag()) == Ok::<_, ProtocolError>(reason),
        DenyReason::of_tag(tag) is Ok <==> 1 <= tag <= 5,
{
}

/// The byte of each way a store fails, and what a byte means.
pub proof fn law_store_errors(error: StoreError, tag: u8)
    ensures
        error.tag() == 1 <==> error is BadKey,
        error.tag() == 2 <==> error is TooFull,
        error.tag() == 3 <==> error is Unwritable,
        error.tag() == 4 <==> error is NoRoom,
        error.tag() == 5 <==> error is Missing,
        StoreError::of_tag(error.tag()) == Ok::<_, ProtocolError>(error),
        StoreError::of_tag(tag) is Ok <==> 1 <= tag <= 5,
{
}

/// The byte of each way a terminal is refused, and what a byte means.
pub proof fn law_shell_errors(error: ShellError, tag: u8)
    ensures
        error.tag() == 0 <==> error is NotPermitted,
        error.tag() == 1 <==> error is Unavailable,
        error.tag() == 2 <==> error is AlreadyOpen,
        error.tag() == 3 <==> error is NotOpen,
        error.tag() == 4 <==> error is Failed,
        ShellError::of_tag(error.tag()) == Ok::<_, ProtocolError>(error),
        ShellError::of_tag(tag) is Ok <==> tag <= 4,
{
}

/// The byte of each way work fails.
pub proof fn law_task_errors(error: TaskError)
    ensures
        task_codec::task_error_tag(error) == 0 <==> error is Denied,
        task_codec::task_error_tag(error) == 1 <==> error is Unreachable,
        task_codec::task_error_tag(error) == 2 <==> error is TooLarge,
        task_codec::task_error_tag(error) == 3 <==> error is TimedOut,
        task_codec::task_error_tag(error) == 4 <==> error is NotFound,
        task_codec::task_error_tag(error) == 5 <==> error is Offline,
        task_codec::task_error_tag(error) == 6 <==> error is NoCredential,
        task_codec::task_error_tag(error) == 7 <==> error is Unauthorized,
        task_codec::task_error_tag(error) == 8 <==> error is LocalStorage,
        task_codec::task_error_tag(error) == 9 <==> error is RevocationUnconfirmed,
{
}

/// The byte of each icon.
pub proof fn law_icons(icon: Glyph)
    ensures
        glyph::glyph_tag(icon) == 0 <==> icon is App,
        glyph::glyph_tag(icon) == 1 <==> icon is Book,
        glyph::glyph_tag(icon) == 2 <==> icon is Note,
        glyph::glyph_tag(icon) == 3 <==> icon is Clock,
        glyph::glyph_tag(icon) == 4 <==> icon is Settings,
        glyph::glyph_tag(icon) == 5 <==> icon is Folder,
        glyph::glyph_tag(icon) == 6 <==> icon is Chart,
        glyph::glyph_tag(icon) == 7 <==> icon is Search,
        glyph::glyph_tag(icon) == 8 <==> icon is Wifi,
        glyph::glyph_tag(icon) == 9 <==> icon is Battery,
        glyph::glyph_tag(icon) == 10 <==> icon is Reader,
        glyph::glyph_tag(icon) == 11 <==> icon is Power,
        glyph::glyph_tag(icon) == 12 <==> icon is Grid,
        glyph::glyph_tag(icon) == 13 <==> icon is Circle,
        glyph::glyph_tag(icon) == 14 <==> icon is Check,
        glyph::glyph_tag(icon) == 15 <==> icon is Terminal,
        glyph::glyph_tag(icon) == 16 <==> icon is Chat,
        glyph::glyph_tag(icon) == 17 <==> icon is News,
        glyph::glyph_tag(icon) == 18 <==> icon is Rss,
        glyph::glyph_tag(icon) == 19 <==> icon is Light,
        glyph::glyph_tag(icon) == 20 <==> icon is Close,
        glyph::glyph_tag(icon) == 21 <==> icon is Download,
        glyph::glyph_tag(icon) == 22 <==> icon is Bookmark,
        glyph::glyph_tag(icon) == 23 <==> icon is Filter,
        glyph::glyph_tag(icon) == 24 <==> icon is Person,
        glyph::glyph_tag(icon) == 25 <==> icon is Tag,
        glyph::glyph_tag(icon) == 26 <==> icon is Globe,
        glyph::glyph_tag(icon) == 27 <==> icon is Refresh,
        glyph::glyph_tag(icon) == 28 <==> icon is More,
        glyph::glyph_tag(icon) == 29 <==> icon is Bluetooth,
        glyph::glyph_tag(icon) == 30 <==> icon is Key,
        glyph::glyph_tag(icon) == 31 <==> icon is Magnet,
        glyph::glyph_tag(icon) == 32 <==> icon is Play,
        glyph::glyph_tag(icon) == 33 <==> icon is Pause,
        glyph::glyph_tag(icon) == 34 <==> icon is Rewind30,
        glyph::glyph_tag(icon) == 35 <==> icon is Forward30,
        glyph::glyph_tag(icon) == 36 <==> icon is VolumeDown,
        glyph::glyph_tag(icon) == 37 <==> icon is VolumeUp,
        glyph::glyph_tag(icon) == 38 <==> icon is MoreVertical,
        glyph::glyph_tag(icon) == 39 <==> icon is Trash,
        glyph::glyph_tag(icon) == 40 <==> icon is Previous,
        glyph::glyph_tag(icon) == 41 <==> icon is Next,
        glyph::glyph_tag(icon) == 42 <==> icon is Plus,
        glyph::glyph_tag(icon) == 43 <==> icon is Headphones,
        glyph::glyph_tag(icon) == 44 <==> icon is Minus,
{
}

/// The bytes of the small choices that a screen and its messages make.
pub proof fn law_small_choices(
    scale: TextScale,
    format: PictureFormat,
    state: Lifecycle,
    role: QuoteRole,
    emphasis: Emphasis,
    space: Space,
    shape: TileShape,
    level: BannerLevel,
    control: ControlState,
    row: RowState,
    tile: TileState,
    alignment: ParagraphAlignment,
    align: BandAlign,
    bar: BarStyle,
)
    ensures
        message_codec::scale_tag(scale) == 0 <==> scale is Default,
        message_codec::scale_tag(scale) == 1 <==> scale is Large,
        message_codec::scale_tag(scale) == 2 <==> scale is ExtraLarge,
        message_codec::format_tag(format) == 0 <==> format is Gray8,
        message_codec::format_tag(format) == 1 <==> format is Rgb8,
        message_codec::lifecycle_tag(state) == 0 <==> state is Foreground,
        message_codec::lifecycle_tag(state) == 1 <==> state is Background,
        leaf::role_tag(role) == 0 <==> role is Body,
        leaf::role_tag(role) == 1 <==> role is Byline,
        leaf::emphasis_tag(emphasis) == 0 <==> emphasis is Normal,
        leaf::emphasis_tag(emphasis) == 1 <==> emphasis is Primary,
        leaf::space_tag(space) == 0 <==> space is Tight,
        leaf::space_tag(space) == 1 <==> space is Small,
        leaf::space_tag(space) == 2 <==> space is Medium,
        leaf::space_tag(space) == 3 <==> space is Large,
        leaf::shape_tag(shape) == 0 <==> shape is Square,
        leaf::shape_tag(shape) == 1 <==> shape is Portrait,
        leaf::level_tag(level) == 0 <==> level is Info,
        leaf::level_tag(level) == 1 <==> level is Attention,
        parts::control_tag(control) == 0 <==> control is Enabled,
        parts::control_tag(control) == 1 <==> control is Disabled,
        parts::row_state_tag(row) == 0 <==> row is Open,
        parts::row_state_tag(row) == 1 <==> row is Done,
        parts::tile_state_tag(tile) == 0 <==> tile is Normal,
        parts::tile_state_tag(tile) == 1 <==> tile is Held,
        parts::tile_state_tag(tile) == 2 <==> tile is Unavailable,
        parts::tile_state_tag(tile) == 3 <==> tile is Busy,
        prose::alignment_tag(alignment) == 0 <==> alignment is Start,
        prose::alignment_tag(alignment) == 1 <==> alignment is Center,
        prose::alignment_tag(alignment) == 2 <==> alignment is End,
        prose::alignment_tag(alignment) == 3 <==> alignment is Justify,
        node::align_tag(align) == 0 <==> align is Top,
        node::align_tag(align) == 1 <==> align is Middle,
        node::align_tag(align) == 2 <==> align is Bottom,
        screen::style_tag(bar) == 1 <==> bar is Navigation,
        screen::style_tag(bar) == 2 <==> bar is Actions,
        screen::scale_byte(None) == 0,
        screen::scale_byte(Some(scale)) == 1 + message_codec::scale_tag(scale),
{
}

/// The kind of each message.
pub proof fn law_kinds(message: MessageModel)
    ensures
        message_codec::message_kind(message) == 1 <==> message is Hello,
        message_codec::message_kind(message) == 2 <==> message is Welcome,
        message_codec::message_kind(message) == 3 <==> message is SetScreen,
        message_codec::message_kind(message) == 4 <==> message is Action,
        message_codec::message_kind(message) == 5 <==> message is Log,
        message_codec::message_kind(message) == 6 <==> message is Exit,
        message_codec::message_kind(message) == 7 <==> message is DeviceRequest,
        message_codec::message_kind(message) == 8 <==> message is DeviceResult,
        message_codec::message_kind(message) == 9 <==> message is Spawn,
        message_codec::message_kind(message) == 10 <==> message is Cancel,
        message_codec::message_kind(message) == 11 <==> message is TaskOutcome,
        message_codec::message_kind(message) == 12 <==> message is Launch,
        message_codec::message_kind(message) == 13 <==> message is StoreRequest,
        message_codec::message_kind(message) == 14 <==> message is StoreResult,
        message_codec::message_kind(message) == 15 <==> message is Lifecycle,
        message_codec::message_kind(message) == 16 <==> message is ShellRequest,
        message_codec::message_kind(message) == 17 <==> message is ShellEvent,
        message_codec::message_kind(message) == 18 <==> message is PutPicture,
        message_codec::message_kind(message) == 19 <==> message is DropPicture,
        message_codec::message_kind(message) == 20 <==> message is BeginPicture,
        message_codec::message_kind(message) == 21 <==> message is PictureChunk,
        message_codec::message_kind(message) == 22 <==> message is CommitPicture,
        message_codec::message_kind(message) == 23 <==> message is CoverChanged,
        message_codec::message_kind(message) == 24 <==> message is PutFont,
        message_codec::message_kind(message) == 25 <==> message is DropFont,
        message_codec::message_kind(message) == 26 <==> message is TextHold,
        message_codec::message_kind(message) == 27 <==> message is PageTurn,
{
}

/// The tag of each node.
pub proof fn law_node_tags(node: NodeModel)
    ensures
        leaf::node_tag(node) == 1 <==> node is Heading,
        leaf::node_tag(node) == 2 <==> node is Text,
        leaf::node_tag(node) == 3 <==> node is Button,
        leaf::node_tag(node) == 4 <==> node is Card,
        leaf::node_tag(node) == 5 <==> node is Divider,
        leaf::node_tag(node) == 6 <==> node is Spacer,
        leaf::node_tag(node) == 7 <==> node is Progress,
        leaf::node_tag(node) == 8 <==> node is PagedList,
        leaf::node_tag(node) == 9 <==> node is TileGrid,
        leaf::node_tag(node) == 10 <==> node is Choice,
        leaf::node_tag(node) == 11 <==> node is Banner,
        leaf::node_tag(node) == 12 <==> node is Skeleton,
        leaf::node_tag(node) == 13 <==> node is Activity,
        leaf::node_tag(node) == 14 <==> node is Rows,
        leaf::node_tag(node) == 15 <==> node is Grid,
        leaf::node_tag(node) == 16 <==> node is Terminal,
        leaf::node_tag(node) == 17 <==> node is Picture,
        leaf::node_tag(node) == 18 <==> node is Quote,
        leaf::node_tag(node) == 19 <==> node is Secondary,
        leaf::node_tag(node) == 20 <==> node is Splash,
        leaf::node_tag(node) == 21 <==> node is Section,
        leaf::node_tag(node) == 22 <==> node is Band,
        leaf::node_tag(node) == 23 <==> node is Facts,
        leaf::node_tag(node) == 24 <==> node is Field,
        leaf::node_tag(node) == 25 <==> node is Chips,
        leaf::node_tag(node) == 26 <==> node is Tabs,
        leaf::node_tag(node) == 27 <==> node is Flex,
        leaf::node_tag(node) == 28 <==> node is RichText,
        leaf::node_tag(node) == 29 <==> node is Stepper,
        leaf::node_tag(node) == 30 <==> node is Table,
{
}

/// The first byte of each store request.
pub proof fn law_store_request_tags(request: StoreRequestModel)
    ensures
        store_codec::request_bytes(request).len() >= 1,
        store_codec::request_bytes(request)[0] == 0 <==> request is Save,
        store_codec::request_bytes(request)[0] == 1 <==> request is Load,
        store_codec::request_bytes(request)[0] == 2 <==> request is Forget,
        store_codec::request_bytes(request)[0] == 3 <==> request is List,
        store_codec::request_bytes(request)[0] == 4 <==> request is ShelfWrite,
        store_codec::request_bytes(request)[0] == 5 <==> request is ShelfRead,
        store_codec::request_bytes(request)[0] == 6 <==> request is ShelfRemove,
        store_codec::request_bytes(request)[0] == 7 <==> request is ShelfList,
{
    reveal(store_codec::request_bytes);
}

/// The first byte of each answer of a store.
pub proof fn law_store_result_tags(result: StoreResultModel)
    ensures
        store_codec::result_bytes(result).len() >= 1,
        store_codec::result_bytes(result)[0] == 0 <==> result is Saved,
        store_codec::result_bytes(result)[0] == 1 <==> result is Loaded,
        store_codec::result_bytes(result)[0] == 2 <==> result is Forgotten,
        store_codec::result_bytes(result)[0] == 3 <==> result is Keys,
        store_codec::result_bytes(result)[0] == 4 <==> result is Denied,
        store_codec::result_bytes(result)[0] == 5 <==> result is ShelfWritten,
        store_codec::result_bytes(result)[0] == 6 <==> result is ShelfRead,
        store_codec::result_bytes(result)[0] == 7 <==> result is ShelfRemoved,
        store_codec::result_bytes(result)[0] == 8 <==> result is Shelf,
{
    reveal(store_codec::result_bytes);
}

/// The first byte of each request to a terminal.
pub proof fn law_shell_request_tags(request: ShellRequestModel)
    ensures
        shell_codec::shell_request_bytes(request).len() >= 1,
        shell_codec::shell_request_bytes(request)[0] == 0 <==> request is Open,
        shell_codec::shell_request_bytes(request)[0] == 1 <==> request is Input,
        shell_codec::shell_request_bytes(request)[0] == 2 <==> request is Resize,
        shell_codec::shell_request_bytes(request)[0] == 3 <==> request is Close,
{
}

/// The first byte of each thing a terminal says.
pub proof fn law_shell_event_tags(event: ShellEventModel)
    ensures
        shell_codec::shell_event_bytes(event).len() >= 1,
        shell_codec::shell_event_bytes(event)[0] == 0 <==> event is Opened,
        shell_codec::shell_event_bytes(event)[0] == 1 <==> event is Output,
        shell_codec::shell_event_bytes(event)[0] == 2 <==> event is Closed,
        shell_codec::shell_event_bytes(event)[0] == 3 <==> event is Refused,
{
}

/// The first byte of each piece of work.
pub proof fn law_task_tags(work: TaskModel)
    ensures
        task_codec::task_bytes(work).len() >= 1,
        task_codec::task_bytes(work)[0] == 0 <==> work is Fetch,
        task_codec::task_bytes(work)[0] == 1 <==> work is ReadFile,
        task_codec::task_bytes(work)[0] == 2 <==> work is Sleep,
        task_codec::task_bytes(work)[0] == 3 <==> work is Post,
        task_codec::task_bytes(work)[0] == 4 <==> work is RevokeCredential,
{
    reveal(task_codec::task_bytes);
}

/// The first byte of each outcome.
pub proof fn law_outcome_tags(outcome: TaskOutcomeModel)
    ensures
        task_codec::outcome_bytes(outcome).len() >= 1,
        task_codec::outcome_bytes(outcome)[0] == 0 <==> outcome is Completed,
        task_codec::outcome_bytes(outcome)[0] == 1 <==> outcome is Failed,
        task_codec::outcome_bytes(outcome)[0] == 2 <==> outcome is Cancelled,
{
}

/// The first byte of each request to the device.
pub proof fn law_device_request_tags(request: DeviceRequestModel)
    ensures
        device_request::device_request_bytes(request).len() >= 1,
        device_request::device_request_bytes(request)[0] == 1 <==> request is ReadBattery,
        device_request::device_request_bytes(request)[0] == 3 <==> request is ReleaseWifi,
        device_request::device_request_bytes(request)[0] == 5 <==> request is AllowSleep,
        device_request::device_request_bytes(request)[0] == 7 <==> request is CancelWake,
        device_request::device_request_bytes(request)[0] == 9 <==> request is ReadFrontlight,
        device_request::device_request_bytes(request)[0] == 2 <==> request is HoldWifi,
        device_request::device_request_bytes(request)[0] == 4 <==> request is KeepAwake,
        device_request::device_request_bytes(request)[0] == 6 <==> request is ScheduleWake,
        device_request::device_request_bytes(request)[0] == 26 <==> request is SeekAudio,
        device_request::device_request_bytes(request)[0] == 8 <==> request is SetFrontlight,
        device_request::device_request_bytes(request)[0] == 29 <==> request is ReadBatteryDetail,
        device_request::device_request_bytes(request)[0] == 30 <==> request is ReadCover,
        device_request::device_request_bytes(request)[0] == 10 <==> request is ReadBluetooth,
        device_request::device_request_bytes(request)[0] == 12 <==> request is ScanBluetooth,
        device_request::device_request_bytes(request)[0] == 17 <==> request is ReadWifi,
        device_request::device_request_bytes(request)[0] == 19 <==> request is ScanWifi,
        device_request::device_request_bytes(request)[0] == 21 <==> request is DisconnectWifi,
        device_request::device_request_bytes(request)[0] == 22 <==> request is ReadAudio,
        device_request::device_request_bytes(request)[0] == 24 <==> request is PlayAudio,
        device_request::device_request_bytes(request)[0] == 25 <==> request is PauseAudio,
        device_request::device_request_bytes(request)[0] == 27 <==> request is StopAudio,
        device_request::device_request_bytes(request)[0] == 32 <==> request is ListInstalledApps,
        device_request::device_request_bytes(request)[0] == 33 <==> request is ReadAppCatalog,
        device_request::device_request_bytes(request)[0] == 34 <==> request is RefreshAppCatalog,
        device_request::device_request_bytes(request)[0] == 38 <==> request is ReadAppLink,
        device_request::device_request_bytes(request)[0] == 39 <==> request is BeginAppLink,
        device_request::device_request_bytes(request)[0] == 40 <==> request is PollAppLink,
        device_request::device_request_bytes(request)[0] == 41 <==> request is DisconnectAppLink,
        device_request::device_request_bytes(request)[0] == 11 <==> request is SetBluetooth,
        device_request::device_request_bytes(request)[0] == 18 <==> request is SetWifi,
        device_request::device_request_bytes(request)[0] == 13 <==> request is PairBluetooth,
        device_request::device_request_bytes(request)[0] == 14 <==> request is ConnectBluetooth,
        device_request::device_request_bytes(request)[0] == 15 <==> request is DisconnectBluetooth,
        device_request::device_request_bytes(request)[0] == 16 <==> request is ForgetBluetooth,
        device_request::device_request_bytes(request)[0] == 20 <==> request is JoinWifi,
        device_request::device_request_bytes(request)[0] == 23 <==> request is LoadAudio,
        device_request::device_request_bytes(request)[0] == 28 <==> request is SetAudioVolume,
        device_request::device_request_bytes(request)[0] == 31 <==> request is Update,
        device_request::device_request_bytes(request)[0] == 35 <==> request is InstallApp,
        device_request::device_request_bytes(request)[0] == 36 <==> request is UninstallApp,
        device_request::device_request_bytes(request)[0] == 37 <==> request is LookupWord,
{
    reveal(device_request::device_request_bytes);
}

/// The first byte of each answer of the device.
pub proof fn law_device_result_tags(result: DeviceResultModel)
    ensures
        device_result::device_result_bytes(result).len() >= 1,
        device_result::device_result_bytes(result)[0] == 1 <==> result is Done,
        device_result::device_result_bytes(result)[0] == 2 <==> result is Granted,
        device_result::device_result_bytes(result)[0] == 3 <==> result is Battery,
        device_result::device_result_bytes(result)[0] == 4 <==> result is Frontlight,
        device_result::device_result_bytes(result)[0] == 5 <==> result is Denied,
        device_result::device_result_bytes(result)[0] == 6 <==> result is Bluetooth,
        device_result::device_result_bytes(result)[0] == 7 <==> result is Wifi,
        device_result::device_result_bytes(result)[0] == 8 <==> result is Failed,
        device_result::device_result_bytes(result)[0] == 9 <==> result is Audio,
        device_result::device_result_bytes(result)[0] == 10 <==> result is BatteryDetail,
        device_result::device_result_bytes(result)[0] == 11 <==> result is Cover,
        device_result::device_result_bytes(result)[0] == 12 <==> result is Apps,
        device_result::device_result_bytes(result)[0] == 13 <==> result is Dictionary,
        device_result::device_result_bytes(result)[0] == 14 <==> result is AppLink,
        device_result::device_result_bytes(result)[0] == 15 <==> result is RemoteInstall,
{
    reveal(device_result::device_result_bytes);
}

// ---------------------------------------------------------------------------
// Payloads.

/// What each message of a fixed size says, byte by byte.
pub proof fn law_fixed_payloads(message: MessageModel)
    ensures
        ({
            let said = message_codec::message_bytes(message);
            match message {
                MessageModel::Welcome {
                    width,
                    height,
                    pixels_per_inch,
                    text_scale,
                    picture_format,
                } => {
                    &&& said.len() == 8
                    &&& number(said.subrange(0, 2)) == width
                    &&& number(said.subrange(2, 4)) == height
                    &&& number(said.subrange(4, 6)) == pixels_per_inch
                    &&& said[6] == message_codec::scale_tag(text_scale)
                    &&& said[7] == message_codec::format_tag(picture_format)
                },
                MessageModel::Action { action } => said.len() == 4 && number(said) == action.0,
                MessageModel::TextHold { action, context, start, end } => {
                    &&& said.len() == 20
                    &&& number(said.subrange(0, 4)) == action.0
                    &&& number(said.subrange(4, 12)) == context
                    &&& number(said.subrange(12, 16)) == start
                    &&& number(said.subrange(16, 20)) == end
                },
                MessageModel::Exit => said.len() == 0,
                MessageModel::Cancel { task } => said.len() == 4 && number(said) == task.0,
                MessageModel::Lifecycle(state) => said.len() == 1 && said[0]
                    == message_codec::lifecycle_tag(state),
                MessageModel::CoverChanged { magnet_present } => said.len() == 1 && said[0] == if
                    magnet_present {
                    1u8
                } else {
                    0u8
                },
                MessageModel::PageTurn { forward } => said.len() == 1 && said[0] == if forward {
                    1u8
                } else {
                    0u8
                },
                MessageModel::CommitPicture { handle } => said.len() == 4 && number(said)
                    == handle.0,
                MessageModel::DropPicture { handle } => said.len() == 4 && number(said)
                    == handle.0,
                MessageModel::DropFont { handle } => said.len() == 4 && number(said) == handle.0,
                MessageModel::BeginPicture { handle, width, height, format } => {
                    &&& said.len() == 13
                    &&& number(said.subrange(0, 4)) == handle.0
                    &&& number(said.subrange(4, 8)) == width
                    &&& number(said.subrange(8, 12)) == height
                    &&& said[12] == message_codec::format_tag(format)
                },
                _ => true,
            }
        }),
{
    broadcast use wire::group_lengths;

    reveal(message_codec::message_bytes);
    let said = message_codec::message_bytes(message);
    match message {
        MessageModel::Welcome { width, height, pixels_per_inch, text_scale, picture_format } => {
            lemma_half(width);
            lemma_half(height);
            lemma_half(pixels_per_inch);
            assert(said.subrange(0, 2) =~= wire::be16(width));
            assert(said.subrange(2, 4) =~= wire::be16(height));
            assert(said.subrange(4, 6) =~= wire::be16(pixels_per_inch));
        },
        MessageModel::Action { action } => lemma_word(action.0),
        MessageModel::TextHold { action, context, start, end } => {
            lemma_word(action.0);
            law_numbers_are_said_in_bytes(0, start, context);
            lemma_word(end);
            assert(said.subrange(0, 4) =~= wire::be32(action.0));
            assert(said.subrange(4, 12) =~= wire::be64(context));
            assert(said.subrange(12, 16) =~= wire::be32(start));
            assert(said.subrange(16, 20) =~= wire::be32(end));
        },
        MessageModel::Cancel { task } => lemma_word(task.0),
        MessageModel::CommitPicture { handle } => lemma_word(handle.0),
        MessageModel::DropPicture { handle } => lemma_word(handle.0),
        MessageModel::DropFont { handle } => lemma_word(handle.0),
        MessageModel::BeginPicture { handle, width, height, format } => {
            lemma_word(handle.0);
            lemma_word(width);
            lemma_word(height);
            assert(said.subrange(0, 4) =~= wire::be32(handle.0));
            assert(said.subrange(4, 8) =~= wire::be32(width));
            assert(said.subrange(8, 12) =~= wire::be32(height));
        },
        _ => {},
    }
}

/// What each message that carries a text or bytes says, part by part.
pub proof fn law_open_payloads(message: MessageModel)
    ensures
        ({
            let said = message_codec::message_bytes(message);
            match message {
                MessageModel::Hello { name } => said == wire::text_bytes(name),
                MessageModel::Launch { name } => said == wire::text_bytes(name),
                MessageModel::Log { level, message: text } => said.len() >= 1 && said[0]
                    == level.tag() && said.skip(1) == wire::text_bytes(text),
                MessageModel::PictureChunk { handle, offset, bytes } => {
                    &&& said.len() == 8 + bytes.len()
                    &&& number(said.subrange(0, 4)) == handle.0
                    &&& number(said.subrange(4, 8)) == offset
                    &&& said.skip(8) == bytes
                },
                MessageModel::PutPicture { handle, width, height, pixels } => {
                    &&& said.len() == 13 + pixels.bytes().len()
                    &&& number(said.subrange(0, 4)) == handle.0
                    &&& number(said.subrange(4, 8)) == width
                    &&& number(said.subrange(8, 12)) == height
                    &&& said[12] == message_codec::format_tag(pixels.format())
                    &&& said.skip(13) == pixels.bytes()
                },
                MessageModel::PutFont { handle, name, bytes } => {
                    &&& said.len() >= 4
                    &&& number(said.subrange(0, 4)) == handle.0
                    &&& said.skip(4) == wire::text_bytes(name) + bytes
                },
                MessageModel::Spawn { task, work } => {
                    &&& said.len() >= 4
                    &&& number(said.subrange(0, 4)) == task.0
                    &&& said.skip(4) == task_codec::task_bytes(work)
                },
                MessageModel::TaskOutcome { task, outcome } => {
                    &&& said.len() >= 4
                    &&& number(said.subrange(0, 4)) == task.0
                    &&& said.skip(4) == task_codec::outcome_bytes(outcome)
                },
                MessageModel::StoreRequest(request) => said == store_codec::request_bytes(request),
                MessageModel::StoreResult(result) => said == store_codec::result_bytes(result),
                MessageModel::ShellRequest(request) => said == shell_codec::shell_request_bytes(
                    request,
                ),
                MessageModel::ShellEvent(event) => said == shell_codec::shell_event_bytes(event),
                MessageModel::DeviceRequest(request) => said
                    == device_request::device_request_bytes(request),
                MessageModel::DeviceResult(result) => said == device_result::device_result_bytes(
                    result,
                ),
                MessageModel::SetScreen(screen) => said == screen::screen_bytes(screen),
                _ => true,
            }
        }),
{
    broadcast use wire::group_lengths;

    reveal(message_codec::message_bytes);
    let said = message_codec::message_bytes(message);
    match message {
        MessageModel::Log { level, message: text } => {
            assert(said.skip(1) =~= wire::text_bytes(text));
        },
        MessageModel::PictureChunk { handle, offset, bytes } => {
            lemma_word(handle.0);
            lemma_word(offset);
            assert(said.subrange(0, 4) =~= wire::be32(handle.0));
            assert(said.subrange(4, 8) =~= wire::be32(offset));
            assert(said.skip(8) =~= bytes);
        },
        MessageModel::PutPicture { handle, width, height, pixels } => {
            lemma_word(handle.0);
            lemma_word(width);
            lemma_word(height);
            assert(said.subrange(0, 4) =~= wire::be32(handle.0));
            assert(said.subrange(4, 8) =~= wire::be32(width));
            assert(said.subrange(8, 12) =~= wire::be32(height));
            assert(said.skip(13) =~= pixels.bytes());
        },
        MessageModel::PutFont { handle, name, bytes } => {
            lemma_word(handle.0);
            assert(said.subrange(0, 4) =~= wire::be32(handle.0));
            assert(said.skip(4) =~= wire::text_bytes(name) + bytes);
        },
        MessageModel::Spawn { task, work } => {
            lemma_word(task.0);
            assert(said.subrange(0, 4) =~= wire::be32(task.0));
            assert(said.skip(4) =~= task_codec::task_bytes(work));
        },
        MessageModel::TaskOutcome { task, outcome } => {
            lemma_word(task.0);
            assert(said.subrange(0, 4) =~= wire::be32(task.0));
            assert(said.skip(4) =~= task_codec::outcome_bytes(outcome));
        },
        _ => {},
    }
}

} // verus!
