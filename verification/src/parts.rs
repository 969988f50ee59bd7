//! The wire forms of the parts a screen's nodes are made of.

use vstd::prelude::*;

use crate::error::ProtocolError;
use crate::glyph;
use crate::glyph::{decode_glyph, encode_glyph, Glyph};
use crate::item;
use crate::item::{add_all_len, read_all, write_all, Wire};
use crate::limits::ROW_LEAD_LEN;
use crate::ui::{
    ActionId, BarAction, BarActionModel, Cell, CellModel, Chip, ChipModel, ControlState,
    PictureHandle, Row, RowLead, RowModel, RowState, TableRow, TableRowModel, Tile, TileModel,
    TilePicture, TileState,
};
use crate::wire;
use crate::wire::{
    add_encoded_len,
    add_text_len,
    push_flag,
    push_text,
    push_u16,
    push_u32,
    push_u8,
    Reader,
};

verus! {

// ---------------------------------------------------------------------------
// Small shared forms.

/// An action an application may name: the runtime owns going back, so a frame
/// naming that identifier is refused.
pub open spec fn parse_own_action(s: Seq<u8>) -> wire::Parsed<ActionId> {
    match wire::parse_u32(s) {
        Err(e) => Err(e),
        Ok((id, s)) => if ActionId(id).is_reserved_spec() {
            Err(ProtocolError::InvalidValue("reserved action id"))
        } else {
            Ok((ActionId(id), s))
        },
    }
}

pub fn read_own_action(reader: &mut Reader<'_>) -> (result: Result<ActionId, ProtocolError>)
    ensures
        wire::yields(result, final(reader)@, parse_own_action(old(reader)@)),
{
    let action = ActionId(reader.u32()?);
    if action.is_reserved() {
        return Err(ProtocolError::InvalidValue("reserved action id"));
    }
    Ok(action)
}

/// A mark, or the absence of one.
pub open spec fn mark_bytes(mark: Option<Glyph>) -> Seq<u8> {
    match mark {
        None => seq![0u8],
        Some(glyph) => seq![1u8] + seq![glyph::glyph_tag(glyph)],
    }
}

pub open spec fn parse_mark(
    s: Seq<u8>,
    mark_name: &'static str,
    flag_name: &'static str,
) -> wire::Parsed<Option<Glyph>> {
    match wire::parse_u8(s) {
        Err(e) => Err(e),
        Ok((flag, s)) => if flag == 0 {
            Ok((None, s))
        } else if flag == 1 {
            match parse_glyph(s, mark_name) {
                Err(e) => Err(e),
                Ok((glyph, s)) => Ok((Some(glyph), s)),
            }
        } else {
            Err(ProtocolError::InvalidValue(flag_name))
        },
    }
}

/// An icon's tag, refused under `name` when it is none.
pub open spec fn parse_glyph(s: Seq<u8>, name: &'static str) -> wire::Parsed<Glyph> {
    match wire::parse_u8(s) {
        Err(e) => Err(e),
        Ok((tag, s)) => match glyph::glyph_of(tag) {
            None => Err(ProtocolError::InvalidValue(name)),
            Some(glyph) => Ok((glyph, s)),
        },
    }
}

pub broadcast proof fn lemma_parse_glyph(glyph: Glyph, rest: Seq<u8>, name: &'static str)
    ensures
        #[trigger] parse_glyph(seq![glyph::glyph_tag(glyph)] + rest, name) == Ok::<
            (Glyph, Seq<u8>),
            ProtocolError,
        >((glyph, rest)),
{
    broadcast use {wire::group_reading, glyph::lemma_glyph_read_back};

}

pub broadcast proof fn lemma_parse_mark(
    mark: Option<Glyph>,
    rest: Seq<u8>,
    mark_name: &'static str,
    flag_name: &'static str,
)
    ensures
        #[trigger] parse_mark(mark_bytes(mark) + rest, mark_name, flag_name) == Ok::<
            (Option<Glyph>, Seq<u8>),
            ProtocolError,
        >((mark, rest)),
{
    broadcast use {wire::group_reading, lemma_parse_glyph};

}

pub broadcast proof fn lemma_mark_len(mark: Option<Glyph>)
    ensures
        (#[trigger] mark_bytes(mark)).len() == (if mark is Some {
            2int
        } else {
            1int
        }),
{
}

pub fn push_mark(output: &mut Vec<u8>, mark: Option<Glyph>)
    ensures
        final(output)@ == old(output)@ + mark_bytes(mark),
{
    broadcast use wire::group_writing;

    match mark {
        None => push_u8(output, 0),
        Some(glyph) => {
            push_u8(output, 1);
            push_u8(output, encode_glyph(glyph));
        },
    }
}

pub fn read_glyph(reader: &mut Reader<'_>, name: &'static str) -> (result: Result<
    Glyph,
    ProtocolError,
>)
    ensures
        wire::yields(result, final(reader)@, parse_glyph(old(reader)@, name)),
{
    let tag: u8 = reader.u8()?;
    match decode_glyph(tag) {
        None => Err(ProtocolError::InvalidValue(name)),
        Some(glyph) => Ok(glyph),
    }
}

pub fn read_mark(
    reader: &mut Reader<'_>,
    mark_name: &'static str,
    flag_name: &'static str,
) -> (result: Result<Option<Glyph>, ProtocolError>)
    ensures
        wire::yields(result, final(reader)@, parse_mark(old(reader)@, mark_name, flag_name)),
{
    let flag: u8 = reader.u8()?;
    if flag == 0 {
        Ok(None)
    } else if flag == 1 {
        let glyph = read_glyph(reader, mark_name)?;
        Ok(Some(glyph))
    } else {
        Err(ProtocolError::InvalidValue(flag_name))
    }
}

/// A picture reference: its handle and the size it was sent at.
pub open spec fn picture_bytes(picture: TilePicture) -> Seq<u8> {
    wire::be32(picture.handle.0) + wire::be32(picture.source.0) + wire::be32(picture.source.1)
}

pub open spec fn parse_picture(s: Seq<u8>) -> wire::Parsed<TilePicture> {
    match wire::parse_u32(s) {
        Err(e) => Err(e),
        Ok((handle, s)) => match wire::parse_u32(s) {
            Err(e) => Err(e),
            Ok((width, s)) => match wire::parse_u32(s) {
                Err(e) => Err(e),
                Ok((height, s)) => Ok(
                    (
                        TilePicture { handle: PictureHandle(handle), source: (width, height) },
                        s,
                    ),
                ),
            },
        },
    }
}

pub broadcast proof fn lemma_parse_picture(picture: TilePicture, rest: Seq<u8>)
    ensures
        #[trigger] parse_picture(picture_bytes(picture) + rest) == Ok::<
            (TilePicture, Seq<u8>),
            ProtocolError,
        >((picture, rest)),
{
    broadcast use wire::group_reading;

}

pub broadcast proof fn lemma_picture_len(picture: TilePicture)
    ensures
        (#[trigger] picture_bytes(picture)).len() == 12,
{
    broadcast use wire::group_lengths;

}

pub fn push_picture(output: &mut Vec<u8>, picture: TilePicture)
    ensures
        final(output)@ == old(output)@ + picture_bytes(picture),
{
    broadcast use wire::group_writing;

    push_u32(output, picture.handle.0);
    push_u32(output, picture.source.0);
    push_u32(output, picture.source.1);
}

pub fn read_picture(reader: &mut Reader<'_>) -> (result: Result<TilePicture, ProtocolError>)
    ensures
        wire::yields(result, final(reader)@, parse_picture(old(reader)@)),
{
    let handle = PictureHandle(reader.u32()?);
    let width: u32 = reader.u32()?;
    let height: u32 = reader.u32()?;
    Ok(TilePicture { handle, source: (width, height) })
}

pub open spec fn control_tag(state: ControlState) -> u8 {
    match state {
        ControlState::Enabled => 0,
        ControlState::Disabled => 1,
    }
}

pub open spec fn parse_control(s: Seq<u8>, name: &'static str) -> wire::Parsed<ControlState> {
    match wire::parse_u8(s) {
        Err(e) => Err(e),
        Ok((tag, s)) => if tag == 0 {
            Ok((ControlState::Enabled, s))
        } else if tag == 1 {
            Ok((ControlState::Disabled, s))
        } else {
            Err(ProtocolError::InvalidValue(name))
        },
    }
}

pub fn push_control(output: &mut Vec<u8>, state: ControlState)
    ensures
        final(output)@ == old(output)@ + seq![control_tag(state)],
{
    push_u8(
        output,
        match state {
            ControlState::Enabled => 0,
            ControlState::Disabled => 1,
        },
    );
}

pub fn read_control(reader: &mut Reader<'_>, name: &'static str) -> (result: Result<
    ControlState,
    ProtocolError,
>)
    ensures
        wire::yields(result, final(reader)@, parse_control(old(reader)@, name)),
{
    let tag: u8 = reader.u8()?;
    match tag {
        0 => Ok(ControlState::Enabled),
        1 => Ok(ControlState::Disabled),
        _ => Err(ProtocolError::InvalidValue(name)),
    }
}

// ---------------------------------------------------------------------------
// Bar actions.

impl Wire for BarAction {
    open spec fn bytes(model: BarActionModel) -> Seq<u8> {
        wire::be32(model.action.0) + mark_bytes(model.glyph) + wire::text_bytes(model.label)
    }

    open spec fn fits(model: BarActionModel) -> bool {
        wire::text_fits(model.label)
    }

    open spec fn grown(model: BarActionModel, total: int) -> Result<int, ProtocolError> {
        if wire::text_fits(model.label) {
            wire::grown(Ok(total), Self::bytes(model).len() as int)
        } else {
            Err(ProtocolError::StringTooLarge)
        }
    }

    open spec fn parse(s: Seq<u8>) -> wire::Parsed<BarActionModel> {
        match parse_own_action(s) {
            Err(e) => Err(e),
            Ok((action, s)) => match parse_mark(s, "bar glyph", "bar glyph flag") {
                Err(e) => Err(e),
                Ok((glyph, s)) => match wire::parse_text(s) {
                    Err(e) => Err(e),
                    Ok((label, s)) => Ok((BarActionModel { action, label, glyph }, s)),
                },
            },
        }
    }

    open spec fn faithful(model: BarActionModel) -> bool {
        !model.action.is_reserved_spec()
    }

    proof fn lemma_counted(model: BarActionModel, total: int) {
    }

    proof fn lemma_read_back(model: BarActionModel, rest: Seq<u8>) {
        broadcast use {wire::group_reading, lemma_parse_mark};

    }

    fn add_len(&self, total: usize) -> (result: Result<usize, ProtocolError>) {
        broadcast use {wire::group_lengths, lemma_mark_len};

        let mut length: usize = 5;
        if self.glyph.is_some() {
            length = add_encoded_len(length, 1)?;
        }
        length = add_text_len(length, self.label.as_str())?;
        add_encoded_len(total, length)
    }

    fn write(&self, output: &mut Vec<u8>) {
        broadcast use wire::group_writing;

        push_u32(output, self.action.0);
        push_mark(output, self.glyph);
        push_text(output, self.label.as_str());
    }

    fn read(reader: &mut Reader<'_>) -> (result: Result<BarAction, ProtocolError>) {
        let action = read_own_action(reader)?;
        let glyph = read_mark(reader, "bar glyph", "bar glyph flag")?;
        let label = reader.string()?;
        Ok(BarAction { action, label, glyph })
    }
}

// ---------------------------------------------------------------------------
// Chips.

impl Wire for Chip {
    open spec fn bytes(model: ChipModel) -> Seq<u8> {
        wire::be32(model.action.0) + seq![wire::flag_byte(model.selected)] + wire::text_bytes(
            model.label,
        )
    }

    open spec fn fits(model: ChipModel) -> bool {
        wire::text_fits(model.label)
    }

    open spec fn grown(model: ChipModel, total: int) -> Result<int, ProtocolError> {
        wire::grown_text(wire::grown(Ok(total), 5), model.label)
    }

    open spec fn parse(s: Seq<u8>) -> wire::Parsed<ChipModel> {
        match parse_own_action(s) {
            Err(e) => Err(e),
            Ok((action, s)) => match wire::parse_flag(s, "chip selected flag") {
                Err(e) => Err(e),
                Ok((selected, s)) => match wire::parse_text(s) {
                    Err(e) => Err(e),
                    Ok((label, s)) => Ok((ChipModel { action, label, selected }, s)),
                },
            },
        }
    }

    open spec fn faithful(model: ChipModel) -> bool {
        !model.action.is_reserved_spec()
    }

    proof fn lemma_counted(model: ChipModel, total: int) {
        broadcast use wire::group_lengths;

    }

    proof fn lemma_read_back(model: ChipModel, rest: Seq<u8>) {
        broadcast use wire::group_reading;

    }

    fn add_len(&self, total: usize) -> (result: Result<usize, ProtocolError>) {
        let total: usize = add_encoded_len(total, 5)?;
        add_text_len(total, self.label.as_str())
    }

    fn write(&self, output: &mut Vec<u8>) {
        broadcast use wire::group_writing;

        push_u32(output, self.action.0);
        push_flag(output, self.selected);
        push_text(output, self.label.as_str());
    }

    fn read(reader: &mut Reader<'_>) -> (result: Result<Chip, ProtocolError>) {
        let action = read_own_action(reader)?;
        let selected = reader.flag("chip selected flag")?;
        let label = reader.string()?;
        Ok(Chip { action, label, selected })
    }
}

// ---------------------------------------------------------------------------
// Grid cells.

impl Wire for Cell {
    open spec fn bytes(model: CellModel) -> Seq<u8> {
        wire::be32(model.action.0) + wire::text_bytes(model.label) + mark_bytes(model.glyph)
    }

    open spec fn fits(model: CellModel) -> bool {
        wire::text_fits(model.label)
    }

    open spec fn grown(model: CellModel, total: int) -> Result<int, ProtocolError> {
        wire::grown(
            wire::grown_text(wire::grown(Ok(total), 4), model.label),
            if model.glyph is Some {
                2
            } else {
                1
            },
        )
    }

    open spec fn parse(s: Seq<u8>) -> wire::Parsed<CellModel> {
        match parse_own_action(s) {
            Err(e) => Err(e),
            Ok((action, s)) => match wire::parse_text(s) {
                Err(e) => Err(e),
                Ok((label, s)) => match parse_mark(s, "glyph", "cell glyph flag") {
                    Err(e) => Err(e),
                    Ok((glyph, s)) => Ok((CellModel { action, label, glyph }, s)),
                },
            },
        }
    }

    open spec fn faithful(model: CellModel) -> bool {
        !model.action.is_reserved_spec()
    }

    proof fn lemma_counted(model: CellModel, total: int) {
        broadcast use {wire::group_lengths, lemma_mark_len};

    }

    proof fn lemma_read_back(model: CellModel, rest: Seq<u8>) {
        broadcast use {wire::group_reading, lemma_parse_mark};

    }

    fn add_len(&self, total: usize) -> (result: Result<usize, ProtocolError>) {
        let total: usize = add_encoded_len(total, 4)?;
        let total: usize = add_text_len(total, self.label.as_str())?;
        add_encoded_len(
            total,
            if self.glyph.is_some() {
                2
            } else {
                1
            },
        )
    }

    fn write(&self, output: &mut Vec<u8>) {
        broadcast use wire::group_writing;

        push_u32(output, self.action.0);
        push_text(output, self.label.as_str());
        push_mark(output, self.glyph);
    }

    fn read(reader: &mut Reader<'_>) -> (result: Result<Cell, ProtocolError>) {
        let action = read_own_action(reader)?;
        let label = reader.string()?;
        let glyph = read_mark(reader, "glyph", "cell glyph flag")?;
        Ok(Cell { action, label, glyph })
    }
}

// ---------------------------------------------------------------------------
// Rows.

/// The zeroes a lead that is not a picture is padded with, so that every lead
/// costs the same however it was built.
pub open spec fn lead_padding() -> Seq<u8> {
    Seq::new(12, |i: int| 0u8)
}

/// A row's lead, always [`ROW_LEAD_LEN`] bytes.
pub open spec fn lead_bytes(lead: RowLead) -> Seq<u8> {
    match lead {
        RowLead::Icon(glyph) => seq![0u8] + wire::be16(glyph::glyph_tag(glyph) as u16)
            + lead_padding(),
        RowLead::Number(number) => seq![1u8] + wire::be16(number) + lead_padding(),
        RowLead::Picture(picture, glyph) => seq![2u8] + wire::be16(glyph::glyph_tag(glyph) as u16)
            + picture_bytes(picture),
    }
}

pub open spec fn lead_glyph(value: u16) -> Option<Glyph> {
    if value <= 255 {
        glyph::glyph_of(value as u8)
    } else {
        None
    }
}

pub open spec fn parse_padded(s: Seq<u8>, lead: RowLead) -> wire::Parsed<RowLead> {
    match wire::parse_bytes(s, 12) {
        Err(e) => Err(e),
        Ok((_, s)) => Ok((lead, s)),
    }
}

pub open spec fn parse_lead(s: Seq<u8>) -> wire::Parsed<RowLead> {
    match wire::parse_u8(s) {
        Err(e) => Err(e),
        Ok((tag, s)) => match wire::parse_u16(s) {
            Err(e) => Err(e),
            Ok((value, s)) => if tag == 0 {
                match lead_glyph(value) {
                    None => Err(ProtocolError::InvalidValue("row glyph")),
                    Some(glyph) => parse_padded(s, RowLead::Icon(glyph)),
                }
            } else if tag == 1 {
                parse_padded(s, RowLead::Number(value))
            } else if tag == 2 {
                match parse_picture(s) {
                    Err(e) => Err(e),
                    Ok((picture, s)) => match lead_glyph(value) {
                        None => Err(ProtocolError::InvalidValue("row glyph")),
                        Some(glyph) => Ok((RowLead::Picture(picture, glyph), s)),
                    },
                }
            } else {
                Err(ProtocolError::InvalidValue("row lead"))
            },
        },
    }
}

pub broadcast proof fn lemma_lead_len(lead: RowLead)
    ensures
        (#[trigger] lead_bytes(lead)).len() == ROW_LEAD_LEN,
{
    broadcast use {wire::group_lengths, lemma_picture_len};

}

pub broadcast proof fn lemma_parse_lead(lead: RowLead, rest: Seq<u8>)
    ensures
        #[trigger] parse_lead(lead_bytes(lead) + rest) == Ok::<(RowLead, Seq<u8>), ProtocolError>(
            (lead, rest),
        ),
{
    broadcast use {wire::group_reading, lemma_parse_picture, glyph::lemma_glyph_read_back};

    wire::lemma_parse_bytes(lead_padding(), rest);
}

fn push_padding(output: &mut Vec<u8>)
    ensures
        final(output)@ == old(output)@ + lead_padding(),
{
    push_u32(output, 0);
    push_u32(output, 0);
    push_u32(output, 0);
    proof {
        reveal(wire::be32);
        reveal(wire::be16);
    }
    assert(output@ =~= old(output)@ + lead_padding());
}

pub fn push_row_lead(output: &mut Vec<u8>, lead: RowLead)
    ensures
        final(output)@ == old(output)@ + lead_bytes(lead),
{
    broadcast use wire::group_writing;

    match lead {
        RowLead::Icon(glyph) => {
            push_u8(output, 0);
            push_u16(output, encode_glyph(glyph) as u16);
            push_padding(output);
        },
        RowLead::Number(number) => {
            push_u8(output, 1);
            push_u16(output, number);
            push_padding(output);
        },
        RowLead::Picture(picture, glyph) => {
            push_u8(output, 2);
            push_u16(output, encode_glyph(glyph) as u16);
            push_picture(output, picture);
        },
    }
}

fn glyph_of_lead(value: u16) -> (result: Result<Glyph, ProtocolError>)
    ensures
        match lead_glyph(value) {
            None => result == Err::<Glyph, _>(ProtocolError::InvalidValue("row glyph")),
            Some(glyph) => result == Ok::<_, ProtocolError>(glyph),
        },
{
    if value > 255 {
        return Err(ProtocolError::InvalidValue("row glyph"));
    }
    match decode_glyph(value as u8) {
        None => Err(ProtocolError::InvalidValue("row glyph")),
        Some(glyph) => Ok(glyph),
    }
}

pub fn read_row_lead(reader: &mut Reader<'_>) -> (result: Result<RowLead, ProtocolError>)
    ensures
        wire::yields(result, final(reader)@, parse_lead(old(reader)@)),
{
    let tag: u8 = reader.u8()?;
    let value: u16 = reader.u16()?;
    match tag {
        0 => {
            let glyph = glyph_of_lead(value)?;
            let _ = reader.take(12)?;
            Ok(RowLead::Icon(glyph))
        },
        1 => {
            let _ = reader.take(12)?;
            Ok(RowLead::Number(value))
        },
        2 => {
            let picture = read_picture(reader)?;
            let glyph = glyph_of_lead(value)?;
            Ok(RowLead::Picture(picture, glyph))
        },
        _ => Err(ProtocolError::InvalidValue("row lead")),
    }
}

pub open spec fn row_state_tag(state: RowState) -> u8 {
    match state {
        RowState::Open => 0,
        RowState::Done => 1,
    }
}

pub open spec fn parse_row_state(s: Seq<u8>) -> wire::Parsed<RowState> {
    match wire::parse_u8(s) {
        Err(e) => Err(e),
        Ok((tag, s)) => if tag == 0 {
            Ok((RowState::Open, s))
        } else if tag == 1 {
            Ok((RowState::Done, s))
        } else {
            Err(ProtocolError::InvalidValue("row state"))
        },
    }
}

fn push_row_state(output: &mut Vec<u8>, state: RowState)
    ensures
        final(output)@ == old(output)@ + seq![row_state_tag(state)],
{
    push_u8(
        output,
        match state {
            RowState::Open => 0,
            RowState::Done => 1,
        },
    );
}

fn read_row_state(reader: &mut Reader<'_>) -> (result: Result<RowState, ProtocolError>)
    ensures
        wire::yields(result, final(reader)@, parse_row_state(old(reader)@)),
{
    let tag: u8 = reader.u8()?;
    match tag {
        0 => Ok(RowState::Open),
        1 => Ok(RowState::Done),
        _ => Err(ProtocolError::InvalidValue("row state")),
    }
}

/// A text that may be missing, where any flag but zero means it is there.
pub open spec fn trailing_bytes(text: Option<Seq<char>>) -> Seq<u8> {
    match text {
        None => seq![0u8],
        Some(text) => seq![1u8] + wire::text_bytes(text),
    }
}

pub open spec fn parse_trailing(s: Seq<u8>) -> wire::Parsed<Option<Seq<char>>> {
    match wire::parse_u8(s) {
        Err(e) => Err(e),
        Ok((flag, s)) => if flag == 0 {
            Ok((None, s))
        } else {
            match wire::parse_text(s) {
                Err(e) => Err(e),
                Ok((text, s)) => Ok((Some(text), s)),
            }
        },
    }
}

pub open spec fn optional_fits(text: Option<Seq<char>>) -> bool {
    text is Some ==> wire::text_fits(text->0)
}

pub broadcast proof fn lemma_trailing_len(text: Option<Seq<char>>)
    requires
        optional_fits(text),
    ensures
        (#[trigger] trailing_bytes(text)).len() == (match text {
            None => 1int,
            Some(text) => 3 + wire::utf8_len(text),
        }),
{
    broadcast use wire::group_lengths;

}

pub broadcast proof fn lemma_parse_trailing(text: Option<Seq<char>>, rest: Seq<u8>)
    requires
        optional_fits(text),
    ensures
        #[trigger] parse_trailing(trailing_bytes(text) + rest) == Ok::<
            (Option<Seq<char>>, Seq<u8>),
            ProtocolError,
        >((text, rest)),
{
    broadcast use wire::group_reading;

}

/// The model of a text that may be missing.
pub open spec fn optional_text(text: Option<String>) -> Option<Seq<char>> {
    match text {
        None => None,
        Some(text) => Some(text@),
    }
}

pub fn push_trailing(output: &mut Vec<u8>, text: &Option<String>)
    requires
        optional_fits(optional_text(*text)),
    ensures
        final(output)@ == old(output)@ + trailing_bytes(optional_text(*text)),
{
    broadcast use wire::group_writing;

    match text {
        None => push_u8(output, 0),
        Some(text) => {
            push_u8(output, 1);
            push_text(output, text.as_str());
        },
    }
}

/// Whether reading a text that may be missing did what its model says.
pub open spec fn reads_optional(
    result: Result<Option<String>, ProtocolError>,
    left: Seq<u8>,
    parsed: wire::Parsed<Option<Seq<char>>>,
) -> bool {
    match (result, parsed) {
        (Ok(value), Ok((model, rest))) => optional_text(value) == model && left == rest,
        (Err(error), Err(expected)) => error == expected,
        _ => false,
    }
}

pub fn read_trailing(reader: &mut Reader<'_>) -> (result: Result<Option<String>, ProtocolError>)
    ensures
        reads_optional(result, final(reader)@, parse_trailing(old(reader)@)),
{
    let flag: u8 = reader.u8()?;
    if flag == 0 {
        Ok(None)
    } else {
        let text = reader.string()?;
        Ok(Some(text))
    }
}

/// The overflow action of a row, if it has one.
pub open spec fn menu_bytes(menu: Option<ActionId>) -> Seq<u8> {
    match menu {
        None => seq![0u8],
        Some(menu) => seq![1u8] + wire::be32(menu.0),
    }
}

pub open spec fn parse_menu(s: Seq<u8>) -> wire::Parsed<Option<ActionId>> {
    match wire::parse_u8(s) {
        Err(e) => Err(e),
        Ok((flag, s)) => if flag == 0 {
            Ok((None, s))
        } else {
            match parse_own_action(s) {
                Err(e) => Err(e),
                Ok((menu, s)) => Ok((Some(menu), s)),
            }
        },
    }
}

pub broadcast proof fn lemma_menu_len(menu: Option<ActionId>)
    ensures
        (#[trigger] menu_bytes(menu)).len() == (if menu is Some {
            5int
        } else {
            1int
        }),
{
    broadcast use wire::group_lengths;

}

/// An action, or none, that the reader of it will accept.
pub open spec fn is_own(action: Option<ActionId>) -> bool {
    action is Some ==> !action->0.is_reserved_spec()
}

pub broadcast proof fn lemma_parse_menu(menu: Option<ActionId>, rest: Seq<u8>)
    requires
        is_own(menu),
    ensures
        #[trigger] parse_menu(menu_bytes(menu) + rest) == Ok::<
            (Option<ActionId>, Seq<u8>),
            ProtocolError,
        >((menu, rest)),
{
    broadcast use wire::group_reading;

}

pub fn push_menu(output: &mut Vec<u8>, menu: Option<ActionId>)
    ensures
        final(output)@ == old(output)@ + menu_bytes(menu),
{
    broadcast use wire::group_writing;

    match menu {
        None => push_u8(output, 0),
        Some(menu) => {
            push_u8(output, 1);
            push_u32(output, menu.0);
        },
    }
}

pub fn read_menu(reader: &mut Reader<'_>) -> (result: Result<Option<ActionId>, ProtocolError>)
    ensures
        wire::yields(result, final(reader)@, parse_menu(old(reader)@)),
{
    let flag: u8 = reader.u8()?;
    if flag == 0 {
        Ok(None)
    } else {
        let menu = read_own_action(reader)?;
        Ok(Some(menu))
    }
}

impl Wire for Row {
    open spec fn bytes(model: RowModel) -> Seq<u8> {
        wire::be32(model.action.0) + wire::text_bytes(model.title) + wire::text_bytes(model.summary)
            + lead_bytes(model.lead) + seq![row_state_tag(model.state)] + trailing_bytes(
            model.trailing,
        ) + menu_bytes(model.menu)
    }

    open spec fn fits(model: RowModel) -> bool {
        &&& wire::text_fits(model.title)
        &&& wire::text_fits(model.summary)
        &&& optional_fits(model.trailing)
    }

    open spec fn grown(model: RowModel, total: int) -> Result<int, ProtocolError> {
        wire::grown(
            wire::grown_optional_text(
                wire::grown_text(
                    wire::grown_text(wire::grown(Ok(total), 7 + ROW_LEAD_LEN), model.title),
                    model.summary,
                ),
                model.trailing,
            ),
            if model.menu is Some {
                4
            } else {
                0
            },
        )
    }

    open spec fn parse(s: Seq<u8>) -> wire::Parsed<RowModel> {
        match parse_own_action(s) {
            Err(e) => Err(e),
            Ok((action, s)) => match wire::parse_text(s) {
                Err(e) => Err(e),
                Ok((title, s)) => match wire::parse_text(s) {
                    Err(e) => Err(e),
                    Ok((summary, s)) => match parse_lead(s) {
                        Err(e) => Err(e),
                        Ok((lead, s)) => match parse_row_state(s) {
                            Err(e) => Err(e),
                            Ok((state, s)) => match parse_trailing(s) {
                                Err(e) => Err(e),
                                Ok((trailing, s)) => match parse_menu(s) {
                                    Err(e) => Err(e),
                                    Ok((menu, s)) => Ok(
                                        (
                                            RowModel {
                                                action,
                                                title,
                                                summary,
                                                lead,
                                                state,
                                                trailing,
                                                menu,
                                            },
                                            s,
                                        ),
                                    ),
                                },
                            },
                        },
                    },
                },
            },
        }
    }

    open spec fn faithful(model: RowModel) -> bool {
        !model.action.is_reserved_spec() && is_own(model.menu)
    }

    proof fn lemma_counted(model: RowModel, total: int) {
        broadcast use {
            wire::group_lengths,
            lemma_lead_len,
            lemma_menu_len,
            lemma_trailing_len,
        };

    }

    proof fn lemma_read_back(model: RowModel, rest: Seq<u8>) {
        broadcast use {
            wire::group_reading,
            lemma_parse_lead,
            lemma_parse_trailing,
            lemma_parse_menu,
        };

    }

    fn add_len(&self, total: usize) -> (result: Result<usize, ProtocolError>) {
        let total: usize = add_encoded_len(total, 7 + ROW_LEAD_LEN)?;
        let total: usize = add_text_len(total, self.title.as_str())?;
        let mut total: usize = add_text_len(total, self.summary.as_str())?;
        if let Some(trailing) = &self.trailing {
            total = add_text_len(total, trailing.as_str())?;
        }
        add_encoded_len(
            total,
            if self.menu.is_some() {
                4
            } else {
                0
            },
        )
    }

    fn write(&self, output: &mut Vec<u8>) {
        broadcast use wire::group_writing;

        push_u32(output, self.action.0);
        push_text(output, self.title.as_str());
        push_text(output, self.summary.as_str());
        push_row_lead(output, self.lead);
        push_row_state(output, self.state);
        push_trailing(output, &self.trailing);
        push_menu(output, self.menu);
    }

    fn read(reader: &mut Reader<'_>) -> (result: Result<Row, ProtocolError>) {
        let action = read_own_action(reader)?;
        let title = reader.string()?;
        let summary = reader.string()?;
        let lead = read_row_lead(reader)?;
        let state = read_row_state(reader)?;
        let trailing = read_trailing(reader)?;
        let menu = read_menu(reader)?;
        Ok(Row { action, title, summary, lead, state, trailing, menu })
    }
}

// ---------------------------------------------------------------------------
// Tiles.

pub open spec fn tile_state_tag(state: TileState) -> u8 {
    match state {
        TileState::Normal => 0,
        TileState::Held => 1,
        TileState::Unavailable => 2,
        TileState::Busy => 3,
    }
}

pub open spec fn parse_tile_state(s: Seq<u8>) -> wire::Parsed<TileState> {
    match wire::parse_u8(s) {
        Err(e) => Err(e),
        Ok((tag, s)) => if tag == 0 {
            Ok((TileState::Normal, s))
        } else if tag == 1 {
            Ok((TileState::Held, s))
        } else if tag == 2 {
            Ok((TileState::Unavailable, s))
        } else if tag == 3 {
            Ok((TileState::Busy, s))
        } else {
            Err(ProtocolError::InvalidValue("tile state"))
        },
    }
}

fn push_tile_state(output: &mut Vec<u8>, state: TileState)
    ensures
        final(output)@ == old(output)@ + seq![tile_state_tag(state)],
{
    push_u8(
        output,
        match state {
            TileState::Normal => 0,
            TileState::Held => 1,
            TileState::Unavailable => 2,
            TileState::Busy => 3,
        },
    );
}

fn read_tile_state(reader: &mut Reader<'_>) -> (result: Result<TileState, ProtocolError>)
    ensures
        wire::yields(result, final(reader)@, parse_tile_state(old(reader)@)),
{
    let tag: u8 = reader.u8()?;
    match tag {
        0 => Ok(TileState::Normal),
        1 => Ok(TileState::Held),
        2 => Ok(TileState::Unavailable),
        3 => Ok(TileState::Busy),
        _ => Err(ProtocolError::InvalidValue("tile state")),
    }
}

/// A picture reference that may be missing.
pub open spec fn cover_bytes(cover: Option<TilePicture>) -> Seq<u8> {
    match cover {
        None => seq![0u8],
        Some(picture) => seq![1u8] + picture_bytes(picture),
    }
}

pub open spec fn parse_cover(s: Seq<u8>) -> wire::Parsed<Option<TilePicture>> {
    match wire::parse_u8(s) {
        Err(e) => Err(e),
        Ok((flag, s)) => if flag == 0 {
            Ok((None, s))
        } else if flag == 1 {
            match parse_picture(s) {
                Err(e) => Err(e),
                Ok((picture, s)) => Ok((Some(picture), s)),
            }
        } else {
            Err(ProtocolError::InvalidValue("tile picture flag"))
        },
    }
}

fn push_cover(output: &mut Vec<u8>, cover: Option<TilePicture>)
    ensures
        final(output)@ == old(output)@ + cover_bytes(cover),
{
    broadcast use wire::group_writing;

    match cover {
        None => push_u8(output, 0),
        Some(picture) => {
            push_u8(output, 1);
            push_picture(output, picture);
        },
    }
}

fn read_cover(reader: &mut Reader<'_>) -> (result: Result<Option<TilePicture>, ProtocolError>)
    ensures
        wire::yields(result, final(reader)@, parse_cover(old(reader)@)),
{
    let flag: u8 = reader.u8()?;
    match flag {
        0 => Ok(None),
        1 => {
            let picture = read_picture(reader)?;
            Ok(Some(picture))
        },
        _ => Err(ProtocolError::InvalidValue("tile picture flag")),
    }
}

impl Wire for Tile {
    open spec fn bytes(model: TileModel) -> Seq<u8> {
        wire::be32(model.action.0) + wire::text_bytes(model.label) + seq![glyph::glyph_tag(
            model.glyph,
        )] + seq![tile_state_tag(model.state)] + wire::text_bytes(model.badge) + wire::text_bytes(
            model.subtitle,
        ) + cover_bytes(model.picture)
    }

    open spec fn fits(model: TileModel) -> bool {
        &&& wire::text_fits(model.label)
        &&& wire::text_fits(model.badge)
        &&& wire::text_fits(model.subtitle)
    }

    open spec fn grown(model: TileModel, total: int) -> Result<int, ProtocolError> {
        wire::grown(
            wire::grown_text(
                wire::grown_text(
                    wire::grown_text(wire::grown(Ok(total), 7), model.label),
                    model.badge,
                ),
                model.subtitle,
            ),
            if model.picture is Some {
                12
            } else {
                0
            },
        )
    }

    open spec fn parse(s: Seq<u8>) -> wire::Parsed<TileModel> {
        match parse_own_action(s) {
            Err(e) => Err(e),
            Ok((action, s)) => match wire::parse_text(s) {
                Err(e) => Err(e),
                Ok((label, s)) => match parse_glyph(s, "tile glyph") {
                    Err(e) => Err(e),
                    Ok((glyph, s)) => match parse_tile_state(s) {
                        Err(e) => Err(e),
                        Ok((state, s)) => match wire::parse_text(s) {
                            Err(e) => Err(e),
                            Ok((badge, s)) => match wire::parse_text(s) {
                                Err(e) => Err(e),
                                Ok((subtitle, s)) => match parse_cover(s) {
                                    Err(e) => Err(e),
                                    Ok((picture, s)) => Ok(
                                        (
                                            TileModel {
                                                action,
                                                label,
                                                glyph,
                                                picture,
                                                state,
                                                badge,
                                                subtitle,
                                            },
                                            s,
                                        ),
                                    ),
                                },
                            },
                        },
                    },
                },
            },
        }
    }

    open spec fn faithful(model: TileModel) -> bool {
        !model.action.is_reserved_spec()
    }

    proof fn lemma_counted(model: TileModel, total: int) {
        broadcast use {wire::group_lengths, lemma_picture_len};

    }

    proof fn lemma_read_back(model: TileModel, rest: Seq<u8>) {
        broadcast use {wire::group_reading, lemma_parse_glyph, lemma_parse_picture};

    }

    fn add_len(&self, total: usize) -> (result: Result<usize, ProtocolError>) {
        let total: usize = add_encoded_len(total, 7)?;
        let total: usize = add_text_len(total, self.label.as_str())?;
        let total: usize = add_text_len(total, self.badge.as_str())?;
        let total: usize = add_text_len(total, self.subtitle.as_str())?;
        add_encoded_len(
            total,
            if self.picture.is_some() {
                12
            } else {
                0
            },
        )
    }

    fn write(&self, output: &mut Vec<u8>) {
        broadcast use wire::group_writing;

        push_u32(output, self.action.0);
        push_text(output, self.label.as_str());
        push_u8(output, encode_glyph(self.glyph));
        push_tile_state(output, self.state);
        push_text(output, self.badge.as_str());
        push_text(output, self.subtitle.as_str());
        push_cover(output, self.picture);
    }

    fn read(reader: &mut Reader<'_>) -> (result: Result<Tile, ProtocolError>) {
        let action = read_own_action(reader)?;
        let label = reader.string()?;
        let glyph = read_glyph(reader, "tile glyph")?;
        let state = read_tile_state(reader)?;
        let badge = reader.string()?;
        let subtitle = reader.string()?;
        let picture = read_cover(reader)?;
        Ok(Tile { action, label, glyph, picture, state, badge, subtitle })
    }
}

// ---------------------------------------------------------------------------
// Table rows.

impl Wire for TableRow {
    open spec fn bytes(model: TableRowModel) -> Seq<u8> {
        seq![wire::flag_byte(model.header)] + seq![model.cells.len() as u8]
            + item::bytes_of_all::<String>(model.cells)
    }

    open spec fn fits(model: TableRowModel) -> bool {
        model.cells.len() <= 255 && item::all_fit::<String>(model.cells)
    }

    open spec fn grown(model: TableRowModel, total: int) -> Result<int, ProtocolError> {
        if model.cells.len() > 255 {
            Err(ProtocolError::TooManyNodes)
        } else {
            item::grown_by_all::<String>(model.cells, wire::grown(Ok(total), 2))
        }
    }

    open spec fn parse(s: Seq<u8>) -> wire::Parsed<TableRowModel> {
        match wire::parse_flag(s, "table heading flag") {
            Err(e) => Err(e),
            Ok((header, s)) => match wire::parse_u8(s) {
                Err(e) => Err(e),
                Ok((count, s)) => match item::parse_all::<String>(s, count as nat) {
                    Err(e) => Err(e),
                    Ok((cells, s)) => Ok((TableRowModel { header, cells }, s)),
                },
            },
        }
    }

    open spec fn faithful(model: TableRowModel) -> bool {
        true
    }

    proof fn lemma_counted(model: TableRowModel, total: int) {
        item::lemma_all_counted::<String>(model.cells, total + 2);
    }

    proof fn lemma_read_back(model: TableRowModel, rest: Seq<u8>) {
        broadcast use wire::group_reading;

        item::lemma_all_read_back::<String>(model.cells, rest);
    }

    fn add_len(&self, total: usize) -> (result: Result<usize, ProtocolError>) {
        if self.cells.len() > 255 {
            return Err(ProtocolError::TooManyNodes);
        }
        let total: usize = add_encoded_len(total, 2)?;
        add_all_len(&self.cells, total)
    }

    fn write(&self, output: &mut Vec<u8>) {
        broadcast use wire::group_writing;

        push_flag(output, self.header);
        push_u8(output, self.cells.len() as u8);
        write_all(output, &self.cells);
    }

    fn read(reader: &mut Reader<'_>) -> (result: Result<TableRow, ProtocolError>) {
        let header = reader.flag("table heading flag")?;
        let count: usize = reader.u8()? as usize;
        let cells = read_all::<String>(reader, count)?;
        Ok(TableRow { header, cells })
    }
}

// ---------------------------------------------------------------------------
// Pairs.

impl Wire for (String, String) {
    open spec fn bytes(model: (Seq<char>, Seq<char>)) -> Seq<u8> {
        wire::text_bytes(model.0) + wire::text_bytes(model.1)
    }

    open spec fn fits(model: (Seq<char>, Seq<char>)) -> bool {
        wire::text_fits(model.0) && wire::text_fits(model.1)
    }

    open spec fn grown(model: (Seq<char>, Seq<char>), total: int) -> Result<int, ProtocolError> {
        wire::grown_text(wire::grown_text(Ok(total), model.0), model.1)
    }

    open spec fn parse(s: Seq<u8>) -> wire::Parsed<(Seq<char>, Seq<char>)> {
        match wire::parse_text(s) {
            Err(e) => Err(e),
            Ok((first, s)) => match wire::parse_text(s) {
                Err(e) => Err(e),
                Ok((second, s)) => Ok(((first, second), s)),
            },
        }
    }

    open spec fn faithful(model: (Seq<char>, Seq<char>)) -> bool {
        true
    }

    proof fn lemma_counted(model: (Seq<char>, Seq<char>), total: int) {
        broadcast use wire::group_lengths;

    }

    proof fn lemma_read_back(model: (Seq<char>, Seq<char>), rest: Seq<u8>) {
        broadcast use wire::group_reading;

    }

    fn add_len(&self, total: usize) -> (result: Result<usize, ProtocolError>) {
        let total: usize = add_text_len(total, self.0.as_str())?;
        add_text_len(total, self.1.as_str())
    }

    fn write(&self, output: &mut Vec<u8>) {
        broadcast use wire::group_writing;

        push_text(output, self.0.as_str());
        push_text(output, self.1.as_str());
    }

    fn read(reader: &mut Reader<'_>) -> (result: Result<(String, String), ProtocolError>) {
        let first = reader.string()?;
        let second = reader.string()?;
        Ok((first, second))
    }
}

impl Wire for (String, u32) {
    open spec fn bytes(model: (Seq<char>, u32)) -> Seq<u8> {
        wire::text_bytes(model.0) + wire::be32(model.1)
    }

    open spec fn fits(model: (Seq<char>, u32)) -> bool {
        wire::text_fits(model.0)
    }

    open spec fn grown(model: (Seq<char>, u32), total: int) -> Result<int, ProtocolError> {
        wire::grown(wire::grown_text(Ok(total), model.0), 4)
    }

    open spec fn parse(s: Seq<u8>) -> wire::Parsed<(Seq<char>, u32)> {
        match wire::parse_text(s) {
            Err(e) => Err(e),
            Ok((name, s)) => match wire::parse_u32(s) {
                Err(e) => Err(e),
                Ok((size, s)) => Ok(((name, size), s)),
            },
        }
    }

    open spec fn faithful(model: (Seq<char>, u32)) -> bool {
        true
    }

    proof fn lemma_counted(model: (Seq<char>, u32), total: int) {
        broadcast use wire::group_lengths;

    }

    proof fn lemma_read_back(model: (Seq<char>, u32), rest: Seq<u8>) {
        broadcast use wire::group_reading;

    }

    fn add_len(&self, total: usize) -> (result: Result<usize, ProtocolError>) {
        let total: usize = add_text_len(total, self.0.as_str())?;
        add_encoded_len(total, 4)
    }

    fn write(&self, output: &mut Vec<u8>) {
        broadcast use wire::group_writing;

        push_text(output, self.0.as_str());
        push_u32(output, self.1);
    }

    fn read(reader: &mut Reader<'_>) -> (result: Result<(String, u32), ProtocolError>) {
        let name = reader.string()?;
        let size: u32 = reader.u32()?;
        Ok((name, size))
    }
}

} // verus!
