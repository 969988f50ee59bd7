//! The wire forms of what a paragraph carries besides its words: styled spans,
//! links, typeset formulas and how it is set.

use vstd::prelude::*;
use vstd::utf8::*;

use crate::error::ProtocolError;
use crate::item;
use crate::item::Wire;
use crate::limits::MAX_INLINE_FORMULAE;
use crate::ui::{
    ActionId, InlineFormula, ParagraphAlignment, ParagraphPresentation, PictureHandle,
    RichTextSpan, TextLink, TextPresentation, TextSelection,
};
use crate::wire;
use crate::wire::{
    add_encoded_len,
    byte_len,
    half_bits,
    push_u16,
    push_u32,
    push_u64,
    push_u8,
    signed_half,
    Reader,
};

verus! {

/// Whether `start..end` is a non-empty run of whole characters of a text.
pub open spec fn is_run(text: Seq<char>, start: int, end: int) -> bool {
    &&& start < end
    &&& end <= wire::utf8_len(text)
    &&& is_char_boundary(encode_utf8(text), start)
    &&& is_char_boundary(encode_utf8(text), end)
}

/// Whether `start..end` is a run of whole characters of `text`.
pub fn names_run(text: &str, start: usize, end: usize) -> (named: bool)
    ensures
        named == is_run(text@, start as int, end as int),
{
    start < end && end <= byte_len(text) && text.is_char_boundary(start) && text.is_char_boundary(
        end,
    )
}

/// An offset as the wire carries it.
pub open spec fn clipped(offset: usize) -> u32 {
    if offset <= u32::MAX {
        offset as u32
    } else {
        u32::MAX
    }
}

fn clip(offset: usize) -> (word: u32)
    ensures
        word == clipped(offset),
{
    if offset <= u32::MAX as usize {
        offset as u32
    } else {
        u32::MAX
    }
}

// ---------------------------------------------------------------------------
// Links.

impl View for TextLink {
    type V = TextLink;

    open spec fn view(&self) -> TextLink {
        *self
    }
}

impl Wire for TextLink {
    open spec fn bytes(model: TextLink) -> Seq<u8> {
        wire::be32(model.action.0) + wire::be32(clipped(model.start)) + wire::be32(
            clipped(model.end),
        )
    }

    open spec fn fits(model: TextLink) -> bool {
        true
    }

    open spec fn grown(model: TextLink, total: int) -> Result<int, ProtocolError> {
        wire::grown(Ok(total), 12)
    }

    open spec fn parse(s: Seq<u8>) -> wire::Parsed<TextLink> {
        match wire::parse_u32(s) {
            Err(e) => Err(e),
            Ok((action, s)) => match wire::parse_u32(s) {
                Err(e) => Err(e),
                Ok((start, s)) => match wire::parse_u32(s) {
                    Err(e) => Err(e),
                    Ok((end, s)) => Ok(
                        (
                            TextLink {
                                action: ActionId(action),
                                start: start as usize,
                                end: end as usize,
                            },
                            s,
                        ),
                    ),
                },
            },
        }
    }

    open spec fn faithful(model: TextLink) -> bool {
        model.start <= u32::MAX && model.end <= u32::MAX
    }

    proof fn lemma_counted(model: TextLink, total: int) {
        broadcast use wire::group_lengths;

    }

    proof fn lemma_read_back(model: TextLink, rest: Seq<u8>) {
        broadcast use wire::group_reading;

    }

    fn add_len(&self, total: usize) -> (result: Result<usize, ProtocolError>) {
        add_encoded_len(total, 12)
    }

    fn write(&self, output: &mut Vec<u8>) {
        broadcast use wire::group_writing;

        push_u32(output, self.action.0);
        push_u32(output, clip(self.start));
        push_u32(output, clip(self.end));
    }

    fn read(reader: &mut Reader<'_>) -> (result: Result<TextLink, ProtocolError>) {
        let action = ActionId(reader.u32()?);
        let start: usize = reader.u32()? as usize;
        let end: usize = reader.u32()? as usize;
        Ok(TextLink { action, start, end })
    }
}

/// Whether a link lands on the text it belongs to.
pub open spec fn link_lands(text: Seq<char>) -> spec_fn(TextLink) -> bool {
    |link: TextLink| is_run(text, link.start as int, link.end as int)
}

/// Whether every link lands on the text it belongs to.
pub open spec fn links_land(links: Seq<TextLink>, text: Seq<char>) -> bool {
    forall|i: int| 0 <= i < links.len() ==> link_lands(text)(#[trigger] links[i])
}

/// The links of a text that land on it, in order.
pub open spec fn landed_links(links: Seq<TextLink>, text: Seq<char>) -> Seq<TextLink> {
    links.filter(link_lands(text))
}

/// The first `count` of a run, or all of it.
pub open spec fn at_most<T>(list: Seq<T>, count: int) -> Seq<T> {
    if list.len() <= count {
        list
    } else {
        list.take(count)
    }
}

/// Keeps the links that land on `text`, and no more than `limit` of them.
pub fn keep_links(links: &Vec<TextLink>, text: &str, limit: usize) -> (kept: Vec<TextLink>)
    ensures
        kept@ == at_most(landed_links(links@, text@), limit as int),
{
    let mut kept: Vec<TextLink> = Vec::new();
    let mut index: usize = 0;
    let ghost lands = link_lands(text@);
    assert(links@.take(0).filter(lands) =~= Seq::empty()) by {
        reveal(Seq::filter);
    }
    while index < links.len()
        invariant
            index <= links@.len(),
            lands == link_lands(text@),
            kept@ == at_most(links@.take(index as int).filter(lands), limit as int),
        decreases links@.len() - index,
    {
        let link = links[index];
        proof {
            let before = links@.take(index as int);
            let next = links@.take(index + 1);
            assert(next.drop_last() =~= before);
            assert(next.last() == link);
            reveal(Seq::filter);
            assert(next.filter(lands) == if lands(link) {
                before.filter(lands).push(link)
            } else {
                before.filter(lands)
            });
        }
        if names_run(text, link.start, link.end) && kept.len() < limit {
            kept.push(link);
        }
        index = index + 1;
        assert(kept@ =~= at_most(links@.take(index as int).filter(lands), limit as int));
    }
    assert(links@.take(links@.len() as int) =~= links@);
    kept
}

/// Links that all land are all kept.
pub proof fn lemma_all_links_land(links: Seq<TextLink>, text: Seq<char>)
    requires
        links_land(links, text),
    ensures
        landed_links(links, text) == links,
    decreases links.len(),
{
    reveal(Seq::filter);
    if links.len() > 0 {
        let before = links.drop_last();
        assert forall|i: int| 0 <= i < before.len() implies link_lands(text)(
            #[trigger] before[i],
        ) by {
            assert(before[i] == links[i]);
        }
        lemma_all_links_land(before, text);
        assert(link_lands(text)(links[links.len() - 1]));
        assert(before.push(links.last()) =~= links);
    } else {
        assert(landed_links(links, text) =~= links);
    }
}

// ---------------------------------------------------------------------------
// Styled spans.

/// One bit per style.
pub open spec fn style_byte(style: TextPresentation) -> u8 {
    (wire::flag_byte(style.strong) + 2 * wire::flag_byte(style.emphasis) + 4 * wire::flag_byte(
        style.underline,
    ) + 8 * wire::flag_byte(style.superscript) + 16 * wire::flag_byte(style.subscript) + 32
        * wire::flag_byte(style.highlighted)) as u8
}

pub open spec fn style_of(byte: u8) -> TextPresentation {
    TextPresentation {
        strong: byte % 2 == 1,
        emphasis: (byte / 2) % 2 == 1,
        underline: (byte / 4) % 2 == 1,
        superscript: (byte / 8) % 2 == 1,
        subscript: (byte / 16) % 2 == 1,
        highlighted: (byte / 32) % 2 == 1,
    }
}

/// A style is the one its byte stands for, and every byte it has is in use.
pub proof fn lemma_style_read_back(style: TextPresentation)
    ensures
        style_byte(style) <= 63,
        style_of(style_byte(style)) == style,
{
}

fn bit(flag: bool) -> (byte: u8)
    ensures
        byte == wire::flag_byte(flag),
{
    if flag {
        1
    } else {
        0
    }
}

pub fn text_presentation_byte(style: TextPresentation) -> (byte: u8)
    ensures
        byte == style_byte(style),
{
    bit(style.strong) + 2 * bit(style.emphasis) + 4 * bit(style.underline) + 8 * bit(
        style.superscript,
    ) + 16 * bit(style.subscript) + 32 * bit(style.highlighted)
}

pub fn text_presentation_from_byte(byte: u8) -> (result: Result<TextPresentation, ProtocolError>)
    ensures
        result == (if byte <= 63 {
            Ok(style_of(byte))
        } else {
            Err(ProtocolError::InvalidValue("rich text style"))
        }),
{
    if byte > 63 {
        return Err(ProtocolError::InvalidValue("rich text style"));
    }
    Ok(
        TextPresentation {
            strong: byte % 2 == 1,
            emphasis: (byte / 2) % 2 == 1,
            underline: (byte / 4) % 2 == 1,
            superscript: (byte / 8) % 2 == 1,
            subscript: (byte / 16) % 2 == 1,
            highlighted: (byte / 32) % 2 == 1,
        },
    )
}

impl View for RichTextSpan {
    type V = RichTextSpan;

    open spec fn view(&self) -> RichTextSpan {
        *self
    }
}

impl Wire for RichTextSpan {
    open spec fn bytes(model: RichTextSpan) -> Seq<u8> {
        wire::be32(clipped(model.start)) + wire::be32(clipped(model.end)) + seq![style_byte(
            model.presentation,
        )]
    }

    open spec fn fits(model: RichTextSpan) -> bool {
        true
    }

    open spec fn grown(model: RichTextSpan, total: int) -> Result<int, ProtocolError> {
        wire::grown(Ok(total), 9)
    }

    open spec fn parse(s: Seq<u8>) -> wire::Parsed<RichTextSpan> {
        match wire::parse_u32(s) {
            Err(e) => Err(e),
            Ok((start, s)) => match wire::parse_u32(s) {
                Err(e) => Err(e),
                Ok((end, s)) => match wire::parse_u8(s) {
                    Err(e) => Err(e),
                    Ok((style, s)) => if style <= 63 {
                        Ok(
                            (
                                RichTextSpan {
                                    start: start as usize,
                                    end: end as usize,
                                    presentation: style_of(style),
                                },
                                s,
                            ),
                        )
                    } else {
                        Err(ProtocolError::InvalidValue("rich text style"))
                    },
                },
            },
        }
    }

    open spec fn faithful(model: RichTextSpan) -> bool {
        model.start <= u32::MAX && model.end <= u32::MAX
    }

    proof fn lemma_counted(model: RichTextSpan, total: int) {
        broadcast use wire::group_lengths;

    }

    proof fn lemma_read_back(model: RichTextSpan, rest: Seq<u8>) {
        broadcast use wire::group_reading;

        lemma_style_read_back(model.presentation);
    }

    fn add_len(&self, total: usize) -> (result: Result<usize, ProtocolError>) {
        add_encoded_len(total, 9)
    }

    fn write(&self, output: &mut Vec<u8>) {
        broadcast use wire::group_writing;

        push_u32(output, clip(self.start));
        push_u32(output, clip(self.end));
        push_u8(output, text_presentation_byte(self.presentation));
    }

    fn read(reader: &mut Reader<'_>) -> (result: Result<RichTextSpan, ProtocolError>) {
        let start: usize = reader.u32()? as usize;
        let end: usize = reader.u32()? as usize;
        let style: u8 = reader.u8()?;
        let presentation = text_presentation_from_byte(style)?;
        Ok(RichTextSpan { start, end, presentation })
    }
}

/// Whether every span is a run of the text it styles.
pub open spec fn spans_land(spans: Seq<RichTextSpan>, text: Seq<char>) -> bool {
    forall|i: int|
        0 <= i < spans.len() ==> is_run(
            text,
            (#[trigger] spans[i]).start as int,
            spans[i].end as int,
        )
}

/// What reading `count` spans of a text makes of bytes: one that is no run of
/// the text is refused before the next is looked at.
pub open spec fn parse_spans(s: Seq<u8>, count: nat, text: Seq<char>) -> wire::Parsed<
    Seq<RichTextSpan>,
>
    decreases count,
{
    if count == 0 {
        Ok((Seq::empty(), s))
    } else {
        match RichTextSpan::parse(s) {
            Err(e) => Err(e),
            Ok((span, s)) => if is_run(text, span.start as int, span.end as int) {
                item::after(seq![span], parse_spans(s, (count - 1) as nat, text))
            } else {
                Err(ProtocolError::InvalidValue("rich text span"))
            },
        }
    }
}

pub proof fn lemma_spans_read_back(spans: Seq<RichTextSpan>, rest: Seq<u8>, text: Seq<char>)
    requires
        spans_land(spans, text),
        item::all_faithful::<RichTextSpan>(spans),
    ensures
        parse_spans(item::bytes_of_all::<RichTextSpan>(spans) + rest, spans.len(), text) == Ok::<
            (Seq<RichTextSpan>, Seq<u8>),
            ProtocolError,
        >((spans, rest)),
    decreases spans.len(),
{
    broadcast use {wire::lemma_concat_to_the_right, wire::lemma_nothing_concat};

    if spans.len() > 0 {
        let tail = spans.drop_first();
        assert forall|i: int| 0 <= i < tail.len() implies is_run(
            text,
            (#[trigger] tail[i]).start as int,
            tail[i].end as int,
        ) && RichTextSpan::faithful(tail[i]) by {
            assert(tail[i] == spans[i + 1]);
        }
        lemma_spans_read_back(tail, rest, text);
        RichTextSpan::lemma_read_back(
            spans[0],
            item::bytes_of_all::<RichTextSpan>(tail) + rest,
        );
        assert(is_run(text, spans[0].start as int, spans[0].end as int));
        assert(seq![spans[0]] + tail =~= spans);
    } else {
        assert(spans =~= Seq::empty());
    }
}

/// Whether every span lands on `text`.
pub fn all_spans_land(spans: &Vec<RichTextSpan>, text: &str) -> (land: bool)
    ensures
        land == spans_land(spans@, text@),
{
    let mut index: usize = 0;
    while index < spans.len()
        invariant
            index <= spans@.len(),
            spans_land(spans@.take(index as int), text@),
        decreases spans@.len() - index,
    {
        let span = spans[index];
        if !names_run(text, span.start, span.end) {
            assert(
                !is_run(text@, spans@[index as int].start as int, spans@[index as int].end as int)
            );
            return false;
        }
        index = index + 1;
        assert forall|i: int| 0 <= i < index implies is_run(
            text@,
            (#[trigger] spans@.take(index as int)[i]).start as int,
            spans@.take(index as int)[i].end as int,
        ) by {
            if i < index - 1 {
                assert(spans@.take(index as int)[i] == spans@.take(index - 1)[i]);
            }
        }
    }
    assert(spans@.take(spans@.len() as int) =~= spans@);
    true
}

pub fn read_spans(reader: &mut Reader<'_>, count: usize, text: &str) -> (result: Result<
    Vec<RichTextSpan>,
    ProtocolError,
>)
    ensures
        reads_plain(result, final(reader)@, parse_spans(old(reader)@, count as nat, text@)),
{
    let mut spans: Vec<RichTextSpan> = Vec::new();
    let mut index: usize = 0;
    proof {
        let parsed = parse_spans(reader@, count as nat, text@);
        if parsed is Ok {
            assert(spans@ + parsed->Ok_0.0 =~= parsed->Ok_0.0);
        }
    }
    while index < count
        invariant
            index <= count,
            parse_spans(old(reader)@, count as nat, text@) == item::after(
                spans@,
                parse_spans(reader@, (count - index) as nat, text@),
            ),
        decreases count - index,
    {
        let ghost before = spans@;
        let span = RichTextSpan::read(reader)?;
        if !names_run(text, span.start, span.end) {
            return Err(ProtocolError::InvalidValue("rich text span"));
        }
        spans.push(span);
        index = index + 1;
        proof {
            let later = parse_spans(reader@, (count - index) as nat, text@);
            if later is Ok {
                assert(before + (seq![span] + later->Ok_0.0) =~= spans@ + later->Ok_0.0);
            }
        }
    }
    assert(spans@ + Seq::empty() =~= spans@);
    Ok(spans)
}

/// Whether a read of plain values did what its model says.
pub open spec fn reads_plain<T>(
    result: Result<Vec<T>, ProtocolError>,
    left: Seq<u8>,
    parsed: wire::Parsed<Seq<T>>,
) -> bool {
    match (result, parsed) {
        (Ok(values), Ok((list, rest))) => values@ == list && left == rest,
        (Err(error), Err(expected)) => error == expected,
        _ => false,
    }
}

// ---------------------------------------------------------------------------
// Typeset formulas.

impl View for InlineFormula {
    type V = InlineFormula;

    open spec fn view(&self) -> InlineFormula {
        *self
    }
}

impl Wire for InlineFormula {
    open spec fn bytes(model: InlineFormula) -> Seq<u8> {
        wire::be32(model.handle.0) + wire::be32(clipped(model.start)) + wire::be32(
            clipped(model.end),
        ) + wire::be32(model.source.0) + wire::be32(model.source.1)
    }

    open spec fn fits(model: InlineFormula) -> bool {
        true
    }

    open spec fn grown(model: InlineFormula, total: int) -> Result<int, ProtocolError> {
        wire::grown(Ok(total), 20)
    }

    open spec fn parse(s: Seq<u8>) -> wire::Parsed<InlineFormula> {
        match wire::parse_u32(s) {
            Err(e) => Err(e),
            Ok((handle, s)) => match wire::parse_u32(s) {
                Err(e) => Err(e),
                Ok((start, s)) => match wire::parse_u32(s) {
                    Err(e) => Err(e),
                    Ok((end, s)) => match wire::parse_u32(s) {
                        Err(e) => Err(e),
                        Ok((width, s)) => match wire::parse_u32(s) {
                            Err(e) => Err(e),
                            Ok((height, s)) => Ok(
                                (
                                    InlineFormula {
                                        start: start as usize,
                                        end: end as usize,
                                        handle: PictureHandle(handle),
                                        source: (width, height),
                                    },
                                    s,
                                ),
                            ),
                        },
                    },
                },
            },
        }
    }

    open spec fn faithful(model: InlineFormula) -> bool {
        model.start <= u32::MAX && model.end <= u32::MAX
    }

    proof fn lemma_counted(model: InlineFormula, total: int) {
        broadcast use wire::group_lengths;

    }

    proof fn lemma_read_back(model: InlineFormula, rest: Seq<u8>) {
        broadcast use wire::group_reading;

    }

    fn add_len(&self, total: usize) -> (result: Result<usize, ProtocolError>) {
        add_encoded_len(total, 20)
    }

    fn write(&self, output: &mut Vec<u8>) {
        broadcast use wire::group_writing;

        push_u32(output, self.handle.0);
        push_u32(output, clip(self.start));
        push_u32(output, clip(self.end));
        push_u32(output, self.source.0);
        push_u32(output, self.source.1);
    }

    fn read(reader: &mut Reader<'_>) -> (result: Result<InlineFormula, ProtocolError>) {
        let handle = PictureHandle(reader.u32()?);
        let start: usize = reader.u32()? as usize;
        let end: usize = reader.u32()? as usize;
        let width: u32 = reader.u32()?;
        let height: u32 = reader.u32()?;
        Ok(InlineFormula { start, end, handle, source: (width, height) })
    }
}

/// Whether every formula is a run of the text it is drawn over.
pub open spec fn formulae_land(formulae: Seq<InlineFormula>, text: Seq<char>) -> bool {
    forall|i: int|
        0 <= i < formulae.len() ==> is_run(
            text,
            (#[trigger] formulae[i]).start as int,
            formulae[i].end as int,
        )
}

/// Whether a formula is drawn after those already kept: it lands on the text,
/// begins where none of them reaches, and there is room for it.
pub open spec fn formula_joins(
    kept: Seq<InlineFormula>,
    formula: InlineFormula,
    text: Seq<char>,
) -> bool {
    &&& is_run(text, formula.start as int, formula.end as int)
    &&& kept.len() < MAX_INLINE_FORMULAE
    &&& kept.len() > 0 ==> kept.last().end <= formula.start
}

/// The formulas that are drawn, taken in order.
pub open spec fn joined_formulae(
    kept: Seq<InlineFormula>,
    formulae: Seq<InlineFormula>,
    text: Seq<char>,
) -> Seq<InlineFormula>
    decreases formulae.len(),
{
    if formulae.len() == 0 {
        kept
    } else if formula_joins(kept, formulae[0], text) {
        joined_formulae(kept.push(formulae[0]), formulae.drop_first(), text)
    } else {
        joined_formulae(kept, formulae.drop_first(), text)
    }
}

/// Whether formulas are in order, clear of each other and few enough to draw.
pub open spec fn formulae_in_order(formulae: Seq<InlineFormula>, text: Seq<char>) -> bool {
    &&& formulae.len() <= MAX_INLINE_FORMULAE
    &&& formulae_land(formulae, text)
    &&& forall|i: int|
        1 <= i < formulae.len() ==> formulae[i - 1].end <= (#[trigger] formulae[i]).start
}

proof fn lemma_formulae_join_from(formulae: Seq<InlineFormula>, from: int, text: Seq<char>)
    requires
        formulae_in_order(formulae, text),
        0 <= from <= formulae.len(),
    ensures
        joined_formulae(formulae.take(from), formulae.skip(from), text) == formulae,
    decreases formulae.len() - from,
{
    if from < formulae.len() {
        let formula = formulae[from];
        assert(formulae.skip(from)[0] == formula);
        assert(is_run(text, formulae[from].start as int, formulae[from].end as int));
        assert(formulae.take(from).push(formula) =~= formulae.take(from + 1));
        assert(formulae.skip(from).drop_first() =~= formulae.skip(from + 1));
        lemma_formulae_join_from(formulae, from + 1, text);
    } else {
        assert(formulae.take(from) =~= formulae);
    }
}

/// Formulas that are in order are all drawn.
pub proof fn lemma_all_formulae_join(formulae: Seq<InlineFormula>, text: Seq<char>)
    requires
        formulae_in_order(formulae, text),
    ensures
        joined_formulae(Seq::empty(), formulae, text) == formulae,
{
    lemma_formulae_join_from(formulae, 0, text);
    assert(formulae.take(0) =~= Seq::empty());
    assert(formulae.skip(0) =~= formulae);
}

/// Keeps the formulas that can be drawn over `text`.
pub fn keep_formulae(formulae: &Vec<InlineFormula>, text: &str) -> (kept: Vec<InlineFormula>)
    ensures
        kept@ == joined_formulae(Seq::empty(), formulae@, text@),
{
    let mut kept: Vec<InlineFormula> = Vec::new();
    let mut index: usize = 0;
    assert(formulae@.skip(0) =~= formulae@);
    while index < formulae.len()
        invariant
            index <= formulae@.len(),
            joined_formulae(Seq::empty(), formulae@, text@) == joined_formulae(
                kept@,
                formulae@.skip(index as int),
                text@,
            ),
        decreases formulae@.len() - index,
    {
        let formula = formulae[index];
        assert(formulae@.skip(index as int)[0] == formula);
        assert(formulae@.skip(index as int).drop_first() =~= formulae@.skip(index + 1));
        if names_run(text, formula.start, formula.end) && kept.len() < MAX_INLINE_FORMULAE && (
        kept.len() == 0 || kept[kept.len() - 1].end <= formula.start) {
            kept.push(formula);
        }
        index = index + 1;
    }
    kept
}

/// Whether the first `count` formulas all land on `text`.
pub fn first_formulae_land(formulae: &Vec<InlineFormula>, count: usize, text: &str) -> (land: bool)
    requires
        count <= formulae@.len(),
    ensures
        land == formulae_land(formulae@.take(count as int), text@),
{
    let mut index: usize = 0;
    let ghost first = formulae@.take(count as int);
    while index < count
        invariant
            index <= count <= formulae@.len(),
            first == formulae@.take(count as int),
            forall|i: int|
                0 <= i < index ==> is_run(
                    text@,
                    (#[trigger] first[i]).start as int,
                    first[i].end as int,
                ),
        decreases count - index,
    {
        let formula = formulae[index];
        assert(first[index as int] == formula);
        if !names_run(text, formula.start, formula.end) {
            return false;
        }
        index = index + 1;
    }
    true
}

// ---------------------------------------------------------------------------
// How a paragraph is set.

pub open spec fn alignment_tag(alignment: ParagraphAlignment) -> u8 {
    match alignment {
        ParagraphAlignment::Start => 0,
        ParagraphAlignment::Center => 1,
        ParagraphAlignment::End => 2,
        ParagraphAlignment::Justify => 3,
    }
}

pub open spec fn parse_alignment(s: Seq<u8>) -> wire::Parsed<ParagraphAlignment> {
    match wire::parse_u8(s) {
        Err(e) => Err(e),
        Ok((tag, s)) => if tag == 0 {
            Ok((ParagraphAlignment::Start, s))
        } else if tag == 1 {
            Ok((ParagraphAlignment::Center, s))
        } else if tag == 2 {
            Ok((ParagraphAlignment::End, s))
        } else if tag == 3 {
            Ok((ParagraphAlignment::Justify, s))
        } else {
            Err(ProtocolError::InvalidValue("paragraph alignment"))
        },
    }
}

/// A value brought within bounds.
pub open spec fn clamped(value: int, low: int, high: int) -> int {
    if value < low {
        low
    } else if value > high {
        high
    } else {
        value
    }
}

pub open spec fn presentation_bytes(presentation: ParagraphPresentation) -> Seq<u8> {
    seq![alignment_tag(presentation.alignment)] + wire::be16(presentation.line_height_percent)
        + wire::be16(presentation.margin_before_em) + wire::be16(presentation.margin_after_em)
        + wire::be16(wire::bits_of_i16(presentation.first_line_indent_em))
}

pub open spec fn parse_presentation(s: Seq<u8>) -> wire::Parsed<ParagraphPresentation> {
    match parse_alignment(s) {
        Err(e) => Err(e),
        Ok((alignment, s)) => match wire::parse_u16(s) {
            Err(e) => Err(e),
            Ok((line_height, s)) => match wire::parse_u16(s) {
                Err(e) => Err(e),
                Ok((before, s)) => match wire::parse_u16(s) {
                    Err(e) => Err(e),
                    Ok((after, s)) => match wire::parse_u16(s) {
                        Err(e) => Err(e),
                        Ok((indent, s)) => Ok(
                            (
                                ParagraphPresentation {
                                    alignment,
                                    line_height_percent: clamped(
                                        line_height as int,
                                        80,
                                        250,
                                    ) as u16,
                                    margin_before_em: clamped(before as int, 0, 2_000) as u16,
                                    margin_after_em: clamped(after as int, 0, 2_000) as u16,
                                    first_line_indent_em: clamped(
                                        wire::i16_of_bits(indent) as int,
                                        -2_000,
                                        2_000,
                                    ) as i16,
                                },
                                s,
                            ),
                        ),
                    },
                },
            },
        },
    }
}

/// Whether a paragraph is set within the bounds a reader of it will keep to.
pub open spec fn presentation_in_bounds(presentation: ParagraphPresentation) -> bool {
    &&& 80 <= presentation.line_height_percent <= 250
    &&& presentation.margin_before_em <= 2_000
    &&& presentation.margin_after_em <= 2_000
    &&& -2_000 <= presentation.first_line_indent_em <= 2_000
}

pub broadcast proof fn lemma_presentation_len(presentation: ParagraphPresentation)
    ensures
        (#[trigger] presentation_bytes(presentation)).len() == 9,
{
    broadcast use wire::group_lengths;

}

pub broadcast proof fn lemma_parse_presentation(
    presentation: ParagraphPresentation,
    rest: Seq<u8>,
)
    requires
        presentation_in_bounds(presentation),
    ensures
        #[trigger] parse_presentation(presentation_bytes(presentation) + rest) == Ok::<
            (ParagraphPresentation, Seq<u8>),
            ProtocolError,
        >((presentation, rest)),
{
    broadcast use wire::group_reading;

}

pub fn push_presentation(output: &mut Vec<u8>, presentation: ParagraphPresentation)
    ensures
        final(output)@ == old(output)@ + presentation_bytes(presentation),
{
    broadcast use wire::group_writing;

    push_u8(
        output,
        match presentation.alignment {
            ParagraphAlignment::Start => 0,
            ParagraphAlignment::Center => 1,
            ParagraphAlignment::End => 2,
            ParagraphAlignment::Justify => 3,
        },
    );
    push_u16(output, presentation.line_height_percent);
    push_u16(output, presentation.margin_before_em);
    push_u16(output, presentation.margin_after_em);
    push_u16(output, half_bits(presentation.first_line_indent_em));
}

fn read_alignment(reader: &mut Reader<'_>) -> (result: Result<ParagraphAlignment, ProtocolError>)
    ensures
        wire::yields(result, final(reader)@, parse_alignment(old(reader)@)),
{
    let tag: u8 = reader.u8()?;
    match tag {
        0 => Ok(ParagraphAlignment::Start),
        1 => Ok(ParagraphAlignment::Center),
        2 => Ok(ParagraphAlignment::End),
        3 => Ok(ParagraphAlignment::Justify),
        _ => Err(ProtocolError::InvalidValue("paragraph alignment")),
    }
}

pub fn read_presentation(reader: &mut Reader<'_>) -> (result: Result<
    ParagraphPresentation,
    ProtocolError,
>)
    ensures
        wire::yields(result, final(reader)@, parse_presentation(old(reader)@)),
{
    let alignment = read_alignment(reader)?;
    let line_height: u16 = reader.u16()?;
    let before: u16 = reader.u16()?;
    let after: u16 = reader.u16()?;
    let indent: i16 = signed_half(reader.u16()?);
    Ok(
        ParagraphPresentation {
            alignment,
            line_height_percent: if line_height < 80 {
                80
            } else if line_height > 250 {
                250
            } else {
                line_height
            },
            margin_before_em: if before > 2_000 {
                2_000
            } else {
                before
            },
            margin_after_em: if after > 2_000 {
                2_000
            } else {
                after
            },
            first_line_indent_em: if indent < -2_000 {
                -2_000
            } else if indent > 2_000 {
                2_000
            } else {
                indent
            },
        },
    )
}

// ---------------------------------------------------------------------------
// Where a selectable paragraph stands in its document.

pub open spec fn selection_bytes(selection: Option<TextSelection>) -> Seq<u8> {
    match selection {
        None => seq![0u8],
        Some(selection) => seq![1u8] + wire::be64(selection.context) + wire::be32(selection.offset),
    }
}

pub open spec fn parse_selection(s: Seq<u8>) -> wire::Parsed<Option<TextSelection>> {
    match wire::parse_u8(s) {
        Err(e) => Err(e),
        Ok((flag, s)) => if flag == 0 {
            Ok((None, s))
        } else if flag == 1 {
            match wire::parse_u64(s) {
                Err(e) => Err(e),
                Ok((context, s)) => match wire::parse_u32(s) {
                    Err(e) => Err(e),
                    Ok((offset, s)) => Ok((Some(TextSelection { context, offset }), s)),
                },
            }
        } else {
            Err(ProtocolError::InvalidValue("text selection flag"))
        },
    }
}

pub broadcast proof fn lemma_selection_len(selection: Option<TextSelection>)
    ensures
        (#[trigger] selection_bytes(selection)).len() == (if selection is Some {
            13int
        } else {
            1int
        }),
{
    broadcast use wire::group_lengths;

}

pub broadcast proof fn lemma_parse_selection(selection: Option<TextSelection>, rest: Seq<u8>)
    ensures
        #[trigger] parse_selection(selection_bytes(selection) + rest) == Ok::<
            (Option<TextSelection>, Seq<u8>),
            ProtocolError,
        >((selection, rest)),
{
    broadcast use wire::group_reading;

}

pub fn push_selection(output: &mut Vec<u8>, selection: Option<TextSelection>)
    ensures
        final(output)@ == old(output)@ + selection_bytes(selection),
{
    broadcast use wire::group_writing;

    match selection {
        None => push_u8(output, 0),
        Some(selection) => {
            push_u8(output, 1);
            push_u64(output, selection.context);
            push_u32(output, selection.offset);
        },
    }
}

pub fn read_selection(reader: &mut Reader<'_>) -> (result: Result<
    Option<TextSelection>,
    ProtocolError,
>)
    ensures
        wire::yields(result, final(reader)@, parse_selection(old(reader)@)),
{
    let flag: u8 = reader.u8()?;
    match flag {
        0 => Ok(None),
        1 => {
            let context: u64 = reader.u64()?;
            let offset: u32 = reader.u32()?;
            Ok(Some(TextSelection { context, offset }))
        },
        _ => Err(ProtocolError::InvalidValue("text selection flag")),
    }
}

} // verus!
