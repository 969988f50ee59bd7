//! Lists whose items are read by rules of their own: the tabs of a screen and
//! the rows of a character grid.

use vstd::prelude::*;
use vstd::string::*;

use crate::error::ProtocolError;
use crate::item;
use crate::limits::{MAX_FRAME_LEN, MAX_TERMINAL_COLUMNS};
use crate::parts;
use crate::parts::read_own_action;
use crate::ui::{Chip, ChipModel};
use crate::wire;
use crate::wire::{add_encoded_len, add_text_len, push_text, push_u32, Reader};

verus! {

// ---------------------------------------------------------------------------
// Tabs: an action and a label each. Which one is current travels beside them.

pub open spec fn tabs_fit(tabs: Seq<ChipModel>) -> bool {
    forall|i: int| 0 <= i < tabs.len() ==> wire::text_fits((#[trigger] tabs[i]).label)
}

/// Whether tabs say nothing that the wire would drop or refuse.
pub open spec fn tabs_faithful(tabs: Seq<ChipModel>) -> bool {
    forall|i: int|
        0 <= i < tabs.len() ==> !(#[trigger] tabs[i]).action.is_reserved_spec()
            && !tabs[i].selected
}

pub open spec fn tabs_bytes(tabs: Seq<ChipModel>) -> Seq<u8>
    decreases tabs.len(),
{
    if tabs.len() == 0 {
        Seq::empty()
    } else {
        (wire::be32(tabs[0].action.0) + wire::text_bytes(tabs[0].label)) + tabs_bytes(
            tabs.drop_first(),
        )
    }
}

pub open spec fn grown_by_tabs(
    tabs: Seq<ChipModel>,
    total: Result<int, ProtocolError>,
) -> Result<int, ProtocolError>
    decreases tabs.len(),
{
    if tabs.len() == 0 {
        total
    } else {
        grown_by_tabs(
            tabs.drop_first(),
            wire::grown_text(wire::grown(total, 4), tabs[0].label),
        )
    }
}

pub open spec fn parse_tab(s: Seq<u8>) -> wire::Parsed<ChipModel> {
    match parts::parse_own_action(s) {
        Err(e) => Err(e),
        Ok((action, s)) => match wire::parse_text(s) {
            Err(e) => Err(e),
            Ok((label, s)) => Ok((ChipModel { action, label, selected: false }, s)),
        },
    }
}

pub open spec fn parse_tabs(s: Seq<u8>, count: nat) -> wire::Parsed<Seq<ChipModel>>
    decreases count,
{
    if count == 0 {
        Ok((Seq::empty(), s))
    } else {
        match parse_tab(s) {
            Err(e) => Err(e),
            Ok((tab, s)) => item::after(seq![tab], parse_tabs(s, (count - 1) as nat)),
        }
    }
}

proof fn lemma_refused_tabs_stay_refused(tabs: Seq<ChipModel>, e: ProtocolError)
    ensures
        grown_by_tabs(tabs, Err(e)) == Err::<int, _>(e),
    decreases tabs.len(),
{
    if tabs.len() > 0 {
        lemma_refused_tabs_stay_refused(tabs.drop_first(), e);
    }
}

pub proof fn lemma_tabs_counted(tabs: Seq<ChipModel>, total: int)
    requires
        grown_by_tabs(tabs, Ok(total)) is Ok,
    ensures
        tabs_fit(tabs),
        grown_by_tabs(tabs, Ok(total)) == Ok::<int, ProtocolError>(
            total + tabs_bytes(tabs).len(),
        ),
    decreases tabs.len(),
{
    broadcast use wire::group_lengths;

    if tabs.len() > 0 {
        let next = wire::grown_text(wire::grown(Ok(total), 4), tabs[0].label);
        if next is Err {
            lemma_refused_tabs_stay_refused(tabs.drop_first(), next->Err_0);
        }
        lemma_tabs_counted(tabs.drop_first(), next->Ok_0);
        assert forall|i: int| 0 <= i < tabs.len() implies wire::text_fits(
            (#[trigger] tabs[i]).label,
        ) by {
            if i > 0 {
                assert(tabs[i] == tabs.drop_first()[i - 1]);
            }
        }
    }
}

pub proof fn lemma_tabs_read_back(tabs: Seq<ChipModel>, rest: Seq<u8>)
    requires
        tabs_fit(tabs),
        tabs_faithful(tabs),
    ensures
        parse_tabs(tabs_bytes(tabs) + rest, tabs.len()) == Ok::<
            (Seq<ChipModel>, Seq<u8>),
            ProtocolError,
        >((tabs, rest)),
    decreases tabs.len(),
{
    broadcast use wire::group_reading;

    if tabs.len() > 0 {
        let tail = tabs.drop_first();
        assert forall|i: int| 0 <= i < tail.len() implies wire::text_fits((#[trigger] tail[i]).label)
            && !tail[i].action.is_reserved_spec() && !tail[i].selected by {
            assert(tail[i] == tabs[i + 1]);
        }
        lemma_tabs_read_back(tail, rest);
        assert(wire::text_fits(tabs[0].label));
        assert(seq![tabs[0]] + tail =~= tabs);
    } else {
        assert(tabs =~= Seq::empty());
    }
}

pub fn add_tabs_len(tabs: &Vec<Chip>, count: usize, total: usize) -> (result: Result<
    usize,
    ProtocolError,
>)
    requires
        total <= MAX_FRAME_LEN,
        count <= tabs@.len(),
    ensures
        wire::counts(
            result,
            grown_by_tabs(item::models(tabs@).take(count as int), Ok(total as int)),
        ),
{
    let ghost all = item::models(tabs@).take(count as int);
    let mut so_far: usize = total;
    let mut index: usize = 0;
    assert(all.skip(0) =~= all);
    while index < count
        invariant
            index <= count <= tabs@.len(),
            so_far <= MAX_FRAME_LEN,
            all == item::models(tabs@).take(count as int),
            grown_by_tabs(all, Ok(total as int)) == grown_by_tabs(
                all.skip(index as int),
                Ok(so_far as int),
            ),
        decreases count - index,
    {
        assert(all.skip(index as int).drop_first() =~= all.skip(index + 1));
        assert(all.skip(index as int)[0] == tabs@[index as int]@);
        proof {
            let next = wire::grown_text(
                wire::grown(Ok(so_far as int), 4),
                tabs@[index as int].label@,
            );
            if next is Err {
                lemma_refused_tabs_stay_refused(all.skip(index + 1), next->Err_0);
            }
        }
        so_far = add_encoded_len(so_far, 4)?;
        so_far = add_text_len(so_far, tabs[index].label.as_str())?;
        index = index + 1;
    }
    Ok(so_far)
}

pub fn write_tabs(output: &mut Vec<u8>, tabs: &Vec<Chip>, count: usize)
    requires
        count <= tabs@.len(),
        tabs_fit(item::models(tabs@).take(count as int)),
    ensures
        final(output)@ == old(output)@ + tabs_bytes(item::models(tabs@).take(count as int)),
{
    broadcast use {wire::lemma_concat_to_the_right, wire::lemma_concat_nothing};

    let ghost all = item::models(tabs@).take(count as int);
    let mut index: usize = 0;
    assert(all.skip(0) =~= all);
    while index < count
        invariant
            index <= count <= tabs@.len(),
            all == item::models(tabs@).take(count as int),
            tabs_fit(all),
            output@ + tabs_bytes(all.skip(index as int)) == old(output)@ + tabs_bytes(all),
        decreases count - index,
    {
        assert(all.skip(index as int).drop_first() =~= all.skip(index + 1));
        assert(all.skip(index as int)[0] == tabs@[index as int]@);
        assert(wire::text_fits(all[index as int].label));
        push_u32(output, tabs[index].action.0);
        push_text(output, tabs[index].label.as_str());
        index = index + 1;
    }
    assert(tabs_bytes(all.skip(count as int)) =~= Seq::empty());
}

fn read_tab(reader: &mut Reader<'_>) -> (result: Result<Chip, ProtocolError>)
    ensures
        wire::reads(result, final(reader)@, parse_tab(old(reader)@)),
{
    let action = read_own_action(reader)?;
    let label = reader.string()?;
    Ok(Chip { action, label, selected: false })
}

pub fn read_tabs(reader: &mut Reader<'_>, count: usize) -> (result: Result<
    Vec<Chip>,
    ProtocolError,
>)
    ensures
        item::reads_all(result, final(reader)@, parse_tabs(old(reader)@, count as nat)),
{
    let mut tabs: Vec<Chip> = Vec::new();
    let mut index: usize = 0;
    assert(item::models(tabs@) =~= Seq::empty());
    proof {
        let parsed = parse_tabs(reader@, count as nat);
        if parsed is Ok {
            assert(Seq::empty() + parsed->Ok_0.0 =~= parsed->Ok_0.0);
        }
    }
    while index < count
        invariant
            index <= count,
            parse_tabs(old(reader)@, count as nat) == item::after(
                item::models(tabs@),
                parse_tabs(reader@, (count - index) as nat),
            ),
        decreases count - index,
    {
        let ghost before = tabs@;
        let tab = read_tab(reader)?;
        tabs.push(tab);
        index = index + 1;
        proof {
            assert(item::models(tabs@) =~= item::models(before) + seq![tab@]);
            item::lemma_after_after(
                item::models(before),
                seq![tab@],
                parse_tabs(reader@, (count - index) as nat),
            );
        }
    }
    assert(item::models(tabs@) + Seq::empty() =~= item::models(tabs@));
    Ok(tabs)
}

// ---------------------------------------------------------------------------
// Rows of a character grid: labels no wider than the grid.

pub open spec fn is_row(text: Seq<char>) -> bool {
    text.len() <= MAX_TERMINAL_COLUMNS
}

pub open spec fn all_rows(rows: Seq<Seq<char>>) -> bool {
    forall|i: int| 0 <= i < rows.len() ==> is_row(#[trigger] rows[i])
}

pub open spec fn grown_by_rows(
    rows: Seq<Seq<char>>,
    total: Result<int, ProtocolError>,
) -> Result<int, ProtocolError>
    decreases rows.len(),
{
    match total {
        Err(e) => Err(e),
        Ok(_) => if rows.len() == 0 {
            total
        } else if !is_row(rows[0]) {
            Err(ProtocolError::FrameTooLarge)
        } else {
            grown_by_rows(rows.drop_first(), wire::grown_text(total, rows[0]))
        },
    }
}

pub open spec fn parse_rows(s: Seq<u8>, count: nat) -> wire::Parsed<Seq<Seq<char>>>
    decreases count,
{
    if count == 0 {
        Ok((Seq::empty(), s))
    } else {
        match wire::parse_text(s) {
            Err(e) => Err(e),
            Ok((row, s)) => if is_row(row) {
                item::after(seq![row], parse_rows(s, (count - 1) as nat))
            } else {
                Err(ProtocolError::InvalidValue("terminal row too wide"))
            },
        }
    }
}

pub proof fn lemma_rows_counted(rows: Seq<Seq<char>>, total: int)
    requires
        grown_by_rows(rows, Ok(total)) is Ok,
    ensures
        item::all_fit::<String>(rows),
        all_rows(rows),
        grown_by_rows(rows, Ok(total)) == Ok::<int, ProtocolError>(
            total + item::bytes_of_all::<String>(rows).len(),
        ),
    decreases rows.len(),
{
    broadcast use wire::group_lengths;

    reveal_with_fuel(grown_by_rows, 2);
    if rows.len() > 0 {
        let next = wire::grown_text(Ok(total), rows[0]);
        lemma_rows_counted(rows.drop_first(), next->Ok_0);
        assert forall|i: int| 0 <= i < rows.len() implies wire::text_fits(#[trigger] rows[i])
            && is_row(rows[i]) by {
            if i > 0 {
                assert(rows[i] == rows.drop_first()[i - 1]);
            }
        }
    }
}

pub proof fn lemma_rows_read_back(rows: Seq<Seq<char>>, rest: Seq<u8>)
    requires
        item::all_fit::<String>(rows),
        all_rows(rows),
    ensures
        parse_rows(item::bytes_of_all::<String>(rows) + rest, rows.len()) == Ok::<
            (Seq<Seq<char>>, Seq<u8>),
            ProtocolError,
        >((rows, rest)),
    decreases rows.len(),
{
    broadcast use wire::group_reading;

    if rows.len() > 0 {
        let tail = rows.drop_first();
        assert forall|i: int| 0 <= i < tail.len() implies wire::text_fits(#[trigger] tail[i])
            && is_row(tail[i]) by {
            assert(tail[i] == rows[i + 1]);
        }
        lemma_rows_read_back(tail, rest);
        assert(wire::text_fits(rows[0]) && is_row(rows[0]));
        assert(seq![rows[0]] + tail =~= rows);
    } else {
        assert(rows =~= Seq::empty());
    }
}

pub fn add_rows_len(rows: &Vec<String>, total: usize) -> (result: Result<usize, ProtocolError>)
    requires
        total <= MAX_FRAME_LEN,
    ensures
        wire::counts(result, grown_by_rows(item::models(rows@), Ok(total as int))),
{
    let ghost all = item::models(rows@);
    let mut so_far: usize = total;
    let mut index: usize = 0;
    assert(all.skip(0) =~= all);
    while index < rows.len()
        invariant
            index <= rows@.len(),
            so_far <= MAX_FRAME_LEN,
            all == item::models(rows@),
            grown_by_rows(all, Ok(total as int)) == grown_by_rows(
                all.skip(index as int),
                Ok(so_far as int),
            ),
        decreases rows@.len() - index,
    {
        assert(all.skip(index as int).drop_first() =~= all.skip(index + 1));
        assert(all.skip(index as int)[0] == rows@[index as int]@);
        proof {
            reveal_with_fuel(grown_by_rows, 2);
        }
        if rows[index].as_str().unicode_len() > MAX_TERMINAL_COLUMNS {
            return Err(ProtocolError::FrameTooLarge);
        }
        so_far = add_text_len(so_far, rows[index].as_str())?;
        index = index + 1;
    }
    Ok(so_far)
}

pub fn read_rows(reader: &mut Reader<'_>, count: usize) -> (result: Result<
    Vec<String>,
    ProtocolError,
>)
    ensures
        item::reads_all(result, final(reader)@, parse_rows(old(reader)@, count as nat)),
{
    let mut rows: Vec<String> = Vec::new();
    let mut index: usize = 0;
    assert(item::models(rows@) =~= Seq::empty());
    proof {
        let parsed = parse_rows(reader@, count as nat);
        if parsed is Ok {
            assert(Seq::empty() + parsed->Ok_0.0 =~= parsed->Ok_0.0);
        }
    }
    while index < count
        invariant
            index <= count,
            parse_rows(old(reader)@, count as nat) == item::after(
                item::models(rows@),
                parse_rows(reader@, (count - index) as nat),
            ),
        decreases count - index,
    {
        let ghost before = rows@;
        let row = reader.string()?;
        if row.as_str().unicode_len() > MAX_TERMINAL_COLUMNS {
            return Err(ProtocolError::InvalidValue("terminal row too wide"));
        }
        rows.push(row);
        index = index + 1;
        proof {
            assert(item::models(rows@) =~= item::models(before) + seq![row@]);
            item::lemma_after_after(
                item::models(before),
                seq![row@],
                parse_rows(reader@, (count - index) as nat),
            );
        }
    }
    assert(item::models(rows@) + Seq::empty() =~= item::models(rows@));
    Ok(rows)
}

} // verus!
