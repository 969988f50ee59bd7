//! Values with a wire form of their own, and lists of them.

use vstd::prelude::*;

use crate::error::ProtocolError;
use crate::limits::MAX_FRAME_LEN;
use crate::wire;
use crate::wire::Reader;

verus! {

/// The models of a run of values.
pub open spec fn models<T: View>(values: Seq<T>) -> Seq<T::V> {
    values.map_values(|value: T| value@)
}

/// A copy of a run of plain values.
pub fn copied<T: Copy>(list: &Vec<T>) -> (copy: Vec<T>)
    ensures
        copy@ == list@,
{
    let mut copy: Vec<T> = Vec::new();
    let mut index: usize = 0;
    while index < list.len()
        invariant
            index <= list@.len(),
            copy@ == list@.take(index as int),
        decreases list@.len() - index,
    {
        copy.push(list[index]);
        index = index + 1;
        assert(copy@ =~= list@.take(index as int));
    }
    assert(copy@ =~= list@);
    copy
}

/// A copy of a run of pairs of texts.
pub fn copied_pairs(list: &Vec<(String, String)>) -> (copy: Vec<(String, String)>)
    ensures
        models(copy@) == models(list@),
{
    let mut copy: Vec<(String, String)> = Vec::new();
    let mut index: usize = 0;
    while index < list.len()
        invariant
            index <= list@.len(),
            index == copy@.len(),
            forall|i: int| 0 <= i < index ==> (#[trigger] copy@[i])@ == list@[i]@,
        decreases list@.len() - index,
    {
        copy.push((list[index].0.clone(), list[index].1.clone()));
        index = index + 1;
    }
    assert(models(copy@) =~= models(list@));
    copy
}

/// A copy of a run of named sizes.
pub fn copied_sizes(list: &Vec<(String, u32)>) -> (copy: Vec<(String, u32)>)
    ensures
        models(copy@) == models(list@),
{
    let mut copy: Vec<(String, u32)> = Vec::new();
    let mut index: usize = 0;
    while index < list.len()
        invariant
            index <= list@.len(),
            index == copy@.len(),
            forall|i: int| 0 <= i < index ==> (#[trigger] copy@[i])@ == list@[i]@,
        decreases list@.len() - index,
    {
        copy.push((list[index].0.clone(), list[index].1));
        index = index + 1;
    }
    assert(models(copy@) =~= models(list@));
    copy
}

/// A value that is written, counted and read on its own, without knowing what
/// stands around it.
pub trait Wire: View + Sized {
    /// The bytes it is written as.
    spec fn bytes(model: Self::V) -> Seq<u8>;

    /// Whether every part of it is within what its length prefixes can say.
    spec fn fits(model: Self::V) -> bool;

    /// The running length of a frame after it, or why there is none.
    spec fn grown(model: Self::V, total: int) -> Result<int, ProtocolError>;

    /// What reading makes of bytes.
    spec fn parse(s: Seq<u8>) -> wire::Parsed<Self::V>;

    /// Whether it says nothing that the wire would clip or refuse.
    spec fn faithful(model: Self::V) -> bool;

    /// A value that could be counted fits, and was counted exactly.
    proof fn lemma_counted(model: Self::V, total: int)
        requires
            Self::grown(model, total) is Ok,
        ensures
            Self::fits(model),
            Self::grown(model, total) == Ok::<int, ProtocolError>(
                total + Self::bytes(model).len(),
            ),
    ;

    /// Reading what was written yields the value and leaves the rest.
    proof fn lemma_read_back(model: Self::V, rest: Seq<u8>)
        requires
            Self::fits(model),
            Self::faithful(model),
        ensures
            Self::parse(Self::bytes(model) + rest) == Ok::<(Self::V, Seq<u8>), ProtocolError>(
                (model, rest),
            ),
    ;

    fn add_len(&self, total: usize) -> (result: Result<usize, ProtocolError>)
        ensures
            wire::counts(result, Self::grown(self@, total as int)),
    ;

    fn write(&self, output: &mut Vec<u8>)
        requires
            Self::fits(self@),
        ensures
            final(output)@ == old(output)@ + Self::bytes(self@),
    ;

    fn read(reader: &mut Reader<'_>) -> (result: Result<Self, ProtocolError>)
        ensures
            wire::reads(result, final(reader)@, Self::parse(old(reader)@)),
    ;
}

/// A run of values, one after the other.
pub open spec fn bytes_of_all<T: Wire>(list: Seq<T::V>) -> Seq<u8>
    decreases list.len(),
{
    if list.len() == 0 {
        Seq::empty()
    } else {
        T::bytes(list[0]) + bytes_of_all::<T>(list.drop_first())
    }
}

pub open spec fn all_fit<T: Wire>(list: Seq<T::V>) -> bool {
    forall|i: int| 0 <= i < list.len() ==> T::fits(#[trigger] list[i])
}

pub open spec fn all_faithful<T: Wire>(list: Seq<T::V>) -> bool {
    forall|i: int| 0 <= i < list.len() ==> T::faithful(#[trigger] list[i])
}

/// The running length of a frame after a run of values.
pub open spec fn grown_by_all<T: Wire>(
    list: Seq<T::V>,
    total: Result<int, ProtocolError>,
) -> Result<int, ProtocolError>
    decreases list.len(),
{
    match total {
        Err(e) => Err(e),
        Ok(so_far) => if list.len() == 0 {
            total
        } else {
            grown_by_all::<T>(list.drop_first(), T::grown(list[0], so_far))
        },
    }
}

/// What reading `count` values in a row makes of bytes.
pub open spec fn parse_all<T: Wire>(s: Seq<u8>, count: nat) -> wire::Parsed<Seq<T::V>>
    decreases count,
{
    if count == 0 {
        Ok((Seq::empty(), s))
    } else {
        match T::parse(s) {
            Err(e) => Err(e),
            Ok((first, s)) => after(seq![first], parse_all::<T>(s, (count - 1) as nat)),
        }
    }
}

/// A parsed run with `earlier` in front of it.
pub open spec fn after<M>(earlier: Seq<M>, parsed: wire::Parsed<Seq<M>>) -> wire::Parsed<Seq<M>> {
    match parsed {
        Err(e) => Err(e),
        Ok((later, s)) => Ok((earlier + later, s)),
    }
}

pub proof fn lemma_all_counted<T: Wire>(list: Seq<T::V>, total: int)
    requires
        grown_by_all::<T>(list, Ok(total)) is Ok,
    ensures
        all_fit::<T>(list),
        grown_by_all::<T>(list, Ok(total)) == Ok::<int, ProtocolError>(
            total + bytes_of_all::<T>(list).len(),
        ),
    decreases list.len(),
{
    reveal_with_fuel(grown_by_all, 2);
    if list.len() > 0 {
        let next = T::grown(list[0], total);
        T::lemma_counted(list[0], total);
        lemma_all_counted::<T>(list.drop_first(), next->Ok_0);
        assert forall|i: int| 0 <= i < list.len() implies T::fits(#[trigger] list[i]) by {
            if i > 0 {
                assert(list[i] == list.drop_first()[i - 1]);
            }
        }
    }
}

pub proof fn lemma_all_read_back<T: Wire>(list: Seq<T::V>, rest: Seq<u8>)
    requires
        all_fit::<T>(list),
        all_faithful::<T>(list),
    ensures
        parse_all::<T>(bytes_of_all::<T>(list) + rest, list.len()) == Ok::<
            (Seq<T::V>, Seq<u8>),
            ProtocolError,
        >((list, rest)),
    decreases list.len(),
{
    broadcast use {wire::lemma_concat_to_the_right, wire::lemma_nothing_concat};

    if list.len() > 0 {
        let tail = list.drop_first();
        assert forall|i: int| 0 <= i < tail.len() implies T::fits(#[trigger] tail[i])
            && T::faithful(tail[i]) by {
            assert(tail[i] == list[i + 1]);
        }
        lemma_all_read_back::<T>(tail, rest);
        T::lemma_read_back(list[0], bytes_of_all::<T>(tail) + rest);
        assert(seq![list[0]] + tail =~= list);
    } else {
        assert(list =~= Seq::empty());
    }
}

pub proof fn lemma_after_after<M>(a: Seq<M>, b: Seq<M>, parsed: wire::Parsed<Seq<M>>)
    ensures
        after(a, after(b, parsed)) == after(a + b, parsed),
{
    if parsed is Ok {
        assert(a + (b + parsed->Ok_0.0) =~= (a + b) + parsed->Ok_0.0);
    }
}

pub fn write_all<T: Wire>(output: &mut Vec<u8>, list: &Vec<T>)
    requires
        all_fit::<T>(models(list@)),
    ensures
        final(output)@ == old(output)@ + bytes_of_all::<T>(models(list@)),
{
    write_first(output, list, list.len());
    assert(models(list@).take(list@.len() as int) =~= models(list@));
}

/// Writes the first `count` of a run.
pub fn write_first<T: Wire>(output: &mut Vec<u8>, list: &Vec<T>, count: usize)
    requires
        count <= list@.len(),
        all_fit::<T>(models(list@).take(count as int)),
    ensures
        final(output)@ == old(output)@ + bytes_of_all::<T>(models(list@).take(count as int)),
{
    broadcast use {wire::lemma_concat_to_the_right, wire::lemma_concat_nothing};

    let ghost all = models(list@).take(count as int);
    let mut index: usize = 0;
    assert(all.skip(0) =~= all);
    while index < count
        invariant
            index <= count <= list@.len(),
            all == models(list@).take(count as int),
            all_fit::<T>(all),
            output@ + bytes_of_all::<T>(all.skip(index as int)) == old(output)@ + bytes_of_all::<
                T,
            >(all),
        decreases count - index,
    {
        assert(all.skip(index as int).drop_first() =~= all.skip(index + 1));
        assert(all.skip(index as int)[0] == list@[index as int]@);
        assert(T::fits(all[index as int]));
        list[index].write(output);
        index = index + 1;
    }
    assert(bytes_of_all::<T>(all.skip(count as int)) =~= Seq::empty());
}

pub fn add_all_len<T: Wire>(list: &Vec<T>, total: usize) -> (result: Result<usize, ProtocolError>)
    requires
        total <= MAX_FRAME_LEN,
    ensures
        wire::counts(result, grown_by_all::<T>(models(list@), Ok(total as int))),
{
    let result = add_first_len(list, list.len(), total);
    assert(models(list@).take(list@.len() as int) =~= models(list@));
    result
}

/// Counts the first `count` of a run.
pub fn add_first_len<T: Wire>(list: &Vec<T>, count: usize, total: usize) -> (result: Result<
    usize,
    ProtocolError,
>)
    requires
        total <= MAX_FRAME_LEN,
        count <= list@.len(),
    ensures
        wire::counts(
            result,
            grown_by_all::<T>(models(list@).take(count as int), Ok(total as int)),
        ),
{
    let ghost all = models(list@).take(count as int);
    let mut so_far: usize = total;
    let mut index: usize = 0;
    assert(all.skip(0) =~= all);
    while index < count
        invariant
            index <= count <= list@.len(),
            so_far <= MAX_FRAME_LEN,
            all == models(list@).take(count as int),
            grown_by_all::<T>(all, Ok(total as int)) == grown_by_all::<T>(
                all.skip(index as int),
                Ok(so_far as int),
            ),
        decreases count - index,
    {
        assert(all.skip(index as int).drop_first() =~= all.skip(index + 1));
        assert(all.skip(index as int)[0] == list@[index as int]@);
        proof {
            reveal_with_fuel(grown_by_all, 2);
        }
        so_far = list[index].add_len(so_far)?;
        index = index + 1;
    }
    Ok(so_far)
}

/// Reads `count` values in a row.
pub fn read_all<T: Wire>(reader: &mut Reader<'_>, count: usize) -> (result: Result<
    Vec<T>,
    ProtocolError,
>)
    ensures
        reads_all(result, final(reader)@, parse_all::<T>(old(reader)@, count as nat)),
{
    let mut list: Vec<T> = Vec::new();
    let mut index: usize = 0;
    assert(models(list@) =~= Seq::empty());
    proof {
        let parsed = parse_all::<T>(reader@, count as nat);
        if parsed is Ok {
            assert(Seq::empty() + parsed->Ok_0.0 =~= parsed->Ok_0.0);
        }
    }
    while index < count
        invariant
            index <= count,
            parse_all::<T>(old(reader)@, count as nat) == after(
                models(list@),
                parse_all::<T>(reader@, (count - index) as nat),
            ),
        decreases count - index,
    {
        let ghost before = list@;
        let ghost at = reader@;
        let value = T::read(reader)?;
        list.push(value);
        index = index + 1;
        proof {
            assert(models(list@) =~= models(before) + seq![value@]);
            lemma_after_after(
                models(before),
                seq![value@],
                parse_all::<T>(reader@, (count - index) as nat),
            );
        }
    }
    assert(models(list@) + Seq::empty() =~= models(list@));
    Ok(list)
}

/// Whether a read of a run did what its model says.
pub open spec fn reads_all<T: View>(
    result: Result<Vec<T>, ProtocolError>,
    left: Seq<u8>,
    parsed: wire::Parsed<Seq<T::V>>,
) -> bool {
    match (result, parsed) {
        (Ok(values), Ok((list, rest))) => models(values@) == list && left == rest,
        (Err(error), Err(expected)) => error == expected,
        _ => false,
    }
}

impl Wire for String {
    open spec fn bytes(model: Seq<char>) -> Seq<u8> {
        wire::text_bytes(model)
    }

    open spec fn fits(model: Seq<char>) -> bool {
        wire::text_fits(model)
    }

    open spec fn grown(model: Seq<char>, total: int) -> Result<int, ProtocolError> {
        wire::grown_text(Ok(total), model)
    }

    open spec fn parse(s: Seq<u8>) -> wire::Parsed<Seq<char>> {
        wire::parse_text(s)
    }

    open spec fn faithful(model: Seq<char>) -> bool {
        true
    }

    proof fn lemma_counted(model: Seq<char>, total: int) {
        broadcast use wire::group_lengths;

    }

    proof fn lemma_read_back(model: Seq<char>, rest: Seq<u8>) {
        wire::lemma_parse_text(model, rest);
    }

    fn add_len(&self, total: usize) -> (result: Result<usize, ProtocolError>) {
        wire::add_text_len(total, self.as_str())
    }

    fn write(&self, output: &mut Vec<u8>) {
        wire::push_text(output, self.as_str());
    }

    fn read(reader: &mut Reader<'_>) -> (result: Result<String, ProtocolError>) {
        reader.string()
    }
}

impl Wire for u16 {
    open spec fn bytes(model: u16) -> Seq<u8> {
        wire::be16(model)
    }

    open spec fn fits(model: u16) -> bool {
        true
    }

    open spec fn grown(model: u16, total: int) -> Result<int, ProtocolError> {
        wire::grown(Ok(total), 2)
    }

    open spec fn parse(s: Seq<u8>) -> wire::Parsed<u16> {
        wire::parse_u16(s)
    }

    open spec fn faithful(model: u16) -> bool {
        true
    }

    proof fn lemma_counted(model: u16, total: int) {
        broadcast use wire::group_lengths;

    }

    proof fn lemma_read_back(model: u16, rest: Seq<u8>) {
        wire::lemma_parse_u16(model, rest);
    }

    fn add_len(&self, total: usize) -> (result: Result<usize, ProtocolError>) {
        wire::add_encoded_len(total, 2)
    }

    fn write(&self, output: &mut Vec<u8>) {
        wire::push_u16(output, *self);
    }

    fn read(reader: &mut Reader<'_>) -> (result: Result<u16, ProtocolError>) {
        reader.u16()
    }
}

/// A run of items never grows a length past what a frame may be.
pub proof fn lemma_all_bounded<T: Wire>(list: Seq<T::V>, total: int)
    requires
        total <= MAX_FRAME_LEN,
        grown_by_all::<T>(list, Ok(total)) is Ok,
        forall|model: T::V, so_far: int|
            so_far <= MAX_FRAME_LEN && #[trigger] T::grown(model, so_far) is Ok ==> T::grown(
                model,
                so_far,
            )->Ok_0 <= MAX_FRAME_LEN,
    ensures
        grown_by_all::<T>(list, Ok(total))->Ok_0 <= MAX_FRAME_LEN,
    decreases list.len(),
{
    reveal_with_fuel(grown_by_all, 2);
    if list.len() > 0 {
        lemma_all_bounded::<T>(list.drop_first(), T::grown(list[0], total)->Ok_0);
    }
}

} // verus!
