//! Identifiers made from names, and numbers spelled out.

use vstd::prelude::*;
use vstd::utf8::*;

use crate::ui::ActionId;

verus! {

/// A running hash with one more byte in it.
pub open spec fn stirred(hash: u32, byte: u8) -> u32 {
    ((hash ^ (byte as u32)) * 0x0100_0193 % 0x1_0000_0000) as u32
}

/// The hash of a run of bytes: FNV-1a, in 32 bits.
pub open spec fn hash_of(bytes: Seq<u8>) -> u32
    decreases bytes.len(),
{
    if bytes.len() == 0 {
        0x811c_9dc5
    } else {
        stirred(hash_of(bytes.drop_last()), bytes.last())
    }
}

/// The identifier of a name. No name has the identifier zero.
pub open spec fn identifier_of(name: Seq<char>) -> u32 {
    let hash = hash_of(encode_utf8(name));
    if hash == 0 {
        1
    } else {
        hash
    }
}

/// The identifier of a name.
pub fn stable_id(value: &str) -> (id: u32)
    ensures
        id == identifier_of(value@),
        id != 0,
{
    let bytes = value.as_bytes();
    let mut hash: u32 = 0x811c_9dc5;
    let mut index: usize = 0;
    while index < bytes.len()
        invariant
            index <= bytes@.len(),
            hash == hash_of(bytes@.take(index as int)),
        decreases bytes@.len() - index,
    {
        let ghost before = bytes@.take(index as int);
        let byte: u32 = bytes[index] as u32;
        hash = (hash ^ byte).wrapping_mul(0x0100_0193);
        index = index + 1;
        assert(bytes@.take(index as int).drop_last() =~= before);
    }
    assert(bytes@.take(index as int) =~= bytes@);
    if hash == 0 {
        1
    } else {
        hash
    }
}

/// The action a name stands for.
pub open spec fn action_of(name: Seq<char>) -> ActionId {
    ActionId(identifier_of(name))
}

/// Deterministically maps an action name to a non-zero wire action identifier.
#[must_use]
pub fn action_id(name: &str) -> (action: ActionId)
    ensures
        action == action_of(name@),
        action.0 != 0,
{
    ActionId(stable_id(name))
}

/// One decimal digit.
pub open spec fn digit(value: int) -> char {
    if value == 0 {
        '0'
    } else if value == 1 {
        '1'
    } else if value == 2 {
        '2'
    } else if value == 3 {
        '3'
    } else if value == 4 {
        '4'
    } else if value == 5 {
        '5'
    } else if value == 6 {
        '6'
    } else if value == 7 {
        '7'
    } else if value == 8 {
        '8'
    } else {
        '9'
    }
}

/// A number in decimal, without leading zeros.
pub open spec fn spelled(value: nat) -> Seq<char>
    decreases value,
{
    if value < 10 {
        seq![digit(value as int)]
    } else {
        spelled(value / 10).push(digit((value % 10) as int))
    }
}

/// A number in decimal.
pub fn decimal(value: u128) -> (text: String)
    ensures
        text@ == spelled(value as nat),
    decreases value,
{
    let mut text = if value < 10 {
        String::new()
    } else {
        decimal(value / 10)
    };
    let ghost before = text@;
    let last: u128 = value % 10;
    let written = if last == 0 {
        "0"
    } else if last == 1 {
        "1"
    } else if last == 2 {
        "2"
    } else if last == 3 {
        "3"
    } else if last == 4 {
        "4"
    } else if last == 5 {
        "5"
    } else if last == 6 {
        "6"
    } else if last == 7 {
        "7"
    } else if last == 8 {
        "8"
    } else {
        "9"
    };
    proof {
        reveal_strlit("0");
        reveal_strlit("1");
        reveal_strlit("2");
        reveal_strlit("3");
        reveal_strlit("4");
        reveal_strlit("5");
        reveal_strlit("6");
        reveal_strlit("7");
        reveal_strlit("8");
        reveal_strlit("9");
        assert(written@ =~= seq![digit(last as int)]);
    }
    text.append(written);
    assert(text@ =~= before.push(digit(last as int)));
    assert(text@ =~= spelled(value as nat));
    text
}

/// The number that a run of decimal digits says.
pub open spec fn number_in(text: Seq<char>) -> int
    decreases text.len(),
{
    if text.len() == 0 {
        0
    } else {
        10 * number_in(text.drop_last()) + (text.last() as int - '0' as int)
    }
}

/// A number that was spelled out says that number, in digits alone, and begins
/// with none that says nothing.
pub proof fn law_spelled_numbers_read_back(value: nat)
    ensures
        number_in(spelled(value)) == value,
        spelled(value).len() >= 1,
        spelled(value).len() > 1 ==> spelled(value)[0] != '0',
        value > 0 ==> spelled(value)[0] != '0',
        forall|i: int|
            0 <= i < spelled(value).len() ==> '0' as int <= (#[trigger] spelled(value)[i]) as int
                <= '9' as int,
    decreases value,
{
    let text = spelled(value);
    if value < 10 {
        assert(text.drop_last() =~= Seq::empty());
        reveal_with_fuel(number_in, 2);
    } else {
        law_spelled_numbers_read_back(value / 10);
        assert(text.drop_last() =~= spelled(value / 10));
    }
}

/// Two numbers are never spelled alike.
pub proof fn law_numbers_are_spelled_apart(a: nat, b: nat)
    requires
        spelled(a) == spelled(b),
    ensures
        a == b,
{
    law_spelled_numbers_read_back(a);
    law_spelled_numbers_read_back(b);
}

/// No name has the identifier zero, and an action is its name's identifier.
pub proof fn law_identifiers_are_never_zero(name: Seq<char>)
    ensures
        identifier_of(name) != 0,
        action_of(name).0 == identifier_of(name),
        hash_of(encode_utf8(name)) != 0 ==> identifier_of(name) == hash_of(encode_utf8(name)),
{
}

/// A hash takes in its bytes one after another: each is mixed into the lowest
/// bits of what came before, and the whole is multiplied by one prime, in 32
/// bits.
pub proof fn law_hashes_take_in_bytes_in_order(bytes: Seq<u8>, byte: u8)
    ensures
        hash_of(Seq::empty()) == 2_166_136_261,
        hash_of(bytes.push(byte)) as int == ((hash_of(bytes) ^ byte as u32) as int * 16_777_619)
            % 4_294_967_296,
{
    assert(bytes.push(byte).drop_last() =~= bytes);
}

} // verus!
