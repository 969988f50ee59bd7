//! What is read of the device was written: its answers have one spelling each.

use vstd::prelude::*;

use crate::device::{AppInfo, BluetoothDevice, DictionaryEntry, WifiNetwork};
use crate::device_result;
use crate::item::Wire;
use crate::reading_laws;
use crate::wire;

verus! {

/// A radio, a network and an entry of a dictionary are read from the bytes that
/// they are written as.
pub proof fn law_radios_are_read_as_written(s: Seq<u8>)
    ensures
        <BluetoothDevice as Wire>::parse(s) matches Ok((model, rest)) ==> reading_laws::spelled(
            s,
            <BluetoothDevice as Wire>::bytes(model),
            rest,
        ),
        <WifiNetwork as Wire>::parse(s) matches Ok((model, rest)) ==> reading_laws::spelled(
            s,
            <WifiNetwork as Wire>::bytes(model),
            rest,
        ),
        <DictionaryEntry as Wire>::parse(s) matches Ok((model, rest)) ==> reading_laws::spelled(
            s,
            <DictionaryEntry as Wire>::bytes(model),
            rest,
        ),
{
    broadcast use {reading_laws::group_read_as_written, wire::lemma_concat_to_the_right};

}

/// The description of an application is read from the bytes that it is written
/// as.
pub proof fn law_applications_are_read_as_written(s: Seq<u8>)
    ensures
        <AppInfo as Wire>::parse(s) matches Ok((model, rest)) ==> reading_laws::spelled(
            s,
            <AppInfo as Wire>::bytes(model),
            rest,
        ),
{
    broadcast use {reading_laws::group_read_as_written, wire::lemma_concat_to_the_right};

    if <AppInfo as Wire>::parse(s) is Ok {
        let (id, after) = wire::parse_text(s)->Ok_0;
        let (title, after) = wire::parse_text(after)->Ok_0;
        let (label, after) = wire::parse_text(after)->Ok_0;
        let (summary, after) = wire::parse_text(after)->Ok_0;
        let (version, after) = wire::parse_text(after)->Ok_0;
        reading_laws::law_marks_are_read_as_written(after, "application glyph");
        let (_, listed) = wire::parse_u8(after)->Ok_0;
        if wire::parse_u8(listed) is Ok {
            let (count, capabilities) = wire::parse_u8(listed)->Ok_0;
            reading_laws::lemma_runs_are_read_as_written::<String>(capabilities, count as nat);
        }
    }
}

/// What is known of radios is read from the bytes that it is written as.
pub proof fn law_radio_lists_are_read_as_written(s: Seq<u8>)
    ensures
        device_result::parse_bluetooth(s) matches Ok((result, rest)) ==> reading_laws::spelled(
            seq![6u8] + s,
            device_result::device_result_bytes(result),
            rest,
        ),
{
    reveal(device_result::device_result_bytes);
    broadcast use {reading_laws::group_read_as_written, wire::lemma_concat_to_the_right};

    assert forall|s: Seq<u8>| (#[trigger] <BluetoothDevice as Wire>::parse(s)) is Ok implies reading_laws::spelled(
        s,
        <BluetoothDevice as Wire>::bytes(<BluetoothDevice as Wire>::parse(s)->Ok_0.0),
        <BluetoothDevice as Wire>::parse(s)->Ok_0.1,
    ) by {
        law_radios_are_read_as_written(s);
    }
    if device_result::parse_bluetooth(s) is Ok {
        let (_, after) = device_result::parse_flags(s, "Bluetooth state flags")->Ok_0;
        let (count, list) = wire::parse_u8(after)->Ok_0;
        reading_laws::lemma_runs_are_read_as_written::<BluetoothDevice>(list, count as nat);
    }
}

/// What is known of networks is read from the bytes that it is written as.
pub proof fn law_network_lists_are_read_as_written(s: Seq<u8>)
    ensures
        device_result::parse_wifi(s) matches Ok((result, rest)) ==> reading_laws::spelled(
            seq![7u8] + s,
            device_result::device_result_bytes(result),
            rest,
        ),
{
    reveal(device_result::device_result_bytes);
    broadcast use {reading_laws::group_read_as_written, wire::lemma_concat_to_the_right};

    assert forall|s: Seq<u8>| (#[trigger] <WifiNetwork as Wire>::parse(s)) is Ok implies reading_laws::spelled(
        s,
        <WifiNetwork as Wire>::bytes(<WifiNetwork as Wire>::parse(s)->Ok_0.0),
        <WifiNetwork as Wire>::parse(s)->Ok_0.1,
    ) by {
        law_radios_are_read_as_written(s);
    }
    if device_result::parse_wifi(s) is Ok {
        let (_, joined) = device_result::parse_flags(s, "Wi-Fi state flags")->Ok_0;
        let (_, after) = device_result::parse_connected(joined)->Ok_0;
        let (count, list) = wire::parse_u8(after)->Ok_0;
        reading_laws::lemma_runs_are_read_as_written::<WifiNetwork>(list, count as nat);
    }
}

/// A catalog is read from the bytes that it is written as.
pub proof fn law_catalogs_are_read_as_written(s: Seq<u8>)
    ensures
        device_result::parse_apps(s) matches Ok((result, rest)) ==> reading_laws::spelled(
            seq![12u8] + s,
            device_result::device_result_bytes(result),
            rest,
        ),
{
    reveal(device_result::device_result_bytes);
    broadcast use {reading_laws::group_read_as_written, wire::lemma_concat_to_the_right};

    assert forall|s: Seq<u8>| (#[trigger] <AppInfo as Wire>::parse(s)) is Ok implies reading_laws::spelled(
        s,
        <AppInfo as Wire>::bytes(<AppInfo as Wire>::parse(s)->Ok_0.0),
        <AppInfo as Wire>::parse(s)->Ok_0.1,
    ) by {
        law_applications_are_read_as_written(s);
    }
    if device_result::parse_apps(s) is Ok {
        let (count, list) = wire::parse_u16(s)->Ok_0;
        reading_laws::lemma_runs_are_read_as_written::<AppInfo>(list, count as nat);
    }
}

/// What a dictionary says is read from the bytes that it is written as.
pub proof fn law_lookups_are_read_as_written(s: Seq<u8>)
    ensures
        device_result::parse_dictionary(s) matches Ok((result, rest)) ==> reading_laws::spelled(
            seq![13u8] + s,
            device_result::device_result_bytes(result),
            rest,
        ),
{
    reveal(device_result::device_result_bytes);
    broadcast use {reading_laws::group_read_as_written, wire::lemma_concat_to_the_right};

    assert forall|s: Seq<u8>| (#[trigger] <DictionaryEntry as Wire>::parse(s)) is Ok implies reading_laws::spelled(
        s,
        <DictionaryEntry as Wire>::bytes(<DictionaryEntry as Wire>::parse(s)->Ok_0.0),
        <DictionaryEntry as Wire>::parse(s)->Ok_0.1,
    ) by {
        law_radios_are_read_as_written(s);
    }
    if device_result::parse_dictionary(s) is Ok {
        let (_, after) = wire::parse_text(s)->Ok_0;
        let (count, list) = wire::parse_u8(after)->Ok_0;
        reading_laws::lemma_runs_are_read_as_written::<DictionaryEntry>(list, count as nat);
    }
}

/// An answer of the device is read from the bytes that it is written as, save the
/// reading of a battery, whose unknown parts can be written in any way.
pub proof fn law_device_results_are_read_as_written(s: Seq<u8>)
    requires
        s.len() >= 1,
        s[0] != 10,
    ensures
        device_result::parse_device_result(s) matches Ok((result, rest)) ==> reading_laws::spelled(
            s,
            device_result::device_result_bytes(result),
            rest,
        ),
{
    reveal(device_result::parse_device_result);
    let after = s.skip(1);
    reading_laws::law_bytes_are_read_as_they_are(s);
    reveal(wire::parse_u8);
    assert(s =~= seq![s[0]] + after);
    if s[0] == 6 {
        law_radio_lists_are_read_as_written(after);
    } else if s[0] == 7 {
        law_network_lists_are_read_as_written(after);
    } else if s[0] == 12 {
        law_catalogs_are_read_as_written(after);
    } else if s[0] == 13 {
        law_lookups_are_read_as_written(after);
    } else {
        reveal(device_result::device_result_bytes);
        broadcast use {reading_laws::group_read_as_written, wire::lemma_concat_to_the_right};

    }
}

} // verus!
