//! What passes for an address, a name, a key or a piece of work, letter by
//! letter and byte by byte.

use vstd::prelude::*;
use vstd::utf8::*;

use crate::device;
use crate::device::{AppInfoModel, AppLinkStateModel, DictionaryEntryModel};
use crate::hardware;
use crate::store;
use crate::task;
use crate::task::{CredentialModel, HeaderModel, SecretHeaderModel, TaskModel};
use crate::text;
use crate::text::Alphabet;
use crate::wire;

verus! {

/// Whether a character is a digit, as its number says.
pub open spec fn digit(c: char) -> bool {
    48 <= c as int <= 57
}

/// Whether a character is a lowercase letter, as its number says.
pub open spec fn lower(c: char) -> bool {
    97 <= c as int <= 122
}

/// Whether a character is an uppercase letter, as its number says.
pub open spec fn upper(c: char) -> bool {
    65 <= c as int <= 90
}

/// A text of plain letters takes one byte for each.
proof fn lemma_plain(text: Seq<char>)
    requires
        forall|i: int| 0 <= i < text.len() ==> 0 <= (#[trigger] text[i]) as int <= 127,
    ensures
        wire::utf8_len(text) == text.len(),
{
    assert(is_ascii_chars(text)) by {
        assert forall|i: int| 0 <= i < text.len() implies '\0' <= #[trigger] text[i]
            <= '\u{7f}' by {}
    }
    is_ascii_chars_encode_utf8(text);
}

/// A character is blank exactly when it is one of the spaces, tabs and breaks
/// that leave nothing on a page.
pub proof fn law_blanks(c: char)
    ensures
        text::is_blank(c) <==> {
            let n = c as int;
            ||| 9 <= n <= 13
            ||| n == 32
            ||| n == 133
            ||| n == 160
            ||| n == 5760
            ||| 8192 <= n <= 8202
            ||| n == 8232
            ||| n == 8233
            ||| n == 8239
            ||| n == 8287
            ||| n == 12288
        },
{
}

// ---------------------------------------------------------------------------
// Addresses.

/// A secure address begins with the eight letters of its scheme and takes at
/// most 2048 bytes, whatever else it says.
pub proof fn law_secure_addresses(url: Seq<char>)
    ensures
        device::secure_address(url) <==> {
            &&& wire::utf8_len(url) <= 2048
            &&& url.len() >= 8
            &&& url[0] == 'h'
            &&& url[1] == 't'
            &&& url[2] == 't'
            &&& url[3] == 'p'
            &&& url[4] == 's'
            &&& url[5] == ':'
            &&& url[6] == '/'
            &&& url[7] == '/'
        },
{
    reveal_strlit("https://");
    let scheme = device::secure_scheme();
    assert(scheme.len() == 8);
    if url.len() >= 8 {
        let first = url.take(8);
        if scheme == first {
            assert(forall|i: int| 0 <= i < 8 ==> scheme[i] == #[trigger] first[i]);
            assert(first[0] == url[0] && first[1] == url[1] && first[2] == url[2] && first[3]
                == url[3] && first[4] == url[4] && first[5] == url[5] && first[6] == url[6]
                && first[7] == url[7]);
        }
        if url[0] == 'h' && url[1] == 't' && url[2] == 't' && url[3] == 'p' && url[4] == 's'
            && url[5] == ':' && url[6] == '/' && url[7] == '/' {
            assert(first =~= scheme);
        }
    }
}

/// The address of a radio is six pairs of hexadecimal digits in either case,
/// with a colon after each pair but the last.
pub proof fn law_radio_addresses(address: Seq<char>)
    ensures
        hardware::bluetooth_address_ok(address) <==> {
            &&& address.len() == 17
            &&& address[2] == ':'
            &&& address[5] == ':'
            &&& address[8] == ':'
            &&& address[11] == ':'
            &&& address[14] == ':'
            &&& forall|i: int|
                0 <= i < 17 && i != 2 && i != 5 && i != 8 && i != 11 && i != 14 ==> {
                    let n = (#[trigger] address[i]) as int;
                    48 <= n <= 57 || 97 <= n <= 102 || 65 <= n <= 70
                }
        },
{
    if address.len() == 17 {
        if hardware::bluetooth_address_ok(address) {
            assert(address[2] == ':' && address[5] == ':' && address[8] == ':' && address[11]
                == ':' && address[14] == ':');
        }
    }
}

// ---------------------------------------------------------------------------
// Digests, identities and versions.

/// A digest is 64 digits in lowercase hexadecimal, and nothing else.
pub proof fn law_digests(digest: Seq<char>)
    ensures
        device::digest_ok(digest) <==> digest.len() == 64 && forall|i: int|
            0 <= i < 64 ==> digit(#[trigger] digest[i]) || 97 <= digest[i] as int <= 102,
{
    if forall|i: int|
        0 <= i < digest.len() ==> digit(#[trigger] digest[i]) || 97 <= digest[i] as int <= 102 {
        lemma_plain(digest);
    }
    if device::digest_ok(digest) {
        assert forall|i: int| 0 <= i < digest.len() implies digit(#[trigger] digest[i]) || 97
            <= digest[i] as int <= 102 by {
            assert(Alphabet::Hex.holds(digest[i]));
        }
        lemma_plain(digest);
    }
}

/// The identity of an application is up to 32 lowercase letters, digits and
/// hyphens: it begins with a letter, ends in no hyphen and has no two of them in
/// a row.
pub proof fn law_identities(id: Seq<char>)
    ensures
        device::app_id_ok(id) <==> {
            &&& 1 <= id.len() <= 32
            &&& lower(id[0])
            &&& id[id.len() - 1] != '-'
            &&& forall|i: int, j: int|
                0 <= i && j == i + 1 && j < id.len() ==> #[trigger] id[i] != '-' || #[trigger] id[j]
                    != '-'
            &&& forall|i: int|
                0 <= i < id.len() ==> digit(#[trigger] id[i]) || lower(id[i]) || id[i] == '-'
        },
{
    if forall|i: int|
        0 <= i < id.len() ==> digit(#[trigger] id[i]) || lower(id[i]) || id[i] == '-' {
        lemma_plain(id);
        assert(text::is_drawn_from(id, Alphabet::AppId));
        if forall|i: int, j: int|
            0 <= i && j == i + 1 && j < id.len() ==> #[trigger] id[i] != '-' || #[trigger] id[j]
                != '-' {
            assert forall|i: int| 0 < i < id.len() implies !(id[i - 1] == '-' && #[trigger] id[i]
                == '-') by {
                assert(id[i - 1] != '-' || id[i] != '-');
            }
        }
    }
    if device::app_id_ok(id) {
        assert forall|i: int| 0 <= i < id.len() implies digit(#[trigger] id[i]) || lower(id[i])
            || id[i] == '-' by {
            assert(Alphabet::AppId.holds(id[i]));
        }
        lemma_plain(id);
        assert forall|i: int, j: int| 0 <= i && j == i + 1 && j < id.len() implies #[trigger] id[i]
            != '-' || #[trigger] id[j] != '-' by {
            assert(!(id[j - 1] == '-' && id[j] == '-'));
        }
    }
}

/// Two identities with a hyphen between them are one, if they are not too long
/// together, and every identity is a usable key.
pub proof fn law_identities_join(first: Seq<char>, second: Seq<char>)
    requires
        device::app_id_ok(first),
        device::app_id_ok(second),
    ensures
        first.len() + 1 + second.len() <= 32 ==> device::app_id_ok(
            first + seq!['-'] + second,
        ),
        store::key_ok(first),
{
    law_identities(first);
    law_identities(second);
    let both = first + seq!['-'] + second;
    law_identities(both);
    law_keys(first);
    let n = first.len() as int;
    if both.len() <= 32 {
        assert(both[0] == first[0]);
        assert(both[both.len() - 1] == second[second.len() - 1]);
        assert forall|i: int, j: int| 0 <= i && j == i + 1
            && j < both.len() implies #[trigger] both[i]
            != '-' || #[trigger] both[j] != '-' by {
            if j < n {
                assert(both[i] == first[i] && both[j] == first[j]);
            } else if j == n {
                assert(both[i] == first[n - 1]);
            } else if i == n {
                assert(both[j] == second[0]);
            } else {
                assert(both[i] == second[i - n - 1] && both[j] == second[j - n - 1]);
            }
        }
        assert forall|i: int| 0 <= i < both.len() implies digit(#[trigger] both[i]) || lower(
            both[i],
        ) || both[i] == '-' by {
            if i < n {
                assert(both[i] == first[i]);
            } else if i > n {
                assert(both[i] == second[i - n - 1]);
            }
        }
    }
}

/// A version is 1 to 64 letters, digits, dots, hyphens and plus signs.
pub proof fn law_versions(version: Seq<char>)
    ensures
        device::version_ok(version) <==> 1 <= version.len() <= 64 && forall|i: int|
            0 <= i < version.len() ==> digit(#[trigger] version[i]) || lower(version[i]) || upper(
                version[i],
            ) || version[i] == '.' || version[i] == '-' || version[i] == '+',
{
    if device::version_ok(version) {
        assert forall|i: int| 0 <= i < version.len() implies digit(#[trigger] version[i]) || lower(
            version[i],
        ) || upper(version[i]) || version[i] == '.' || version[i] == '-' || version[i] == '+' by {
            assert(Alphabet::Version.holds(version[i]));
        }
        lemma_plain(version);
    } else if forall|i: int|
        0 <= i < version.len() ==> digit(#[trigger] version[i]) || lower(version[i]) || upper(
            version[i],
        ) || version[i] == '.' || version[i] == '-' || version[i] == '+' {
        lemma_plain(version);
        assert(text::is_drawn_from(version, Alphabet::Version));
    }
}

/// A language code is 1 to 16 letters, digits and hyphens.
pub proof fn law_languages(language: Seq<char>)
    ensures
        device::language_ok(language) <==> 1 <= language.len() <= 16 && forall|i: int|
            0 <= i < language.len() ==> digit(#[trigger] language[i]) || lower(language[i])
                || upper(language[i]) || language[i] == '-',
{
    if device::language_ok(language) {
        assert forall|i: int| 0 <= i < language.len() implies digit(#[trigger] language[i])
            || lower(language[i]) || upper(language[i]) || language[i] == '-' by {
            assert(Alphabet::Language.holds(language[i]));
        }
        lemma_plain(language);
    } else if forall|i: int|
        0 <= i < language.len() ==> digit(#[trigger] language[i]) || lower(language[i]) || upper(
            language[i],
        ) || language[i] == '-' {
        lemma_plain(language);
        assert(text::is_drawn_from(language, Alphabet::Language));
    }
}

/// A key is 1 to 64 lowercase letters, digits, dots, hyphens and underscores
/// that do not begin with a dot: it can spell no path and hide nothing.
pub proof fn law_keys(key: Seq<char>)
    ensures
        store::key_ok(key) <==> {
            &&& 1 <= key.len() <= 64
            &&& key[0] != '.'
            &&& forall|i: int|
                0 <= i < key.len() ==> digit(#[trigger] key[i]) || lower(key[i]) || key[i] == '.'
                    || key[i] == '-' || key[i] == '_'
        },
        store::key_ok(key) ==> forall|i: int|
            0 <= i < key.len() ==> #[trigger] key[i] != '/' && key[i] != '\\',
{
    if store::key_ok(key) {
        assert forall|i: int| 0 <= i < key.len() implies digit(#[trigger] key[i]) || lower(key[i])
            || key[i] == '.' || key[i] == '-' || key[i] == '_' by {
            assert(Alphabet::Key.holds(key[i]));
        }
        lemma_plain(key);
    } else if forall|i: int|
        0 <= i < key.len() ==> digit(#[trigger] key[i]) || lower(key[i]) || key[i] == '.' || key[i]
            == '-' || key[i] == '_' {
        lemma_plain(key);
        assert(text::is_drawn_from(key, Alphabet::Key));
    }
}

// ---------------------------------------------------------------------------
// Networks, words and links.

/// A network has a name of 1 to 32 bytes and a passphrase of 8 to 63, or none.
pub proof fn law_networks(ssid: Seq<char>, password: Seq<char>)
    ensures
        device::wifi_credentials_ok(ssid, password) <==> 1 <= wire::utf8_len(ssid) <= 32 && (
        wire::utf8_len(password) == 0 || 8 <= wire::utf8_len(password) <= 63),
{
}

/// A word can be looked up when it says something in at most 128 bytes, and its
/// language is a code where one is named.
pub proof fn law_lookups(word: Seq<char>, language: Option<Seq<char>>)
    ensures
        device::lookup_ok(word, language) <==> {
            &&& exists|i: int| 0 <= i < word.len() && !text::is_blank(#[trigger] word[i])
            &&& wire::utf8_len(word) <= 128
            &&& language matches Some(code) ==> device::language_ok(code)
        },
{
}

/// An entry of a dictionary says something in each of its parts, and no more
/// than fits: 96 bytes of its dictionary, 16 of its language, 128 of its headword
/// and 4096 of its definition.
pub proof fn law_dictionary_entries(entry: DictionaryEntryModel)
    ensures
        device::dictionary_entry_ok(entry) <==> {
            &&& 1 <= wire::utf8_len(entry.dictionary) <= 96
            &&& 1 <= wire::utf8_len(entry.language) <= 16
            &&& 1 <= wire::utf8_len(entry.headword) <= 128
            &&& 1 <= wire::utf8_len(entry.definition) <= 4096
        },
{
}

/// The description of an application has an identity, versions that are
/// versions, a title of up to 96 bytes, a label of up to 32, a summary of up to
/// 512, and at most 16 capabilities of up to 32.
pub proof fn law_descriptions(entry: AppInfoModel)
    ensures
        device::app_info_ok(entry) <==> {
            &&& device::app_id_ok(entry.id)
            &&& device::version_ok(entry.version)
            &&& entry.installed_version matches Some(version) ==> device::version_ok(version)
            &&& 1 <= wire::utf8_len(entry.title) <= 96
            &&& 1 <= wire::utf8_len(entry.label) <= 32
            &&& 1 <= wire::utf8_len(entry.summary) <= 512
            &&& entry.capabilities.len() <= 16
            &&& forall|i: int|
                0 <= i < entry.capabilities.len() ==> 1 <= wire::utf8_len(
                    #[trigger] entry.capabilities[i],
                ) <= 32
        },
{
}

/// A pairing has a code of eight characters that do not read alike, a secure
/// address and at most ten minutes; at most eight browsers are paired.
pub proof fn law_links(state: AppLinkStateModel)
    ensures
        device::app_link_ok(state) <==> match state {
            AppLinkStateModel::Unpaired => true,
            AppLinkStateModel::Pairing { code, url, expires_in } => {
                &&& code.len() == 8
                &&& forall|i: int|
                    0 <= i < 8 ==> {
                        let n = (#[trigger] code[i]) as int;
                        50 <= n <= 57 || 65 <= n <= 90 && n != 73 && n != 79
                    }
                &&& device::secure_address(url)
                &&& expires_in <= 600
            },
            AppLinkStateModel::Paired { browsers } => browsers <= 8,
        },
{
    if let AppLinkStateModel::Pairing { code, url, expires_in } = state {
        if device::app_link_ok(state) {
            assert forall|i: int| 0 <= i < code.len() implies 0
                <= (#[trigger] code[i]) as int <= 127 by {
                assert(Alphabet::LinkCode.holds(code[i]));
            }
            lemma_plain(code);
        } else if code.len() == 8 && (forall|i: int|
            0 <= i < 8 ==> {
                let n = (#[trigger] code[i]) as int;
                50 <= n <= 57 || 65 <= n <= 90 && n != 73 && n != 79
            }) {
            lemma_plain(code);
            assert(text::is_drawn_from(code, Alphabet::LinkCode));
        }
    }
}

// ---------------------------------------------------------------------------
// Headers, credentials and work.

/// A header may be sent when its name is 1 to 64 token characters and its value
/// at most 256 visible ones: neither can end the line it stands on.
pub proof fn law_headers(header: HeaderModel)
    ensures
        task::header_ok(header) <==> {
            &&& 1 <= header.name.len() <= 64
            &&& header.value.len() <= 256
            &&& forall|i: int|
                0 <= i < header.name.len() ==> Alphabet::Token.holds(#[trigger] header.name[i])
            &&& forall|i: int|
                0 <= i < header.value.len() ==> 32 <= (#[trigger] header.value[i]) as int <= 126
                    || header.value[i] == '\t'
        },
        task::header_ok(header) ==> {
            &&& forall|i: int|
                0 <= i < header.name.len() ==> #[trigger] header.name[i] != ':' && header.name[i]
                    != ' ' && header.name[i] != '\r' && header.name[i] != '\n'
            &&& forall|i: int|
                0 <= i < header.value.len() ==> #[trigger] header.value[i] != '\r'
                    && header.value[i] != '\n'
        },
{
    if forall|i: int|
        0 <= i < header.name.len() ==> Alphabet::Token.holds(#[trigger] header.name[i]) {
        lemma_plain(header.name);
    }
    if text::is_drawn_from(header.value, Alphabet::Visible) {
        assert forall|i: int| 0 <= i < header.value.len() implies 32
            <= (#[trigger] header.value[i]) as int <= 126 || header.value[i] == '\t' by {
            assert(Alphabet::Visible.holds(header.value[i]));
        }
        lemma_plain(header.value);
    } else if forall|i: int|
        0 <= i < header.value.len() ==> 32 <= (#[trigger] header.value[i]) as int <= 126
            || header.value[i] == '\t' {
        assert(text::is_drawn_from(header.value, Alphabet::Visible));
    }
}

/// A credential may be used when its secret is named in 1 to 64 bytes, and the
/// header it is sent in, where it names one, in 1 to 64 token characters.
pub proof fn law_credentials(credential: CredentialModel)
    ensures
        task::credential_ok(credential) <==> {
            &&& 1 <= wire::utf8_len(credential.secret) <= 64
            &&& credential.header matches SecretHeaderModel::Named(name) ==> 1 <= name.len() <= 64
                && forall|i: int| 0 <= i < name.len() ==> Alphabet::Token.holds(#[trigger] name[i])
        },
{
    if let SecretHeaderModel::Named(name) = credential.header {
        if forall|i: int| 0 <= i < name.len() ==> Alphabet::Token.holds(#[trigger] name[i]) {
            lemma_plain(name);
        }
    }
}

/// Work may be sent within these bounds: an address of up to 2048 bytes, up to
/// eight headers, a body of up to 4 MiB, a path and a type of up to 16384 bytes,
/// and a secret of 1 to 64 letters, digits, hyphens and underscores to revoke. A
/// nap may always be sent.
pub proof fn law_sendable_work(work: TaskModel)
    ensures
        task::sendable(work) <==> match work {
            TaskModel::Fetch { url, offset, max_bytes, credential, headers } => {
                &&& wire::utf8_len(url) <= 2048
                &&& headers.len() <= 8
                &&& forall|i: int| 0 <= i < headers.len() ==> task::header_ok(#[trigger] headers[i])
                &&& credential matches Some(secret) ==> task::credential_ok(secret)
            },
            TaskModel::Post { url, body, content_type, credential, headers, max_bytes } => {
                &&& wire::utf8_len(url) <= 2048
                &&& wire::utf8_len(body) <= 4_194_304
                &&& wire::utf8_len(content_type) <= 16_384
                &&& headers.len() <= 8
                &&& forall|i: int| 0 <= i < headers.len() ==> task::header_ok(#[trigger] headers[i])
                &&& credential matches Some(secret) ==> task::credential_ok(secret)
            },
            TaskModel::RevokeCredential { credential } => 1 <= credential.len() <= 64
                && forall|i: int|
                    0 <= i < credential.len() ==> digit(#[trigger] credential[i]) || lower(
                        credential[i],
                    ) || upper(credential[i]) || credential[i] == '-' || credential[i] == '_',
            TaskModel::ReadFile { path } => wire::utf8_len(path) <= 16_384,
            TaskModel::Sleep { seconds } => true,
        },
{
    if let TaskModel::RevokeCredential { credential } = work {
        if task::sendable(work) {
            assert forall|i: int| 0 <= i < credential.len() implies digit(#[trigger] credential[i])
                || lower(credential[i]) || upper(credential[i]) || credential[i] == '-'
                || credential[i] == '_' by {
                assert(Alphabet::SecretName.holds(credential[i]));
            }
            lemma_plain(credential);
        } else if forall|i: int|
            0 <= i < credential.len() ==> digit(#[trigger] credential[i]) || lower(credential[i])
                || upper(credential[i]) || credential[i] == '-' || credential[i] == '_' {
            lemma_plain(credential);
            assert(text::is_drawn_from(credential, Alphabet::SecretName));
        }
    }
}

// ---------------------------------------------------------------------------
// The battery.

/// The health of a battery is the whole hundredths of its first capacity that it
/// still has, up to all of it; it is unknown without two capacities above none.
pub proof fn law_health_is_a_whole_share(full: i32, design: i32)
    requires
        full > 0,
        design > 0,
    ensures
        device::health_of(None, Some(design)) is None,
        device::health_of(Some(full), None) is None,
        device::health_of(Some(full), Some(design)) matches Some(share) && {
            &&& full >= design ==> share == 100
            &&& full < design ==> share < 100 && share * design <= full * 100 && full * 100 < (share
                + 1) * design
        },
{
    let percent = full * 100 / (design as int);
    vstd::arithmetic::div_mod::lemma_fundamental_div_mod(full * 100, design as int);
    assert(percent * design == design * percent) by (nonlinear_arith);
    assert((percent + 1) * design == percent * design + design) by (nonlinear_arith);
    if full >= design {
        assert(percent >= 100) by (nonlinear_arith)
            requires
                full >= design,
                design > 0,
                full * 100 < (percent + 1) * design,
        ;
    } else {
        assert(0 <= percent < 100) by (nonlinear_arith)
            requires
                0 <= full < design,
                percent * design <= full * 100,
                full * 100 < (percent + 1) * design,
        ;
    }
}

/// A capacity of none or less says nothing of health.
pub proof fn law_health_needs_capacities(full: i32, design: i32)
    requires
        full <= 0 || design <= 0,
    ensures
        device::health_of(Some(full), Some(design)) is None,
{
}

/// The time a battery has to go is the whole minutes in which the current it
/// carries moves what is still to go: up to full while it charges, down to empty
/// while it drains. It is unknown when nothing moves or nothing is to go.
pub proof fn law_minutes_to_go(current: i32, held: i32, full: i32, minutes: u32)
    requires
        current != 0,
    ensures
        ({
            let draw = if current > 0 {
                current as int
            } else {
                -current
            };
            let to_go = if current > 0 {
                full - held
            } else {
                held as int
            };
            let told = device::minutes_of(Some(current), Some(held), Some(full));
            &&& to_go <= 0 ==> told is None
            &&& 0 < to_go <= i32::MAX && minutes * draw <= to_go * 60 && to_go * 60 < (minutes + 1)
                * draw ==> told == Some(minutes)
            &&& device::minutes_of(Some(0), Some(held), Some(full)) is None
            &&& device::minutes_of(None, Some(held), Some(full)) is None
            &&& device::minutes_of(Some(current), None, Some(full)) is None
            &&& current > 0 ==> device::minutes_of(Some(current), Some(held), None) is None
            &&& current < 0 ==> device::minutes_of(Some(current), Some(held), None) == told
        }),
{
    let draw = if current > 0 {
        current as int
    } else {
        -current
    };
    let to_go = if current > 0 {
        full - held
    } else {
        held as int
    };
    if 0 < to_go <= i32::MAX && minutes * draw <= to_go * 60 && to_go * 60 < (minutes + 1) * draw {
        assert((minutes + 1) * draw == minutes * draw + draw) by (nonlinear_arith);
        assert(minutes * draw == draw * minutes) by (nonlinear_arith);
        vstd::arithmetic::div_mod::lemma_fundamental_div_mod_converse(
            to_go * 60,
            draw,
            minutes as int,
            to_go * 60 - minutes * draw,
        );
    }
}

} // verus!
