//! What to put in front of a reader when something did not work.

use vstd::prelude::*;

use crate::glyph::Glyph;
use crate::store::StoreError;
use crate::task::TaskError;
use crate::text;
use crate::text::begins_with;

verus! {

/// Standard whole-screen conditions with consistent titles and urgency.
#[derive(Clone, Copy, Debug, PartialEq, Eq, Structural)]
pub enum StandardState {
    Empty,
    Offline,
    PermissionDenied,
    Error,
}

impl StandardState {
    /// The heading of a screen in this condition.
    pub open spec fn heading(self) -> Seq<char> {
        match self {
            StandardState::Empty => "Nothing here yet"@,
            StandardState::Offline => "You're offline"@,
            StandardState::PermissionDenied => "Permission needed"@,
            StandardState::Error => "Something went wrong"@,
        }
    }

    /// The mark drawn above the heading.
    pub open spec fn mark(self) -> Glyph {
        match self {
            StandardState::Empty => Glyph::Circle,
            StandardState::Offline => Glyph::Wifi,
            StandardState::PermissionDenied => Glyph::Key,
            StandardState::Error => Glyph::Close,
        }
    }

    #[must_use]
    pub fn title(self) -> (title: &'static str)
        ensures
            title@ == self.heading(),
    {
        match self {
            StandardState::Empty => "Nothing here yet",
            StandardState::Offline => "You're offline",
            StandardState::PermissionDenied => "Permission needed",
            StandardState::Error => "Something went wrong",
        }
    }

    /// The mark drawn above the title. A missing permission is a key and not a
    /// person: what is missing most often is a key the reader never installed.
    pub(crate) fn glyph(self) -> (glyph: Glyph)
        ensures
            glyph == self.mark(),
    {
        match self {
            StandardState::Empty => Glyph::Circle,
            StandardState::Offline => Glyph::Wifi,
            StandardState::PermissionDenied => Glyph::Key,
            StandardState::Error => Glyph::Close,
        }
    }
}

/// The action that takes a reader from a failure to the Wi-Fi screen.
///
/// The runner answers it before the application sees it. The name is prefixed
/// so that an application that calls something "wifi" does not collide with it.
pub const JOIN_WIFI: &'static str = "kobo.join-wifi";

/// The application the reader is sent to when a failure is a missing network.
pub const NETWORK_SETTINGS_APP: &'static str = "settings";

/// What to say about something that failed.
#[derive(Clone, Copy, Debug, PartialEq, Eq)]
pub struct Failure {
    /// The whole-screen state, for when there is nothing on the page already.
    pub state: StandardState,
    /// One sentence saying what happened and what would change it.
    pub advice: &'static str,
    /// Whether offering to try again is honest.
    pub retryable: bool,
}

/// The condition a failed task leaves a screen in.
pub open spec fn condition_of(error: TaskError) -> StandardState {
    match error {
        TaskError::Offline => StandardState::Offline,
        TaskError::Denied | TaskError::Unauthorized | TaskError::NoCredential =>
            StandardState::PermissionDenied,
        TaskError::NotFound => StandardState::Empty,
        _ => StandardState::Error,
    }
}

/// The advice for a failed task.
pub open spec fn advice_for(error: TaskError) -> Seq<char> {
    match error {
        TaskError::Offline => "This reader is not on a network. Join Wi-Fi and try again."@,
        TaskError::Unreachable => "The service did not answer. It may be down."@,
        TaskError::TimedOut => "The network was too slow to answer."@,
        TaskError::Denied => "This application is not allowed to do that."@,
        TaskError::Unauthorized => "This service will not answer without an account."@,
        TaskError::NoCredential =>
            "This reader has no API key for that service. Install one with kobo secret set."@,
        TaskError::TooLarge => "The reply was too large to read on this device."@,
        TaskError::NotFound => "The service had nothing to return."@,
        TaskError::LocalStorage => "This reader could not remove the local sign-in data."@,
        TaskError::RevocationUnconfirmed =>
            "Signed out here, but BOMTOON did not confirm remote sign-out."@,
    }
}

/// The condition a refused write leaves a screen in.
pub open spec fn storing_condition(error: StoreError) -> StandardState {
    match error {
        StoreError::Missing => StandardState::Empty,
        _ => StandardState::Error,
    }
}

/// The advice for a refused write.
pub open spec fn storing_advice(error: StoreError) -> Seq<char> {
    match error {
        StoreError::NoRoom | StoreError::TooFull =>
            "There is not enough room left on this reader. Delete something and try again."@,
        StoreError::Unwritable => "This reader would not save the file."@,
        StoreError::Missing => "That file is no longer on this reader."@,
        StoreError::BadKey =>
            "This application asked for a file name the reader will not accept."@,
    }
}

/// How advice about a missing key begins.
pub open spec fn opening_of_a_missing_key() -> Seq<char> {
    "This reader has no API key"@
}

/// The advice about a missing key, by the name of the key.
pub open spec fn missing_key(secret: Seq<char>) -> Seq<char> {
    "This reader has no API key called "@ + secret + ". Install one with kobo secret set "@ + secret
        + "."@
}

/// The advice of a failure, naming the key that the work asked for where the
/// failure is that there is none.
pub open spec fn named_advice(
    state: StandardState,
    advice: Seq<char>,
    secret: Seq<char>,
) -> Seq<char> {
    if state == StandardState::PermissionDenied && text::has_prefix(
        advice,
        opening_of_a_missing_key(),
    ) {
        missing_key(secret)
    } else {
        advice
    }
}

impl Failure {
    /// Reads a task failure the way a reader would.
    #[must_use]
    pub fn of(error: TaskError) -> (failure: Failure)
        ensures
            failure.state == condition_of(error),
            failure.advice@ == advice_for(error),
            failure.retryable == error.passes_with_time(),
    {
        match error {
            TaskError::Offline => Failure {
                state: StandardState::Offline,
                advice: "This reader is not on a network. Join Wi-Fi and try again.",
                retryable: true,
            },
            TaskError::Unreachable => Failure {
                state: StandardState::Error,
                advice: "The service did not answer. It may be down.",
                retryable: true,
            },
            TaskError::TimedOut => Failure {
                state: StandardState::Error,
                advice: "The network was too slow to answer.",
                retryable: true,
            },
            TaskError::Denied => Failure {
                state: StandardState::PermissionDenied,
                advice: "This application is not allowed to do that.",
                retryable: false,
            },
            TaskError::Unauthorized => Failure {
                state: StandardState::PermissionDenied,
                advice: "This service will not answer without an account.",
                retryable: false,
            },
            TaskError::NoCredential => Failure {
                state: StandardState::PermissionDenied,
                advice:
                    "This reader has no API key for that service. Install one with kobo secret set.",
                retryable: false,
            },
            TaskError::TooLarge => Failure {
                state: StandardState::Error,
                advice: "The reply was too large to read on this device.",
                retryable: false,
            },
            TaskError::NotFound => Failure {
                state: StandardState::Empty,
                advice: "The service had nothing to return.",
                retryable: false,
            },
            TaskError::LocalStorage => Failure {
                state: StandardState::Error,
                advice: "This reader could not remove the local sign-in data.",
                retryable: false,
            },
            TaskError::RevocationUnconfirmed => Failure {
                state: StandardState::Error,
                advice: "Signed out here, but BOMTOON did not confirm remote sign-out.",
                retryable: false,
            },
        }
    }

    /// The heading for a whole-screen version of this failure.
    #[must_use]
    pub fn title(self) -> (title: &'static str)
        ensures
            title@ == self.state.heading(),
    {
        self.state.title()
    }

    /// The advice, naming the credential the work asked for.
    ///
    /// Every failure but a missing key is unchanged: a slow network has nothing
    /// to do with which key was asked for.
    #[must_use]
    pub fn naming(self, secret: &str) -> (advice: String)
        ensures
            advice@ == named_advice(self.state, self.advice@, secret@),
    {
        let keyless = begins_with(self.advice, "This reader has no API key");
        if self.state == StandardState::PermissionDenied && keyless {
            let mut advice = "This reader has no API key called ".to_owned();
            advice.append(secret);
            advice.append(". Install one with kobo secret set ");
            advice.append(secret);
            advice.append(".");
            return advice;
        }
        self.advice.to_owned()
    }

    /// Reads a shelf write failure the way a reader would.
    ///
    /// None of these is worth retrying: a full card and a rejected key are both
    /// the same the second time.
    #[must_use]
    pub fn storing(error: StoreError) -> (failure: Failure)
        ensures
            failure.state == storing_condition(error),
            failure.advice@ == storing_advice(error),
            !failure.retryable,
    {
        match error {
            StoreError::NoRoom | StoreError::TooFull => Failure {
                state: StandardState::Error,
                advice:
                    "There is not enough room left on this reader. Delete something and try again.",
                retryable: false,
            },
            StoreError::Unwritable => Failure {
                state: StandardState::Error,
                advice: "This reader would not save the file.",
                retryable: false,
            },
            StoreError::Missing => Failure {
                state: StandardState::Empty,
                advice: "That file is no longer on this reader.",
                retryable: false,
            },
            StoreError::BadKey => Failure {
                state: StandardState::Error,
                advice: "This application asked for a file name the reader will not accept.",
                retryable: false,
            },
        }
    }
}

/// Only the advice about a missing key changes when a key is named: every other
/// task failure says what it said.
pub proof fn law_naming_touches_missing_keys_alone(error: TaskError, secret: Seq<char>)
    ensures
        named_advice(condition_of(error), advice_for(error), secret) == if error
            == TaskError::NoCredential {
            missing_key(secret)
        } else {
            advice_for(error)
        },
{
    reveal_strlit("This reader has no API key");
    reveal_strlit("This application is not allowed to do that.");
    reveal_strlit("This service will not answer without an account.");
    reveal_strlit("This reader has no API key for that service. Install one with kobo secret set.");
    let opening = opening_of_a_missing_key();
    let keyless = advice_for(TaskError::NoCredential);
    assert(opening =~= keyless.take(opening.len() as int));
    let denied = advice_for(TaskError::Denied);
    assert(opening[5] != denied.take(opening.len() as int)[5]);
    let unauthorized = advice_for(TaskError::Unauthorized);
    assert(opening[5] != unauthorized.take(opening.len() as int)[5]);
}

/// The condition of a screen says what the reader can do about it: a network to
/// join exactly when there is none, a permission to get exactly when one is
/// missing, and nothing to show exactly when nothing was found.
pub proof fn law_conditions_follow_from_failures(error: TaskError)
    ensures
        condition_of(error) is Offline <==> error == TaskError::Offline,
        condition_of(error) is PermissionDenied <==> error == TaskError::Denied || error
            == TaskError::Unauthorized || error == TaskError::NoCredential,
        condition_of(error) is Empty <==> error == TaskError::NotFound,
        condition_of(error) is Error <==> error == TaskError::Unreachable || error
            == TaskError::TimedOut || error == TaskError::TooLarge || error
            == TaskError::LocalStorage || error == TaskError::RevocationUnconfirmed,
        error.passes_with_time() <==> error == TaskError::Offline || error
            == TaskError::Unreachable || error == TaskError::TimedOut,
{
}

/// A refused write leaves nothing to show exactly when what was asked for is
/// not there, and anything else is an error.
pub proof fn law_conditions_follow_from_refused_writes(error: StoreError)
    ensures
        storing_condition(error) is Empty <==> error == StoreError::Missing,
        storing_condition(error) is Error <==> error != StoreError::Missing,
{
}

/// Advice about a missing key names the key, once to say which it is and once
/// to say how to install it, and so tells any two keys apart.
pub proof fn law_advice_names_the_key(secret: Seq<char>, other: Seq<char>)
    ensures
        ({
            let before = "This reader has no API key called "@.len() as int;
            let between = ". Install one with kobo secret set "@.len() as int;
            let n = secret.len() as int;
            let advice = missing_key(secret);
            &&& advice.subrange(before, before + n) == secret
            &&& advice.subrange(before + n + between, before + n + between + n) == secret
        }),
        missing_key(secret) == missing_key(other) ==> secret == other,
{
    let opening = "This reader has no API key called "@;
    let middle = ". Install one with kobo secret set "@;
    let before = opening.len() as int;
    let between = middle.len() as int;
    let n = secret.len() as int;
    let m = other.len() as int;
    let advice = missing_key(secret);
    assert(advice.subrange(before, before + n) =~= secret);
    assert(advice.subrange(before + n + between, before + n + between + n) =~= secret);
    if missing_key(secret) == missing_key(other) {
        assert(missing_key(secret).len() == missing_key(other).len());
        assert(n == m);
        assert(missing_key(other).subrange(before, before + m) =~= other);
    }
}

} // verus!
