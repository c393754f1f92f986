//! The user's desired run mode and remote address.

use vstd::prelude::*;
use vstd::string::*;
use crate::error::{SupervisorError, SupervisorErrorView};
use crate::text::{
    lemma_strip_trailing_is_prefix, same_text, strip_trailing, trim, trim_end_matches, trimmed,
};

verus! {

/// Address used when the user has configured none.
pub const DEFAULT_REMOTE_BASE_URL: &'static str = "http://127.0.0.1:8090";

/// The word for embedded mode.
pub const MODE_EMBEDDED: &'static str = "embedded";

/// The word for remote mode.
pub const MODE_REMOTE: &'static str = "remote";

/// Where the backend that the front-end talks to runs.
#[derive(Clone, Copy, Debug, PartialEq, Eq, Structural)]
pub enum RuntimeMode {
    /// A backend process started and owned by the supervisor on this machine.
    Embedded,
    /// A backend reachable at the configured address; no local process.
    Remote,
}

/// What the user wants: a mode, and the address of the remote backend.
#[derive(Clone, Debug, PartialEq, Eq)]
pub struct RuntimeProfile {
    pub mode: RuntimeMode,
    pub remote_base_url: String,
}

/// A profile as a mathematical value.
pub struct RuntimeProfileView {
    pub mode: RuntimeMode,
    pub remote_base_url: Seq<char>,
}

impl View for RuntimeProfile {
    type V = RuntimeProfileView;

    open spec fn view(&self) -> RuntimeProfileView {
        RuntimeProfileView { mode: self.mode, remote_base_url: self.remote_base_url@ }
    }
}

/// The profile of a user who has chosen nothing: embedded mode, and the default
/// address.
pub open spec fn default_profile() -> RuntimeProfileView {
    RuntimeProfileView { mode: RuntimeMode::Embedded, remote_base_url: DEFAULT_REMOTE_BASE_URL@ }
}

/// An address in normal form: surrounding white space removed, then trailing
/// slashes removed. An address of which nothing is left then stands for the
/// default one, so that an address in normal form is never empty.
pub open spec fn normalized_url(value: Seq<char>) -> Seq<char> {
    let kept = strip_trailing(trimmed(value), '/');
    if kept.len() == 0 {
        DEFAULT_REMOTE_BASE_URL@
    } else {
        kept
    }
}

/// The mode that a word names.
pub open spec fn parsed_mode(word: Seq<char>) -> Option<RuntimeMode> {
    if word == MODE_EMBEDDED@ {
        Some(RuntimeMode::Embedded)
    } else if word == MODE_REMOTE@ {
        Some(RuntimeMode::Remote)
    } else {
        None
    }
}

/// The profile to run with, given what the profile file held: the stored profile
/// with its address normalized, or the default profile if nothing usable was
/// stored.
pub open spec fn loaded_profile(stored: Option<RuntimeProfileView>) -> RuntimeProfileView {
    match stored {
        Some(profile) => RuntimeProfileView {
            mode: profile.mode,
            remote_base_url: normalized_url(profile.remote_base_url),
        },
        None => default_profile(),
    }
}

/// The two words for modes name the two modes.
pub proof fn lemma_mode_words()
    ensures
        parsed_mode(MODE_EMBEDDED@) == Some(RuntimeMode::Embedded),
        parsed_mode(MODE_REMOTE@) == Some(RuntimeMode::Remote),
{
    reveal_strlit("embedded");
    reveal_strlit("remote");
    assert(MODE_EMBEDDED@.len() != MODE_REMOTE@.len());
}

/// An address in normal form is not empty and does not end in a slash.
pub proof fn lemma_normalized_url_is_an_address(value: Seq<char>)
    ensures
        normalized_url(value).len() > 0,
        normalized_url(value).last() != '/',
{
    reveal_strlit("http://127.0.0.1:8090");
    lemma_strip_trailing_is_prefix(trimmed(value), '/');
}

/// Whatever the profile file held, the profile to run with has an address that
/// is not empty and does not end in a slash.
pub proof fn lemma_loaded_profile_has_an_address(stored: Option<RuntimeProfileView>)
    ensures
        loaded_profile(stored).remote_base_url.len() > 0,
        loaded_profile(stored).remote_base_url.last() != '/',
{
    reveal_strlit("http://127.0.0.1:8090");
    if let Some(profile) = stored {
        lemma_normalized_url_is_an_address(profile.remote_base_url);
    }
}

impl Default for RuntimeProfile {
    fn default() -> (profile: Self)
        ensures
            profile@ == default_profile(),
    {
        RuntimeProfile {
            mode: RuntimeMode::Embedded,
            remote_base_url: String::from_str(DEFAULT_REMOTE_BASE_URL),
        }
    }
}

/// Brings an address into normal form.
pub fn normalize_url(value: &str) -> (url: String)
    ensures
        url@ == normalized_url(value@),
{
    let kept = trim_end_matches(trim(value), '/');
    if kept.unicode_len() == 0 {
        return String::from_str(DEFAULT_REMOTE_BASE_URL);
    }
    String::from_str(kept)
}

/// Reads the word for a mode. Any word but `embedded` and `remote` is refused,
/// and the error carries it.
pub fn parse_runtime_mode(word: &str) -> (mode: Result<RuntimeMode, SupervisorError>)
    ensures
        match mode {
            Ok(m) => parsed_mode(word@) == Some(m),
            Err(e) => parsed_mode(word@) is None && e@ == (SupervisorErrorView::UnsupportedMode {
                mode: word@,
            }),
        },
{
    if same_text(word, MODE_EMBEDDED) {
        Ok(RuntimeMode::Embedded)
    } else if same_text(word, MODE_REMOTE) {
        Ok(RuntimeMode::Remote)
    } else {
        Err(SupervisorError::UnsupportedMode { mode: String::from_str(word) })
    }
}

/// The profile to run with, given what the profile file held. `stored` is `None`
/// when the file is missing, unreadable or malformed.
pub fn load_runtime_profile(stored: Option<RuntimeProfile>) -> (profile: RuntimeProfile)
    ensures
        profile@ == loaded_profile(
            match stored {
                Some(p) => Some(p@),
                None => None,
            },
        ),
{
    match stored {
        Some(found) => RuntimeProfile {
            mode: found.mode,
            remote_base_url: normalize_url(found.remote_base_url.as_str()),
        },
        None => RuntimeProfile::default(),
    }
}

} // verus!
