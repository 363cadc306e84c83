//! The identity under which one resolution talks to the vendor.
use crate::number::{decimal, decimal_text};
use crate::text::{append_all, chars_of, string_of};
use vstd::prelude::*;

verus! {

/// The moment, in seconds since 1970, at which Firefox 124 was released.
pub const FIREFOX_124_RELEASE_TIME: u64 = 1710806400;

/// The seconds between two releases of Firefox.
pub const FOUR_WEEKS: u64 = 2419200;

/// The version of Firefox that is current at a moment: 124 at its release,
/// and one more for every four full weeks since. Before that release it is
/// 124.
pub open spec fn firefox_release(unix_secs: u64) -> nat {
    if unix_secs >= FIREFOX_124_RELEASE_TIME {
        (124 + (unix_secs - FIREFOX_124_RELEASE_TIME) / (FOUR_WEEKS as int)) as nat
    } else {
        124
    }
}

/// The user-agent text of the Firefox that is current at a moment.
pub open spec fn user_agent_text(unix_secs: u64) -> Seq<char> {
    "Mozilla 5.0 (X11, Linux x86_64; rv:"@ + decimal_text(firefox_release(unix_secs))
        + ".0) Gecko/20100101 Firefox/"@ + decimal_text(firefox_release(unix_secs)) + ".0"@
}

/// A lower-case hexadecimal digit.
pub open spec fn is_lower_hex(c: char) -> bool {
    '0' <= c <= '9' || 'a' <= c <= 'f'
}

/// The text of a random identifier: 36 characters, of which the ninth, the
/// fourteenth, the nineteenth and the twenty-fourth are hyphens and the
/// others lower-case hexadecimal digits; the digit that names the version is
/// 4, and the digit that opens the fourth group is 8, 9, a or b.
pub open spec fn is_session_id(s: Seq<char>) -> bool {
    &&& s.len() == 36
    &&& forall|i: int|
        0 <= i < 36 ==> if i == 8 || i == 13 || i == 18 || i == 23 {
            #[trigger] s[i] == '-'
        } else {
            is_lower_hex(s[i])
        }
    &&& s[14] == '4'
    &&& (s[19] == '8' || s[19] == '9' || s[19] == 'a' || s[19] == 'b')
}

/// Draws a random identifier with `uuid::Uuid::new_v4` and writes it as
/// `Uuid` writes itself: hyphenated, in lower case. Which identifier comes
/// out is left open; only its shape is stated.
#[verifier::external_body]
pub(crate) fn random_session_id() -> (r: String)
    ensures
        is_session_id(r@),
{
    uuid::Uuid::new_v4().to_string()
}

/// The version of Firefox that is current at a moment.
pub fn firefox_version(unix_secs: u64) -> (r: u64)
    ensures
        r == firefox_release(unix_secs),
{
    if unix_secs >= FIREFOX_124_RELEASE_TIME {
        124 + (unix_secs - FIREFOX_124_RELEASE_TIME) / FOUR_WEEKS
    } else {
        124
    }
}

/// The user-agent text of the Firefox that is current at a moment.
pub fn user_agent(unix_secs: u64) -> (r: String)
    ensures
        r@ == user_agent_text(unix_secs),
{
    let version = decimal(firefox_version(unix_secs));
    let mut out = chars_of("Mozilla 5.0 (X11, Linux x86_64; rv:");
    append_all(&mut out, &version);
    append_all(&mut out, &chars_of(".0) Gecko/20100101 Firefox/"));
    append_all(&mut out, &version);
    append_all(&mut out, &chars_of(".0"));
    string_of(&out)
}

/// What one resolution presents itself with: a browser's user-agent text and
/// an identifier of its own. Both stay the same through all its requests.
#[derive(Debug, Clone, PartialEq, Eq)]
pub struct SessionContext {
    pub user_agent: String,
    pub session_id: String,
}

impl SessionContext {
    /// A session at the given moment, in seconds since 1970, under a fresh
    /// random identifier.
    pub fn new(unix_secs: u64) -> (r: Self)
        ensures
            r.user_agent@ == user_agent_text(unix_secs),
            is_session_id(r.session_id@),
    {
        SessionContext { user_agent: user_agent(unix_secs), session_id: random_session_id() }
    }

    /// A session at the given moment under the given identifier.
    pub fn with_id(unix_secs: u64, session_id: String) -> (r: Self)
        ensures
            r.user_agent@ == user_agent_text(unix_secs),
            r.session_id == session_id,
    {
        SessionContext { user_agent: user_agent(unix_secs), session_id }
    }
}

} // verus!
