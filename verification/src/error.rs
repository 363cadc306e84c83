//! The single error type of the crate.
use crate::arch::WindowsArchitecture;
use crate::windows::{WindowsLanguage, WindowsRelease};
use vstd::prelude::*;

verus! {

/// Why a resolution did not yield a download link.
#[derive(Debug, Clone, PartialEq, Eq)]
pub enum RidoError {
    /// The release has no image for the architecture.
    InvalidArchitecture(WindowsRelease, WindowsArchitecture),
    /// The release has no image in the language.
    InvalidLanguage(WindowsRelease, WindowsLanguage),
    /// The text names no release.
    InvalidReleaseStr,
    /// The text names no language.
    InvalidLanguageStr,
    /// The text names no architecture.
    InvalidArchitectureStr,
    /// A consumer release was paired with an enterprise language, or the
    /// other way round.
    InvalidSelection,
    /// The vendor answered the request for a link with an empty body.
    EmptyResponse,
    /// The vendor answered the request for a link with its refusal page.
    BlockedRequest,
    /// The page holds no download link that fits the request.
    HTMLParse,
    /// A reply was no document of the expected shape; the text is the
    /// decoder's message.
    JSONParsing(String),
    /// No stock-keeping unit of the product is in the requested language.
    SKUID,
    /// The catalogue page names no product.
    ProductID,
    /// No download option fits the requested architecture.
    URL,
    /// A request could not be carried out; the text is the transport's
    /// message.
    Reqwest(String),
}

impl RidoError {
    /// The message that tells a person what went wrong.
    pub open spec fn message_text(self) -> Seq<char> {
        match self {
            Self::InvalidArchitecture(release, arch) => "Specified architecture "@
                + arch.display_text() + " is not available for release "@ + release.display_text(),
            Self::InvalidLanguage(release, lang) => "Specified language "@ + lang.display_text()
                + " is not available for release "@ + release.display_text(),
            Self::InvalidReleaseStr => "Invalid release"@,
            Self::InvalidLanguageStr => "Invalid language"@,
            Self::InvalidArchitectureStr => "Invalid architecture"@,
            Self::InvalidSelection => "The language type must match the release type (Enterprise/Consumer)"@,
            Self::EmptyResponse => "Microsoft servers gave us an empty response to our request for an automated download."@,
            Self::BlockedRequest => "Microsoft blocked the automated download request based on your IP address."@,
            Self::HTMLParse => "Unable to parse download link from HTML"@,
            Self::JSONParsing(detail) => "Could not parse JSON: "@ + detail@,
            Self::SKUID => "Could not find SKUID"@,
            Self::ProductID => "Could not find Product ID"@,
            Self::URL => "Could not find URL"@,
            Self::Reqwest(detail) => "Reqwest error: "@ + detail@,
        }
    }

    /// The message that tells a person what went wrong.
    pub fn to_string(&self) -> (r: String)
        ensures
            r@ == self.message_text(),
    {
        match self {
            Self::InvalidArchitecture(release, arch) => {
                let mut out = String::from_str("Specified architecture ");
                out.append(arch.to_string().as_str());
                out.append(" is not available for release ");
                out.append(release.to_string().as_str());
                out
            },
            Self::InvalidLanguage(release, lang) => {
                let mut out = String::from_str("Specified language ");
                out.append(lang.name());
                out.append(" is not available for release ");
                out.append(release.to_string().as_str());
                out
            },
            Self::InvalidReleaseStr => String::from_str("Invalid release"),
            Self::InvalidLanguageStr => String::from_str("Invalid language"),
            Self::InvalidArchitectureStr => String::from_str("Invalid architecture"),
            Self::InvalidSelection => String::from_str(
                "The language type must match the release type (Enterprise/Consumer)",
            ),
            Self::EmptyResponse => String::from_str(
                "Microsoft servers gave us an empty response to our request for an automated download.",
            ),
            Self::BlockedRequest => String::from_str(
                "Microsoft blocked the automated download request based on your IP address.",
            ),
            Self::HTMLParse => String::from_str("Unable to parse download link from HTML"),
            Self::JSONParsing(detail) => {
                let mut out = String::from_str("Could not parse JSON: ");
                out.append(detail.as_str());
                out
            },
            Self::SKUID => String::from_str("Could not find SKUID"),
            Self::ProductID => String::from_str("Could not find Product ID"),
            Self::URL => String::from_str("Could not find URL"),
            Self::Reqwest(detail) => {
                let mut out = String::from_str("Reqwest error: ");
                out.append(detail.as_str());
                out
            },
        }
    }
}

} // verus!
