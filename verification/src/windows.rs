//! Releases and languages of either family, and the requests made of them.
use crate::arch::WindowsArchitecture;
use crate::consumer::{ConsumerLanguage, ConsumerRelease};
use crate::enterprise::{EnterpriseLanguage, EnterpriseRelease};
use crate::consumer::{lemma_consumer_language_round_trip, lemma_consumer_release_round_trip};
use crate::enterprise::{lemma_enterprise_language_round_trip, lemma_enterprise_release_round_trip};
use crate::error::RidoError;
use crate::text::occurs_at;
use vstd::prelude::*;

verus! {

/// A release of Windows: a consumer release or an enterprise release.
#[derive(Debug, Clone, Copy, PartialEq, Eq, Structural)]
pub enum WindowsRelease {
    Consumer(ConsumerRelease),
    Enterprise(EnterpriseRelease),
}

impl WindowsRelease {
    /// The name under which the release is shown.
    pub open spec fn display_text(self) -> Seq<char> {
        match self {
            Self::Consumer(release) => release.display_text(),
            Self::Enterprise(release) => release.display_text(),
        }
    }

    /// The short token from which the release is read.
    pub open spec fn token_text(self) -> Seq<char> {
        match self {
            Self::Consumer(release) => release.token_text(),
            Self::Enterprise(release) => release.token_text(),
        }
    }

    /// The release that a token names. The tokens of the consumer releases
    /// are tried first.
    pub open spec fn parse_text(s: Seq<char>) -> Option<Self> {
        match ConsumerRelease::parse_text(s) {
            Some(release) => Some(Self::Consumer(release)),
            None => match EnterpriseRelease::parse_text(s) {
                Some(release) => Some(Self::Enterprise(release)),
                None => None,
            },
        }
    }

    /// The release has an image for the architecture.
    pub open spec fn has_build(self, arch: WindowsArchitecture) -> bool {
        match self {
            Self::Consumer(release) => release.has_build(arch),
            Self::Enterprise(release) => release.has_build(arch),
        }
    }

    /// The name under which the release is shown.
    pub fn to_string(&self) -> (r: String)
        ensures
            r@ == self.display_text(),
    {
        match self {
            Self::Consumer(release) => release.to_string(),
            Self::Enterprise(release) => release.to_string(),
        }
    }

    /// The short token from which the release is read.
    pub fn token(&self) -> (r: String)
        ensures
            r@ == self.token_text(),
    {
        match self {
            Self::Consumer(release) => release.token(),
            Self::Enterprise(release) => String::from_str(release.token()),
        }
    }

    /// Whether the release has an image for the architecture.
    pub fn validate(&self, arch: WindowsArchitecture) -> (ok: bool)
        ensures
            ok == self.has_build(arch),
    {
        match self {
            Self::Consumer(release) => release.validate(arch),
            Self::Enterprise(release) => release.validate(arch),
        }
    }
}

impl<'a> TryFrom<&'a str> for WindowsRelease {
    type Error = RidoError;

    /// Reads a release of either family from its token.
    fn try_from(value: &'a str) -> (r: Result<Self, RidoError>) {
        match ConsumerRelease::try_from(value) {
            Ok(release) => Ok(Self::Consumer(release)),
            Err(_) => match EnterpriseRelease::try_from(value) {
                Ok(release) => Ok(Self::Enterprise(release)),
                Err(_) => Err(RidoError::InvalidReleaseStr),
            },
        }
    }
}

impl<'a> vstd::std_specs::convert::TryFromSpecImpl<&'a str> for WindowsRelease {
    open spec fn obeys_try_from_spec() -> bool {
        true
    }

    open spec fn try_from_spec(v: &'a str) -> Result<Self, RidoError> {
        match Self::parse_text(v@) {
            Some(release) => Ok(release),
            None => Err(RidoError::InvalidReleaseStr),
        }
    }
}

/// A language of one of the two families.
#[derive(Debug, Clone, Copy, PartialEq, Eq, Structural)]
pub enum WindowsLanguage {
    Consumer(ConsumerLanguage),
    Enterprise(EnterpriseLanguage),
}

impl WindowsLanguage {
    /// The name of the language as the vendor writes it.
    pub open spec fn display_text(self) -> Seq<char> {
        match self {
            Self::Consumer(lang) => lang.display_text(),
            Self::Enterprise(lang) => lang.display_text(),
        }
    }

    /// The language of the release's family that a name denotes.
    pub open spec fn parse_text(release: WindowsRelease, s: Seq<char>) -> Option<Self> {
        match release {
            WindowsRelease::Consumer(_) => match ConsumerLanguage::parse_text(s) {
                Some(lang) => Some(Self::Consumer(lang)),
                None => None,
            },
            WindowsRelease::Enterprise(_) => match EnterpriseLanguage::parse_text(s) {
                Some(lang) => Some(Self::Enterprise(lang)),
                None => None,
            },
        }
    }

    /// The language and the release belong to the same family.
    pub open spec fn same_family(self, release: WindowsRelease) -> bool {
        (self is Consumer) == (release is Consumer)
    }

    /// The language is offered for the release.
    pub open spec fn available_for(self, release: WindowsRelease) -> bool {
        match self {
            Self::Consumer(lang) => lang.available_for(release),
            Self::Enterprise(lang) => lang.available_for(release),
        }
    }

    /// The name of the language as the vendor writes it.
    pub fn name(&self) -> (r: &'static str)
        ensures
            r@ == self.display_text(),
    {
        match self {
            Self::Consumer(lang) => lang.name(),
            Self::Enterprise(lang) => lang.name(),
        }
    }

    /// The name of the language as the vendor writes it.
    pub fn to_string(&self) -> (r: String)
        ensures
            r@ == self.display_text(),
    {
        String::from_str(self.name())
    }

    /// Whether the language is offered for the release.
    pub fn validate(&self, release: WindowsRelease) -> (ok: bool)
        ensures
            ok == self.available_for(release),
    {
        match self {
            Self::Consumer(lang) => lang.validate(release),
            Self::Enterprise(lang) => lang.validate(release),
        }
    }
}

impl<'a> TryFrom<(WindowsRelease, &'a str)> for WindowsLanguage {
    type Error = RidoError;

    /// Reads a language of the release's family from its name.
    fn try_from(value: (WindowsRelease, &'a str)) -> (r: Result<Self, RidoError>) {
        match value.0 {
            WindowsRelease::Consumer(_) => match ConsumerLanguage::try_from(value.1) {
                Ok(lang) => Ok(Self::Consumer(lang)),
                Err(_) => Err(RidoError::InvalidLanguageStr),
            },
            WindowsRelease::Enterprise(_) => match EnterpriseLanguage::try_from(value.1) {
                Ok(lang) => Ok(Self::Enterprise(lang)),
                Err(_) => Err(RidoError::InvalidLanguageStr),
            },
        }
    }
}

impl<'a> vstd::std_specs::convert::TryFromSpecImpl<(WindowsRelease, &'a str)> for WindowsLanguage {
    open spec fn obeys_try_from_spec() -> bool {
        true
    }

    open spec fn try_from_spec(v: (WindowsRelease, &'a str)) -> Result<Self, RidoError> {
        match Self::parse_text(v.0, v.1@) {
            Some(lang) => Ok(lang),
            None => Err(RidoError::InvalidLanguageStr),
        }
    }
}

impl From<ConsumerLanguage> for WindowsLanguage {
    fn from(lang: ConsumerLanguage) -> (r: WindowsLanguage) {
        WindowsLanguage::Consumer(lang)
    }
}

impl vstd::std_specs::convert::FromSpecImpl<ConsumerLanguage> for WindowsLanguage {
    open spec fn obeys_from_spec() -> bool {
        true
    }

    open spec fn from_spec(lang: ConsumerLanguage) -> WindowsLanguage {
        WindowsLanguage::Consumer(lang)
    }
}

impl From<EnterpriseLanguage> for WindowsLanguage {
    fn from(lang: EnterpriseLanguage) -> (r: WindowsLanguage) {
        WindowsLanguage::Enterprise(lang)
    }
}

impl vstd::std_specs::convert::FromSpecImpl<EnterpriseLanguage> for WindowsLanguage {
    open spec fn obeys_from_spec() -> bool {
        true
    }

    open spec fn from_spec(lang: EnterpriseLanguage) -> WindowsLanguage {
        WindowsLanguage::Enterprise(lang)
    }
}

/// Reading the token of a release gives the release back.
pub proof fn lemma_release_round_trip(release: WindowsRelease)
    ensures
        WindowsRelease::parse_text(release.token_text()) == Some(release),
{
    match release {
        WindowsRelease::Consumer(r) => {
            lemma_consumer_release_round_trip(r);
        },
        WindowsRelease::Enterprise(r) => {
            lemma_enterprise_release_round_trip(r);
            reveal_strlit("10");
            assert("10"@.len() == 2);
            assert("10"@[1] == '0');
            reveal_strlit("11");
            assert("11"@.len() == 2);
            assert("11"@[1] == '1');
            reveal_strlit("productid:");
            assert("productid:"@.len() == 10);
            reveal_strlit("11-enterprise");
            assert("11-enterprise"@.len() == 13);
            assert("11-enterprise"@[1] == '1');
            reveal_strlit("10-enterprise");
            assert("10-enterprise"@.len() == 13);
            assert("10-enterprise"@[1] == '0');
            reveal_strlit("10-ltsc");
            assert("10-ltsc"@.len() == 7);
            reveal_strlit("server-2022");
            assert("server-2022"@.len() == 11);
            assert("server-2022"@[9] == '2');
            reveal_strlit("server-2019");
            assert("server-2019"@.len() == 11);
            assert("server-2019"@[9] == '1');
            assert("server-2019"@[10] == '9');
            reveal_strlit("server-2016");
            assert("server-2016"@.len() == 11);
            assert("server-2016"@[9] == '1');
            assert("server-2016"@[10] == '6');
            reveal_strlit("server-2012-r2");
            assert("server-2012-r2"@.len() == 14);
            assert("11-enterprise"@[0] == '1');
            assert("10-enterprise"@[0] == '1');
            assert("10-ltsc"@[0] == '1');
            assert("server-2022"@[0] == 's');
            assert("server-2019"@[0] == 's');
            assert("server-2016"@[0] == 's');
            assert("server-2012-r2"@[0] == 's');
            assert("productid:"@[0] == 'p');
            let token = r.token_text();
            if occurs_at(token, "productid:"@, 0) {
                assert(token.subrange(0, 10)[0] == token[0]);
            }
        },
    }
}

/// Reading the name of a language, for a release of its family, gives the
/// language back.
pub proof fn lemma_language_round_trip(release: WindowsRelease, lang: WindowsLanguage)
    requires
        lang.same_family(release),
    ensures
        WindowsLanguage::parse_text(release, lang.display_text()) == Some(lang),
{
    match lang {
        WindowsLanguage::Consumer(l) => {
            lemma_consumer_language_round_trip(l);
        },
        WindowsLanguage::Enterprise(l) => {
            lemma_enterprise_language_round_trip(l);
        },
    }
}

} // verus!
