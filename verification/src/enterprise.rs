//! The enterprise and server releases and the languages they come in.
use crate::arch::WindowsArchitecture;
use crate::error::RidoError;
use crate::text::same_text;
use crate::windows::WindowsRelease;
use vstd::prelude::*;

verus! {

/// An enterprise, long-term-servicing or server release of Windows.
#[derive(Debug, Clone, Copy, PartialEq, Eq, Structural)]
pub enum EnterpriseRelease {
    ElevenEnterprise,
    TenEnterprise,
    TenLtsc,
    Server2022,
    Server2019,
    Server2016,
    Server2012R2,
}

impl EnterpriseRelease {
    /// The name under which the release is shown.
    pub open spec fn display_text(self) -> Seq<char> {
        match self {
            Self::ElevenEnterprise => "Windows 11 Enterprise"@,
            Self::TenEnterprise => "Windows 10 Enterprise"@,
            Self::TenLtsc => "Windows 10 LTSC"@,
            Self::Server2022 => "Windows Server 2022"@,
            Self::Server2019 => "Windows Server 2019"@,
            Self::Server2016 => "Windows Server 2016"@,
            Self::Server2012R2 => "Windows Server 2012 R2"@,
        }
    }

    /// The short token from which the release is read.
    pub open spec fn token_text(self) -> Seq<char> {
        match self {
            Self::ElevenEnterprise => "11-enterprise"@,
            Self::TenEnterprise => "10-enterprise"@,
            Self::TenLtsc => "10-ltsc"@,
            Self::Server2022 => "server-2022"@,
            Self::Server2019 => "server-2019"@,
            Self::Server2016 => "server-2016"@,
            Self::Server2012R2 => "server-2012-r2"@,
        }
    }

    /// The release that a token names.
    pub open spec fn parse_text(s: Seq<char>) -> Option<Self> {
        if s == "10-enterprise"@ {
            Some(Self::TenEnterprise)
        } else if s == "10-ltsc"@ {
            Some(Self::TenLtsc)
        } else if s == "11-enterprise"@ {
            Some(Self::ElevenEnterprise)
        } else if s == "server-2012-r2"@ {
            Some(Self::Server2012R2)
        } else if s == "server-2016"@ {
            Some(Self::Server2016)
        } else if s == "server-2019"@ {
            Some(Self::Server2019)
        } else if s == "server-2022"@ {
            Some(Self::Server2022)
        } else {
            None
        }
    }

    /// The release belongs to the Windows 10 Enterprise family.
    pub open spec fn is_ten_family(self) -> bool {
        self == Self::TenEnterprise || self == Self::TenLtsc
    }

    /// The release has an image for the architecture: every release has a
    /// 64-bit one, and only the Windows 10 Enterprise family a 32-bit one.
    pub open spec fn has_build(self, arch: WindowsArchitecture) -> bool {
        self.is_ten_family() || arch == WindowsArchitecture::x86_64
    }

    /// The name of the release's page in the evaluation centre. The two
    /// releases of the Windows 10 Enterprise family share one page.
    pub open spec fn page_text(self) -> Seq<char> {
        match self {
            Self::ElevenEnterprise => "windows-11-enterprise"@,
            Self::TenEnterprise => "windows-10-enterprise"@,
            Self::TenLtsc => "windows-10-enterprise"@,
            Self::Server2022 => "windows-server-2022"@,
            Self::Server2019 => "windows-server-2019"@,
            Self::Server2016 => "windows-server-2016"@,
            Self::Server2012R2 => "windows-server-2012-r2"@,
        }
    }

    /// Every enterprise release, in the order of declaration.
    pub open spec fn all_spec() -> Seq<Self> {
        seq![
            Self::ElevenEnterprise,
            Self::TenEnterprise,
            Self::TenLtsc,
            Self::Server2022,
            Self::Server2019,
            Self::Server2016,
            Self::Server2012R2,
        ]
    }

    /// The name under which the release is shown.
    pub fn to_string(&self) -> (r: String)
        ensures
            r@ == self.display_text(),
    {
        String::from_str(
            match self {
                Self::ElevenEnterprise => "Windows 11 Enterprise",
                Self::TenEnterprise => "Windows 10 Enterprise",
                Self::TenLtsc => "Windows 10 LTSC",
                Self::Server2022 => "Windows Server 2022",
                Self::Server2019 => "Windows Server 2019",
                Self::Server2016 => "Windows Server 2016",
                Self::Server2012R2 => "Windows Server 2012 R2",
            },
        )
    }

    /// The short token from which the release is read.
    pub fn token(&self) -> (r: &'static str)
        ensures
            r@ == self.token_text(),
    {
        match self {
            Self::ElevenEnterprise => "11-enterprise",
            Self::TenEnterprise => "10-enterprise",
            Self::TenLtsc => "10-ltsc",
            Self::Server2022 => "server-2022",
            Self::Server2019 => "server-2019",
            Self::Server2016 => "server-2016",
            Self::Server2012R2 => "server-2012-r2",
        }
    }

    /// Whether the release belongs to the Windows 10 Enterprise family.
    pub fn ten_family(&self) -> (r: bool)
        ensures
            r == self.is_ten_family(),
    {
        match self {
            Self::TenEnterprise | Self::TenLtsc => true,
            _ => false,
        }
    }

    /// Whether the release has an image for the architecture.
    pub fn validate(&self, arch: WindowsArchitecture) -> (ok: bool)
        ensures
            ok == self.has_build(arch),
    {
        if self.ten_family() {
            true
        } else {
            match arch {
                WindowsArchitecture::x86_64 => true,
                WindowsArchitecture::i686 => false,
            }
        }
    }

    /// The name of the release's page in the evaluation centre.
    pub fn page(&self) -> (r: &'static str)
        ensures
            r@ == self.page_text(),
    {
        match self {
            Self::ElevenEnterprise => "windows-11-enterprise",
            Self::TenEnterprise => "windows-10-enterprise",
            Self::TenLtsc => "windows-10-enterprise",
            Self::Server2022 => "windows-server-2022",
            Self::Server2019 => "windows-server-2019",
            Self::Server2016 => "windows-server-2016",
            Self::Server2012R2 => "windows-server-2012-r2",
        }
    }

    /// Every enterprise release, in the order of declaration.
    pub fn all() -> (r: Vec<Self>)
        ensures
            r@ == Self::all_spec(),
    {
        let mut out: Vec<Self> = Vec::new();
        out.push(Self::ElevenEnterprise);
        out.push(Self::TenEnterprise);
        out.push(Self::TenLtsc);
        out.push(Self::Server2022);
        out.push(Self::Server2019);
        out.push(Self::Server2016);
        out.push(Self::Server2012R2);
        assert(out@ =~= Self::all_spec());
        out
    }
}

impl<'a> TryFrom<&'a str> for EnterpriseRelease {
    type Error = RidoError;

    /// Reads a release from its token.
    fn try_from(value: &'a str) -> (r: Result<Self, RidoError>) {
        if same_text(value, "10-enterprise") {
            Ok(Self::TenEnterprise)
        } else if same_text(value, "10-ltsc") {
            Ok(Self::TenLtsc)
        } else if same_text(value, "11-enterprise") {
            Ok(Self::ElevenEnterprise)
        } else if same_text(value, "server-2012-r2") {
            Ok(Self::Server2012R2)
        } else if same_text(value, "server-2016") {
            Ok(Self::Server2016)
        } else if same_text(value, "server-2019") {
            Ok(Self::Server2019)
        } else if same_text(value, "server-2022") {
            Ok(Self::Server2022)
        } else {
            Err(RidoError::InvalidReleaseStr)
        }
    }
}

impl<'a> vstd::std_specs::convert::TryFromSpecImpl<&'a str> for EnterpriseRelease {
    open spec fn obeys_try_from_spec() -> bool {
        true
    }

    open spec fn try_from_spec(v: &'a str) -> Result<Self, RidoError> {
        match Self::parse_text(v@) {
            Some(release) => Ok(release),
            None => Err(RidoError::InvalidReleaseStr),
        }
    }
}

impl From<EnterpriseRelease> for WindowsRelease {
    fn from(release: EnterpriseRelease) -> (r: WindowsRelease) {
        WindowsRelease::Enterprise(release)
    }
}

impl vstd::std_specs::convert::FromSpecImpl<EnterpriseRelease> for WindowsRelease {
    open spec fn obeys_from_spec() -> bool {
        true
    }

    open spec fn from_spec(release: EnterpriseRelease) -> WindowsRelease {
        WindowsRelease::Enterprise(release)
    }
}

/// A language in which the enterprise and server releases come.
#[derive(Debug, Clone, Copy, PartialEq, Eq, Structural)]
pub enum EnterpriseLanguage {
    BrazilianPortuguese,
    EnglishUS,
    EnglishGB,
    French,
    German,
    Italian,
    Japanese,
    Korean,
    Russian,
    SimplifiedChinese,
    Spanish,
    TraditionalChinese,
}

impl EnterpriseLanguage {
    /// The name of the language as the vendor writes it.
    pub open spec fn display_text(self) -> Seq<char> {
        match self {
            Self::BrazilianPortuguese => "Portuguese (Brazil)"@,
            Self::EnglishUS => "English (United States)"@,
            Self::EnglishGB => "English (Great Britain)"@,
            Self::French => "French"@,
            Self::German => "German"@,
            Self::Italian => "Italian"@,
            Self::Japanese => "Japanese"@,
            Self::Korean => "Korean"@,
            Self::Russian => "Russian"@,
            Self::SimplifiedChinese => "Chinese (Simplified)"@,
            Self::Spanish => "Spanish"@,
            Self::TraditionalChinese => "Chinese (Traditional)"@,
        }
    }

    /// The language that a name denotes.
    pub open spec fn parse_text(s: Seq<char>) -> Option<Self> {
        if s == "Portuguese (Brazil)"@ {
            Some(Self::BrazilianPortuguese)
        } else if s == "English (United States)"@ {
            Some(Self::EnglishUS)
        } else if s == "English (Great Britain)"@ {
            Some(Self::EnglishGB)
        } else if s == "French"@ {
            Some(Self::French)
        } else if s == "German"@ {
            Some(Self::German)
        } else if s == "Italian"@ {
            Some(Self::Italian)
        } else if s == "Japanese"@ {
            Some(Self::Japanese)
        } else if s == "Korean"@ {
            Some(Self::Korean)
        } else if s == "Russian"@ {
            Some(Self::Russian)
        } else if s == "Chinese (Simplified)"@ {
            Some(Self::SimplifiedChinese)
        } else if s == "Spanish"@ {
            Some(Self::Spanish)
        } else if s == "Chinese (Traditional)"@ {
            Some(Self::TraditionalChinese)
        } else {
            None
        }
    }

    /// The culture code under which the evaluation centre lists the language.
    pub open spec fn culture_text(self) -> Seq<char> {
        match self {
            Self::BrazilianPortuguese => "pt-br"@,
            Self::EnglishUS => "en-us"@,
            Self::EnglishGB => "en-gb"@,
            Self::French => "fr-fr"@,
            Self::German => "de-de"@,
            Self::Italian => "it-it"@,
            Self::Japanese => "ja-jp"@,
            Self::Korean => "ko-kr"@,
            Self::Russian => "ru-ru"@,
            Self::SimplifiedChinese => "zh-cn"@,
            Self::Spanish => "es-es"@,
            Self::TraditionalChinese => "zh-tw"@,
        }
    }

    /// The country code under which the evaluation centre lists the language.
    pub open spec fn country_text(self) -> Seq<char> {
        match self {
            Self::BrazilianPortuguese => "BR"@,
            Self::EnglishUS => "US"@,
            Self::EnglishGB => "GB"@,
            Self::French => "FR"@,
            Self::German => "DE"@,
            Self::Italian => "IT"@,
            Self::Japanese => "JP"@,
            Self::Korean => "KR"@,
            Self::Russian => "RU"@,
            Self::SimplifiedChinese => "CN"@,
            Self::Spanish => "ES"@,
            Self::TraditionalChinese => "TW"@,
        }
    }

    /// The language is left out of the Windows 10 Enterprise family.
    pub open spec fn missing_from_ten_family(self) -> bool {
        self == Self::Russian
    }

    /// The language is offered by the Windows 10 Enterprise family alone.
    pub open spec fn only_in_ten_family(self) -> bool {
        self == Self::BrazilianPortuguese || self == Self::EnglishGB || self == Self::Korean
            || self == Self::TraditionalChinese
    }

    /// The language is offered for the release. No enterprise language is
    /// offered for a consumer release.
    pub open spec fn available_for(self, release: WindowsRelease) -> bool {
        match release {
            WindowsRelease::Enterprise(r) => if r.is_ten_family() {
                !self.missing_from_ten_family()
            } else {
                !self.only_in_ten_family()
            },
            WindowsRelease::Consumer(_) => false,
        }
    }

    /// Every enterprise language, in the order of declaration.
    pub open spec fn all_spec() -> Seq<Self> {
        seq![
            Self::BrazilianPortuguese,
            Self::EnglishUS,
            Self::EnglishGB,
            Self::French,
            Self::German,
            Self::Italian,
            Self::Japanese,
            Self::Korean,
            Self::Russian,
            Self::SimplifiedChinese,
            Self::Spanish,
            Self::TraditionalChinese,
        ]
    }

    /// The name of the language as the vendor writes it.
    pub fn name(&self) -> (r: &'static str)
        ensures
            r@ == self.display_text(),
    {
        match self {
            Self::BrazilianPortuguese => "Portuguese (Brazil)",
            Self::EnglishUS => "English (United States)",
            Self::EnglishGB => "English (Great Britain)",
            Self::French => "French",
            Self::German => "German",
            Self::Italian => "Italian",
            Self::Japanese => "Japanese",
            Self::Korean => "Korean",
            Self::Russian => "Russian",
            Self::SimplifiedChinese => "Chinese (Simplified)",
            Self::Spanish => "Spanish",
            Self::TraditionalChinese => "Chinese (Traditional)",
        }
    }

    /// The name of the language as the vendor writes it.
    pub fn to_string(&self) -> (r: String)
        ensures
            r@ == self.display_text(),
    {
        String::from_str(self.name())
    }

    /// The culture code under which the evaluation centre lists the language.
    pub fn culture(&self) -> (r: &'static str)
        ensures
            r@ == self.culture_text(),
    {
        match self {
            Self::BrazilianPortuguese => "pt-br",
            Self::EnglishUS => "en-us",
            Self::EnglishGB => "en-gb",
            Self::French => "fr-fr",
            Self::German => "de-de",
            Self::Italian => "it-it",
            Self::Japanese => "ja-jp",
            Self::Korean => "ko-kr",
            Self::Russian => "ru-ru",
            Self::SimplifiedChinese => "zh-cn",
            Self::Spanish => "es-es",
            Self::TraditionalChinese => "zh-tw",
        }
    }

    /// The country code under which the evaluation centre lists the language.
    pub fn country(&self) -> (r: &'static str)
        ensures
            r@ == self.country_text(),
    {
        match self {
            Self::BrazilianPortuguese => "BR",
            Self::EnglishUS => "US",
            Self::EnglishGB => "GB",
            Self::French => "FR",
            Self::German => "DE",
            Self::Italian => "IT",
            Self::Japanese => "JP",
            Self::Korean => "KR",
            Self::Russian => "RU",
            Self::SimplifiedChinese => "CN",
            Self::Spanish => "ES",
            Self::TraditionalChinese => "TW",
        }
    }

    /// Whether the language is offered for the release.
    pub fn validate(&self, release: WindowsRelease) -> (ok: bool)
        ensures
            ok == self.available_for(release),
    {
        match release {
            WindowsRelease::Enterprise(r) => if r.ten_family() {
                match self {
                    Self::Russian => false,
                    _ => true,
                }
            } else {
                match self {
                    Self::BrazilianPortuguese
                    | Self::EnglishGB
                    | Self::Korean
                    | Self::TraditionalChinese => false,
                    _ => true,
                }
            },
            WindowsRelease::Consumer(_) => false,
        }
    }

    /// Every enterprise language, in the order of declaration.
    pub fn all() -> (r: Vec<Self>)
        ensures
            r@ == Self::all_spec(),
    {
        let mut out: Vec<Self> = Vec::new();
        out.push(Self::BrazilianPortuguese);
        out.push(Self::EnglishUS);
        out.push(Self::EnglishGB);
        out.push(Self::French);
        out.push(Self::German);
        out.push(Self::Italian);
        out.push(Self::Japanese);
        out.push(Self::Korean);
        out.push(Self::Russian);
        out.push(Self::SimplifiedChinese);
        out.push(Self::Spanish);
        out.push(Self::TraditionalChinese);
        assert(out@ =~= Self::all_spec());
        out
    }
}

impl<'a> TryFrom<&'a str> for EnterpriseLanguage {
    type Error = RidoError;

    /// Reads a language from its name.
    fn try_from(value: &'a str) -> (r: Result<Self, RidoError>) {
        if same_text(value, "Portuguese (Brazil)") {
            Ok(Self::BrazilianPortuguese)
        } else if same_text(value, "English (United States)") {
            Ok(Self::EnglishUS)
        } else if same_text(value, "English (Great Britain)") {
            Ok(Self::EnglishGB)
        } else if same_text(value, "French") {
            Ok(Self::French)
        } else if same_text(value, "German") {
            Ok(Self::German)
        } else if same_text(value, "Italian") {
            Ok(Self::Italian)
        } else if same_text(value, "Japanese") {
            Ok(Self::Japanese)
        } else if same_text(value, "Korean") {
            Ok(Self::Korean)
        } else if same_text(value, "Russian") {
            Ok(Self::Russian)
        } else if same_text(value, "Chinese (Simplified)") {
            Ok(Self::SimplifiedChinese)
        } else if same_text(value, "Spanish") {
            Ok(Self::Spanish)
        } else if same_text(value, "Chinese (Traditional)") {
            Ok(Self::TraditionalChinese)
        } else {
            Err(RidoError::InvalidLanguageStr)
        }
    }
}

impl<'a> vstd::std_specs::convert::TryFromSpecImpl<&'a str> for EnterpriseLanguage {
    open spec fn obeys_try_from_spec() -> bool {
        true
    }

    open spec fn try_from_spec(v: &'a str) -> Result<Self, RidoError> {
        match Self::parse_text(v@) {
            Some(lang) => Ok(lang),
            None => Err(RidoError::InvalidLanguageStr),
        }
    }
}

/// Reading the token of an enterprise release gives the release back.
pub proof fn lemma_enterprise_release_round_trip(release: EnterpriseRelease)
    ensures
        EnterpriseRelease::parse_text(release.token_text()) == Some(release),
{
    reveal_strlit("11-enterprise");
    assert("11-enterprise"@.len() == 13);
    assert("11-enterprise"@[1] == '1');
    reveal_strlit("10-enterprise");
    assert("10-enterprise"@.len() == 13);
    assert("10-enterprise"@[1] == '0');
    reveal_strlit("10-ltsc");
    assert("10-ltsc"@.len() == 7);
    reveal_strlit("server-2022");
    assert("server-2022"@.len() == 11);
    assert("server-2022"@[9] == '2');
    reveal_strlit("server-2019");
    assert("server-2019"@.len() == 11);
    assert("server-2019"@[9] == '1');
    assert("server-2019"@[10] == '9');
    reveal_strlit("server-2016");
    assert("server-2016"@.len() == 11);
    assert("server-2016"@[9] == '1');
    assert("server-2016"@[10] == '6');
    reveal_strlit("server-2012-r2");
    assert("server-2012-r2"@.len() == 14);
}

/// Every enterprise release has a 64-bit image, and the two releases of the
/// Windows 10 Enterprise family alone have a 32-bit image.
pub proof fn lemma_enterprise_architectures(release: EnterpriseRelease)
    ensures
        release.has_build(WindowsArchitecture::x86_64),
        release.has_build(WindowsArchitecture::i686) <==> (release == EnterpriseRelease::TenEnterprise
            || release == EnterpriseRelease::TenLtsc),
{
}

/// Reading the name of an enterprise language gives the language back.
pub proof fn lemma_enterprise_language_round_trip(lang: EnterpriseLanguage)
    ensures
        EnterpriseLanguage::parse_text(lang.display_text()) == Some(lang),
{
    reveal_strlit("Portuguese (Brazil)");
    assert("Portuguese (Brazil)"@.len() == 19);
    reveal_strlit("English (United States)");
    assert("English (United States)"@.len() == 23);
    assert("English (United States)"@[9] == 'U');
    reveal_strlit("English (Great Britain)");
    assert("English (Great Britain)"@.len() == 23);
    assert("English (Great Britain)"@[9] == 'G');
    reveal_strlit("French");
    assert("French"@.len() == 6);
    assert("French"@[0] == 'F');
    reveal_strlit("German");
    assert("German"@.len() == 6);
    assert("German"@[0] == 'G');
    reveal_strlit("Italian");
    assert("Italian"@.len() == 7);
    assert("Italian"@[0] == 'I');
    reveal_strlit("Japanese");
    assert("Japanese"@.len() == 8);
    reveal_strlit("Korean");
    assert("Korean"@.len() == 6);
    assert("Korean"@[0] == 'K');
    reveal_strlit("Russian");
    assert("Russian"@.len() == 7);
    assert("Russian"@[0] == 'R');
    reveal_strlit("Chinese (Simplified)");
    assert("Chinese (Simplified)"@.len() == 20);
    reveal_strlit("Spanish");
    assert("Spanish"@.len() == 7);
    assert("Spanish"@[0] == 'S');
    reveal_strlit("Chinese (Traditional)");
    assert("Chinese (Traditional)"@.len() == 21);
}

/// A text is the name of at most one enterprise language, and reading finds
/// it.
pub proof fn lemma_enterprise_language_parse(s: Seq<char>)
    ensures
        match EnterpriseLanguage::parse_text(s) {
            Some(lang) => lang.display_text() == s,
            None => forall|lang: EnterpriseLanguage| lang.display_text() != s,
        },
{
}

/// The languages that an enterprise release leaves out: Russian is left out
/// by the two releases of the Windows 10 Enterprise family and by no other;
/// Brazilian Portuguese, British English, Korean and Traditional Chinese are
/// left out by every release outside that family and by none inside it; every
/// other language comes with every release.
pub proof fn lemma_enterprise_language_matrix(lang: EnterpriseLanguage, release: EnterpriseRelease)
    ensures
        lang == EnterpriseLanguage::Russian ==> (!lang.available_for(
            WindowsRelease::Enterprise(release),
        ) <==> (release == EnterpriseRelease::TenEnterprise || release
            == EnterpriseRelease::TenLtsc)),
        (lang == EnterpriseLanguage::BrazilianPortuguese || lang == EnterpriseLanguage::EnglishGB
            || lang == EnterpriseLanguage::Korean || lang == EnterpriseLanguage::TraditionalChinese)
            ==> (!lang.available_for(WindowsRelease::Enterprise(release)) <==> (release
            != EnterpriseRelease::TenEnterprise && release != EnterpriseRelease::TenLtsc)),
        (lang != EnterpriseLanguage::Russian && lang != EnterpriseLanguage::BrazilianPortuguese
            && lang != EnterpriseLanguage::EnglishGB && lang != EnterpriseLanguage::Korean && lang
            != EnterpriseLanguage::TraditionalChinese) ==> lang.available_for(
            WindowsRelease::Enterprise(release),
        ),
{
}

impl EnterpriseLanguage {
    /// The list of the enterprise languages leaves none out.
    pub proof fn lemma_all(self)
        ensures
            Self::all_spec().contains(self),
    {
        match self {
            Self::BrazilianPortuguese => {
                assert(Self::all_spec()[0] == self);
            },
            Self::EnglishUS => {
                assert(Self::all_spec()[1] == self);
            },
            Self::EnglishGB => {
                assert(Self::all_spec()[2] == self);
            },
            Self::French => {
                assert(Self::all_spec()[3] == self);
            },
            Self::German => {
                assert(Self::all_spec()[4] == self);
            },
            Self::Italian => {
                assert(Self::all_spec()[5] == self);
            },
            Self::Japanese => {
                assert(Self::all_spec()[6] == self);
            },
            Self::Korean => {
                assert(Self::all_spec()[7] == self);
            },
            Self::Russian => {
                assert(Self::all_spec()[8] == self);
            },
            Self::SimplifiedChinese => {
                assert(Self::all_spec()[9] == self);
            },
            Self::Spanish => {
                assert(Self::all_spec()[10] == self);
            },
            Self::TraditionalChinese => {
                assert(Self::all_spec()[11] == self);
            },
        }
    }
}

impl EnterpriseRelease {
    /// The list of the enterprise releases leaves none out.
    pub proof fn lemma_all(self)
        ensures
            Self::all_spec().contains(self),
    {
        match self {
            Self::ElevenEnterprise => {
                assert(Self::all_spec()[0] == self);
            },
            Self::TenEnterprise => {
                assert(Self::all_spec()[1] == self);
            },
            Self::TenLtsc => {
                assert(Self::all_spec()[2] == self);
            },
            Self::Server2022 => {
                assert(Self::all_spec()[3] == self);
            },
            Self::Server2019 => {
                assert(Self::all_spec()[4] == self);
            },
            Self::Server2016 => {
                assert(Self::all_spec()[5] == self);
            },
            Self::Server2012R2 => {
                assert(Self::all_spec()[6] == self);
            },
        }
    }
}

} // verus!
