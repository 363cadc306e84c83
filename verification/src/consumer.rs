//! The consumer releases and the languages they come in.
use crate::arch::WindowsArchitecture;
use crate::error::RidoError;
use crate::number::{decimal, decimal_text, lemma_decimal_text, lemma_parse_decimal, parse_u32, parse_u32_text};
use crate::scan::{is_space, space_run, space_run_back, trim, trim_text};
use crate::text::{append_all, chars_of, copy_range, matches_at, occurs_at, same_text, string_of};
use crate::windows::WindowsRelease;
use vstd::prelude::*;

verus! {

/// A consumer release of Windows, or a product of the vendor's catalogue
/// given by its number.
#[derive(Debug, Clone, Copy, PartialEq, Eq, Structural)]
pub enum ConsumerRelease {
    Eleven,
    Ten,
    CustomProductID(u32),
}

impl ConsumerRelease {
    /// The name under which the release is shown.
    pub open spec fn display_text(self) -> Seq<char> {
        match self {
            Self::Ten => "Windows 10"@,
            Self::Eleven => "Windows 11"@,
            Self::CustomProductID(id) => "Custom Product ID: "@ + decimal_text(id as nat),
        }
    }

    /// The short token from which the release is read.
    pub open spec fn token_text(self) -> Seq<char> {
        match self {
            Self::Ten => "10"@,
            Self::Eleven => "11"@,
            Self::CustomProductID(id) => "productid:"@ + decimal_text(id as nat),
        }
    }

    /// The release that a token names: `10`, `11`, or `productid:` followed
    /// by a product number, around which white space is allowed.
    pub open spec fn parse_text(s: Seq<char>) -> Option<Self> {
        if s == "10"@ {
            Some(Self::Ten)
        } else if s == "11"@ {
            Some(Self::Eleven)
        } else if occurs_at(s, "productid:"@, 0) {
            match parse_u32_text(trim_text(s.skip("productid:"@.len() as int))) {
                Some(id) => Some(Self::CustomProductID(id)),
                None => None,
            }
        } else {
            None
        }
    }

    /// The release has an image for the architecture: every release has a
    /// 64-bit one, and all but Windows 11 a 32-bit one.
    pub open spec fn has_build(self, arch: WindowsArchitecture) -> bool {
        !(self == Self::Eleven && arch == WindowsArchitecture::i686)
    }

    /// The address of the page that lists the release's products. A product
    /// given by its number has no such page.
    pub open spec fn catalog_url_text(self) -> Seq<char> {
        match self {
            Self::Ten => "https://microsoft.com/en-us/software-download/windows10ISO"@,
            Self::Eleven => "https://microsoft.com/en-us/software-download/windows11"@,
            Self::CustomProductID(_) => ""@,
        }
    }

    /// The last segment of the release's page, as the older endpoints take it.
    pub open spec fn segment_text(self) -> Seq<char> {
        match self {
            Self::Ten => "windows10ISO"@,
            Self::Eleven => "windows11"@,
            Self::CustomProductID(_) => "windows11"@,
        }
    }

    /// The releases that a listing walks through, in the order of
    /// declaration; product numbers are stood for by the number 0.
    pub open spec fn all_spec() -> Seq<Self> {
        seq![Self::Eleven, Self::Ten, Self::CustomProductID(0)]
    }

    /// The name under which the release is shown.
    pub fn to_string(&self) -> (r: String)
        ensures
            r@ == self.display_text(),
    {
        match self {
            Self::Ten => String::from_str("Windows 10"),
            Self::Eleven => String::from_str("Windows 11"),
            Self::CustomProductID(id) => {
                let mut chars = chars_of("Custom Product ID: ");
                let digits = decimal(*id as u64);
                append_all(&mut chars, &digits);
                string_of(&chars)
            },
        }
    }

    /// The short token from which the release is read.
    pub fn token(&self) -> (r: String)
        ensures
            r@ == self.token_text(),
    {
        match self {
            Self::Ten => String::from_str("10"),
            Self::Eleven => String::from_str("11"),
            Self::CustomProductID(id) => {
                let mut chars = chars_of("productid:");
                let digits = decimal(*id as u64);
                append_all(&mut chars, &digits);
                string_of(&chars)
            },
        }
    }

    /// Whether the release has an image for the architecture.
    pub fn validate(&self, arch: WindowsArchitecture) -> (ok: bool)
        ensures
            ok == self.has_build(arch),
    {
        match (self, arch) {
            (Self::Eleven, WindowsArchitecture::i686) => false,
            _ => true,
        }
    }

    /// The address of the page that lists the release's products.
    pub fn catalog_url(&self) -> (r: &'static str)
        ensures
            r@ == self.catalog_url_text(),
    {
        match self {
            Self::Ten => "https://microsoft.com/en-us/software-download/windows10ISO",
            Self::Eleven => "https://microsoft.com/en-us/software-download/windows11",
            Self::CustomProductID(_) => "",
        }
    }

    /// The last segment of the release's page.
    pub fn segment(&self) -> (r: &'static str)
        ensures
            r@ == self.segment_text(),
    {
        match self {
            Self::Ten => "windows10ISO",
            Self::Eleven => "windows11",
            Self::CustomProductID(_) => "windows11",
        }
    }

    /// The releases that a listing walks through.
    pub fn all() -> (r: Vec<Self>)
        ensures
            r@ == Self::all_spec(),
    {
        let mut out: Vec<Self> = Vec::new();
        out.push(Self::Eleven);
        out.push(Self::Ten);
        out.push(Self::CustomProductID(0));
        assert(out@ =~= Self::all_spec());
        out
    }
}

impl<'a> TryFrom<&'a str> for ConsumerRelease {
    type Error = RidoError;

    /// Reads a release from its token.
    fn try_from(value: &'a str) -> (r: Result<Self, RidoError>) {
        if same_text(value, "10") {
            Ok(Self::Ten)
        } else if same_text(value, "11") {
            Ok(Self::Eleven)
        } else {
            let chars = chars_of(value);
            let prefix = chars_of("productid:");
            if matches_at(&chars, &prefix, 0) {
                let rest = copy_range(&chars, prefix.len(), chars.len());
                assert(rest@ == chars@.skip(prefix.len() as int));
                let number = trim(&rest);
                match parse_u32(&number) {
                    Some(id) => Ok(Self::CustomProductID(id)),
                    None => Err(RidoError::InvalidReleaseStr),
                }
            } else {
                Err(RidoError::InvalidReleaseStr)
            }
        }
    }
}

impl<'a> vstd::std_specs::convert::TryFromSpecImpl<&'a str> for ConsumerRelease {
    open spec fn obeys_try_from_spec() -> bool {
        true
    }

    open spec fn try_from_spec(v: &'a str) -> Result<Self, RidoError> {
        match Self::parse_text(v@) {
            Some(release) => Ok(release),
            None => Err(RidoError::InvalidReleaseStr),
        }
    }
}

impl From<ConsumerRelease> for WindowsRelease {
    fn from(release: ConsumerRelease) -> (r: WindowsRelease) {
        WindowsRelease::Consumer(release)
    }
}

impl vstd::std_specs::convert::FromSpecImpl<ConsumerRelease> for WindowsRelease {
    open spec fn obeys_from_spec() -> bool {
        true
    }

    open spec fn from_spec(release: ConsumerRelease) -> WindowsRelease {
        WindowsRelease::Consumer(release)
    }
}

/// A language in which the consumer releases come.
#[derive(Debug, Clone, Copy, PartialEq, Eq, Structural)]
pub enum ConsumerLanguage {
    Arabic,
    BrazilianPortuguese,
    Bulgarian,
    Croatian,
    Czech,
    Danish,
    Dutch,
    EnglishInternational,
    EnglishUS,
    Estonian,
    Finnish,
    French,
    FrenchCanadian,
    German,
    Greek,
    Hebrew,
    Hungarian,
    Italian,
    Japanese,
    Korean,
    Latvian,
    Lithuanian,
    MexicanSpanish,
    Norwegian,
    Polish,
    Portuguese,
    Romanian,
    Russian,
    SerbianLatin,
    SimplifiedChinese,
    Slovak,
    Slovenian,
    Spanish,
    Swedish,
    Thai,
    TraditionalChinese,
    Turkish,
    Ukrainian,
}

impl ConsumerLanguage {
    /// The name of the language as the vendor writes it.
    pub open spec fn display_text(self) -> Seq<char> {
        match self {
            Self::Arabic => "Arabic"@,
            Self::BrazilianPortuguese => "Brazilian Portuguese"@,
            Self::Bulgarian => "Bulgarian"@,
            Self::Croatian => "Croatian"@,
            Self::Czech => "Czech"@,
            Self::Danish => "Danish"@,
            Self::Dutch => "Dutch"@,
            Self::EnglishInternational => "English International"@,
            Self::EnglishUS => "English (United States)"@,
            Self::Estonian => "Estonian"@,
            Self::Finnish => "Finnish"@,
            Self::French => "French"@,
            Self::FrenchCanadian => "French Canadian"@,
            Self::German => "German"@,
            Self::Greek => "Greek"@,
            Self::Hebrew => "Hebrew"@,
            Self::Hungarian => "Hungarian"@,
            Self::Italian => "Italian"@,
            Self::Japanese => "Japanese"@,
            Self::Korean => "Korean"@,
            Self::Latvian => "Latvian"@,
            Self::Lithuanian => "Lithuanian"@,
            Self::MexicanSpanish => "Spanish (Mexico)"@,
            Self::Norwegian => "Norwegian"@,
            Self::Polish => "Polish"@,
            Self::Portuguese => "Portuguese"@,
            Self::Romanian => "Romanian"@,
            Self::Russian => "Russian"@,
            Self::SerbianLatin => "Serbian Latin"@,
            Self::SimplifiedChinese => "Chinese (Simplified)"@,
            Self::Slovak => "Slovak"@,
            Self::Slovenian => "Slovenian"@,
            Self::Spanish => "Spanish"@,
            Self::Swedish => "Swedish"@,
            Self::Thai => "Thai"@,
            Self::TraditionalChinese => "Chinese (Traditional)"@,
            Self::Turkish => "Turkish"@,
            Self::Ukrainian => "Ukrainian"@,
        }
    }

    /// The language that a name denotes.
    pub open spec fn parse_text(s: Seq<char>) -> Option<Self> {
        if s == "Arabic"@ {
            Some(Self::Arabic)
        } else if s == "Brazilian Portuguese"@ {
            Some(Self::BrazilianPortuguese)
        } else if s == "Bulgarian"@ {
            Some(Self::Bulgarian)
        } else if s == "Croatian"@ {
            Some(Self::Croatian)
        } else if s == "Czech"@ {
            Some(Self::Czech)
        } else if s == "Danish"@ {
            Some(Self::Danish)
        } else if s == "Dutch"@ {
            Some(Self::Dutch)
        } else if s == "English International"@ {
            Some(Self::EnglishInternational)
        } else if s == "English (United States)"@ {
            Some(Self::EnglishUS)
        } else if s == "Estonian"@ {
            Some(Self::Estonian)
        } else if s == "Finnish"@ {
            Some(Self::Finnish)
        } else if s == "French"@ {
            Some(Self::French)
        } else if s == "French Canadian"@ {
            Some(Self::FrenchCanadian)
        } else if s == "German"@ {
            Some(Self::German)
        } else if s == "Greek"@ {
            Some(Self::Greek)
        } else if s == "Hebrew"@ {
            Some(Self::Hebrew)
        } else if s == "Hungarian"@ {
            Some(Self::Hungarian)
        } else if s == "Italian"@ {
            Some(Self::Italian)
        } else if s == "Japanese"@ {
            Some(Self::Japanese)
        } else if s == "Korean"@ {
            Some(Self::Korean)
        } else if s == "Latvian"@ {
            Some(Self::Latvian)
        } else if s == "Lithuanian"@ {
            Some(Self::Lithuanian)
        } else if s == "Spanish (Mexico)"@ {
            Some(Self::MexicanSpanish)
        } else if s == "Norwegian"@ {
            Some(Self::Norwegian)
        } else if s == "Polish"@ {
            Some(Self::Polish)
        } else if s == "Portuguese"@ {
            Some(Self::Portuguese)
        } else if s == "Romanian"@ {
            Some(Self::Romanian)
        } else if s == "Russian"@ {
            Some(Self::Russian)
        } else if s == "Serbian Latin"@ {
            Some(Self::SerbianLatin)
        } else if s == "Chinese (Simplified)"@ {
            Some(Self::SimplifiedChinese)
        } else if s == "Slovak"@ {
            Some(Self::Slovak)
        } else if s == "Slovenian"@ {
            Some(Self::Slovenian)
        } else if s == "Spanish"@ {
            Some(Self::Spanish)
        } else if s == "Swedish"@ {
            Some(Self::Swedish)
        } else if s == "Thai"@ {
            Some(Self::Thai)
        } else if s == "Chinese (Traditional)"@ {
            Some(Self::TraditionalChinese)
        } else if s == "Turkish"@ {
            Some(Self::Turkish)
        } else if s == "Ukrainian"@ {
            Some(Self::Ukrainian)
        } else {
            None
        }
    }

    /// The language is offered for the release: every consumer language for
    /// every consumer release, and for no other.
    pub open spec fn available_for(self, release: WindowsRelease) -> bool {
        release is Consumer
    }

    /// Every consumer language, in the order of declaration.
    pub open spec fn all_spec() -> Seq<Self> {
        seq![
            Self::Arabic,
            Self::BrazilianPortuguese,
            Self::Bulgarian,
            Self::Croatian,
            Self::Czech,
            Self::Danish,
            Self::Dutch,
            Self::EnglishInternational,
            Self::EnglishUS,
            Self::Estonian,
            Self::Finnish,
            Self::French,
            Self::FrenchCanadian,
            Self::German,
            Self::Greek,
            Self::Hebrew,
            Self::Hungarian,
            Self::Italian,
            Self::Japanese,
            Self::Korean,
            Self::Latvian,
            Self::Lithuanian,
            Self::MexicanSpanish,
            Self::Norwegian,
            Self::Polish,
            Self::Portuguese,
            Self::Romanian,
            Self::Russian,
            Self::SerbianLatin,
            Self::SimplifiedChinese,
            Self::Slovak,
            Self::Slovenian,
            Self::Spanish,
            Self::Swedish,
            Self::Thai,
            Self::TraditionalChinese,
            Self::Turkish,
            Self::Ukrainian,
        ]
    }

    /// The name of the language as the vendor writes it.
    pub fn name(&self) -> (r: &'static str)
        ensures
            r@ == self.display_text(),
    {
        match self {
            Self::Arabic => "Arabic",
            Self::BrazilianPortuguese => "Brazilian Portuguese",
            Self::Bulgarian => "Bulgarian",
            Self::Croatian => "Croatian",
            Self::Czech => "Czech",
            Self::Danish => "Danish",
            Self::Dutch => "Dutch",
            Self::EnglishInternational => "English International",
            Self::EnglishUS => "English (United States)",
            Self::Estonian => "Estonian",
            Self::Finnish => "Finnish",
            Self::French => "French",
            Self::FrenchCanadian => "French Canadian",
            Self::German => "German",
            Self::Greek => "Greek",
            Self::Hebrew => "Hebrew",
            Self::Hungarian => "Hungarian",
            Self::Italian => "Italian",
            Self::Japanese => "Japanese",
            Self::Korean => "Korean",
            Self::Latvian => "Latvian",
            Self::Lithuanian => "Lithuanian",
            Self::MexicanSpanish => "Spanish (Mexico)",
            Self::Norwegian => "Norwegian",
            Self::Polish => "Polish",
            Self::Portuguese => "Portuguese",
            Self::Romanian => "Romanian",
            Self::Russian => "Russian",
            Self::SerbianLatin => "Serbian Latin",
            Self::SimplifiedChinese => "Chinese (Simplified)",
            Self::Slovak => "Slovak",
            Self::Slovenian => "Slovenian",
            Self::Spanish => "Spanish",
            Self::Swedish => "Swedish",
            Self::Thai => "Thai",
            Self::TraditionalChinese => "Chinese (Traditional)",
            Self::Turkish => "Turkish",
            Self::Ukrainian => "Ukrainian",
        }
    }

    /// The name of the language as the vendor writes it.
    pub fn to_string(&self) -> (r: String)
        ensures
            r@ == self.display_text(),
    {
        String::from_str(self.name())
    }

    /// Whether the language is offered for the release.
    pub fn validate(&self, release: WindowsRelease) -> (ok: bool)
        ensures
            ok == self.available_for(release),
    {
        match release {
            WindowsRelease::Consumer(_) => true,
            WindowsRelease::Enterprise(_) => false,
        }
    }

    /// Every consumer language, in the order of declaration.
    pub fn all() -> (r: Vec<Self>)
        ensures
            r@ == Self::all_spec(),
    {
        let mut out: Vec<Self> = Vec::new();
        out.push(Self::Arabic);
        out.push(Self::BrazilianPortuguese);
        out.push(Self::Bulgarian);
        out.push(Self::Croatian);
        out.push(Self::Czech);
        out.push(Self::Danish);
        out.push(Self::Dutch);
        out.push(Self::EnglishInternational);
        out.push(Self::EnglishUS);
        out.push(Self::Estonian);
        out.push(Self::Finnish);
        out.push(Self::French);
        out.push(Self::FrenchCanadian);
        out.push(Self::German);
        out.push(Self::Greek);
        out.push(Self::Hebrew);
        out.push(Self::Hungarian);
        out.push(Self::Italian);
        out.push(Self::Japanese);
        out.push(Self::Korean);
        out.push(Self::Latvian);
        out.push(Self::Lithuanian);
        out.push(Self::MexicanSpanish);
        out.push(Self::Norwegian);
        out.push(Self::Polish);
        out.push(Self::Portuguese);
        out.push(Self::Romanian);
        out.push(Self::Russian);
        out.push(Self::SerbianLatin);
        out.push(Self::SimplifiedChinese);
        out.push(Self::Slovak);
        out.push(Self::Slovenian);
        out.push(Self::Spanish);
        out.push(Self::Swedish);
        out.push(Self::Thai);
        out.push(Self::TraditionalChinese);
        out.push(Self::Turkish);
        out.push(Self::Ukrainian);
        assert(out@ =~= Self::all_spec());
        out
    }
}

impl<'a> TryFrom<&'a str> for ConsumerLanguage {
    type Error = RidoError;

    /// Reads a language from its name.
    fn try_from(value: &'a str) -> (r: Result<Self, RidoError>) {
        if same_text(value, "Arabic") {
            Ok(Self::Arabic)
        } else if same_text(value, "Brazilian Portuguese") {
            Ok(Self::BrazilianPortuguese)
        } else if same_text(value, "Bulgarian") {
            Ok(Self::Bulgarian)
        } else if same_text(value, "Croatian") {
            Ok(Self::Croatian)
        } else if same_text(value, "Czech") {
            Ok(Self::Czech)
        } else if same_text(value, "Danish") {
            Ok(Self::Danish)
        } else if same_text(value, "Dutch") {
            Ok(Self::Dutch)
        } else if same_text(value, "English International") {
            Ok(Self::EnglishInternational)
        } else if same_text(value, "English (United States)") {
            Ok(Self::EnglishUS)
        } else if same_text(value, "Estonian") {
            Ok(Self::Estonian)
        } else if same_text(value, "Finnish") {
            Ok(Self::Finnish)
        } else if same_text(value, "French") {
            Ok(Self::French)
        } else if same_text(value, "French Canadian") {
            Ok(Self::FrenchCanadian)
        } else if same_text(value, "German") {
            Ok(Self::German)
        } else if same_text(value, "Greek") {
            Ok(Self::Greek)
        } else if same_text(value, "Hebrew") {
            Ok(Self::Hebrew)
        } else if same_text(value, "Hungarian") {
            Ok(Self::Hungarian)
        } else if same_text(value, "Italian") {
            Ok(Self::Italian)
        } else if same_text(value, "Japanese") {
            Ok(Self::Japanese)
        } else if same_text(value, "Korean") {
            Ok(Self::Korean)
        } else if same_text(value, "Latvian") {
            Ok(Self::Latvian)
        } else if same_text(value, "Lithuanian") {
            Ok(Self::Lithuanian)
        } else if same_text(value, "Spanish (Mexico)") {
            Ok(Self::MexicanSpanish)
        } else if same_text(value, "Norwegian") {
            Ok(Self::Norwegian)
        } else if same_text(value, "Polish") {
            Ok(Self::Polish)
        } else if same_text(value, "Portuguese") {
            Ok(Self::Portuguese)
        } else if same_text(value, "Romanian") {
            Ok(Self::Romanian)
        } else if same_text(value, "Russian") {
            Ok(Self::Russian)
        } else if same_text(value, "Serbian Latin") {
            Ok(Self::SerbianLatin)
        } else if same_text(value, "Chinese (Simplified)") {
            Ok(Self::SimplifiedChinese)
        } else if same_text(value, "Slovak") {
            Ok(Self::Slovak)
        } else if same_text(value, "Slovenian") {
            Ok(Self::Slovenian)
        } else if same_text(value, "Spanish") {
            Ok(Self::Spanish)
        } else if same_text(value, "Swedish") {
            Ok(Self::Swedish)
        } else if same_text(value, "Thai") {
            Ok(Self::Thai)
        } else if same_text(value, "Chinese (Traditional)") {
            Ok(Self::TraditionalChinese)
        } else if same_text(value, "Turkish") {
            Ok(Self::Turkish)
        } else if same_text(value, "Ukrainian") {
            Ok(Self::Ukrainian)
        } else {
            Err(RidoError::InvalidLanguageStr)
        }
    }
}

impl<'a> vstd::std_specs::convert::TryFromSpecImpl<&'a str> for ConsumerLanguage {
    open spec fn obeys_try_from_spec() -> bool {
        true
    }

    open spec fn try_from_spec(v: &'a str) -> Result<Self, RidoError> {
        match Self::parse_text(v@) {
            Some(lang) => Ok(lang),
            None => Err(RidoError::InvalidLanguageStr),
        }
    }
}

/// Reading the token of a consumer release gives the release back.
pub proof fn lemma_consumer_release_round_trip(release: ConsumerRelease)
    ensures
        ConsumerRelease::parse_text(release.token_text()) == Some(release),
{
    reveal_strlit("10");
    assert("10"@.len() == 2);
    assert("10"@[1] == '0');
    reveal_strlit("11");
    assert("11"@.len() == 2);
    assert("11"@[1] == '1');
    reveal_strlit("productid:");
    assert("productid:"@.len() == 10);
    match release {
        ConsumerRelease::CustomProductID(id) => {
            let digits = decimal_text(id as nat);
            let token = release.token_text();
            lemma_decimal_text(id as nat);
            lemma_parse_decimal(id);
            assert(token.subrange(0, 10) =~= "productid:"@);
            assert(token.skip(10) =~= digits);
            assert(!is_space(digits[0]));
            assert(!is_space(digits[digits.len() - 1]));
            assert(space_run(digits, 0) == 0);
            assert(space_run_back(digits, digits.len() as int) == digits.len());
            assert(digits.subrange(0, digits.len() as int) =~= digits);
        },
        _ => {},
    }
}

/// Every consumer release has a 64-bit image, and Windows 11 alone has no
/// 32-bit image.
pub proof fn lemma_consumer_architectures(release: ConsumerRelease)
    ensures
        release.has_build(WindowsArchitecture::x86_64),
        release.has_build(WindowsArchitecture::i686) <==> release != ConsumerRelease::Eleven,
{
}

/// Reading the name of a consumer language gives the language back.
pub proof fn lemma_consumer_language_round_trip(lang: ConsumerLanguage)
    ensures
        ConsumerLanguage::parse_text(lang.display_text()) == Some(lang),
{
    reveal_strlit("Arabic");
    assert("Arabic"@.len() == 6);
    assert("Arabic"@[0] == 'A');
    reveal_strlit("Brazilian Portuguese");
    assert("Brazilian Portuguese"@.len() == 20);
    assert("Brazilian Portuguese"@[0] == 'B');
    reveal_strlit("Bulgarian");
    assert("Bulgarian"@.len() == 9);
    assert("Bulgarian"@[0] == 'B');
    reveal_strlit("Croatian");
    assert("Croatian"@.len() == 8);
    assert("Croatian"@[0] == 'C');
    reveal_strlit("Czech");
    assert("Czech"@.len() == 5);
    assert("Czech"@[0] == 'C');
    reveal_strlit("Danish");
    assert("Danish"@.len() == 6);
    assert("Danish"@[0] == 'D');
    reveal_strlit("Dutch");
    assert("Dutch"@.len() == 5);
    assert("Dutch"@[0] == 'D');
    reveal_strlit("English International");
    assert("English International"@.len() == 21);
    assert("English International"@[0] == 'E');
    reveal_strlit("English (United States)");
    assert("English (United States)"@.len() == 23);
    reveal_strlit("Estonian");
    assert("Estonian"@.len() == 8);
    assert("Estonian"@[0] == 'E');
    reveal_strlit("Finnish");
    assert("Finnish"@.len() == 7);
    assert("Finnish"@[0] == 'F');
    reveal_strlit("French");
    assert("French"@.len() == 6);
    assert("French"@[0] == 'F');
    reveal_strlit("French Canadian");
    assert("French Canadian"@.len() == 15);
    reveal_strlit("German");
    assert("German"@.len() == 6);
    assert("German"@[0] == 'G');
    reveal_strlit("Greek");
    assert("Greek"@.len() == 5);
    assert("Greek"@[0] == 'G');
    reveal_strlit("Hebrew");
    assert("Hebrew"@.len() == 6);
    assert("Hebrew"@[0] == 'H');
    reveal_strlit("Hungarian");
    assert("Hungarian"@.len() == 9);
    assert("Hungarian"@[0] == 'H');
    reveal_strlit("Italian");
    assert("Italian"@.len() == 7);
    assert("Italian"@[0] == 'I');
    reveal_strlit("Japanese");
    assert("Japanese"@.len() == 8);
    assert("Japanese"@[0] == 'J');
    reveal_strlit("Korean");
    assert("Korean"@.len() == 6);
    assert("Korean"@[0] == 'K');
    reveal_strlit("Latvian");
    assert("Latvian"@.len() == 7);
    assert("Latvian"@[0] == 'L');
    reveal_strlit("Lithuanian");
    assert("Lithuanian"@.len() == 10);
    assert("Lithuanian"@[0] == 'L');
    reveal_strlit("Spanish (Mexico)");
    assert("Spanish (Mexico)"@.len() == 16);
    reveal_strlit("Norwegian");
    assert("Norwegian"@.len() == 9);
    assert("Norwegian"@[0] == 'N');
    reveal_strlit("Polish");
    assert("Polish"@.len() == 6);
    assert("Polish"@[0] == 'P');
    reveal_strlit("Portuguese");
    assert("Portuguese"@.len() == 10);
    assert("Portuguese"@[0] == 'P');
    reveal_strlit("Romanian");
    assert("Romanian"@.len() == 8);
    assert("Romanian"@[0] == 'R');
    reveal_strlit("Russian");
    assert("Russian"@.len() == 7);
    assert("Russian"@[0] == 'R');
    reveal_strlit("Serbian Latin");
    assert("Serbian Latin"@.len() == 13);
    reveal_strlit("Chinese (Simplified)");
    assert("Chinese (Simplified)"@.len() == 20);
    assert("Chinese (Simplified)"@[0] == 'C');
    reveal_strlit("Slovak");
    assert("Slovak"@.len() == 6);
    assert("Slovak"@[0] == 'S');
    reveal_strlit("Slovenian");
    assert("Slovenian"@.len() == 9);
    assert("Slovenian"@[0] == 'S');
    reveal_strlit("Spanish");
    assert("Spanish"@.len() == 7);
    assert("Spanish"@[0] == 'S');
    assert("Spanish"@[1] == 'p');
    reveal_strlit("Swedish");
    assert("Swedish"@.len() == 7);
    assert("Swedish"@[0] == 'S');
    assert("Swedish"@[1] == 'w');
    reveal_strlit("Thai");
    assert("Thai"@.len() == 4);
    reveal_strlit("Chinese (Traditional)");
    assert("Chinese (Traditional)"@.len() == 21);
    assert("Chinese (Traditional)"@[0] == 'C');
    reveal_strlit("Turkish");
    assert("Turkish"@.len() == 7);
    assert("Turkish"@[0] == 'T');
    reveal_strlit("Ukrainian");
    assert("Ukrainian"@.len() == 9);
    assert("Ukrainian"@[0] == 'U');
}

/// A text is the name of at most one consumer language, and reading finds it.
pub proof fn lemma_consumer_language_parse(s: Seq<char>)
    ensures
        match ConsumerLanguage::parse_text(s) {
            Some(lang) => lang.display_text() == s,
            None => forall|lang: ConsumerLanguage| lang.display_text() != s,
        },
{
}

impl ConsumerLanguage {
    /// The list of the consumer languages leaves none out.
    pub proof fn lemma_all(self)
        ensures
            Self::all_spec().contains(self),
    {
        match self {
            Self::Arabic => {
                assert(Self::all_spec()[0] == self);
            },
            Self::BrazilianPortuguese => {
                assert(Self::all_spec()[1] == self);
            },
            Self::Bulgarian => {
                assert(Self::all_spec()[2] == self);
            },
            Self::Croatian => {
                assert(Self::all_spec()[3] == self);
            },
            Self::Czech => {
                assert(Self::all_spec()[4] == self);
            },
            Self::Danish => {
                assert(Self::all_spec()[5] == self);
            },
            Self::Dutch => {
                assert(Self::all_spec()[6] == self);
            },
            Self::EnglishInternational => {
                assert(Self::all_spec()[7] == self);
            },
            Self::EnglishUS => {
                assert(Self::all_spec()[8] == self);
            },
            Self::Estonian => {
                assert(Self::all_spec()[9] == self);
            },
            Self::Finnish => {
                assert(Self::all_spec()[10] == self);
            },
            Self::French => {
                assert(Self::all_spec()[11] == self);
            },
            Self::FrenchCanadian => {
                assert(Self::all_spec()[12] == self);
            },
            Self::German => {
                assert(Self::all_spec()[13] == self);
            },
            Self::Greek => {
                assert(Self::all_spec()[14] == self);
            },
            Self::Hebrew => {
                assert(Self::all_spec()[15] == self);
            },
            Self::Hungarian => {
                assert(Self::all_spec()[16] == self);
            },
            Self::Italian => {
                assert(Self::all_spec()[17] == self);
            },
            Self::Japanese => {
                assert(Self::all_spec()[18] == self);
            },
            Self::Korean => {
                assert(Self::all_spec()[19] == self);
            },
            Self::Latvian => {
                assert(Self::all_spec()[20] == self);
            },
            Self::Lithuanian => {
                assert(Self::all_spec()[21] == self);
            },
            Self::MexicanSpanish => {
                assert(Self::all_spec()[22] == self);
            },
            Self::Norwegian => {
                assert(Self::all_spec()[23] == self);
            },
            Self::Polish => {
                assert(Self::all_spec()[24] == self);
            },
            Self::Portuguese => {
                assert(Self::all_spec()[25] == self);
            },
            Self::Romanian => {
                assert(Self::all_spec()[26] == self);
            },
            Self::Russian => {
                assert(Self::all_spec()[27] == self);
            },
            Self::SerbianLatin => {
                assert(Self::all_spec()[28] == self);
            },
            Self::SimplifiedChinese => {
                assert(Self::all_spec()[29] == self);
            },
            Self::Slovak => {
                assert(Self::all_spec()[30] == self);
            },
            Self::Slovenian => {
                assert(Self::all_spec()[31] == self);
            },
            Self::Spanish => {
                assert(Self::all_spec()[32] == self);
            },
            Self::Swedish => {
                assert(Self::all_spec()[33] == self);
            },
            Self::Thai => {
                assert(Self::all_spec()[34] == self);
            },
            Self::TraditionalChinese => {
                assert(Self::all_spec()[35] == self);
            },
            Self::Turkish => {
                assert(Self::all_spec()[36] == self);
            },
            Self::Ukrainian => {
                assert(Self::all_spec()[37] == self);
            },
        }
    }
}

} // verus!
