//! Finding the download link on a page of the evaluation centre.
use crate::arch::WindowsArchitecture;
use crate::enterprise::{EnterpriseLanguage, EnterpriseRelease};
use crate::error::RidoError;
use crate::pattern::{captures_of, capture_texts, found_texts, group, group_at, match_texts, pattern_captures};
use crate::text::same_text;
use vstd::prelude::*;

verus! {

/// The pattern of a link that is followed by the width of its image: the
/// link, the culture and the country inside it, and the width are captured.
pub const LABELLED_PATTERN: &'static str =
    "href=\"(https://go\\.microsoft\\.com/fwlink/p/\\?LinkID=\\d{7}&clcid=0x\\w{3}&culture=([a-z]{2}-[a-z]{2})&country=(\\w{2}))\">\\s(64|32)-bit";

/// The pattern of a link alone: the link, the culture and the country inside
/// it are captured.
pub const POSITIONAL_PATTERN: &'static str =
    "href=\"(https://go\\.microsoft\\.com/fwlink/p/\\?LinkID=\\d{7}&clcid=0x\\w{3}&culture=([a-z]{2}-[a-z]{2})&country=(\\w{2}))\"";

/// The address of a release's page in the evaluation centre.
pub open spec fn evalcenter_url_text(release: EnterpriseRelease) -> Seq<char> {
    "https://www.microsoft.com/en-us/evalcenter/download-"@ + release.page_text()
}

/// The address of a release's page in the evaluation centre.
pub fn evalcenter_url(release: EnterpriseRelease) -> (r: String)
    ensures
        r@ == evalcenter_url_text(release),
{
    let mut out = String::from_str("https://www.microsoft.com/en-us/evalcenter/download-");
    out.append(release.page());
    out
}

/// The texts of a list of strings.
pub open spec fn string_texts(list: Seq<String>) -> Seq<Seq<char>> {
    Seq::new(list.len(), |i: int| list[i]@)
}

/// The match is a link for the culture and the country and, where a width is
/// asked for, for that width.
pub open spec fn link_fits(
    found: Seq<Option<Seq<char>>>,
    culture: Seq<char>,
    country: Seq<char>,
    bits: Option<Seq<char>>,
) -> bool {
    &&& group_at(found, 1) is Some
    &&& group_at(found, 2) == Some(culture)
    &&& group_at(found, 3) == Some(country)
    &&& bits is Some ==> group_at(found, 4) == bits
}

/// The links of the matches that fit, in the order of the page.
pub open spec fn fitting_links(
    found: Seq<Seq<Option<Seq<char>>>>,
    culture: Seq<char>,
    country: Seq<char>,
    bits: Option<Seq<char>>,
) -> Seq<Seq<char>>
    decreases found.len(),
{
    if found.len() == 0 {
        Seq::empty()
    } else {
        fitting_links(found.drop_last(), culture, country, bits) + if link_fits(
            found.last(),
            culture,
            country,
            bits,
        ) {
            seq![group_at(found.last(), 1).unwrap()]
        } else {
            Seq::empty()
        }
    }
}

/// The text of an optional string slice.
pub open spec fn optional_text(s: Option<&str>) -> Option<Seq<char>> {
    match s {
        Some(text) => Some(text@),
        None => None,
    }
}

/// The links of the matches that fit, in the order of the page.
pub fn fitting(found: &Vec<Vec<Option<String>>>, culture: &str, country: &str, bits: Option<&str>) -> (r:
    Vec<String>)
    ensures
        string_texts(r@) == fitting_links(
            capture_texts(found@),
            culture@,
            country@,
            optional_text(bits),
        ),
{
    let mut out: Vec<String> = Vec::new();
    let ghost all = capture_texts(found@);
    let mut i: usize = 0;
    assert(all.take(0) =~= Seq::empty());
    assert(string_texts(out@) =~= Seq::empty());
    while i < found.len()
        invariant
            i <= found.len(),
            all == capture_texts(found@),
            string_texts(out@) == fitting_links(
                all.take(i as int),
                culture@,
                country@,
                optional_text(bits),
            ),
        decreases found.len() - i,
    {
        let ghost before = string_texts(out@);
        proof {
            assert(all.take(i + 1).drop_last() =~= all.take(i as int));
            assert(all.take(i + 1).last() == match_texts(found@[i as int]));
        }
        let url = group(&found[i], 1);
        let here = group(&found[i], 2);
        let there = group(&found[i], 3);
        let width = group(&found[i], 4);
        let fits = match (url, here, there) {
            (Some(_), Some(here), Some(there)) => same_text(here.as_str(), culture) && same_text(
                there.as_str(),
                country,
            ) && match bits {
                None => true,
                Some(asked) => match width {
                    Some(width) => same_text(width.as_str(), asked),
                    None => false,
                },
            },
            _ => false,
        };
        assert(fits == link_fits(all[i as int], culture@, country@, optional_text(bits)));
        if fits {
            match url {
                Some(url) => {
                    out.push(url.clone());
                    assert(string_texts(out@) =~= before + seq![url@]);
                },
                None => {},
            }
        } else {
            assert(string_texts(out@) =~= before + Seq::<Seq<char>>::empty());
        }
        i += 1;
    }
    assert(all.take(found.len() as int) =~= all);
    out
}

/// Where the wanted link stands among the links that are followed by the
/// requested width: the long-term-servicing release takes the second, every
/// other release the first.
pub open spec fn labelled_index(release: EnterpriseRelease) -> int {
    if release == EnterpriseRelease::TenLtsc {
        1
    } else {
        0
    }
}

/// The link among those that are followed by the requested width.
pub open spec fn labelled_pick(urls: Seq<Seq<char>>, release: EnterpriseRelease) -> Option<Seq<char>> {
    if labelled_index(release) < urls.len() {
        Some(urls[labelled_index(release)])
    } else {
        None
    }
}

/// Where the wanted link stands among the links of a language where nothing
/// but the order tells them apart: the 32-bit image comes first and the
/// 64-bit image second, and the two of the long-term-servicing release come
/// third and fourth.
pub open spec fn positional_index(release: EnterpriseRelease, arch: WindowsArchitecture) -> int {
    (if arch == WindowsArchitecture::x86_64 {
        1int
    } else {
        0int
    }) + (if release == EnterpriseRelease::TenLtsc {
        2int
    } else {
        0int
    })
}

/// A link that was picked by its place, and whether the place was there: if
/// the page listed fewer links than the place asks for, the first link was
/// taken instead, and `fallback` says so.
#[derive(Debug, Clone, PartialEq, Eq)]
pub struct PositionalLink {
    pub url: String,
    pub fallback: bool,
}

/// The link that stands at the wanted place, or else the first link, with
/// the mark that it is a substitute. An empty list gives nothing.
pub open spec fn positional_pick(
    urls: Seq<Seq<char>>,
    release: EnterpriseRelease,
    arch: WindowsArchitecture,
) -> Option<(Seq<char>, bool)> {
    if positional_index(release, arch) < urls.len() {
        Some((urls[positional_index(release, arch)], false))
    } else if urls.len() > 0 {
        Some((urls[0], true))
    } else {
        None
    }
}

/// The link among those that are followed by the requested width.
pub fn pick_labelled(urls: &Vec<String>, release: EnterpriseRelease) -> (r: Option<String>)
    ensures
        match r {
            Some(url) => labelled_pick(string_texts(urls@), release) == Some(url@),
            None => labelled_pick(string_texts(urls@), release) is None,
        },
{
    let index: usize = match release {
        EnterpriseRelease::TenLtsc => 1,
        _ => 0,
    };
    if index < urls.len() {
        Some(urls[index].clone())
    } else {
        None
    }
}

/// The link that stands at the wanted place, or else the first link.
pub fn pick_positional(urls: &Vec<String>, release: EnterpriseRelease, arch: WindowsArchitecture) -> (r:
    Option<PositionalLink>)
    ensures
        match r {
            Some(link) => positional_pick(string_texts(urls@), release, arch) == Some(
                (link.url@, link.fallback),
            ),
            None => positional_pick(string_texts(urls@), release, arch) is None,
        },
{
    let first: usize = match arch {
        WindowsArchitecture::x86_64 => 1,
        WindowsArchitecture::i686 => 0,
    };
    let index: usize = match release {
        EnterpriseRelease::TenLtsc => first + 2,
        _ => first,
    };
    if index < urls.len() {
        Some(PositionalLink { url: urls[index].clone(), fallback: false })
    } else if urls.len() > 0 {
        Some(PositionalLink { url: urls[0].clone(), fallback: true })
    } else {
        None
    }
}

/// What a page that writes the width behind each link gives for a request,
/// once the pattern has been run on it.
pub open spec fn labelled_link(
    found: Option<Seq<Seq<Option<Seq<char>>>>>,
    release: EnterpriseRelease,
    lang: EnterpriseLanguage,
    arch: WindowsArchitecture,
) -> Result<Seq<char>, RidoError> {
    match found {
        Some(list) => match labelled_pick(
            fitting_links(list, lang.culture_text(), lang.country_text(), Some(arch.bits_text())),
            release,
        ) {
            Some(url) => Ok(url),
            None => Err(RidoError::HTMLParse),
        },
        None => Err(RidoError::HTMLParse),
    }
}

/// What a page that tells its links apart by their order gives for a
/// request, once the pattern has been run on it.
pub open spec fn positional_link(
    found: Option<Seq<Seq<Option<Seq<char>>>>>,
    release: EnterpriseRelease,
    lang: EnterpriseLanguage,
    arch: WindowsArchitecture,
) -> Result<(Seq<char>, bool), RidoError> {
    match found {
        Some(list) => match positional_pick(
            fitting_links(list, lang.culture_text(), lang.country_text(), None),
            release,
            arch,
        ) {
            Some(link) => Ok(link),
            None => Err(RidoError::HTMLParse),
        },
        None => Err(RidoError::HTMLParse),
    }
}

/// What a page that writes the width behind each link gives for a request,
/// once the pattern has been run on it.
pub fn choose_labelled(
    found: &Option<Vec<Vec<Option<String>>>>,
    release: EnterpriseRelease,
    lang: EnterpriseLanguage,
    arch: WindowsArchitecture,
) -> (r: Result<String, RidoError>)
    ensures
        match r {
            Ok(url) => labelled_link(found_texts(*found), release, lang, arch) == Ok::<
                Seq<char>,
                RidoError,
            >(url@),
            Err(e) => labelled_link(found_texts(*found), release, lang, arch) == Err::<
                Seq<char>,
                RidoError,
            >(e),
        },
{
    match found {
        Some(list) => {
            let urls = fitting(list, lang.culture(), lang.country(), Some(arch.bits()));
            match pick_labelled(&urls, release) {
                Some(url) => Ok(url),
                None => Err(RidoError::HTMLParse),
            }
        },
        None => Err(RidoError::HTMLParse),
    }
}

/// What a page that tells its links apart by their order gives for a
/// request, once the pattern has been run on it.
pub fn choose_positional(
    found: &Option<Vec<Vec<Option<String>>>>,
    release: EnterpriseRelease,
    lang: EnterpriseLanguage,
    arch: WindowsArchitecture,
) -> (r: Result<PositionalLink, RidoError>)
    ensures
        match r {
            Ok(link) => positional_link(found_texts(*found), release, lang, arch) == Ok::<
                (Seq<char>, bool),
                RidoError,
            >((link.url@, link.fallback)),
            Err(e) => positional_link(found_texts(*found), release, lang, arch) == Err::<
                (Seq<char>, bool),
                RidoError,
            >(e),
        },
{
    match found {
        Some(list) => {
            let urls = fitting(list, lang.culture(), lang.country(), None);
            match pick_positional(&urls, release, arch) {
                Some(link) => Ok(link),
                None => Err(RidoError::HTMLParse),
            }
        },
        None => Err(RidoError::HTMLParse),
    }
}

/// What a page that writes the width behind each link gives for a request:
/// an empty page is told apart first; otherwise the pattern is run on the
/// whole page.
pub open spec fn labelled_link_in(
    body: Seq<char>,
    release: EnterpriseRelease,
    lang: EnterpriseLanguage,
    arch: WindowsArchitecture,
) -> Result<Seq<char>, RidoError> {
    if body.len() == 0 {
        Err(RidoError::EmptyResponse)
    } else {
        labelled_link(pattern_captures(LABELLED_PATTERN@, body), release, lang, arch)
    }
}

/// What a page that tells its links apart by their order gives for a
/// request.
pub open spec fn positional_link_in(
    body: Seq<char>,
    release: EnterpriseRelease,
    lang: EnterpriseLanguage,
    arch: WindowsArchitecture,
) -> Result<(Seq<char>, bool), RidoError> {
    if body.len() == 0 {
        Err(RidoError::EmptyResponse)
    } else {
        positional_link(pattern_captures(POSITIONAL_PATTERN@, body), release, lang, arch)
    }
}

/// The link that a page with widths behind its links gives for a request.
pub fn extract_labelled_link(
    body: &str,
    release: EnterpriseRelease,
    lang: EnterpriseLanguage,
    arch: WindowsArchitecture,
) -> (r: Result<String, RidoError>)
    ensures
        match r {
            Ok(url) => labelled_link_in(body@, release, lang, arch) == Ok::<Seq<char>, RidoError>(
                url@,
            ),
            Err(e) => labelled_link_in(body@, release, lang, arch) == Err::<Seq<char>, RidoError>(
                e,
            ),
        },
{
    if body.is_empty() {
        Err(RidoError::EmptyResponse)
    } else {
        let found = captures_of(LABELLED_PATTERN, body);
        choose_labelled(&found, release, lang, arch)
    }
}

/// The link that a page with nothing but the order of its links gives for a
/// request.
pub fn extract_positional_link(
    body: &str,
    release: EnterpriseRelease,
    lang: EnterpriseLanguage,
    arch: WindowsArchitecture,
) -> (r: Result<PositionalLink, RidoError>)
    ensures
        match r {
            Ok(link) => positional_link_in(body@, release, lang, arch) == Ok::<
                (Seq<char>, bool),
                RidoError,
            >((link.url@, link.fallback)),
            Err(e) => positional_link_in(body@, release, lang, arch) == Err::<
                (Seq<char>, bool),
                RidoError,
            >(e),
        },
{
    if body.is_empty() {
        Err(RidoError::EmptyResponse)
    } else {
        let found = captures_of(POSITIONAL_PATTERN, body);
        choose_positional(&found, release, lang, arch)
    }
}

} // verus!
