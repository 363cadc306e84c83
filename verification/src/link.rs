//! Finding the download link, and the hash where the reply holds one.
use crate::arch::WindowsArchitecture;
use crate::error::RidoError;
use crate::pattern::{captures_of, capture_texts, found_texts, group, group_at, match_texts, pattern_captures};
use crate::scan::{bounded_prefix, bounded_prefix_text, graphic_text, keep_graphic, trim, trim_text};
use crate::text::{chars_of, contains, contains_text, find, find_from, lemma_find_from, replace, replace_text, same_text, string_of};
use vstd::prelude::*;

verus! {

/// How many bytes of a page of links are read. The links stand near its top.
pub const LINK_CEILING: usize = 4096;

/// The sentence by which the vendor's refusal page is known.
pub const BLOCK_MESSAGE: &'static str = "We are unable to complete your request at this time.";

/// The pattern of a signed link to an image on the vendor's delivery network.
pub const LINK_PATTERN: &'static str =
    "https://software\\.download\\.prss\\.microsoft\\.com/dbazure/[^\"<>\\s]+";

/// The pattern of an entry of the table of hashes: 64 hexadecimal digits,
/// then the width in bits, then the label of the language, with markup or
/// white space between them.
pub const HASH_PATTERN: &'static str =
    "([0-9A-Fa-f]{64})(?:\\s|<[^>]*>)*(64|32)-bit(?:\\s|<[^>]*>)*([^<>]+)";

/// What the first look at a reply says: an empty reply and the vendor's
/// refusal are told apart from every other reply, before anything is read out
/// of it.
pub open spec fn body_check(body: Seq<char>) -> Result<(), RidoError> {
    if body.len() == 0 {
        Err(RidoError::EmptyResponse)
    } else if contains_text(body, BLOCK_MESSAGE@) {
        Err(RidoError::BlockedRequest)
    } else {
        Ok(())
    }
}

/// Takes the first look at a reply.
pub fn check_body(body: &str) -> (r: Result<(), RidoError>)
    ensures
        r == body_check(body@),
{
    let chars = chars_of(body);
    if chars.len() == 0 {
        Err(RidoError::EmptyResponse)
    } else if contains(&chars, &chars_of(BLOCK_MESSAGE)) {
        Err(RidoError::BlockedRequest)
    } else {
        Ok(())
    }
}

/// A link as it is handed out: without the characters that are no visible
/// ASCII, and with every `&amp;` turned into `&`.
pub open spec fn clean_url_text(raw: Seq<char>) -> Seq<char> {
    replace_text(graphic_text(raw), "&amp;"@, "&"@)
}

/// A link as it is handed out.
pub fn clean_url(raw: &str) -> (r: String)
    ensures
        r@ == clean_url_text(raw@),
{
    let kept = keep_graphic(&chars_of(raw));
    string_of(&replace(&kept, &chars_of("&amp;"), &chars_of("&")))
}

/// The link names an image for the architecture: its text holds the tag,
/// and `.iso` somewhere behind the tag.
pub open spec fn names_image(url: Seq<char>, tag: Seq<char>) -> bool {
    match find_from(url, tag, 0) {
        Some(at) => find_from(url, ".iso"@, at + tag.len()) is Some,
        None => false,
    }
}

/// Whether the link names an image for the architecture.
pub fn is_image_for(url: &str, tag: &str) -> (r: bool)
    ensures
        r == names_image(url@, tag@),
{
    let chars = chars_of(url);
    let mark = chars_of(tag);
    proof {
        lemma_find_from(chars@, mark@, 0);
    }
    match find(&chars, &mark, 0) {
        Some(at) => {
            assert(at + mark.len() <= chars.len());
            find(&chars, &chars_of(".iso"), at + mark.len()).is_some()
        },
        None => false,
    }
}

/// The position of the first match, at or after `from`, whose whole text
/// names an image for the architecture.
pub open spec fn image_link_from(found: Seq<Seq<Option<Seq<char>>>>, tag: Seq<char>, from: int) -> Option<
    int,
>
    decreases found.len() - from,
{
    if from < 0 || from >= found.len() {
        None
    } else if group_at(found[from], 0) is Some && names_image(group_at(found[from], 0).unwrap(), tag) {
        Some(from)
    } else {
        image_link_from(found, tag, from + 1)
    }
}

/// A label of the table of hashes as a person reads it: the entities for the
/// two round brackets, the quotation mark and the ampersand are resolved, and
/// the white space at both ends is dropped.
pub open spec fn label_text(raw: Seq<char>) -> Seq<char> {
    trim_text(
        replace_text(
            replace_text(
                replace_text(replace_text(raw, "&#40;"@, "("@), "&#41;"@, ")"@),
                "&quot;"@,
                "\""@,
            ),
            "&amp;"@,
            "&"@,
        ),
    )
}

/// A label of the table of hashes as a person reads it.
pub fn read_label(raw: &str) -> (r: String)
    ensures
        r@ == label_text(raw@),
{
    let a = replace(&chars_of(raw), &chars_of("&#40;"), &chars_of("("));
    let b = replace(&a, &chars_of("&#41;"), &chars_of(")"));
    let c = replace(&b, &chars_of("&quot;"), &chars_of("\""));
    let d = replace(&c, &chars_of("&amp;"), &chars_of("&"));
    string_of(&trim(&d))
}

/// The entry of the table of hashes is the one of the requested image: its
/// width and its label are the requested ones.
pub open spec fn hash_fits(entry: Seq<Option<Seq<char>>>, bits: Seq<char>, language: Seq<char>) -> bool {
    &&& group_at(entry, 1) is Some
    &&& group_at(entry, 2) == Some(bits)
    &&& group_at(entry, 3) is Some
    &&& label_text(group_at(entry, 3).unwrap()) == language
}

/// The position of the first entry, at or after `from`, of the requested
/// image.
pub open spec fn hash_from(
    found: Seq<Seq<Option<Seq<char>>>>,
    bits: Seq<char>,
    language: Seq<char>,
    from: int,
) -> Option<int>
    decreases found.len() - from,
{
    if from < 0 || from >= found.len() {
        None
    } else if hash_fits(found[from], bits, language) {
        Some(from)
    } else {
        hash_from(found, bits, language, from + 1)
    }
}

/// The hash that the table gives for the requested image.
pub open spec fn hash_in(
    found: Option<Seq<Seq<Option<Seq<char>>>>>,
    bits: Seq<char>,
    language: Seq<char>,
) -> Option<Seq<char>> {
    match found {
        Some(entries) => match hash_from(entries, bits, language, 0) {
            Some(i) => group_at(entries[i], 1),
            None => None,
        },
        None => None,
    }
}

/// What a page of links gives for a request, once the two patterns have been
/// run on it: the first link that names an image for the architecture, as it
/// is handed out, and the hash of the first fitting entry of the table.
/// Without such a link the page gives nothing.
pub open spec fn page_link(
    links: Option<Seq<Seq<Option<Seq<char>>>>>,
    hashes: Option<Seq<Seq<Option<Seq<char>>>>>,
    arch: WindowsArchitecture,
    language: Seq<char>,
) -> Result<(Seq<char>, Option<Seq<char>>), RidoError> {
    match links {
        Some(found) => match image_link_from(found, arch.tag_text(), 0) {
            Some(i) => Ok(
                (
                    clean_url_text(group_at(found[i], 0).unwrap()),
                    hash_in(hashes, arch.bits_text(), language),
                ),
            ),
            None => Err(RidoError::HTMLParse),
        },
        None => Err(RidoError::HTMLParse),
    }
}

/// A link and a hash as texts.
pub open spec fn link_view(r: Result<(String, Option<String>), RidoError>) -> Result<
    (Seq<char>, Option<Seq<char>>),
    RidoError,
> {
    match r {
        Ok((url, hash)) => Ok(
            (
                url@,
                match hash {
                    Some(h) => Some(h@),
                    None => None,
                },
            ),
        ),
        Err(e) => Err(e),
    }
}

/// The hash that the table gives for the requested image.
pub fn choose_hash(found: &Option<Vec<Vec<Option<String>>>>, bits: &str, language: &str) -> (r:
    Option<String>)
    ensures
        match r {
            Some(h) => hash_in(found_texts(*found), bits@, language@) == Some(h@),
            None => hash_in(found_texts(*found), bits@, language@) is None,
        },
{
    match found {
        None => None,
        Some(entries) => {
            let ghost all = capture_texts(entries@);
            let mut i: usize = 0;
            while i < entries.len()
                invariant
                    i <= entries.len(),
                    all == capture_texts(entries@),
                    found_texts(*found) == Some(all),
                    hash_from(all, bits@, language@, 0) == hash_from(all, bits@, language@, i as int),
                decreases entries.len() - i,
            {
                assert(all[i as int] == match_texts(entries@[i as int]));
                let digits = group(&entries[i], 1);
                let width = group(&entries[i], 2);
                let label = group(&entries[i], 3);
                match (digits, width, label) {
                    (Some(digits), Some(width), Some(label)) => {
                        if same_text(width.as_str(), bits) && same_text(
                            read_label(label.as_str()).as_str(),
                            language,
                        ) {
                            return Some(digits.clone());
                        }
                    },
                    _ => {},
                }
                i += 1;
            }
            None
        },
    }
}

/// What a page of links gives for a request, once the two patterns have been
/// run on it.
pub fn choose_link(
    links: &Option<Vec<Vec<Option<String>>>>,
    hashes: &Option<Vec<Vec<Option<String>>>>,
    arch: WindowsArchitecture,
    language: &str,
) -> (r: Result<(String, Option<String>), RidoError>)
    ensures
        link_view(r) == page_link(found_texts(*links), found_texts(*hashes), arch, language@),
{
    match links {
        None => Err(RidoError::HTMLParse),
        Some(found) => {
            let ghost all = capture_texts(found@);
            let mut i: usize = 0;
            while i < found.len()
                invariant
                    i <= found.len(),
                    all == capture_texts(found@),
                    found_texts(*links) == Some(all),
                    image_link_from(all, arch.tag_text(), 0) == image_link_from(
                        all,
                        arch.tag_text(),
                        i as int,
                    ),
                decreases found.len() - i,
            {
                assert(all[i as int] == match_texts(found@[i as int]));
                match group(&found[i], 0) {
                    Some(whole) => {
                        if is_image_for(whole.as_str(), arch.tag()) {
                            let url = clean_url(whole.as_str());
                            let hash = choose_hash(hashes, arch.bits(), language);
                            return Ok((url, hash));
                        }
                    },
                    None => {},
                }
                i += 1;
            }
            Err(RidoError::HTMLParse)
        },
    }
}

/// What a page of links gives for a request: nothing but the error where the
/// first look refuses the page; otherwise what the two patterns find in the
/// page's bounded prefix.
pub open spec fn link_in_page(body: Seq<char>, arch: WindowsArchitecture, language: Seq<char>) -> Result<
    (Seq<char>, Option<Seq<char>>),
    RidoError,
> {
    match body_check(body) {
        Err(e) => Err(e),
        Ok(_) => page_link(
            pattern_captures(LINK_PATTERN@, bounded_prefix_text(body, LINK_CEILING as int)),
            pattern_captures(HASH_PATTERN@, bounded_prefix_text(body, LINK_CEILING as int)),
            arch,
            language,
        ),
    }
}

/// The link, and the hash if there is one, that a page of links gives for a
/// request.
pub fn extract_download_link(body: &str, arch: WindowsArchitecture, language: &str) -> (r: Result<
    (String, Option<String>),
    RidoError,
>)
    ensures
        link_view(r) == link_in_page(body@, arch, language@),
{
    match check_body(body) {
        Err(e) => Err(e),
        Ok(_) => {
            let head = string_of(&bounded_prefix(&chars_of(body), LINK_CEILING));
            let links = captures_of(LINK_PATTERN, head.as_str());
            let hashes = captures_of(HASH_PATTERN, head.as_str());
            choose_link(&links, &hashes, arch, language)
        },
    }
}

/// The position of the first option, at or after `from`, whose address holds
/// the tag.
pub open spec fn option_from(options: Seq<String>, tag: Seq<char>, from: int) -> Option<int>
    decreases options.len() - from,
{
    if from < 0 || from >= options.len() {
        None
    } else if contains_text(options[from]@, tag) {
        Some(from)
    } else {
        option_from(options, tag, from + 1)
    }
}

/// What a list of download options gives for an architecture: the first
/// address that holds the architecture's tag, as it is handed out.
pub open spec fn listed_link(options: Seq<String>, arch: WindowsArchitecture) -> Result<
    Seq<char>,
    RidoError,
> {
    match option_from(options, arch.tag_text(), 0) {
        Some(i) => Ok(clean_url_text(options[i]@)),
        None => Err(RidoError::URL),
    }
}

/// The link that a list of download options gives for an architecture.
pub fn select_download_url(options: &Vec<String>, arch: WindowsArchitecture) -> (r: Result<
    String,
    RidoError,
>)
    ensures
        match r {
            Ok(url) => listed_link(options@, arch) == Ok::<Seq<char>, RidoError>(url@),
            Err(e) => listed_link(options@, arch) == Err::<Seq<char>, RidoError>(e),
        },
{
    let tag = chars_of(arch.tag());
    let mut i: usize = 0;
    while i < options.len()
        invariant
            i <= options.len(),
            tag@ == arch.tag_text(),
            option_from(options@, tag@, 0) == option_from(options@, tag@, i as int),
        decreases options.len() - i,
    {
        if contains(&chars_of(options[i].as_str()), &tag) {
            return Ok(clean_url(options[i].as_str()));
        }
        i += 1;
    }
    Err(RidoError::URL)
}

} // verus!
