//! Finding the stock-keeping unit of a product in the requested language.
use crate::consumer::ConsumerRelease;
use crate::error::RidoError;
use crate::scan::{bounded_prefix, bounded_prefix_text, lines, lines_of, second_word, second_word_of};
use crate::text::{append_all, chars_of, contains, contains_text, same_text, split, split_text, string_of, texts};
use vstd::prelude::*;

verus! {

/// How many bytes of a page of stock-keeping units are read.
pub const SKU_CEILING: usize = 10240;

/// One stock-keeping unit of a product, as the vendor's document lists it.
#[derive(Debug, Clone, PartialEq, Eq)]
pub struct WindowsSku {
    pub product_display_name: String,
    pub id: String,
    pub localized_language: String,
}

/// The first of the lines that holds `needle`.
pub open spec fn first_containing(lines: Seq<Seq<char>>, needle: Seq<char>) -> Option<Seq<char>>
    decreases lines.len(),
{
    if lines.len() == 0 {
        None
    } else if contains_text(lines[0], needle) {
        Some(lines[0])
    } else {
        first_containing(lines.drop_first(), needle)
    }
}

/// The fourth of the fields that `&quot;` separates in a line.
pub open spec fn quoted_field(line: Seq<char>) -> Option<Seq<char>> {
    let fields = split_text(line, "&quot;"@);
    if fields.len() > 3 {
        Some(fields[3])
    } else {
        None
    }
}

/// The identifier that a page of stock-keeping units gives for a language:
/// the fourth `&quot;`-separated field of the first line, within the page's
/// bounded prefix, that holds the language's name. Where that line has no
/// fourth field, the page gives none; later lines are not looked at.
pub open spec fn sku_id_in_page(body: Seq<char>, language: Seq<char>) -> Option<Seq<char>> {
    match first_containing(lines_of(bounded_prefix_text(body, SKU_CEILING as int)), language) {
        Some(line) => quoted_field(line),
        None => None,
    }
}

/// The identifier that a page of stock-keeping units gives for a language.
pub fn extract_sku_id(body: &str, language: &str) -> (r: Result<String, RidoError>)
    ensures
        match r {
            Ok(id) => sku_id_in_page(body@, language@) == Some(id@),
            Err(e) => e == RidoError::SKUID && sku_id_in_page(body@, language@) is None,
        },
{
    let chars = chars_of(body);
    let head = bounded_prefix(&chars, SKU_CEILING);
    let needle = chars_of(language);
    let rows = lines(&head);
    let ghost all = texts(rows@);
    let mut i: usize = 0;
    assert(all.skip(0) =~= all);
    while i < rows.len()
        invariant
            i <= rows.len(),
            all == texts(rows@),
            needle@ == language@,
            all == lines_of(bounded_prefix_text(body@, SKU_CEILING as int)),
            first_containing(all, needle@) == first_containing(all.skip(i as int), needle@),
        decreases rows.len() - i,
    {
        assert(all.skip(i as int)[0] == rows@[i as int]@);
        assert(all.skip(i as int).drop_first() =~= all.skip(i + 1));
        if contains(&rows[i], &needle) {
            let fields = split(&rows[i], &chars_of("&quot;"));
            if fields.len() > 3 {
                assert(texts(fields@)[3] == fields@[3]@);
                return Ok(string_of(&fields[3]));
            } else {
                return Err(RidoError::SKUID);
            }
        }
        i += 1;
    }
    Err(RidoError::SKUID)
}

/// The position of the first unit, at or after `from`, whose language is
/// written exactly as `language`.
pub open spec fn sku_from(skus: Seq<WindowsSku>, language: Seq<char>, from: int) -> Option<int>
    decreases skus.len() - from,
{
    if from < 0 || from >= skus.len() {
        None
    } else if skus[from].localized_language@ == language {
        Some(from)
    } else {
        sku_from(skus, language, from + 1)
    }
}

/// The position of the first unit whose language is written exactly as
/// `language`.
pub open spec fn sku_index(skus: Seq<WindowsSku>, language: Seq<char>) -> Option<int> {
    sku_from(skus, language, 0)
}

/// `sku_from` gives a unit in the language, and the first one from `from` on;
/// it gives none only where there is none.
pub proof fn lemma_sku_from(skus: Seq<WindowsSku>, language: Seq<char>, from: int)
    requires
        0 <= from,
    ensures
        match sku_from(skus, language, from) {
            Some(i) => {
                &&& from <= i < skus.len()
                &&& skus[i].localized_language@ == language
                &&& forall|j: int| from <= j < i ==> skus[j].localized_language@ != language
            },
            None => forall|j: int| from <= j < skus.len() ==> skus[j].localized_language@ != language,
        },
    decreases skus.len() - from,
{
    if from < skus.len() && skus[from].localized_language@ != language {
        lemma_sku_from(skus, language, from + 1);
    }
}

/// The position of the first unit in the requested language.
pub fn find_sku(skus: &Vec<WindowsSku>, language: &str) -> (r: Result<usize, RidoError>)
    ensures
        match r {
            Ok(i) => sku_index(skus@, language@) == Some(i as int) && i < skus.len(),
            Err(e) => e == RidoError::SKUID && sku_index(skus@, language@) is None,
        },
{
    let mut i: usize = 0;
    while i < skus.len()
        invariant
            i <= skus.len(),
            sku_index(skus@, language@) == sku_from(skus@, language@, i as int),
        decreases skus.len() - i,
    {
        if same_text(skus[i].localized_language.as_str(), language) {
            return Ok(i);
        }
        i += 1;
    }
    Err(RidoError::SKUID)
}

/// The page that the request for the links names as the one it comes from.
/// A release with a catalogue page names that page. A product given by its
/// number has none: the page is then named after the second word of the
/// product's display name, or after `11` where the name has no second word.
pub open spec fn referer_text(release: ConsumerRelease, display_name: Seq<char>) -> Seq<char> {
    match release {
        ConsumerRelease::CustomProductID(_) => "https://www.microsoft.com/software-download/windows"@
            + match second_word_of(display_name) {
            Some(word) => word,
            None => "11"@,
        },
        _ => release.catalog_url_text(),
    }
}

/// The page that the request for the links names as the one it comes from.
pub fn referer_for(release: ConsumerRelease, display_name: &str) -> (r: String)
    ensures
        r@ == referer_text(release, display_name@),
{
    match release {
        ConsumerRelease::CustomProductID(_) => {
            let mut out = chars_of("https://www.microsoft.com/software-download/windows");
            match second_word(&chars_of(display_name)) {
                Some(word) => {
                    append_all(&mut out, &word);
                },
                None => {
                    append_all(&mut out, &chars_of("11"));
                },
            }
            string_of(&out)
        },
        _ => String::from_str(release.catalog_url()),
    }
}

} // verus!
