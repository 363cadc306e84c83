//! Finding the product number on a release's catalogue page.
use crate::error::RidoError;
use crate::scan::{bounded_prefix, bounded_prefix_text};
use crate::text::{chars_of, copy_range, find, find_from, lemma_find_from, split, split_text, string_of, texts};
use vstd::prelude::*;

verus! {

/// How many bytes of a catalogue page are read. What lies behind them is not
/// looked at, however long the page is.
pub const CATALOG_CEILING: usize = 102400;

/// The value that a fragment of the page offers: the text between the first
/// `value="` and the first `">Windows`, where the one stands before the
/// other. A fragment that lacks either, or holds them the other way round,
/// offers none.
pub open spec fn fragment_value(fragment: Seq<char>) -> Option<Seq<char>> {
    match (find_from(fragment, "value=\""@, 0), find_from(fragment, "\">Windows"@, 0)) {
        (Some(open), Some(close)) => if open + "value=\""@.len() <= close {
            Some(fragment.subrange(open + "value=\""@.len(), close))
        } else {
            None
        },
        _ => None,
    }
}

/// The value of the first fragment that offers one.
pub open spec fn first_value(fragments: Seq<Seq<char>>) -> Option<Seq<char>>
    decreases fragments.len(),
{
    if fragments.len() == 0 {
        None
    } else {
        match fragment_value(fragments[0]) {
            Some(value) => Some(value),
            None => first_value(fragments.drop_first()),
        }
    }
}

/// The product number that a catalogue page names: the page's bounded prefix
/// is cut at every `option`, and the first piece that offers a value gives
/// it.
pub open spec fn product_id_of(page: Seq<char>) -> Option<Seq<char>> {
    first_value(split_text(bounded_prefix_text(page, CATALOG_CEILING as int), "option"@))
}

/// The value that a fragment of the page offers.
pub fn value_in_fragment(fragment: &Vec<char>) -> (r: Option<Vec<char>>)
    ensures
        match r {
            Some(value) => fragment_value(fragment@) == Some(value@),
            None => fragment_value(fragment@) is None,
        },
{
    let opener = chars_of("value=\"");
    let closer = chars_of("\">Windows");
    proof {
        lemma_find_from(fragment@, opener@, 0);
    }
    match find(fragment, &opener, 0) {
        None => None,
        Some(open) => match find(fragment, &closer, 0) {
            None => None,
            Some(close) => {
                proof {
                    lemma_find_from(fragment@, closer@, 0);
                }
                assert(open + opener.len() <= fragment.len());
                let start = open + opener.len();
                if start <= close {
                    Some(copy_range(fragment, start, close))
                } else {
                    None
                }
            },
        },
    }
}

/// The product number on a catalogue page.
pub fn extract_product_id(page: &str) -> (r: Result<String, RidoError>)
    ensures
        match r {
            Ok(id) => product_id_of(page@) == Some(id@),
            Err(e) => e == RidoError::ProductID && product_id_of(page@) is None,
        },
{
    let chars = chars_of(page);
    let head = bounded_prefix(&chars, CATALOG_CEILING);
    let fragments = split(&head, &chars_of("option"));
    let ghost all = texts(fragments@);
    let mut i: usize = 0;
    assert(all.skip(0) =~= all);
    while i < fragments.len()
        invariant
            i <= fragments.len(),
            all == texts(fragments@),
            product_id_of(page@) == first_value(all),
            first_value(all) == first_value(all.skip(i as int)),
        decreases fragments.len() - i,
    {
        assert(all.skip(i as int)[0] == fragments@[i as int]@);
        assert(all.skip(i as int).drop_first() =~= all.skip(i + 1));
        match value_in_fragment(&fragments[i]) {
            Some(value) => {
                return Ok(string_of(&value));
            },
            None => {},
        }
        i += 1;
    }
    Err(RidoError::ProductID)
}

} // verus!
