//! Scanning helpers on sequences of characters.
//!
//! Every scanner of this crate works on a `Vec<char>` whose view is the text,
//! so that positions count characters and no position can fall inside one.
use vstd::prelude::*;

verus! {

/// `String::push` of the standard library appends one character to the end
/// of the string and leaves what was there before untouched.
pub assume_specification[ String::push ](s: &mut String, c: char)
    ensures
        final(s)@ == old(s)@.push(c),
;

/// The characters of a string slice, in order.
pub fn chars_of(s: &str) -> (r: Vec<char>)
    ensures
        r@ == s@,
{
    let mut out: Vec<char> = Vec::new();
    for c in it: s.chars()
        invariant
            out@ == it.seq().take(it.index@),
    {
        out.push(c);
    }
    out
}

/// The string made of the given characters, in order.
pub fn string_of(chars: &Vec<char>) -> (r: String)
    ensures
        r@ == chars@,
{
    let mut out = String::new();
    let mut i: usize = 0;
    while i < chars.len()
        invariant
            i <= chars.len(),
            out@ == chars@.take(i as int),
        decreases chars.len() - i,
    {
        out.push(chars[i]);
        i += 1;
        assert(chars@.take(i as int) == chars@.take(i - 1).push(chars@[i - 1]));
    }
    assert(chars@.take(chars.len() as int) == chars@);
    out
}

/// Whether two string slices hold the same characters.
pub fn same_text(a: &str, b: &str) -> (r: bool)
    ensures
        r == (a@ == b@),
{
    let x = String::from_str(a);
    let y = String::from_str(b);
    x == y
}

/// `needle` stands in `hay` at position `at`.
pub open spec fn occurs_at(hay: Seq<char>, needle: Seq<char>, at: int) -> bool {
    &&& 0 <= at
    &&& at + needle.len() <= hay.len()
    &&& hay.subrange(at, at + needle.len()) == needle
}

/// The first position at or after `from` where `needle` stands in `hay`.
pub open spec fn find_from(hay: Seq<char>, needle: Seq<char>, from: int) -> Option<int>
    decreases hay.len() - from + 1,
{
    if from < 0 || from + needle.len() > hay.len() {
        None
    } else if occurs_at(hay, needle, from) {
        Some(from)
    } else {
        find_from(hay, needle, from + 1)
    }
}

/// `needle` stands somewhere in `hay`.
pub open spec fn contains_text(hay: Seq<char>, needle: Seq<char>) -> bool {
    find_from(hay, needle, 0) is Some
}

/// `find_from` gives an occurrence, and the earliest one from `from` on;
/// it gives none only where there is none.
pub proof fn lemma_find_from(hay: Seq<char>, needle: Seq<char>, from: int)
    requires
        0 <= from,
    ensures
        match find_from(hay, needle, from) {
            Some(i) => {
                &&& from <= i
                &&& occurs_at(hay, needle, i)
                &&& forall|j: int| from <= j < i ==> !occurs_at(hay, needle, j)
            },
            None => forall|j: int| from <= j ==> !occurs_at(hay, needle, j),
        },
    decreases hay.len() - from + 1,
{
    if from + needle.len() > hay.len() {
    } else if occurs_at(hay, needle, from) {
    } else {
        lemma_find_from(hay, needle, from + 1);
    }
}

/// Whether `needle` stands in `hay` at position `at`.
pub fn matches_at(hay: &Vec<char>, needle: &Vec<char>, at: usize) -> (r: bool)
    ensures
        r == occurs_at(hay@, needle@, at as int),
{
    if needle.len() > hay.len() || at > hay.len() - needle.len() {
        return false;
    }
    let mut k: usize = 0;
    while k < needle.len()
        invariant
            k <= needle.len(),
            at + needle.len() <= hay.len(),
            forall|j: int| 0 <= j < k ==> hay@[at + j] == needle@[j],
        decreases needle.len() - k,
    {
        if hay[at + k] != needle[k] {
            assert(hay@.subrange(at as int, at + needle.len())[k as int] == hay@[at + k]);
            return false;
        }
        k += 1;
    }
    assert(hay@.subrange(at as int, at + needle.len()) =~= needle@);
    true
}

/// The first position at or after `from` where `needle` stands in `hay`.
pub fn find(hay: &Vec<char>, needle: &Vec<char>, from: usize) -> (r: Option<usize>)
    ensures
        match r {
            Some(i) => find_from(hay@, needle@, from as int) == Some(i as int),
            None => find_from(hay@, needle@, from as int) is None,
        },
{
    if needle.len() > hay.len() || from > hay.len() - needle.len() {
        return None;
    }
    let last: usize = hay.len() - needle.len();
    let mut i: usize = from;
    loop
        invariant
            from <= i <= last,
            last == hay.len() - needle.len(),
            find_from(hay@, needle@, from as int) == find_from(hay@, needle@, i as int),
        decreases last - i,
    {
        if matches_at(hay, needle, i) {
            return Some(i);
        }
        if i == last {
            assert(find_from(hay@, needle@, i + 1) is None);
            return None;
        }
        i += 1;
    }
}

/// Whether `needle` stands somewhere in `hay`.
pub fn contains(hay: &Vec<char>, needle: &Vec<char>) -> (r: bool)
    ensures
        r == contains_text(hay@, needle@),
{
    find(hay, needle, 0).is_some()
}

/// Moving the start of the text by `k` moves every occurrence by `k`.
pub proof fn lemma_find_from_skip(hay: Seq<char>, needle: Seq<char>, k: int)
    requires
        0 <= k <= hay.len(),
    ensures
        find_from(hay.skip(k), needle, 0) == match find_from(hay, needle, k) {
            Some(i) => Some(i - k),
            None => None,
        },
{
    let tail = hay.skip(k);
    assert forall|j: int| 0 <= j implies occurs_at(tail, needle, j) == occurs_at(
        hay,
        needle,
        k + j,
    ) by {
        if j + needle.len() <= tail.len() {
            assert(tail.subrange(j, j + needle.len()) =~= hay.subrange(
                k + j,
                k + j + needle.len(),
            ));
        }
    }
    lemma_find_from(hay, needle, k);
    lemma_find_from(tail, needle, 0);
    match find_from(hay, needle, k) {
        Some(i) => {
            assert(occurs_at(tail, needle, i - k));
            match find_from(tail, needle, 0) {
                Some(j) => {
                    assert(occurs_at(hay, needle, k + j));
                    if j < i - k {
                        assert(!occurs_at(hay, needle, k + j));
                    }
                    if i - k < j {
                        assert(!occurs_at(tail, needle, i - k));
                    }
                },
                None => {},
            }
        },
        None => {
            match find_from(tail, needle, 0) {
                Some(j) => {
                    assert(occurs_at(hay, needle, k + j));
                },
                None => {},
            }
        },
    }
}

/// The characters of `src` from position `from` up to, not including, `to`.
pub fn copy_range(src: &Vec<char>, from: usize, to: usize) -> (r: Vec<char>)
    requires
        from <= to <= src.len(),
    ensures
        r@ == src@.subrange(from as int, to as int),
{
    let mut out: Vec<char> = Vec::new();
    let mut i: usize = from;
    while i < to
        invariant
            from <= i <= to <= src.len(),
            out@ == src@.subrange(from as int, i as int),
        decreases to - i,
    {
        out.push(src[i]);
        i += 1;
        assert(src@.subrange(from as int, i as int) == src@.subrange(from as int, i - 1).push(
            src@[i - 1],
        ));
    }
    out
}

/// Appends the characters of `src` to `out`.
pub fn append_all(out: &mut Vec<char>, src: &Vec<char>)
    ensures
        final(out)@ == old(out)@ + src@,
{
    let mut i: usize = 0;
    while i < src.len()
        invariant
            i <= src.len(),
            out@ == old(out)@ + src@.take(i as int),
        decreases src.len() - i,
    {
        out.push(src[i]);
        i += 1;
        assert(src@.take(i as int) == src@.take(i - 1).push(src@[i - 1]));
    }
    assert(src@.take(src.len() as int) == src@);
}

/// The text before the first occurrence of `sep` and the text behind it.
pub open spec fn split_once(s: Seq<char>, sep: Seq<char>) -> Option<(Seq<char>, Seq<char>)> {
    match find_from(s, sep, 0) {
        Some(i) => Some((s.take(i), s.skip(i + sep.len()))),
        None => None,
    }
}

/// The pieces of `s` between the occurrences of `sep`, taken from the left.
/// A text without the separator, and any text under an empty separator, is
/// one piece.
pub open spec fn split_text(s: Seq<char>, sep: Seq<char>) -> Seq<Seq<char>>
    decreases s.len(),
{
    let cut = split_once(s, sep);
    if cut is Some && cut.unwrap().1.len() < s.len() {
        seq![cut.unwrap().0] + split_text(cut.unwrap().1, sep)
    } else {
        seq![s]
    }
}

/// The texts that a list of character vectors holds.
pub open spec fn texts(pieces: Seq<Vec<char>>) -> Seq<Seq<char>> {
    Seq::new(pieces.len(), |i: int| pieces[i]@)
}

/// The pieces of `hay` between the occurrences of `sep`.
pub fn split(hay: &Vec<char>, sep: &Vec<char>) -> (r: Vec<Vec<char>>)
    ensures
        texts(r@) == split_text(hay@, sep@),
{
    let mut out: Vec<Vec<char>> = Vec::new();
    if sep.len() == 0 {
        out.push(copy_range(hay, 0, hay.len()));
        assert(hay@.subrange(0, hay.len() as int) =~= hay@);
        assert(texts(out@) =~= seq![hay@]);
        assert(hay@.subrange(0, 0) =~= sep@);
        return out;
    }
    let mut start: usize = 0;
    assert(hay@.skip(0) =~= hay@);
    assert(texts(out@) + split_text(hay@, sep@) =~= split_text(hay@, sep@));
    loop
        invariant
            start <= hay.len(),
            sep.len() > 0,
            split_text(hay@, sep@) == texts(out@) + split_text(hay@.skip(start as int), sep@),
        decreases hay.len() - start,
    {
        let ghost before = texts(out@);
        let ghost tail = hay@.skip(start as int);
        proof {
            lemma_find_from_skip(hay@, sep@, start as int);
            lemma_find_from(hay@, sep@, start as int);
        }
        match find(hay, sep, start) {
            None => {
                out.push(copy_range(hay, start, hay.len()));
                assert(hay@.subrange(start as int, hay.len() as int) =~= tail);
                assert(texts(out@) =~= before + seq![tail]);
                return out;
            },
            Some(i) => {
                out.push(copy_range(hay, start, i));
                assert(tail.take(i - start) =~= hay@.subrange(start as int, i as int));
                assert(tail.skip(i - start + sep.len()) =~= hay@.skip(i + sep.len()));
                assert(texts(out@) =~= before + seq![tail.take(i - start)]);
                assert(texts(out@) + split_text(hay@.skip(i + sep.len()), sep@) =~= before + (
                seq![tail.take(i - start)] + split_text(hay@.skip(i + sep.len()), sep@)));
                start = i + sep.len();
            },
        }
    }
}

/// `s` with every occurrence of `from` replaced by `to`, taken from the left.
/// Under an empty `from` the text stays as it is.
pub open spec fn replace_text(s: Seq<char>, from: Seq<char>, to: Seq<char>) -> Seq<char>
    decreases s.len(),
{
    let cut = split_once(s, from);
    if cut is Some && cut.unwrap().1.len() < s.len() {
        cut.unwrap().0 + to + replace_text(cut.unwrap().1, from, to)
    } else {
        s
    }
}

/// `hay` with every occurrence of `from` replaced by `to`.
pub fn replace(hay: &Vec<char>, from: &Vec<char>, to: &Vec<char>) -> (r: Vec<char>)
    ensures
        r@ == replace_text(hay@, from@, to@),
{
    if from.len() == 0 {
        let whole = copy_range(hay, 0, hay.len());
        assert(whole@ =~= hay@);
        assert(hay@.subrange(0, 0) =~= from@);
        return whole;
    }
    let mut out: Vec<char> = Vec::new();
    let mut start: usize = 0;
    assert(hay@.skip(0) =~= hay@);
    assert(out@ + replace_text(hay@, from@, to@) =~= replace_text(hay@, from@, to@));
    loop
        invariant
            start <= hay.len(),
            from.len() > 0,
            replace_text(hay@, from@, to@) == out@ + replace_text(
                hay@.skip(start as int),
                from@,
                to@,
            ),
        decreases hay.len() - start,
    {
        let ghost before = out@;
        let ghost tail = hay@.skip(start as int);
        proof {
            lemma_find_from_skip(hay@, from@, start as int);
            lemma_find_from(hay@, from@, start as int);
        }
        match find(hay, from, start) {
            None => {
                let rest = copy_range(hay, start, hay.len());
                append_all(&mut out, &rest);
                assert(rest@ =~= tail);
                return out;
            },
            Some(i) => {
                let head = copy_range(hay, start, i);
                append_all(&mut out, &head);
                append_all(&mut out, to);
                assert(tail.take(i - start) =~= hay@.subrange(start as int, i as int));
                assert(tail.skip(i - start + from.len()) =~= hay@.skip(i + from.len()));
                assert(out@ =~= before + (tail.take(i - start) + to@));
                assert(out@ + replace_text(hay@.skip(i + from.len()), from@, to@) =~= before + (
                tail.take(i - start) + to@ + replace_text(
                    hay@.skip(i + from.len()),
                    from@,
                    to@,
                )));
                start = i + from.len();
            },
        }
    }
}

} // verus!
