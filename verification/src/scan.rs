//! Bounded prefixes, lines, words and character filters.
use crate::text::{copy_range, find, lemma_find_from, lemma_find_from_skip, split_once, texts};
use vstd::prelude::*;

verus! {

/// The number of bytes that a character takes in UTF-8.
pub open spec fn utf8_width(c: char) -> int {
    let n = c as u32;
    if n < 0x80 {
        1
    } else if n < 0x800 {
        2
    } else if n < 0x10000 {
        3
    } else {
        4
    }
}

/// The number of bytes that a text takes in UTF-8.
pub open spec fn utf8_size(s: Seq<char>) -> int
    decreases s.len(),
{
    if s.len() == 0 {
        0
    } else {
        utf8_width(s[0]) + utf8_size(s.drop_first())
    }
}

/// How many leading characters of `s` fit into `budget` bytes of UTF-8.
pub open spec fn prefix_count(s: Seq<char>, budget: int) -> int
    decreases s.len(),
{
    if s.len() == 0 || utf8_width(s[0]) > budget {
        0
    } else {
        1 + prefix_count(s.drop_first(), budget - utf8_width(s[0]))
    }
}

/// The longest prefix of `s` that fits into `budget` bytes of UTF-8. It ends
/// between two characters, never inside one.
pub open spec fn bounded_prefix_text(s: Seq<char>, budget: int) -> Seq<char> {
    s.take(prefix_count(s, budget))
}

/// No text takes a negative number of bytes.
pub proof fn lemma_utf8_size_bounds(s: Seq<char>)
    ensures
        s.len() <= utf8_size(s) <= 4 * s.len(),
    decreases s.len(),
{
    if s.len() > 0 {
        lemma_utf8_size_bounds(s.drop_first());
    }
}

/// The bounded prefix is a prefix, fits into the budget, and the character
/// behind it, if there is one, no longer fits.
pub proof fn lemma_prefix_count(s: Seq<char>, budget: int)
    requires
        0 <= budget,
    ensures
        0 <= prefix_count(s, budget) <= s.len(),
        utf8_size(bounded_prefix_text(s, budget)) <= budget,
        prefix_count(s, budget) < s.len() ==> utf8_size(bounded_prefix_text(s, budget))
            + utf8_width(s[prefix_count(s, budget)]) > budget,
        utf8_size(s) <= budget ==> bounded_prefix_text(s, budget) == s,
    decreases s.len(),
{
    if s.len() == 0 || utf8_width(s[0]) > budget {
        assert(s.take(0) =~= Seq::<char>::empty());
        if s.len() == 0 {
            assert(s.take(0) =~= s);
        } else {
            lemma_utf8_size_bounds(s.drop_first());
        }
    } else {
        let w = utf8_width(s[0]);
        let rest = s.drop_first();
        lemma_prefix_count(rest, budget - w);
        let k = prefix_count(rest, budget - w);
        assert(s.take(k + 1).drop_first() =~= rest.take(k));
        assert(s.take(k + 1)[0] == s[0]);
        if k < rest.len() {
            assert(rest[k] == s[k + 1]);
        }
        if utf8_size(s) <= budget {
            assert(rest.take(k) == rest);
            assert(s.take(k + 1) =~= s);
        }
    }
}

/// The number of bytes that a character takes in UTF-8.
pub fn width_of(c: char) -> (w: usize)
    ensures
        w == utf8_width(c),
{
    let n: u32 = c as u32;
    if n < 0x80 {
        1
    } else if n < 0x800 {
        2
    } else if n < 0x10000 {
        3
    } else {
        4
    }
}

/// The longest prefix of `src` that fits into `ceiling` bytes of UTF-8.
pub fn bounded_prefix(src: &Vec<char>, ceiling: usize) -> (r: Vec<char>)
    ensures
        r@ == bounded_prefix_text(src@, ceiling as int),
{
    let mut left: usize = ceiling;
    let mut i: usize = 0;
    assert(src@.skip(0) =~= src@);
    while i < src.len() && width_of(src[i]) <= left
        invariant
            i <= src.len(),
            left <= ceiling,
            prefix_count(src@, ceiling as int) == i + prefix_count(src@.skip(i as int), left as int),
        decreases src.len() - i,
    {
        assert(src@.skip(i as int)[0] == src@[i as int]);
        assert(src@.skip(i as int).drop_first() =~= src@.skip(i + 1));
        left -= width_of(src[i]);
        i += 1;
    }
    proof {
        if i < src.len() {
            assert(src@.skip(i as int)[0] == src@[i as int]);
        }
    }
    copy_range(src, 0, i)
}

/// A line without the carriage return that stood before its line feed.
pub open spec fn without_cr(line: Seq<char>) -> Seq<char> {
    if line.len() > 0 && line.last() == '\r' {
        line.drop_last()
    } else {
        line
    }
}

/// The lines of a text. A line ends with a line feed, or with a carriage
/// return and a line feed; neither belongs to the line. The last line needs
/// no line ending, and an empty text has no line.
pub open spec fn lines_of(s: Seq<char>) -> Seq<Seq<char>>
    decreases s.len(),
{
    let cut = split_once(s, seq!['\n']);
    if s.len() == 0 {
        Seq::empty()
    } else if cut is Some && cut.unwrap().1.len() < s.len() {
        seq![without_cr(cut.unwrap().0)] + lines_of(cut.unwrap().1)
    } else {
        seq![s]
    }
}

/// The lines of a text.
pub fn lines(hay: &Vec<char>) -> (r: Vec<Vec<char>>)
    ensures
        texts(r@) == lines_of(hay@),
{
    let mut out: Vec<Vec<char>> = Vec::new();
    let feed: Vec<char> = vec!['\n'];
    assert(feed@ =~= seq!['\n']);
    let mut start: usize = 0;
    assert(hay@.skip(0) =~= hay@);
    assert(texts(out@) + lines_of(hay@) =~= lines_of(hay@));
    loop
        invariant
            start <= hay.len(),
            feed@ == seq!['\n'],
            lines_of(hay@) == texts(out@) + lines_of(hay@.skip(start as int)),
        decreases hay.len() - start,
    {
        let ghost before = texts(out@);
        let ghost tail = hay@.skip(start as int);
        if start == hay.len() {
            assert(texts(out@) + Seq::<Seq<char>>::empty() =~= texts(out@));
            return out;
        }
        proof {
            lemma_find_from_skip(hay@, feed@, start as int);
            lemma_find_from(hay@, feed@, start as int);
        }
        match find(hay, &feed, start) {
            None => {
                out.push(copy_range(hay, start, hay.len()));
                assert(hay@.subrange(start as int, hay.len() as int) =~= tail);
                assert(texts(out@) =~= before + seq![tail]);
                return out;
            },
            Some(i) => {
                let ghost head = tail.take(i - start);
                assert(head =~= hay@.subrange(start as int, i as int));
                assert(tail.skip(i - start + 1) =~= hay@.skip(i + 1));
                if i > start && hay[i - 1] == '\r' {
                    out.push(copy_range(hay, start, i - 1));
                    assert(head.last() == hay@[i - 1]);
                    assert(head.drop_last() =~= hay@.subrange(start as int, i - 1));
                } else {
                    out.push(copy_range(hay, start, i));
                    if i > start {
                        assert(head.last() == hay@[i - 1]);
                    }
                }
                assert(texts(out@) =~= before + seq![without_cr(head)]);
                assert(texts(out@) + lines_of(hay@.skip(i + 1)) =~= before + (seq![
                    without_cr(head),
                ] + lines_of(hay@.skip(i + 1))));
                start = i + 1;
            },
        }
    }
}

/// A visible ASCII character: a letter, a digit or a punctuation mark.
pub open spec fn is_graphic(c: char) -> bool {
    '!' <= c <= '~'
}

/// The visible ASCII characters of a text, in order.
pub open spec fn graphic_text(s: Seq<char>) -> Seq<char> {
    s.filter(|c: char| is_graphic(c))
}

/// The visible ASCII characters of a text, in order.
pub fn keep_graphic(src: &Vec<char>) -> (r: Vec<char>)
    ensures
        r@ == graphic_text(src@),
{
    let mut out: Vec<char> = Vec::new();
    let mut i: usize = 0;
    proof {
        reveal(Seq::filter);
        assert(src@.take(0) =~= Seq::<char>::empty());
    }
    while i < src.len()
        invariant
            i <= src.len(),
            out@ == graphic_text(src@.take(i as int)),
        decreases src.len() - i,
    {
        let c = src[i];
        proof {
            reveal(Seq::filter);
            assert(src@.take(i + 1).drop_last() =~= src@.take(i as int));
            assert(src@.take(i + 1).last() == c);
        }
        if '!' <= c && c <= '~' {
            out.push(c);
        }
        i += 1;
    }
    assert(src@.take(src.len() as int) =~= src@);
    out
}

/// A character that counts as white space in Unicode.
pub open spec fn is_space(c: char) -> bool {
    let n = c as u32;
    ||| 0x09 <= n <= 0x0D
    ||| n == 0x20
    ||| n == 0x85
    ||| n == 0xA0
    ||| n == 0x1680
    ||| 0x2000 <= n <= 0x200A
    ||| n == 0x2028
    ||| n == 0x2029
    ||| n == 0x202F
    ||| n == 0x205F
    ||| n == 0x3000
}

/// Whether a character counts as white space in Unicode.
pub fn space(c: char) -> (r: bool)
    ensures
        r == is_space(c),
{
    let n: u32 = c as u32;
    (0x09 <= n && n <= 0x0D) || n == 0x20 || n == 0x85 || n == 0xA0 || n == 0x1680 || (0x2000 <= n
        && n <= 0x200A) || n == 0x2028 || n == 0x2029 || n == 0x202F || n == 0x205F || n == 0x3000
}

/// The first position at or after `from` that holds no white space.
pub open spec fn space_run(s: Seq<char>, from: int) -> int
    decreases s.len() - from,
{
    if 0 <= from < s.len() && is_space(s[from]) {
        space_run(s, from + 1)
    } else {
        from
    }
}

/// The end of the text before the white space that stands before `to`.
pub open spec fn space_run_back(s: Seq<char>, to: int) -> int
    decreases to,
{
    if 0 < to <= s.len() && is_space(s[to - 1]) {
        space_run_back(s, to - 1)
    } else {
        to
    }
}

/// A text without the white space at its two ends.
pub open spec fn trim_text(s: Seq<char>) -> Seq<char> {
    let a = space_run(s, 0);
    let b = space_run_back(s, s.len() as int);
    if a <= b {
        s.subrange(a, b)
    } else {
        Seq::empty()
    }
}

/// A text without the white space at its two ends.
pub fn trim(src: &Vec<char>) -> (r: Vec<char>)
    ensures
        r@ == trim_text(src@),
{
    let mut a: usize = 0;
    while a < src.len() && space(src[a])
        invariant
            a <= src.len(),
            space_run(src@, 0) == space_run(src@, a as int),
        decreases src.len() - a,
    {
        a += 1;
    }
    let mut b: usize = src.len();
    while b > 0 && space(src[b - 1])
        invariant
            b <= src.len(),
            space_run_back(src@, src.len() as int) == space_run_back(src@, b as int),
        decreases b,
    {
        b -= 1;
    }
    if a <= b {
        copy_range(src, a, b)
    } else {
        Vec::new()
    }
}

/// One of the five characters that count as white space in ASCII.
pub open spec fn is_blank(c: char) -> bool {
    c == ' ' || c == '\t' || c == '\n' || c == '\x0C' || c == '\r'
}

/// Whether a character counts as white space in ASCII.
pub fn blank(c: char) -> (r: bool)
    ensures
        r == is_blank(c),
{
    c == ' ' || c == '\t' || c == '\n' || c == '\x0C' || c == '\r'
}

/// The first position at or after `from` that holds no ASCII white space.
pub open spec fn blank_run(s: Seq<char>, from: int) -> int
    decreases s.len() - from,
{
    if 0 <= from < s.len() && is_blank(s[from]) {
        blank_run(s, from + 1)
    } else {
        from
    }
}

/// The first position at or after `from` that holds ASCII white space, or
/// the end of the text.
pub open spec fn word_run(s: Seq<char>, from: int) -> int
    decreases s.len() - from,
{
    if 0 <= from < s.len() && !is_blank(s[from]) {
        word_run(s, from + 1)
    } else {
        from
    }
}

/// The second of the words that ASCII white space separates, if the text
/// has two.
pub open spec fn second_word_of(s: Seq<char>) -> Option<Seq<char>> {
    let first = blank_run(s, 0);
    let gap = word_run(s, first);
    let second = blank_run(s, gap);
    let end = word_run(s, second);
    if second < end {
        Some(s.subrange(second, end))
    } else {
        None
    }
}

/// The first position at or after `from` that holds no ASCII white space.
pub fn skip_blanks(src: &Vec<char>, from: usize) -> (r: usize)
    requires
        from <= src.len(),
    ensures
        r == blank_run(src@, from as int),
        from <= r <= src.len(),
{
    let mut i: usize = from;
    while i < src.len() && blank(src[i])
        invariant
            from <= i <= src.len(),
            blank_run(src@, from as int) == blank_run(src@, i as int),
        decreases src.len() - i,
    {
        i += 1;
    }
    i
}

/// The first position at or after `from` that holds ASCII white space, or
/// the end of the text.
pub fn skip_word(src: &Vec<char>, from: usize) -> (r: usize)
    requires
        from <= src.len(),
    ensures
        r == word_run(src@, from as int),
        from <= r <= src.len(),
{
    let mut i: usize = from;
    while i < src.len() && !blank(src[i])
        invariant
            from <= i <= src.len(),
            word_run(src@, from as int) == word_run(src@, i as int),
        decreases src.len() - i,
    {
        i += 1;
    }
    i
}

/// The second of the words that ASCII white space separates.
pub fn second_word(src: &Vec<char>) -> (r: Option<Vec<char>>)
    ensures
        match r {
            Some(w) => second_word_of(src@) == Some(w@),
            None => second_word_of(src@) is None,
        },
{
    let first = skip_blanks(src, 0);
    let gap = skip_word(src, first);
    let second = skip_blanks(src, gap);
    let end = skip_word(src, second);
    if second < end {
        Some(copy_range(src, second, end))
    } else {
        None
    }
}

} // verus!
