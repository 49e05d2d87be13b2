//! Sequences of characters: joining, and the conversions between `&str`,
//! `String` and `Vec<char>` that the grammar and the generator share.

use vstd::prelude::*;

verus! {

/// The views of a sequence of strings.
pub open spec fn views(items: Seq<String>) -> Seq<Seq<char>> {
    Seq::new(items.len(), |i: int| items[i]@)
}

/// `items` written one after another with `sep` between each two neighbours.
pub open spec fn joined(items: Seq<Seq<char>>, sep: Seq<char>) -> Seq<char>
    decreases items.len(),
{
    if items.len() == 0 {
        Seq::empty()
    } else if items.len() == 1 {
        items[0]
    } else {
        joined(items.drop_last(), sep) + sep + items.last()
    }
}

/// Calls `itertools::join` on the strings of `items`.
///
/// Trusted: the result is the first item followed, for every later item, by
/// `sep` and that item; the empty string for no items. Each item is written
/// through its `Display` impl, which for `String` writes the string itself.
#[verifier::external_body]
pub(crate) fn join(items: &Vec<String>, sep: &str) -> (out: String)
    ensures
        out@ == joined(views(items@), sep@),
{
    itertools::join(items, sep)
}

/// Joining one more item appends the separator and the item.
pub proof fn lemma_joined_push(items: Seq<Seq<char>>, sep: Seq<char>, item: Seq<char>)
    ensures
        joined(items.push(item), sep) == if items.len() == 0 {
            item
        } else {
            joined(items, sep) + sep + item
        },
{
    let all = items.push(item);
    assert(all.drop_last() =~= items);
}

/// The characters of `s`, in order.
pub fn to_chars(s: &str) -> (out: Vec<char>)
    ensures
        out@ == s@,
{
    broadcast use vstd::string::axiom_spec_iter;

    let mut out: Vec<char> = Vec::new();
    for c in it: s.chars()
        invariant
            it.seq() == s@,
            out@ == s@.take(it.index() as int),
    {
        out.push(c);
    }
    out
}

/// Calls `String::push`.
///
/// Trusted: the string afterwards is the string before with `c` at its end.
#[verifier::external_body]
pub(crate) fn push_char(s: &mut String, c: char)
    ensures
        final(s)@ == old(s)@.push(c),
{
    s.push(c)
}

/// The string made of `chars[from..to]`.
pub fn string_of(chars: &Vec<char>, from: usize, to: usize) -> (out: String)
    requires
        from <= to <= chars.len(),
    ensures
        out@ == chars@.subrange(from as int, to as int),
{
    let mut out = String::new();
    let mut i: usize = from;
    while i < to
        invariant
            from <= i <= to <= chars.len(),
            out@ == chars@.subrange(from as int, i as int),
        decreases to - i,
    {
        push_char(&mut out, chars[i]);
        i += 1;
    }
    out
}

/// Whether `lit` stands in `s` at position `pos`.
pub open spec fn has_at(s: Seq<char>, pos: int, lit: Seq<char>) -> bool {
    &&& 0 <= pos
    &&& pos + lit.len() <= s.len()
    &&& s.subrange(pos, pos + lit.len()) == lit
}

/// Tests whether the literal `lit` stands in `input` at position `pos`.
pub fn matches_at(input: &Vec<char>, pos: usize, lit: &str) -> (found: bool)
    ensures
        found == has_at(input@, pos as int, lit@),
{
    let word = to_chars(lit);
    if pos > input.len() || word.len() > input.len() - pos {
        return false;
    }
    let mut i: usize = 0;
    while i < word.len()
        invariant
            word@ == lit@,
            pos + word.len() <= input.len(),
            i <= word.len(),
            input@.subrange(pos as int, pos + i) == word@.take(i as int),
        decreases word.len() - i,
    {
        if input[pos + i] != word[i] {
            return false;
        }
        i += 1;
    }
    assert(word@.take(word.len() as int) =~= word@);
    true
}

/// Whether `c` is white space: one of the 25 code points that have the
/// property `White_Space` of the Unicode Character Database.
pub open spec fn is_white_space(c: char) -> bool {
    let n = c as u32;
    ||| 0x0009 <= n <= 0x000D
    ||| n == 0x0020
    ||| n == 0x0085
    ||| n == 0x00A0
    ||| n == 0x1680
    ||| 0x2000 <= n <= 0x200A
    ||| n == 0x2028
    ||| n == 0x2029
    ||| n == 0x202F
    ||| n == 0x205F
    ||| n == 0x3000
}

/// Calls `char::is_whitespace`.
///
/// Trusted: the result tells whether the character has the property
/// `White_Space`, which is what `is_white_space` spells out.
#[verifier::external_body]
fn is_whitespace(c: char) -> (b: bool)
    ensures
        b == is_white_space(c),
{
    c.is_whitespace()
}

/// `s` without its white-space characters.
pub open spec fn without_whitespace(s: Seq<char>) -> Seq<char> {
    s.filter(|c: char| !is_white_space(c))
}

/// Removes every white-space character from `s`, keeping the others in order.
pub fn strip_whitespace(s: &str) -> (out: Vec<char>)
    ensures
        out@ == without_whitespace(s@),
{
    let chars = to_chars(s);
    let mut out: Vec<char> = Vec::new();
    let mut i: usize = 0;
    let ghost keep = |c: char| !is_white_space(c);
    while i < chars.len()
        invariant
            i <= chars.len(),
            keep == (|c: char| !is_white_space(c)),
            out@ == chars@.take(i as int).filter(keep),
        decreases chars.len() - i,
    {
        let c = chars[i];
        proof {
            let before = chars@.take(i as int);
            let after = chars@.take(i + 1);
            assert(after.drop_last() =~= before);
            reveal(Seq::filter);
        }
        if !is_whitespace(c) {
            out.push(c);
        }
        i += 1;
    }
    assert(chars@.take(chars.len() as int) =~= chars@);
    out
}

/// `s` without its space characters.
pub open spec fn unspaced(s: Seq<char>) -> Seq<char> {
    s.filter(|c: char| c != ' ')
}

/// Removes every space from `chars`, keeping the other characters in order.
pub fn unspace(chars: &Vec<char>) -> (out: Vec<char>)
    ensures
        out@ == unspaced(chars@),
{
    let mut out: Vec<char> = Vec::new();
    let mut i: usize = 0;
    let ghost keep = |c: char| c != ' ';
    while i < chars.len()
        invariant
            i <= chars.len(),
            keep == (|c: char| c != ' '),
            out@ == chars@.take(i as int).filter(keep),
        decreases chars.len() - i,
    {
        let c = chars[i];
        proof {
            let before = chars@.take(i as int);
            let after = chars@.take(i + 1);
            assert(after.drop_last() =~= before);
            reveal(Seq::filter);
        }
        if c != ' ' {
            out.push(c);
        }
        i += 1;
    }
    assert(chars@.take(chars.len() as int) =~= chars@);
    out
}

/// The end of the longest run that starts at `pos` and holds spaces only,
/// where `spaces` is set, or no space, where it is not.
pub open spec fn run_of(s: Seq<char>, pos: int, spaces: bool) -> int
    decreases s.len() - pos,
{
    if 0 <= pos < s.len() && (s[pos] == ' ') == spaces {
        run_of(s, pos + 1, spaces)
    } else {
        pos
    }
}

/// The words `acc` followed by the words that stand in `s` from `pos` on. A
/// word is a longest run of characters that are no spaces.
pub open spec fn words_rest(s: Seq<char>, pos: int, acc: Seq<Seq<char>>) -> Seq<Seq<char>>
    decreases s.len() - pos,
{
    let start = run_of(s, pos, true);
    let end = run_of(s, start, false);
    if pos <= start < end <= s.len() {
        words_rest(s, end, acc.push(s.subrange(start, end)))
    } else {
        acc
    }
}

/// The words of `s`, in order.
pub open spec fn words(s: Seq<char>) -> Seq<Seq<char>> {
    words_rest(s, 0, Seq::empty())
}

/// Reads the longest run of spaces, or of characters that are no spaces, at
/// `pos`.
fn scan_run(chars: &Vec<char>, pos: usize, spaces: bool) -> (end: usize)
    requires
        pos <= chars.len(),
    ensures
        end == run_of(chars@, pos as int, spaces),
        pos <= end <= chars.len(),
{
    let mut end: usize = pos;
    while end < chars.len() && (chars[end] == ' ') == spaces
        invariant
            pos <= end <= chars.len(),
            run_of(chars@, pos as int, spaces) == run_of(chars@, end as int, spaces),
        decreases chars.len() - end,
    {
        end += 1;
    }
    end
}

/// The characters `chars[from..to]`.
fn slice_of(chars: &Vec<char>, from: usize, to: usize) -> (out: Vec<char>)
    requires
        from <= to <= chars.len(),
    ensures
        out@ == chars@.subrange(from as int, to as int),
{
    let mut out: Vec<char> = Vec::new();
    let mut i: usize = from;
    while i < to
        invariant
            from <= i <= to <= chars.len(),
            out@ == chars@.subrange(from as int, i as int),
        decreases to - i,
    {
        out.push(chars[i]);
        i += 1;
    }
    out
}

/// Splits `chars` into its words.
pub fn split_words(chars: &Vec<char>) -> (out: Vec<Vec<char>>)
    ensures
        out@.map_values(|w: Vec<char>| w@) == words(chars@),
{
    let ghost s = chars@;
    let ghost view_of = |w: Vec<char>| w@;
    let mut out: Vec<Vec<char>> = Vec::new();
    assert(out@.map_values(view_of) =~= Seq::empty());
    let mut pos: usize = 0;
    let mut more: bool = true;
    while more
        invariant
            s == chars@,
            view_of == (|w: Vec<char>| w@),
            pos <= chars.len(),
            words(s) == words_rest(s, pos as int, out@.map_values(view_of)),
            !more ==> words_rest(s, pos as int, out@.map_values(view_of)) == out@.map_values(
                view_of,
            ),
        decreases chars.len() - pos + (if more { 1int } else { 0int }),
    {
        more = false;
        let start = scan_run(chars, pos, true);
        let end = scan_run(chars, start, false);
        if start < end {
            let word = slice_of(chars, start, end);
            assert(out@.push(word).map_values(view_of) =~= out@.map_values(view_of).push(word@));
            out.push(word);
            pos = end;
            more = true;
        }
    }
    out
}

/// Tests whether the characters `word` spell the literal `lit`.
pub fn spells(word: &Vec<char>, lit: &str) -> (b: bool)
    ensures
        b == (word@ == lit@),
{
    let found = matches_at(word, 0, lit);
    let same_length = word.len() == lit.unicode_len();
    proof {
        if found && same_length {
            assert(word@.subrange(0, word@.len() as int) =~= word@);
        }
        if word@ == lit@ {
            assert(word@.subrange(0, lit@.len() as int) =~= lit@);
        }
    }
    found && same_length
}

} // verus!
