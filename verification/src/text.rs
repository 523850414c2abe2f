//! Text compared and cut by characters.

use vstd::prelude::*;
use vstd::string::*;
use vstd::utf8::*;

verus! {

/// Whether `a` and `b` hold the same characters.
pub fn same_text(a: &str, b: &str) -> (same: bool)
    ensures
        same == (a@ == b@),
{
    let x = a.as_bytes();
    let y = b.as_bytes();
    if x.len() != y.len() {
        return false;
    }
    let mut i: usize = 0;
    while i < x.len()
        invariant
            i <= x.len(),
            x.len() == y.len(),
            x@ == a.spec_bytes(),
            y@ == b.spec_bytes(),
            forall|j: int| 0 <= j < i ==> x@[j] == y@[j],
        decreases x.len() - i,
    {
        if x[i] != y[i] {
            return false;
        }
        i += 1;
    }
    proof {
        assert(x@ =~= y@);
        encode_utf8_decode_utf8(a@);
        encode_utf8_decode_utf8(b@);
    }
    true
}

/// The characters of `s`, one by one.
pub fn chars_of(s: &str) -> (chars: Vec<char>)
    ensures
        chars@ == s@,
{
    let mut chars: Vec<char> = Vec::new();
    for c in it: s.chars()
        invariant
            chars@ == it.seq().take(it.index() as int),
    {
        chars.push(c);
    }
    chars
}

/// Whether `s` begins with the characters of `prefix`.
pub fn starts_with(s: &str, prefix: &str) -> (begins: bool)
    ensures
        begins == prefix@.is_prefix_of(s@),
{
    let whole = chars_of(s);
    let head = chars_of(prefix);
    if head.len() > whole.len() {
        return false;
    }
    let mut i: usize = 0;
    while i < head.len()
        invariant
            i <= head.len() <= whole.len(),
            whole@ == s@,
            head@ == prefix@,
            forall|j: int| 0 <= j < i ==> head@[j] == whole@[j],
        decreases head.len() - i,
    {
        if head[i] != whole[i] {
            return false;
        }
        i += 1;
    }
    true
}

/// Whether `c` is white space: a character with Unicode's property
/// `White_Space`.
pub open spec fn is_whitespace(c: char) -> bool {
    let code = c as u32;
    ||| 0x09 <= code <= 0x0D
    ||| code == 0x20
    ||| code == 0x85
    ||| code == 0xA0
    ||| code == 0x1680
    ||| 0x2000 <= code <= 0x200A
    ||| code == 0x2028
    ||| code == 0x2029
    ||| code == 0x202F
    ||| code == 0x205F
    ||| code == 0x3000
}

/// Whether `c` parts two words: a space, a tab, a line feed, a form feed or
/// a carriage return.
pub open spec fn is_separator(c: char) -> bool {
    c == ' ' || c == '\t' || c == '\n' || c == '\x0C' || c == '\r'
}

/// `text` without the white space it begins with.
pub open spec fn spec_trim_start(text: Seq<char>) -> Seq<char>
    decreases text.len(),
{
    if text.len() > 0 && is_whitespace(text[0]) {
        spec_trim_start(text.skip(1))
    } else {
        text
    }
}

/// `text` without the white space it ends with.
pub open spec fn spec_trim_end(text: Seq<char>) -> Seq<char>
    decreases text.len(),
{
    if text.len() > 0 && is_whitespace(text.last()) {
        spec_trim_end(text.drop_last())
    } else {
        text
    }
}

/// `text` without the white space at either end.
pub open spec fn spec_trim(text: Seq<char>) -> Seq<char> {
    spec_trim_end(spec_trim_start(text))
}

/// How many characters stand at the head of `text` before its first
/// separator, or before its end.
pub open spec fn word_len(text: Seq<char>) -> nat
    decreases text.len(),
{
    if text.len() == 0 || is_separator(text[0]) {
        0
    } else {
        1 + word_len(text.skip(1))
    }
}

/// The words of `text`: its longest runs of characters without a separator,
/// from left to right.
pub open spec fn spec_words(text: Seq<char>) -> Seq<Seq<char>>
    decreases text.len(),
{
    if text.len() == 0 {
        seq![]
    } else if is_separator(text[0]) {
        spec_words(text.skip(1))
    } else {
        proof {
            lemma_word_len_bounds(text);
        }
        seq![text.take(word_len(text) as int)] + spec_words(text.skip(word_len(text) as int))
    }
}

/// The word at the head of a text is no longer than the text, and it holds
/// the first character where that is no separator.
pub proof fn lemma_word_len_bounds(text: Seq<char>)
    ensures
        word_len(text) <= text.len(),
        text.len() > 0 && !is_separator(text[0]) ==> word_len(text) >= 1,
    decreases text.len(),
{
    if text.len() > 0 && !is_separator(text[0]) {
        lemma_word_len_bounds(text.skip(1));
    }
}

/// A run of `count` characters without a separator, which ends the text or
/// meets a separator, is the word at the head of the text.
pub proof fn lemma_word_len(text: Seq<char>, count: nat)
    requires
        count <= text.len(),
        forall|k: int| 0 <= k < count ==> !is_separator(text[k]),
        count == text.len() || is_separator(text[count as int]),
    ensures
        word_len(text) == count,
    decreases count,
{
    if count > 0 {
        lemma_word_len(text.skip(1), (count - 1) as nat);
    }
}

/// Whether `c` is white space.
pub fn white(c: char) -> (yes: bool)
    ensures
        yes == is_whitespace(c),
{
    let code = c as u32;
    (0x09 <= code && code <= 0x0D) || code == 0x20 || code == 0x85 || code == 0xA0 || code
        == 0x1680 || (0x2000 <= code && code <= 0x200A) || code == 0x2028 || code == 0x2029
        || code == 0x202F || code == 0x205F || code == 0x3000
}

/// Whether `c` parts two words.
pub fn separator(c: char) -> (yes: bool)
    ensures
        yes == is_separator(c),
{
    c == ' ' || c == '\t' || c == '\n' || c == '\x0C' || c == '\r'
}

/// `text` without the white space at either end.
pub fn trim<'a>(text: &'a str) -> (trimmed: &'a str)
    ensures
        trimmed@ == spec_trim(text@),
{
    let chars = chars_of(text);
    let length = chars.len();
    let mut start: usize = 0;
    assert(text@.skip(0) =~= text@);
    while start < length && white(chars[start])
        invariant
            start <= length,
            length == chars.len(),
            chars@ == text@,
            spec_trim_start(text@) == spec_trim_start(text@.skip(start as int)),
        decreases length - start,
    {
        assert(text@.skip(start as int).skip(1) =~= text@.skip(start + 1));
        start += 1;
    }
    let mut end: usize = length;
    while end > start && white(chars[end - 1])
        invariant
            start <= end <= length,
            length == chars.len(),
            chars@ == text@,
            spec_trim(text@) == spec_trim_end(text@.subrange(start as int, end as int)),
        decreases end,
    {
        assert(text@.subrange(start as int, end as int).drop_last() =~= text@.subrange(
            start as int,
            end - 1,
        ));
        end -= 1;
    }
    text.substring_char(start, end)
}

/// The words of `text`, from left to right.
pub fn words(text: &str) -> (found: Vec<String>)
    ensures
        found.deep_view() == spec_words(text@),
{
    let chars = chars_of(text);
    let length = chars.len();
    let mut found: Vec<String> = Vec::new();
    let mut at: usize = 0;
    assert(text@.skip(0) =~= text@);
    while at < length
        invariant
            at <= length,
            length == chars.len(),
            chars@ == text@,
            spec_words(text@) == found.deep_view() + spec_words(text@.skip(at as int)),
        decreases length - at,
    {
        let ghost rest = text@.skip(at as int);
        if separator(chars[at]) {
            assert(rest.skip(1) =~= text@.skip(at + 1));
            at += 1;
        } else {
            let mut end: usize = at + 1;
            while end < length && !separator(chars[end])
                invariant
                    at < end <= length,
                    length == chars.len(),
                    chars@ == text@,
                    forall|k: int| at <= k < end ==> !is_separator(text@[k]),
                decreases length - end,
            {
                end += 1;
            }
            proof {
                lemma_word_len(rest, (end - at) as nat);
                assert(rest.take(end - at) =~= text@.subrange(at as int, end as int));
                assert(rest.skip(end - at) =~= text@.skip(end as int));
            }
            let word = text.substring_char(at, end).to_owned();
            found.push(word);
            at = end;
        }
    }
    found
}

/// A list with the same texts as `texts`, in the same order.
pub fn copy_texts(texts: &Vec<String>) -> (copy: Vec<String>)
    ensures
        copy.deep_view() == texts.deep_view(),
{
    let mut copy: Vec<String> = Vec::new();
    let mut i: usize = 0;
    while i < texts.len()
        invariant
            i <= texts.len(),
            copy.len() == i,
            forall|j: int| 0 <= j < i ==> copy@[j]@ == texts@[j]@,
        decreases texts.len() - i,
    {
        copy.push(texts[i].clone());
        i += 1;
    }
    copy
}

/// The character that stands for the digit `digit`.
pub open spec fn digit_char(digit: nat) -> char {
    (48 + digit) as u8 as char
}

/// `number` written in decimal digits, without leading zeros.
pub open spec fn spec_decimal(number: nat) -> Seq<char>
    decreases number,
{
    if number < 10 {
        seq![digit_char(number)]
    } else {
        spec_decimal(number / 10).push(digit_char(number % 10))
    }
}

/// The text of one decimal digit.
pub(crate) fn digit_text(digit: u32) -> (text: &'static str)
    requires
        digit < 10,
    ensures
        text@ == seq![digit_char(digit as nat)],
{
    proof {
        reveal_strlit("0");
        reveal_strlit("1");
        reveal_strlit("2");
        reveal_strlit("3");
        reveal_strlit("4");
        reveal_strlit("5");
        reveal_strlit("6");
        reveal_strlit("7");
        reveal_strlit("8");
        reveal_strlit("9");
    }
    let text = if digit == 0 {
        "0"
    } else if digit == 1 {
        "1"
    } else if digit == 2 {
        "2"
    } else if digit == 3 {
        "3"
    } else if digit == 4 {
        "4"
    } else if digit == 5 {
        "5"
    } else if digit == 6 {
        "6"
    } else if digit == 7 {
        "7"
    } else if digit == 8 {
        "8"
    } else {
        "9"
    };
    text
}

/// `number` written in decimal digits, without leading zeros.
pub fn decimal(number: u32) -> (text: String)
    ensures
        text@ == spec_decimal(number as nat),
    decreases number,
{
    if number < 10 {
        digit_text(number).to_owned()
    } else {
        let mut text = decimal(number / 10);
        text.append(digit_text(number % 10));
        text
    }
}

/// Puts a text with the characters of `text` at the end of `list`.
pub fn push_text(list: &mut Vec<String>, text: &str)
    ensures
        final(list).deep_view() == old(list).deep_view().push(text@),
{
    list.push(text.to_owned());
}

/// Puts texts with the characters of those of `more`, in their order, at the
/// end of `list`.
pub fn push_texts(list: &mut Vec<String>, more: &Vec<String>)
    ensures
        final(list).deep_view() == old(list).deep_view() + more.deep_view(),
{
    let ghost before = list.deep_view();
    let mut i: usize = 0;
    while i < more.len()
        invariant
            i <= more.len(),
            list.deep_view() == before + more.deep_view().take(i as int),
        decreases more.len() - i,
    {
        let ghost so_far = list.deep_view();
        list.push(more[i].clone());
        assert(list.deep_view() =~= so_far.push(more.deep_view()[i as int]));
        i += 1;
    }
}

} // verus!
