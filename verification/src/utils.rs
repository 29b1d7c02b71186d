//! Small helpers shared by the rest of the crate.

use crate::text::{
    comma_sep, empty_text, lemma_concat_empty, spec_comma_sep, spec_text_from_yaml, AsciiView,
    FromYamlError, Text, TextView,
};
use crate::yaml::{spec_get, take_key, Yaml};
use core::ops::AddAssign;
use std::borrow::Cow;
use vstd::prelude::*;
use vstd::string::StrSliceExecFns;

verus! {

/// The number of decimal digits needed to write `n`; zero takes one digit.
pub open spec fn spec_num_digits(n: nat) -> nat
    decreases n,
{
    if n < 10 {
        1
    } else {
        1 + spec_num_digits(n / 10)
    }
}

/// A number that fits in 64 bits has at most twenty digits.
pub proof fn lemma_num_digits_bounds(n: nat)
    ensures
        1 <= spec_num_digits(n),
        n <= u64::MAX ==> spec_num_digits(n) <= 20,
{
    reveal_with_fuel(spec_num_digits, 21);
}

/// Get the number of base 10 digits in a number.
pub fn num_digits(number: usize) -> (count: usize)
    ensures
        count as nat == spec_num_digits(number as nat),
        1 <= count <= 20,
{
    let mut rest: usize = number;
    let mut count: usize = 1;
    proof {
        lemma_num_digits_bounds(number as nat);
    }
    while rest >= 10
        invariant
            1 <= count,
            count as nat + spec_num_digits(rest as nat) == 1 + spec_num_digits(number as nat),
            spec_num_digits(number as nat) <= 20,
        decreases rest,
    {
        proof {
            lemma_num_digits_bounds((rest / 10) as nat);
        }
        rest = rest / 10;
        count = count + 1;
    }
    count
}


/// The characters that may not appear in a file name.
pub open spec fn spec_is_file_unsafe_char(c: char) -> bool {
    c == '<' || c == '>' || c == ':' || c == '"' || c == '/' || c == '|' || c == '~' || c == '\\'
        || c == '*' || c == '?'
}

/// A string is file safe when none of its characters is unsafe.
pub open spec fn spec_is_file_safe(s: Seq<char>) -> bool {
    forall|i: int| 0 <= i < s.len() ==> !spec_is_file_unsafe_char(#[trigger] s[i])
}

/// What one character becomes in a file name. A colon becomes `" -"` when a
/// space follows it and `"-"` otherwise; a question mark disappears.
pub open spec fn spec_file_safe_char(c: char, space_follows: bool) -> Seq<char> {
    if c == '<' {
        seq!['[']
    } else if c == '>' {
        seq![']']
    } else if c == ':' {
        if space_follows {
            seq![' ', '-']
        } else {
            seq!['-']
        }
    } else if c == '"' {
        seq!['\'']
    } else if c == '/' || c == '|' || c == '~' {
        seq!['-']
    } else if c == '\\' || c == '*' {
        seq!['_']
    } else if c == '?' {
        Seq::empty()
    } else {
        seq![c]
    }
}

/// The replacement of the first `n` characters of `s`, each by
/// [`spec_file_safe_char`].
pub open spec fn spec_file_safe_prefix(s: Seq<char>, n: nat) -> Seq<char>
    decreases n,
{
    if n == 0 || n > s.len() {
        Seq::empty()
    } else {
        spec_file_safe_prefix(s, (n - 1) as nat) + spec_file_safe_char(
            s[n - 1],
            n < s.len() && s[n as int] == ' ',
        )
    }
}

/// The file safe form of `s`, or `None` if `s` is file safe already.
pub open spec fn spec_make_file_safe(s: Seq<char>) -> Option<Seq<char>> {
    if spec_is_file_safe(s) {
        None
    } else {
        Some(spec_file_safe_prefix(s, s.len()))
    }
}

/// Replacing characters never leaves an unsafe one behind, and keeps ASCII
/// text ASCII.
pub proof fn lemma_file_safe_prefix(s: Seq<char>, n: nat)
    requires
        n <= s.len(),
    ensures
        spec_is_file_safe(spec_file_safe_prefix(s, n)),
        vstd::utf8::is_ascii_chars(s) ==> vstd::utf8::is_ascii_chars(spec_file_safe_prefix(s, n)),
    decreases n,
{
    if n > 0 {
        lemma_file_safe_prefix(s, (n - 1) as nat);
    }
}

/// Whether `c` may not appear in a file name.
pub fn is_file_unsafe_char(c: char) -> (r: bool)
    ensures
        r == spec_is_file_unsafe_char(c),
{
    c == '<' || c == '>' || c == ':' || c == '"' || c == '/' || c == '|' || c == '~' || c == '\\'
        || c == '*' || c == '?'
}

/// Checks if a string is file safe.
pub fn is_file_safe(s: &str) -> (r: bool)
    ensures
        r == spec_is_file_safe(s@),
{
    let mut safe: bool = true;
    for c in it: s.chars()
        invariant
            it.seq() == s@,
            safe == spec_is_file_safe(s@.take(it.index() as int)),
    {
        proof {
            let i = it.index() as int;
            assert(s@.take(i + 1) =~= s@.take(i).push(s@[i]));
            if spec_is_file_safe(s@.take(i)) && !spec_is_file_unsafe_char(c) {
                assert forall|j: int| 0 <= j < i + 1 implies !spec_is_file_unsafe_char(
                    #[trigger] s@.take(i + 1)[j],
                ) by {
                    if j < i {
                        assert(s@.take(i)[j] == s@.take(i + 1)[j]);
                    }
                }
            } else if !spec_is_file_safe(s@.take(i)) {
                let j = choose|j: int| 0 <= j < i && spec_is_file_unsafe_char(s@.take(i)[j]);
                assert(s@.take(i + 1)[j] == s@.take(i)[j]);
            } else {
                assert(s@.take(i + 1)[i] == c);
            }
        }
        safe = safe && !is_file_unsafe_char(c);
    }
    proof {
        assert(s@.take(s@.len() as int) =~= s@);
    }
    safe
}

/// Returns a file safe version of a string, or `None` if it was already file safe.
pub fn make_file_safe(s: &str) -> (r: Option<String>)
    ensures
        crate::chars::option_view(r) == spec_make_file_safe(s@),
        r matches Some(t) ==> spec_is_file_safe(t@),
{
    if is_file_safe(s) {
        return None;
    }
    proof {
        lemma_file_safe_prefix(s@, s@.len());
    }
    let cs = crate::chars::chars_of(s);
    let mut accum = String::new();
    let mut i: usize = 0;
    while i < cs.len()
        invariant
            i <= cs.len(),
            cs@ == s@,
            accum@ == spec_file_safe_prefix(s@, i as nat),
        decreases cs.len() - i,
    {
        let c = cs[i];
        let space_follows = i + 1 < cs.len() && cs[i + 1] == ' ';
        if c == '<' {
            accum.push('[');
        } else if c == '>' {
            accum.push(']');
        } else if c == ':' {
            if space_follows {
                accum.push(' ');
                accum.push('-');
            } else {
                accum.push('-');
            }
        } else if c == '"' {
            accum.push('\'');
        } else if c == '/' || c == '|' || c == '~' {
            accum.push('-');
        } else if c == '\\' || c == '*' {
            accum.push('_');
        } else if c == '?' {
        } else {
            accum.push(c);
        }
        proof {
            let piece = spec_file_safe_char(c, space_follows);
            assert(accum@ =~= spec_file_safe_prefix(s@, i as nat) + piece);
        }
        i = i + 1;
    }
    Some(accum)
}

/// The length of the article that `s` starts with, if it starts with "a",
/// "an" or "the" in any capitalisation, followed by a space.
pub open spec fn spec_article_len(s: Seq<char>) -> Option<nat> {
    if s.len() >= 4 && (s[0] == 't' || s[0] == 'T') && (s[1] == 'h' || s[1] == 'H') && (s[2] == 'e'
        || s[2] == 'E') && s[3] == ' ' {
        Some(3)
    } else if s.len() >= 2 && (s[0] == 'a' || s[0] == 'A') && s[1] == ' ' {
        Some(1)
    } else if s.len() >= 3 && (s[0] == 'a' || s[0] == 'A') && (s[1] == 'n' || s[1] == 'N') && s[2]
        == ' ' {
        Some(2)
    } else {
        None
    }
}

/// The article and what follows the space after it.
pub open spec fn spec_split_article(s: Seq<char>) -> Option<(Seq<char>, Seq<char>)> {
    match spec_article_len(s) {
        Some(n) => Some((s.take(n as int), s.skip(n as int + 1))),
        None => None,
    }
}

/// The view of an optional pair of string slices.
pub open spec fn option_pair_view(o: Option<(&str, &str)>) -> Option<(Seq<char>, Seq<char>)> {
    match o {
        Some((a, b)) => Some((a@, b@)),
        None => None,
    }
}

/// Splits an initial article from a string.
///
/// Returns a pair of the article and the rest of the string, or None if the string didn't start
/// with an article.
///
/// Articles are "a", "an", and "the", ignoring case.
pub fn split_article(s: &str) -> (r: Option<(&str, &str)>)
    ensures
        option_pair_view(r) == spec_split_article(s@),
{
    let len = s.unicode_len();
    if len < 2 {
        return None;
    }
    let first = s.get_char(0);
    let second = s.get_char(1);
    let article: usize = if first == 't' || first == 'T' {
        if len >= 4 && (second == 'h' || second == 'H') {
            let third = s.get_char(2);
            if (third == 'e' || third == 'E') && s.get_char(3) == ' ' {
                3
            } else {
                return None;
            }
        } else {
            return None;
        }
    } else if first == 'a' || first == 'A' {
        if second == ' ' {
            1
        } else if len >= 3 && (second == 'n' || second == 'N') && s.get_char(2) == ' ' {
            2
        } else {
            return None;
        }
    } else {
        return None;
    };
    proof {
        assert(s@.subrange(0, article as int) =~= s@.take(article as int));
        assert(s@.subrange(article + 1, len as int) =~= s@.skip(article + 1));
    }
    Some((s.substring_char(0, article), s.substring_char(article + 1, len)))
}

/// The views of a sequence of texts.
pub open spec fn text_views(texts: Seq<Text>) -> Seq<TextView> {
    texts.map_values(|t: Text| t@)
}

/// The separator between the items of a list, as a text.
pub open spec fn spec_separator() -> TextView {
    TextView { value: spec_comma_sep(), ascii: AsciiView::Same, file_safe: None }
}

/// The texts joined by `", "`: the empty text for no item, the item itself
/// for one, and otherwise all but the last joined, the separator, and the last.
pub open spec fn spec_comma_separated(texts: Seq<TextView>) -> TextView
    decreases texts.len(),
{
    if texts.len() == 0 {
        TextView::empty()
    } else if texts.len() == 1 {
        texts[0]
    } else {
        spec_comma_separated(texts.drop_last()).concat(spec_separator()).concat(texts.last())
    }
}

/// Creates a text that is the given list of text separated by commas. A list
/// of one text is handed back as it is, without a copy.
pub fn comma_separated(text: &[Text]) -> (r: Cow<'_, Text>)
    ensures
        r@ == spec_comma_separated(text_views(text@)),
        text@.len() == 1 ==> r == Cow::Borrowed(&text@[0]),
        text@.len() != 1 ==> r is Owned,
{
    if text.len() == 1 {
        Cow::Borrowed(&text[0])
    } else {
        let ghost views = text_views(text@);
        let mut res = empty_text();
        let mut i: usize = 0;
        while i < text.len()
            invariant
                i <= text.len(),
                text@.len() != 1,
                views == text_views(text@),
                res@ == spec_comma_separated(views.take(i as int)),
            decreases text.len() - i,
        {
            proof {
                assert(views.take(i + 1).drop_last() =~= views.take(i as int));
                assert(views.take(i + 1).last() == text@[i as int]@);
                lemma_concat_empty(text@[i as int]@);
            }
            if i != 0 {
                res.add_assign(comma_sep());
            }
            res.add_assign(&text[i]);
            i = i + 1;
        }
        proof {
            assert(views.take(text@.len() as int) =~= views);
        }
        Cow::Owned(res)
    }
}

/// An error when reading what a definition gives either once, under a
/// singular key, or as an array, under a plural key.
#[derive(Debug, PartialEq, Eq)]
pub enum ParseSingularOrPluralError<E> {
    /// The hash has neither key.
    KeysNotFound,
    /// The value under the plural key is not an array.
    NotAnArray(Yaml),
    /// An item could not be read.
    InvalidValue(E),
}

/// The texts that an array of definitions stands for, or the error of the
/// first item that is no text.
pub open spec fn spec_texts_from_items(items: Seq<Yaml>) -> Result<Seq<TextView>, FromYamlError>
    decreases items.len(),
{
    if items.len() == 0 {
        Ok(Seq::empty())
    } else {
        match spec_texts_from_items(items.drop_last()) {
            Err(e) => Err(e),
            Ok(texts) => match spec_text_from_yaml(items.last()) {
                Ok(t) => Ok(texts.push(t)),
                Err(e) => Err(e),
            },
        }
    }
}

/// The texts that a hash gives under a singular or a plural key. The
/// singular key holds one text and is looked at first; the plural key holds
/// an array of texts.
pub open spec fn spec_texts_from_hash(
    hash: Seq<(Yaml, Yaml)>,
    singular: Seq<char>,
    plural: Seq<char>,
) -> Result<Seq<TextView>, ParseSingularOrPluralError<FromYamlError>> {
    match spec_get(hash, singular) {
        Some(one) => match spec_text_from_yaml(one) {
            Ok(t) => Ok(seq![t]),
            Err(e) => Err(ParseSingularOrPluralError::InvalidValue(e)),
        },
        None => match spec_get(hash, plural) {
            None => Err(ParseSingularOrPluralError::KeysNotFound),
            Some(Yaml::Array(items)) => match spec_texts_from_items(items@) {
                Ok(texts) => Ok(texts),
                Err(e) => Err(ParseSingularOrPluralError::InvalidValue(e)),
            },
            Some(other) => Err(ParseSingularOrPluralError::NotAnArray(other)),
        },
    }
}

/// The views of a list of texts that may have failed to be read.
pub open spec fn texts_result_view<E>(r: Result<Vec<Text>, E>) -> Result<Seq<TextView>, E> {
    match r {
        Ok(v) => Ok(text_views(v@)),
        Err(e) => Err(e),
    }
}

/// Reads every item of an array as a text; the first item that is no text
/// decides the error.
pub fn texts_from_items(items: Vec<Yaml>) -> (r: Result<Vec<Text>, FromYamlError>)
    ensures
        texts_result_view(r) == spec_texts_from_items(items@),
{
    let mut texts: Vec<Text> = Vec::new();
    proof {
        assert(text_views(texts@) =~= Seq::<TextView>::empty());
        assert(items@.take(0).len() == 0);
    }
    for item in it: items
        invariant
            it.seq() == items@,
            spec_texts_from_items(items@.take(it.index() as int)) == Ok::<
                Seq<TextView>,
                FromYamlError,
            >(text_views(texts@)),
    {
        proof {
            let i = it.index() as int;
            assert(items@.take(i + 1).drop_last() =~= items@.take(i));
            assert(items@.take(i + 1).last() == item);
        }
        let ghost before = it.index() as int;
        match Text::from_yaml(item) {
            Ok(t) => {
                proof {
                    assert(text_views(texts@.push(t)) =~= text_views(texts@).push(t@));
                }
                texts.push(t);
            },
            Err(e) => {
                proof {
                    lemma_texts_error_stays(items@, before + 1);
                }
                return Err(e);
            },
        }
    }
    proof {
        assert(items@.take(items@.len() as int) =~= items@);
    }
    Ok(texts)
}

/// Once a prefix of an array fails to be read, the array fails in the same way.
pub proof fn lemma_texts_error_stays(items: Seq<Yaml>, n: int)
    requires
        0 <= n <= items.len(),
        spec_texts_from_items(items.take(n)) is Err,
    ensures
        spec_texts_from_items(items) == spec_texts_from_items(items.take(n)),
    decreases items.len() - n,
{
    if n < items.len() {
        assert(items.take(n + 1).drop_last() =~= items.take(n));
        lemma_texts_error_stays(items, n + 1);
    } else {
        assert(items.take(n) =~= items);
    }
}

/// Takes the texts that a hash gives under a singular or a plural key. What
/// the hash holds for other keys stays as it was.
pub fn take_texts(hash: &mut Vec<(Yaml, Yaml)>, singular: &str, plural: &str) -> (r: Result<
    Vec<Text>,
    ParseSingularOrPluralError<FromYamlError>,
>)
    ensures
        texts_result_view(r) == spec_texts_from_hash(old(hash)@, singular@, plural@),
        forall|other: Seq<char>|
            other != singular@ && other != plural@ ==> #[trigger] spec_get(final(hash)@, other)
                == spec_get(old(hash)@, other),
{
    match take_key(hash, singular) {
        Some(one) => match Text::from_yaml(one) {
            Ok(t) => {
                let mut texts: Vec<Text> = Vec::new();
                texts.push(t);
                proof {
                    assert(text_views(texts@) =~= seq![t@]);
                }
                Ok(texts)
            },
            Err(e) => Err(ParseSingularOrPluralError::InvalidValue(e)),
        },
        None => match take_key(hash, plural) {
            None => Err(ParseSingularOrPluralError::KeysNotFound),
            Some(Yaml::Array(items)) => match texts_from_items(items) {
                Ok(texts) => Ok(texts),
                Err(e) => Err(ParseSingularOrPluralError::InvalidValue(e)),
            },
            Some(other) => Err(ParseSingularOrPluralError::NotAnArray(other)),
        },
    }
}

/// The character that stands for a decimal digit.
pub open spec fn spec_digit_char(d: nat) -> char {
    if d == 0 {
        '0'
    } else if d == 1 {
        '1'
    } else if d == 2 {
        '2'
    } else if d == 3 {
        '3'
    } else if d == 4 {
        '4'
    } else if d == 5 {
        '5'
    } else if d == 6 {
        '6'
    } else if d == 7 {
        '7'
    } else if d == 8 {
        '8'
    } else {
        '9'
    }
}

/// The decimal digits of `n`, most significant first.
pub open spec fn spec_digits(n: nat) -> Seq<char>
    decreases n,
{
    if n < 10 {
        seq![spec_digit_char(n)]
    } else {
        spec_digits(n / 10).push(spec_digit_char(n % 10))
    }
}

/// `n` written in decimal, with zeros in front of it until it is `width`
/// characters long; a number that is longer is written in full.
pub open spec fn spec_zero_padded(n: nat, width: nat) -> Seq<char> {
    let digits = spec_digits(n);
    if digits.len() >= width {
        digits
    } else {
        Seq::new((width - digits.len()) as nat, |i: int| '0') + digits
    }
}

/// A number has as many digits as `spec_num_digits` counts.
pub proof fn lemma_digits_len(n: nat)
    ensures
        spec_digits(n).len() == spec_num_digits(n),
    decreases n,
{
    if n >= 10 {
        lemma_digits_len(n / 10);
    }
}

/// More digits are never needed for a smaller number.
pub proof fn lemma_num_digits_grows(a: nat, b: nat)
    requires
        a <= b,
    ensures
        spec_num_digits(a) <= spec_num_digits(b),
    decreases b,
{
    if a >= 10 {
        lemma_num_digits_grows(a / 10, b / 10);
    }
}

/// Padded to the width of the largest number, every number up to it takes
/// exactly that width.
pub proof fn lemma_padded_width(n: nat, largest: nat)
    requires
        n <= largest,
    ensures
        spec_zero_padded(n, spec_num_digits(largest)).len() == spec_num_digits(largest),
{
    lemma_digits_len(n);
    lemma_num_digits_grows(n, largest);
}

/// The character of a decimal digit.
fn digit_char(d: usize) -> (c: char)
    requires
        d < 10,
    ensures
        c == spec_digit_char(d as nat),
{
    if d == 0 {
        '0'
    } else if d == 1 {
        '1'
    } else if d == 2 {
        '2'
    } else if d == 3 {
        '3'
    } else if d == 4 {
        '4'
    } else if d == 5 {
        '5'
    } else if d == 6 {
        '6'
    } else if d == 7 {
        '7'
    } else if d == 8 {
        '8'
    } else {
        '9'
    }
}

/// Appends `number` to `out` in decimal, padded with zeros to `width`.
pub fn push_zero_padded(out: &mut String, number: usize, width: usize)
    ensures
        final(out)@ == old(out)@ + spec_zero_padded(number as nat, width as nat),
{
    let mut reversed: Vec<char> = Vec::new();
    reversed.push(digit_char(number % 10));
    let mut rest: usize = number / 10;
    proof {
        assert(reversed@.reverse() =~= seq![spec_digit_char((number % 10) as nat)]);
        if rest > 0 {
            assert(spec_digits(number as nat) =~= spec_digits(rest as nat) + reversed@.reverse());
        } else {
            assert(spec_digits(number as nat) =~= reversed@.reverse());
        }
    }
    while rest > 0
        invariant
            reversed@.len() >= 1,
            spec_digits(number as nat) == if rest > 0 {
                spec_digits(rest as nat) + reversed@.reverse()
            } else {
                reversed@.reverse()
            },
        decreases rest,
    {
        let ghost before = reversed@;
        let d = digit_char(rest % 10);
        reversed.push(d);
        proof {
            assert(reversed@.reverse() =~= seq![d] + before.reverse());
            if rest >= 10 {
                assert(spec_digits(rest as nat) + before.reverse() =~= spec_digits(
                    (rest / 10) as nat,
                ) + reversed@.reverse());
            } else {
                assert(spec_digits(rest as nat) + before.reverse() =~= reversed@.reverse());
            }
        }
        rest = rest / 10;
    }
    let ghost start = out@;
    let ghost digits = spec_digits(number as nat);
    let mut padding: usize = reversed.len();
    while padding < width
        invariant
            reversed@.len() <= padding,
            padding <= width || padding == reversed@.len(),
            out@ == start + Seq::new((padding - reversed@.len()) as nat, |i: int| '0'),
        decreases width - padding,
    {
        proof {
            assert(Seq::new((padding + 1 - reversed@.len()) as nat, |i: int| '0') =~= Seq::new(
                (padding - reversed@.len()) as nat,
                |i: int| '0',
            ).push('0'));
        }
        out.push('0');
        padding = padding + 1;
    }
    let ghost padded = out@;
    let mut i: usize = reversed.len();
    while i > 0
        invariant
            i <= reversed@.len(),
            digits == reversed@.reverse(),
            out@ == padded + digits.take(reversed@.len() - i),
        decreases i,
    {
        i = i - 1;
        proof {
            let k = reversed@.len() - i - 1;
            assert(digits.take(k + 1) =~= digits.take(k).push(reversed@[i as int]));
        }
        out.push(reversed[i]);
    }
    proof {
        assert(digits.take(reversed@.len() as int) =~= digits);
        assert(start + spec_zero_padded(number as nat, width as nat) =~= out@);
    }
}

/// Whether two lists of texts are equal, text by text.
pub fn texts_equal(a: &[Text], b: &[Text]) -> (r: bool)
    ensures
        r == (text_views(a@) == text_views(b@)),
{
    if a.len() != b.len() {
        proof {
            assert(text_views(a@).len() != text_views(b@).len());
        }
        return false;
    }
    let mut i: usize = 0;
    while i < a.len()
        invariant
            i <= a.len(),
            a.len() == b.len(),
            forall|j: int| 0 <= j < i ==> (#[trigger] a@[j])@ == b@[j]@,
        decreases a.len() - i,
    {
        if !a[i].equals(&b[i]) {
            proof {
                assert(text_views(a@)[i as int] == a@[i as int]@);
                assert(text_views(b@)[i as int] == b@[i as int]@);
            }
            return false;
        }
        i = i + 1;
    }
    proof {
        assert(text_views(a@) =~= text_views(b@));
    }
    true
}

/// The views of a sequence of strings.
pub open spec fn string_views(strings: Seq<String>) -> Seq<Seq<char>> {
    strings.map_values(|s: String| s@)
}

/// The text behind a text that is borrowed or owned.
pub fn text_of<'b>(text: &'b Cow<'_, Text>) -> (r: &'b Text)
    ensures
        r@ == text@,
{
    match text {
        Cow::Borrowed(t) => t,
        Cow::Owned(t) => t,
    }
}

} // verus!
