//! Text with three synchronised forms: the value as written, an ASCII
//! rendering, and a rendering that is safe to use in a file name.

use crate::chars::{lemma_char_lower_bound, option_view};
use crate::utils::{
    lemma_file_safe_prefix, make_file_safe, spec_is_file_safe, spec_make_file_safe,
    spec_split_article, split_article,
};
use crate::yaml::{
    push_entry, push_item, represents, spec_get, string_yaml, take_key, Yaml, YamlView,
};
use std::borrow::Cow;
use unicode_normalization::UnicodeNormalization;
use vstd::prelude::*;
use vstd::string::StringExecFns;
use vstd::utf8::is_ascii_chars;

verus! {

/// The characters of the compatibility decomposition (NFKD) of a string.
pub uninterp spec fn nfkd(s: Seq<char>) -> Seq<char>;

/// Calls `unicode_normalization::UnicodeNormalization::nfkd` on a string and
/// collects what it yields. The decomposition depends on the string alone;
/// nothing else is claimed of it here.
#[verifier::external_body]
fn nfkd_chars(s: &str) -> (r: Vec<char>)
    ensures
        r@ == nfkd(s@),
{
    s.nfkd().collect()
}

/// The ASCII character that stands for `c`: `c` itself if it is ASCII, a
/// straight quote for a curly single quote, nothing for anything else.
pub open spec fn spec_char_ascii(c: char) -> Option<char> {
    if c <= '\u{7f}' {
        Some(c)
    } else if c == '\u{2018}' || c == '\u{2019}' {
        Some('\'')
    } else {
        None
    }
}

/// The characters of `s` that have an ASCII stand-in, each replaced by it.
pub open spec fn spec_keep_ascii(s: Seq<char>) -> Seq<char>
    decreases s.len(),
{
    if s.len() == 0 {
        Seq::empty()
    } else {
        match spec_char_ascii(s.last()) {
            Some(c) => spec_keep_ascii(s.drop_last()).push(c),
            None => spec_keep_ascii(s.drop_last()),
        }
    }
}

/// The ASCII rendering derived from `s`, or `None` if `s` is ASCII already.
pub open spec fn spec_calculate_ascii(s: Seq<char>) -> Option<Seq<char>> {
    if is_ascii_chars(s) {
        None
    } else {
        Some(spec_keep_ascii(nfkd(s)))
    }
}

/// What is kept of a string is ASCII.
pub proof fn lemma_keep_ascii_is_ascii(s: Seq<char>)
    ensures
        is_ascii_chars(spec_keep_ascii(s)),
    decreases s.len(),
{
    if s.len() > 0 {
        lemma_keep_ascii_is_ascii(s.drop_last());
        let rest = spec_keep_ascii(s.drop_last());
        match spec_char_ascii(s.last()) {
            Some(c) => {
                lemma_char_lower_bound(c);
                assert forall|i: int| 0 <= i < rest.push(c).len() implies '\0'
                    <= #[trigger] rest.push(c)[i] <= '\u{7f}' by {
                    if i < rest.len() {
                        assert(rest.push(c)[i] == rest[i]);
                    }
                }
            },
            None => {},
        }
    }
}

/// The ASCII stand-in of one character.
pub fn char_ascii(c: char) -> (r: Option<char>)
    ensures
        r == spec_char_ascii(c),
{
    if c <= '\u{7f}' {
        Some(c)
    } else if c == '\u{2018}' || c == '\u{2019}' {
        Some('\'')
    } else {
        None
    }
}

/// Keeps the characters of a decomposed string that have an ASCII stand-in.
pub fn keep_ascii(decomposed: &Vec<char>) -> (r: String)
    ensures
        r@ == spec_keep_ascii(decomposed@),
{
    let mut out = String::new();
    let mut i: usize = 0;
    while i < decomposed.len()
        invariant
            i <= decomposed.len(),
            out@ == spec_keep_ascii(decomposed@.take(i as int)),
        decreases decomposed.len() - i,
    {
        proof {
            assert(decomposed@.take(i + 1).drop_last() =~= decomposed@.take(i as int));
        }
        match char_ascii(decomposed[i]) {
            Some(c) => out.push(c),
            None => {},
        }
        i = i + 1;
    }
    proof {
        assert(decomposed@.take(decomposed@.len() as int) =~= decomposed@);
    }
    out
}

/// Derives the ASCII rendering of `s`; `None` if `s` is ASCII already.
pub fn calculate_ascii(s: &str) -> (r: Option<String>)
    ensures
        option_view(r) == spec_calculate_ascii(s@),
{
    if s.is_ascii() {
        None
    } else {
        let decomposed = nfkd_chars(s);
        Some(keep_ascii(&decomposed))
    }
}

/// The mathematical value of an [`Ascii`].
pub enum AsciiView {
    /// The ASCII rendering is the value itself.
    Same,
    /// The ASCII rendering differs from the value.
    Different {
        /// The ASCII rendering.
        value: Seq<char>,
        /// Whether it was supplied by hand rather than derived.
        is_overridden: bool,
    },
}

impl AsciiView {
    /// The ASCII rendering of a text whose value is `value`.
    pub open spec fn for_value(self, value: Seq<char>) -> Seq<char> {
        match self {
            AsciiView::Same => value,
            AsciiView::Different { value: ascii, .. } => ascii,
        }
    }

    /// Whether the ASCII rendering was supplied by hand.
    pub open spec fn is_overridden(self) -> bool {
        match self {
            AsciiView::Same => false,
            AsciiView::Different { is_overridden, .. } => is_overridden,
        }
    }

    /// The ASCII part of a concatenation: `Same` only if both sides are; in
    /// every other case the two renderings joined, overridden if either is.
    pub open spec fn concat(
        self,
        left: Seq<char>,
        other: AsciiView,
        right: Seq<char>,
    ) -> AsciiView {
        if self is Same && other is Same {
            AsciiView::Same
        } else {
            AsciiView::Different {
                value: self.for_value(left) + other.for_value(right),
                is_overridden: self.is_overridden() || other.is_overridden(),
            }
        }
    }
}

/// The mathematical value of a [`Text`].
pub struct TextView {
    /// The text as written.
    pub value: Seq<char>,
    /// Its ASCII rendering.
    pub ascii: AsciiView,
    /// Its file safe rendering, where that differs from the ASCII one.
    pub file_safe: Option<Seq<char>>,
}

impl TextView {
    /// The empty text.
    pub open spec fn empty() -> TextView {
        TextView { value: Seq::empty(), ascii: AsciiView::Same, file_safe: None }
    }

    /// The text made from a value and an optional ASCII override. An override
    /// that is not ASCII is itself reduced to ASCII.
    pub open spec fn build(value: Seq<char>, ascii: Option<Seq<char>>) -> TextView {
        let ascii = match ascii {
            Some(ovr) => AsciiView::Different {
                value: match spec_calculate_ascii(ovr) {
                    Some(derived) => derived,
                    None => ovr,
                },
                is_overridden: true,
            },
            None => match spec_calculate_ascii(value) {
                Some(derived) => AsciiView::Different { value: derived, is_overridden: false },
                None => AsciiView::Same,
            },
        };
        TextView { value, ascii, file_safe: spec_make_file_safe(ascii.for_value(value)) }
    }

    /// The ASCII rendering.
    pub open spec fn ascii_text(self) -> Seq<char> {
        self.ascii.for_value(self.value)
    }

    /// The file safe rendering.
    pub open spec fn file_safe_text(self) -> Seq<char> {
        match self.file_safe {
            Some(s) => s,
            None => self.ascii_text(),
        }
    }

    /// The file safe rendering with a leading article moved behind a comma.
    pub open spec fn sortable_file_safe_text(self) -> Seq<char> {
        match spec_split_article(self.file_safe_text()) {
            Some((article, rest)) => rest + spec_comma_sep() + article,
            None => self.file_safe_text(),
        }
    }

    /// Whether the ASCII rendering was supplied by hand.
    pub open spec fn has_overridden_ascii(self) -> bool {
        self.ascii.is_overridden()
    }

    /// The three forms agree with each other: the ASCII rendering is ASCII
    /// and is `Same` exactly when the value is ASCII and nothing overrides it;
    /// the file safe rendering is kept apart exactly when the ASCII one is not
    /// file safe, and then it is ASCII and file safe.
    pub open spec fn wf(self) -> bool {
        &&& match self.ascii {
            AsciiView::Same => is_ascii_chars(self.value),
            AsciiView::Different { value, is_overridden } => {
                &&& is_ascii_chars(value)
                &&& !is_overridden ==> !is_ascii_chars(self.value)
            },
        }
        &&& match self.file_safe {
            None => spec_is_file_safe(self.ascii_text()),
            Some(s) => {
                &&& !spec_is_file_safe(self.ascii_text())
                &&& spec_is_file_safe(s)
                &&& is_ascii_chars(s)
            },
        }
    }

    /// Concatenation. The values and the ASCII renderings are joined; the
    /// file safe rendering is the two file safe renderings joined, kept apart
    /// unless both sides had none.
    pub open spec fn concat(self, other: TextView) -> TextView {
        TextView {
            value: self.value + other.value,
            ascii: self.ascii.concat(self.value, other.ascii, other.value),
            file_safe: if self.file_safe is None && other.file_safe is None {
                None
            } else {
                Some(self.file_safe_text() + other.file_safe_text())
            },
        }
    }
}

/// A text made by `build` is well formed.
pub proof fn lemma_build_wf(value: Seq<char>, ascii: Option<Seq<char>>)
    ensures
        TextView::build(value, ascii).wf(),
{
    let t = TextView::build(value, ascii);
    match ascii {
        Some(ovr) => {
            lemma_keep_ascii_is_ascii(nfkd(ovr));
        },
        None => {
            lemma_keep_ascii_is_ascii(nfkd(value));
        },
    }
    let asc = t.ascii_text();
    lemma_file_safe_prefix(asc, asc.len());
}

/// Joins two strings into a new one.
fn concat_strs(left: &str, right: &str) -> (r: String)
    ensures
        r@ == left@ + right@,
{
    let mut out = String::from_str(left);
    out.append(right);
    out
}

/// The view of an optional string slice.
pub open spec fn option_str_view(o: Option<&str>) -> Option<Seq<char>> {
    match o {
        Some(s) => Some(s@),
        None => None,
    }
}

/// The ASCII value of a piece of text.
#[derive(Debug, PartialEq, Eq, Hash)]
enum Ascii {
    /// ASCII is same as the regular value.
    Same,
    /// ASCII is not the same as the regular value.
    Different {
        /// The ASCII's value.
        value: String,
        /// If the ASCII is overridden or calculated.
        is_overridden: bool,
    },
}

impl View for Ascii {
    type V = AsciiView;

    closed spec fn view(&self) -> AsciiView {
        match self {
            Ascii::Same => AsciiView::Same,
            Ascii::Different { value, is_overridden } => AsciiView::Different {
                value: value@,
                is_overridden: *is_overridden,
            },
        }
    }
}

impl Clone for Ascii {
    fn clone(&self) -> (r: Ascii)
        ensures
            r@ == self@,
    {
        match self {
            Ascii::Same => Ascii::Same,
            Ascii::Different { value, is_overridden } => Ascii::Different {
                value: value.clone(),
                is_overridden: *is_overridden,
            },
        }
    }
}

impl Ascii {
    /// Returns an ASCII for the value that's overridden.
    fn overridden(value: String) -> (r: Ascii)
        ensures
            r@ == (AsciiView::Different { value: value@, is_overridden: true }),
    {
        Ascii::Different { value, is_overridden: true }
    }

    /// Returns an ASCII for the value that isn't overridden.
    fn calculated(value: String) -> (r: Ascii)
        ensures
            r@ == (AsciiView::Different { value: value@, is_overridden: false }),
    {
        Ascii::Different { value, is_overridden: false }
    }

    /// Return the inner ASCII string if it is different than the value.
    fn inner(&self) -> (r: Option<&str>)
        ensures
            match self@ {
                AsciiView::Same => r is None,
                AsciiView::Different { value, .. } => r is Some && r->0@ == value,
            },
    {
        match self {
            Ascii::Same => None,
            Ascii::Different { value, .. } => Some(value.as_str()),
        }
    }

    /// Return the ASCII string, or `value` if the ASCII is the same.
    fn for_value<'a>(&'a self, value: &'a str) -> (r: &'a str)
        ensures
            r@ == self@.for_value(value@),
    {
        match self.inner() {
            Some(ascii) => ascii,
            None => value,
        }
    }

    /// Returns if the ASCII value is manually overridden.
    fn is_overridden(&self) -> (r: bool)
        ensures
            r == self@.is_overridden(),
    {
        match self {
            Ascii::Same => false,
            Ascii::Different { is_overridden, .. } => *is_overridden,
        }
    }

    /// Returns if the ASCII value is the regular value.
    fn is_same(&self) -> (r: bool)
        ensures
            r == (self@ is Same),
    {
        match self {
            Ascii::Same => true,
            Ascii::Different { .. } => false,
        }
    }

    /// Whether two ASCII values are equal.
    fn equals(&self, other: &Ascii) -> (r: bool)
        ensures
            r == (self@ == other@),
    {
        match (self, other) {
            (Ascii::Same, Ascii::Same) => true,
            (
                Ascii::Different { value: a, is_overridden: x },
                Ascii::Different { value: b, is_overridden: y },
            ) => {
                *a == *b && *x == *y
            },
            _ => false,
        }
    }

    /// Adds an owned `Ascii` to an owned `Ascii`.
    fn add_owned_to_owned(self, left: &str, other: Ascii, right: &str) -> (r: Ascii)
        ensures
            r@ == self@.concat(left@, other@, right@),
    {
        if self.is_same() && other.is_same() {
            return Ascii::Same;
        }
        let is_overridden = self.is_overridden() || other.is_overridden();
        let value = match self {
            Ascii::Different { value: mut mine, .. } => {
                mine.append(other.for_value(right));
                mine
            },
            Ascii::Same => concat_strs(left, other.for_value(right)),
        };
        Ascii::Different { value, is_overridden }
    }

    /// Adds an owned `Ascii` to a borrowed `Ascii`.
    fn add_owned_to_ref(self, left: &str, other: &Ascii, right: &str) -> (r: Ascii)
        ensures
            r@ == self@.concat(left@, other@, right@),
    {
        if self.is_same() && other.is_same() {
            return Ascii::Same;
        }
        let is_overridden = self.is_overridden() || other.is_overridden();
        let value = match self {
            Ascii::Different { value: mut mine, .. } => {
                mine.append(other.for_value(right));
                mine
            },
            Ascii::Same => concat_strs(left, other.for_value(right)),
        };
        Ascii::Different { value, is_overridden }
    }

    /// Adds a borrowed `Ascii` to an owned `Ascii`.
    fn add_ref_to_owned(&self, left: &str, other: Ascii, right: &str) -> (r: Ascii)
        ensures
            r@ == self@.concat(left@, other@, right@),
    {
        if self.is_same() && other.is_same() {
            return Ascii::Same;
        }
        let is_overridden = self.is_overridden() || other.is_overridden();
        let value = concat_strs(self.for_value(left), other.for_value(right));
        Ascii::Different { value, is_overridden }
    }

    /// Adds a borrowed `Ascii` to a borrowed `Ascii`.
    fn add_ref_to_ref(&self, left: &str, other: &Ascii, right: &str) -> (r: Ascii)
        ensures
            r@ == self@.concat(left@, other@, right@),
    {
        if self.is_same() && other.is_same() {
            return Ascii::Same;
        }
        let is_overridden = self.is_overridden() || other.is_overridden();
        let value = concat_strs(self.for_value(left), other.for_value(right));
        Ascii::Different { value, is_overridden }
    }
}

/// A piece of text with different representations.
#[derive(Debug, PartialEq, Eq, Hash)]
pub struct Text {
    /// The normal content of the text.
    value: String,
    /// The ASCII representation of the text.
    ascii: Ascii,
    /// A version of the text safe to use in filenames, if it's different from the ASCII
    /// version.
    file_safe: Option<String>,
}

impl View for Text {
    type V = TextView;

    closed spec fn view(&self) -> TextView {
        TextView { value: self.value@, ascii: self.ascii@, file_safe: option_view(self.file_safe) }
    }
}

impl Clone for Text {
    fn clone(&self) -> (r: Text)
        ensures
            r@ == self@,
    {
        proof {
            use_type_invariant(self);
        }
        let file_safe = match &self.file_safe {
            Some(s) => Some(s.clone()),
            None => None,
        };
        Text { value: self.value.clone(), ascii: self.ascii.clone(), file_safe }
    }
}

impl Text {
    /// Every text is well formed.
    #[verifier::type_invariant]
    pub open spec fn inv(&self) -> bool {
        self@.wf()
    }

    /// Create a new `Text` from regular text and an optionally overridden ASCII value.
    pub fn new(value: &str, ascii: Option<&str>) -> (t: Text)
        ensures
            t@ == TextView::build(value@, option_str_view(ascii)),
    {
        let rendering = match ascii {
            Some(ovr) => {
                let value = match calculate_ascii(ovr) {
                    Some(derived) => derived,
                    None => String::from_str(ovr),
                };
                Ascii::overridden(value)
            },
            None => match calculate_ascii(value) {
                Some(derived) => Ascii::calculated(derived),
                None => Ascii::Same,
            },
        };
        let file_safe = make_file_safe(rendering.for_value(value));
        proof {
            lemma_build_wf(value@, option_str_view(ascii));
        }
        Text { value: String::from_str(value), ascii: rendering, file_safe }
    }

    /// Create a new `Text` from regular text without an override.
    pub fn from_string(value: &str) -> (t: Text)
        ensures
            t@ == TextView::build(value@, None),
    {
        Text::new(value, None)
    }

    /// Get the regular value of the text.
    pub fn value(&self) -> (r: &str)
        ensures
            r@ == self@.value,
    {
        self.value.as_str()
    }

    /// Get the ASCII representation of the text.
    pub fn ascii(&self) -> (r: &str)
        ensures
            r@ == self@.ascii_text(),
            is_ascii_chars(r@),
    {
        proof {
            use_type_invariant(self);
        }
        self.ascii.for_value(self.value.as_str())
    }

    /// Get the filename safe representation of the text.
    pub fn file_safe(&self) -> (r: &str)
        ensures
            r@ == self@.file_safe_text(),
            spec_is_file_safe(r@),
            is_ascii_chars(r@),
    {
        proof {
            use_type_invariant(self);
        }
        match &self.file_safe {
            Some(s) => s.as_str(),
            None => self.ascii(),
        }
    }

    /// Get a sortable filename safe representation of the text.
    pub fn sortable_file_safe(&self) -> (r: Cow<'_, str>)
        ensures
            r@ == self@.sortable_file_safe_text(),
    {
        let file_safe = self.file_safe();
        match split_article(file_safe) {
            Some((article, rest)) => {
                let mut out = String::from_str(rest);
                proof {
                    reveal_strlit(", ");
                    assert(", "@ =~= spec_comma_sep());
                }
                out.append(", ");
                out.append(article);
                Cow::Owned(out)
            },
            None => Cow::Borrowed(file_safe),
        }
    }

    /// Return if the text's ASCII representation has been manually overridden.
    pub fn has_overridden_ascii(&self) -> (r: bool)
        ensures
            r == self@.has_overridden_ascii(),
    {
        self.ascii.is_overridden()
    }
}

/// The empty text. Useful for string concatenation.
pub fn empty_text() -> (t: Text)
    ensures
        t@ == TextView::empty(),
{
    let value = String::new();
    proof {
        assert(spec_is_file_safe(value@));
        assert(is_ascii_chars(value@));
    }
    Text { value, ascii: Ascii::Same, file_safe: None }
}

/// The characters of the separator between the items of a list.
pub open spec fn spec_comma_sep() -> Seq<char> {
    seq![',', ' ']
}

/// A comma separator. Useful for joining a list of `Text`s.
pub fn comma_sep() -> (t: Text)
    ensures
        t@ == (TextView { value: spec_comma_sep(), ascii: AsciiView::Same, file_safe: None }),
{
    let value = String::from_str(", ");
    proof {
        reveal_strlit(", ");
        assert(value@ =~= spec_comma_sep());
        assert(spec_is_file_safe(value@));
        assert(is_ascii_chars(value@));
    }
    Text { value, ascii: Ascii::Same, file_safe: None }
}

impl Text {
    /// Whether two texts are equal in all three forms.
    pub fn equals(&self, other: &Text) -> (r: bool)
        ensures
            r == (self@ == other@),
    {
        let same_file_safe = match (&self.file_safe, &other.file_safe) {
            (None, None) => true,
            (Some(a), Some(b)) => *a == *b,
            _ => false,
        };
        self.value == other.value && self.ascii.equals(&other.ascii) && same_file_safe
    }

    /// Whether the text is the empty text.
    pub fn is_empty_text(&self) -> (r: bool)
        ensures
            r == (self@ == TextView::empty()),
    {
        let no_file_safe = match &self.file_safe {
            None => true,
            Some(_) => false,
        };
        proof {
            if self.value@.len() == 0 {
                assert(self.value@ =~= Seq::<char>::empty());
            }
        }
        self.value.as_str().unicode_len() == 0 && self.ascii.is_same() && no_file_safe
    }
}

impl core::ops::Add<Text> for Text {
    type Output = Text;

    fn add(self, other: Text) -> (r: Text)
        ensures
            r@ == self@.concat(other@),
    {
        proof {
            use_type_invariant(&self);
            use_type_invariant(&other);
            lemma_concat_wf(self@, other@);
            lemma_concat_empty(self@);
            lemma_concat_empty(other@);
        }
        if self.is_empty_text() {
            return other;
        } else if other.is_empty_text() {
            return self;
        }
        let Text { value: left, ascii: left_ascii, file_safe: left_safe } = self;
        let Text { value: right, ascii: right_ascii, file_safe: right_safe } = other;
        let file_safe = match (left_safe, right_safe) {
            (None, None) => None,
            (Some(mut a), None) => {
                a.append(right_ascii.for_value(right.as_str()));
                Some(a)
            },
            (None, Some(b)) => Some(concat_strs(left_ascii.for_value(left.as_str()), b.as_str())),
            (Some(mut a), Some(b)) => {
                a.append(b.as_str());
                Some(a)
            },
        };
        let ascii = left_ascii.add_owned_to_owned(left.as_str(), right_ascii, right.as_str());
        let mut value = left;
        value.append(right.as_str());
        Text { value, ascii, file_safe }
    }
}

// What `+` gives is stated on each `add` itself, over the views of the
// operands. A specification cannot write down a `Text`, so the operators'
// own specification functions are left open.
impl vstd::std_specs::ops::AddSpecImpl<Text> for Text {
    open spec fn obeys_add_spec() -> bool {
        false
    }

    open spec fn add_req(self, rhs: Text) -> bool {
        true
    }

    open spec fn add_spec(self, rhs: Text) -> Text {
        self
    }
}

impl core::ops::Add<&Text> for Text {
    type Output = Text;

    fn add(self, other: &Text) -> (r: Text)
        ensures
            r@ == self@.concat(other@),
    {
        proof {
            use_type_invariant(&self);
            use_type_invariant(other);
            lemma_concat_wf(self@, other@);
            lemma_concat_empty(self@);
        }
        if other.is_empty_text() {
            return self;
        }
        let Text { value: left, ascii: left_ascii, file_safe: left_safe } = self;
        let file_safe = match left_safe {
            Some(mut a) => {
                a.append(other.file_safe());
                Some(a)
            },
            None => match &other.file_safe {
                Some(b) => Some(concat_strs(left_ascii.for_value(left.as_str()), b.as_str())),
                None => None,
            },
        };
        let ascii = left_ascii.add_owned_to_ref(left.as_str(), &other.ascii, other.value());
        let mut value = left;
        value.append(other.value());
        Text { value, ascii, file_safe }
    }
}

impl vstd::std_specs::ops::AddSpecImpl<&Text> for Text {
    open spec fn obeys_add_spec() -> bool {
        false
    }

    open spec fn add_req(self, rhs: &Text) -> bool {
        true
    }

    open spec fn add_spec(self, rhs: &Text) -> Text {
        self
    }
}

impl core::ops::Add<Text> for &Text {
    type Output = Text;

    fn add(self, other: Text) -> (r: Text)
        ensures
            r@ == self@.concat(other@),
    {
        proof {
            use_type_invariant(self);
            use_type_invariant(&other);
            lemma_concat_wf(self@, other@);
            lemma_concat_empty(other@);
        }
        if self.is_empty_text() {
            return other;
        }
        let Text { value: right, ascii: right_ascii, file_safe: right_safe } = other;
        let file_safe = match right_safe {
            Some(b) => Some(concat_strs(self.file_safe(), b.as_str())),
            None => match &self.file_safe {
                Some(a) => Some(concat_strs(a.as_str(), right_ascii.for_value(right.as_str()))),
                None => None,
            },
        };
        let ascii = self.ascii.add_ref_to_owned(self.value(), right_ascii, right.as_str());
        let value = concat_strs(self.value(), right.as_str());
        Text { value, ascii, file_safe }
    }
}

impl vstd::std_specs::ops::AddSpecImpl<Text> for &Text {
    open spec fn obeys_add_spec() -> bool {
        false
    }

    open spec fn add_req(self, rhs: Text) -> bool {
        true
    }

    open spec fn add_spec(self, rhs: Text) -> Text {
        rhs
    }
}

impl<'a, 'b> core::ops::Add<&'a Text> for &'b Text {
    type Output = Text;

    fn add(self, other: &'a Text) -> (r: Text)
        ensures
            r@ == self@.concat(other@),
    {
        proof {
            use_type_invariant(self);
            use_type_invariant(other);
            lemma_concat_wf(self@, other@);
        }
        let neither = match (&self.file_safe, &other.file_safe) {
            (None, None) => true,
            _ => false,
        };
        let file_safe = if neither {
            None
        } else {
            Some(concat_strs(self.file_safe(), other.file_safe()))
        };
        let ascii = self.ascii.add_ref_to_ref(self.value(), &other.ascii, other.value());
        let value = concat_strs(self.value(), other.value());
        Text { value, ascii, file_safe }
    }
}

impl<'a, 'b> vstd::std_specs::ops::AddSpecImpl<&'a Text> for &'b Text {
    open spec fn obeys_add_spec() -> bool {
        false
    }

    open spec fn add_req(self, rhs: &'a Text) -> bool {
        true
    }

    open spec fn add_spec(self, rhs: &'a Text) -> Text {
        *self
    }
}

impl core::ops::AddAssign<Text> for Text {
    fn add_assign(&mut self, other: Text)
        ensures
            final(self)@ == old(self)@.concat(other@),
    {
        let sum = &*self + other;
        *self = sum;
    }
}

impl core::ops::AddAssign<&Text> for Text {
    fn add_assign(&mut self, other: &Text)
        ensures
            final(self)@ == old(self)@.concat(other@),
    {
        let sum = &*self + other;
        *self = sum;
    }
}

impl<'a> From<&'a str> for Text {
    fn from(value: &'a str) -> (t: Text)
        ensures
            t@ == TextView::build(value@, None),
    {
        Text::new(value, None)
    }
}

// What `from` gives is stated on each `from` itself; as with `+`, its own
// specification function is left open.
impl<'a> vstd::std_specs::convert::FromSpecImpl<&'a str> for Text {
    open spec fn obeys_from_spec() -> bool {
        false
    }

    open spec fn from_spec(v: &'a str) -> Text {
        arbitrary()
    }
}

impl From<String> for Text {
    fn from(value: String) -> (t: Text)
        ensures
            t@ == TextView::build(value@, None),
    {
        Text::new(value.as_str(), None)
    }
}

impl vstd::std_specs::convert::FromSpecImpl<String> for Text {
    open spec fn obeys_from_spec() -> bool {
        false
    }

    open spec fn from_spec(v: String) -> Text {
        arbitrary()
    }
}

impl<'a, 'b> From<(&'a str, &'b str)> for Text {
    fn from(pair: (&'a str, &'b str)) -> (t: Text)
        ensures
            t@ == TextView::build(pair.0@, Some(pair.1@)),
    {
        Text::new(pair.0, Some(pair.1))
    }
}

impl<'a, 'b> vstd::std_specs::convert::FromSpecImpl<(&'a str, &'b str)> for Text {
    open spec fn obeys_from_spec() -> bool {
        false
    }

    open spec fn from_spec(v: (&'a str, &'b str)) -> Text {
        arbitrary()
    }
}

impl<'a> From<(String, &'a str)> for Text {
    fn from(pair: (String, &'a str)) -> (t: Text)
        ensures
            t@ == TextView::build(pair.0@, Some(pair.1@)),
    {
        Text::new(pair.0.as_str(), Some(pair.1))
    }
}

impl<'a> vstd::std_specs::convert::FromSpecImpl<(String, &'a str)> for Text {
    open spec fn obeys_from_spec() -> bool {
        false
    }

    open spec fn from_spec(v: (String, &'a str)) -> Text {
        arbitrary()
    }
}

impl<'a> From<(&'a str, String)> for Text {
    fn from(pair: (&'a str, String)) -> (t: Text)
        ensures
            t@ == TextView::build(pair.0@, Some(pair.1@)),
    {
        Text::new(pair.0, Some(pair.1.as_str()))
    }
}

impl<'a> vstd::std_specs::convert::FromSpecImpl<(&'a str, String)> for Text {
    open spec fn obeys_from_spec() -> bool {
        false
    }

    open spec fn from_spec(v: (&'a str, String)) -> Text {
        arbitrary()
    }
}

impl From<(String, String)> for Text {
    fn from(pair: (String, String)) -> (t: Text)
        ensures
            t@ == TextView::build(pair.0@, Some(pair.1@)),
    {
        Text::new(pair.0.as_str(), Some(pair.1.as_str()))
    }
}

impl vstd::std_specs::convert::FromSpecImpl<(String, String)> for Text {
    open spec fn obeys_from_spec() -> bool {
        false
    }

    open spec fn from_spec(v: (String, String)) -> Text {
        arbitrary()
    }
}

/// Concatenating well formed texts gives a well formed text.
pub proof fn lemma_concat_wf(a: TextView, b: TextView)
    requires
        a.wf(),
        b.wf(),
    ensures
        a.concat(b).wf(),
{
    let c = a.concat(b);
    assert(is_ascii_chars(a.ascii_text()));
    assert(is_ascii_chars(b.ascii_text()));
    vstd::utf8::is_ascii_chars_concat(a.value + b.value, a.value, b.value);
    vstd::utf8::is_ascii_chars_concat(
        a.ascii_text() + b.ascii_text(),
        a.ascii_text(),
        b.ascii_text(),
    );
    vstd::utf8::is_ascii_chars_concat(
        a.file_safe_text() + b.file_safe_text(),
        a.file_safe_text(),
        b.file_safe_text(),
    );
    lemma_file_safe_concat(a.ascii_text(), b.ascii_text());
    lemma_file_safe_concat(a.file_safe_text(), b.file_safe_text());
}

/// A concatenation is file safe exactly when both parts are.
pub proof fn lemma_file_safe_concat(a: Seq<char>, b: Seq<char>)
    ensures
        spec_is_file_safe(a + b) == (spec_is_file_safe(a) && spec_is_file_safe(b)),
{
    if spec_is_file_safe(a + b) {
        assert forall|i: int| 0 <= i < a.len() implies !crate::utils::spec_is_file_unsafe_char(
            #[trigger] a[i],
        ) by {
            assert((a + b)[i] == a[i]);
        }
        assert forall|i: int| 0 <= i < b.len() implies !crate::utils::spec_is_file_unsafe_char(
            #[trigger] b[i],
        ) by {
            assert((a + b)[i + a.len()] == b[i]);
        }
    }
}

/// The empty text is a left and right identity of concatenation.
pub proof fn lemma_concat_empty(a: TextView)
    ensures
        TextView::empty().concat(a) == a,
        a.concat(TextView::empty()) == a,
{
    let e = TextView::empty();
    assert(e.value + a.value =~= a.value);
    assert(a.value + e.value =~= a.value);
    assert(e.ascii_text() + a.ascii_text() =~= a.ascii_text());
    assert(a.ascii_text() + e.ascii_text() =~= a.ascii_text());
    assert(e.file_safe_text() + a.file_safe_text() =~= a.file_safe_text());
    assert(a.file_safe_text() + e.file_safe_text() =~= a.file_safe_text());
}

/// Concatenation does not depend on which operand is passed by value and
/// which by reference: whatever the four operators return for the same two
/// texts, the results are equal.
pub proof fn lemma_concat_ownership_invariant(
    a: Text,
    b: Text,
    owned_owned: Text,
    owned_ref: Text,
    ref_owned: Text,
    ref_ref: Text,
)
    requires
        call_ensures(<Text as core::ops::Add<Text>>::add, (a, b), owned_owned),
        call_ensures(<Text as core::ops::Add<&Text>>::add, (a, &b), owned_ref),
        call_ensures(<&Text as core::ops::Add<Text>>::add, (&a, b), ref_owned),
        call_ensures(<&Text as core::ops::Add<&Text>>::add, (&a, &b), ref_ref),
    ensures
        owned_owned@ == a@.concat(b@),
        owned_ref@ == owned_owned@,
        ref_owned@ == owned_owned@,
        ref_ref@ == owned_owned@,
{
}

/// An overridden ASCII rendering absorbs: a concatenation with an overridden
/// operand on either side is overridden.
pub proof fn lemma_override_absorbs(a: TextView, b: TextView)
    requires
        a.has_overridden_ascii(),
    ensures
        a.concat(b).has_overridden_ascii(),
        b.concat(a).has_overridden_ascii(),
{
}

/// Concatenation is associative.
pub proof fn lemma_concat_associative(a: TextView, b: TextView, c: TextView)
    ensures
        a.concat(b).concat(c) == a.concat(b.concat(c)),
{
    assert((a.value + b.value) + c.value =~= a.value + (b.value + c.value));
    assert((a.ascii_text() + b.ascii_text()) + c.ascii_text() =~= a.ascii_text() + (b.ascii_text()
        + c.ascii_text()));
    assert((a.file_safe_text() + b.file_safe_text()) + c.file_safe_text() =~= a.file_safe_text() + (
    b.file_safe_text() + c.file_safe_text()));
}

/// An error when reading a text from a definition.
#[derive(Debug, PartialEq, Eq)]
pub enum FromYamlError {
    /// The hash has no `text` key.
    MissingText,
    /// The value of `text` is not a string.
    InvalidText(Yaml),
    /// The value of `ascii` is not a string.
    InvalidAscii(Yaml),
    /// The definition is neither a string nor a hash.
    NotStringOrHash(Yaml),
}

/// The view of a text that may have failed to be read.
pub open spec fn text_result_view<E>(r: Result<Text, E>) -> Result<TextView, E> {
    match r {
        Ok(t) => Ok(t@),
        Err(e) => Err(e),
    }
}

/// The text that a definition stands for. A string is a text without an
/// override; a hash gives the text under `text` and may give an override
/// under `ascii`.
pub open spec fn spec_text_from_yaml(yaml: Yaml) -> Result<TextView, FromYamlError> {
    match yaml {
        Yaml::String(s) => Ok(TextView::build(s@, None)),
        Yaml::Hash(h) => match spec_get(h@, "text"@) {
            None => Err(FromYamlError::MissingText),
            Some(Yaml::String(t)) => match spec_get(h@, "ascii"@) {
                None => Ok(TextView::build(t@, None)),
                Some(Yaml::String(a)) => Ok(TextView::build(t@, Some(a@))),
                Some(other) => Err(FromYamlError::InvalidAscii(other)),
            },
            Some(other) => Err(FromYamlError::InvalidText(other)),
        },
        other => Err(FromYamlError::NotStringOrHash(other)),
    }
}

impl Text {
    /// Reads a text from a definition: a bare string, or a hash with the keys
    /// `text` and, optionally, `ascii`.
    pub fn from_yaml(yaml: Yaml) -> (r: Result<Text, FromYamlError>)
        ensures
            text_result_view(r) == spec_text_from_yaml(yaml),
    {
        match yaml {
            Yaml::String(s) => Ok(Text::new(s.as_str(), None)),
            Yaml::Hash(mut hash) => {
                proof {
                    reveal_strlit("text");
                    reveal_strlit("ascii");
                    assert("text"@.len() != "ascii"@.len());
                }
                let text = match take_key(&mut hash, "text") {
                    None => {
                        return Err(FromYamlError::MissingText);
                    },
                    Some(Yaml::String(t)) => t,
                    Some(other) => {
                        return Err(FromYamlError::InvalidText(other));
                    },
                };
                match take_key(&mut hash, "ascii") {
                    None => Ok(Text::new(text.as_str(), None)),
                    Some(Yaml::String(a)) => Ok(Text::new(text.as_str(), Some(a.as_str()))),
                    Some(other) => Err(FromYamlError::InvalidAscii(other)),
                }
            },
            other => Err(FromYamlError::NotStringOrHash(other)),
        }
    }
}

/// The definition of a text: the value alone, or, where the ASCII rendering
/// was supplied by hand, a hash of the value under `text` and the rendering
/// under `ascii`.
pub open spec fn spec_text_yaml(text: TextView) -> YamlView {
    if text.has_overridden_ascii() {
        YamlView::Hash(
            seq![
                (YamlView::String("text"@), YamlView::String(text.value)),
                (YamlView::String("ascii"@), YamlView::String(text.ascii_text())),
            ],
        )
    } else {
        YamlView::String(text.value)
    }
}

/// The definitions of a list of texts, as an array.
pub open spec fn spec_texts_yaml(texts: Seq<TextView>) -> YamlView {
    YamlView::Array(Seq::new(texts.len(), |i: int| spec_text_yaml(texts[i])))
}

/// The entry of a hash for a list of texts: one text goes under the
/// singular key as it is, any other number under the plural key as an array.
pub open spec fn spec_one_or_more(texts: Seq<TextView>, singular: Seq<char>, plural: Seq<char>) -> (
    YamlView,
    YamlView,
) {
    if texts.len() == 1 {
        (YamlView::String(singular), spec_text_yaml(texts[0]))
    } else {
        (YamlView::String(plural), spec_texts_yaml(texts))
    }
}

impl Text {
    /// Writes the text as a definition.
    pub fn to_yaml(&self) -> (r: Yaml)
        ensures
            represents(r, spec_text_yaml(self@)),
    {
        if self.has_overridden_ascii() {
            let mut entries: Vec<(Yaml, Yaml)> = Vec::new();
            let ghost mut views: Seq<(YamlView, YamlView)> = Seq::empty();
            push_entry(
                &mut entries,
                "text",
                string_yaml(self.value()),
                Ghost(views),
                Ghost(YamlView::String(self@.value)),
            );
            proof {
                views = views.push((YamlView::String("text"@), YamlView::String(self@.value)));
            }
            push_entry(
                &mut entries,
                "ascii",
                string_yaml(self.ascii()),
                Ghost(views),
                Ghost(YamlView::String(self@.ascii_text())),
            );
            proof {
                views = views.push(
                    (YamlView::String("ascii"@), YamlView::String(self@.ascii_text())),
                );
                assert(YamlView::Hash(views) == spec_text_yaml(self@)) by {
                    assert(views =~= seq![
                        (YamlView::String("text"@), YamlView::String(self@.value)),
                        (YamlView::String("ascii"@), YamlView::String(self@.ascii_text())),
                    ]);
                }
            }
            Yaml::Hash(entries)
        } else {
            string_yaml(self.value())
        }
    }
}

/// Writes a list of texts as an array of definitions.
pub fn texts_to_yaml(texts: &[Text]) -> (r: Yaml)
    ensures
        represents(r, spec_texts_yaml(crate::utils::text_views(texts@))),
{
    let mut items: Vec<Yaml> = Vec::new();
    let ghost all = crate::utils::text_views(texts@);
    let ghost mut views: Seq<YamlView> = Seq::empty();
    let mut i: usize = 0;
    while i < texts.len()
        invariant
            i <= texts.len(),
            all == crate::utils::text_views(texts@),
            views == Seq::new(i as nat, |k: int| spec_text_yaml(all[k])),
            represents(Yaml::Array(items), YamlView::Array(views)),
        decreases texts.len() - i,
    {
        let item = texts[i].to_yaml();
        push_item(&mut items, item, Ghost(views), Ghost(spec_text_yaml(all[i as int])));
        proof {
            views = views.push(spec_text_yaml(all[i as int]));
            assert(views =~= Seq::new((i + 1) as nat, |k: int| spec_text_yaml(all[k])));
        }
        i = i + 1;
    }
    Yaml::Array(items)
}

/// Adds to a hash the entry for a list of texts.
pub(crate) fn push_one_or_more(
    entries: &mut Vec<(Yaml, Yaml)>,
    texts: &[Text],
    singular: &str,
    plural: &str,
    Ghost(views): Ghost<Seq<(YamlView, YamlView)>>,
)
    requires
        represents(Yaml::Hash(*old(entries)), YamlView::Hash(views)),
    ensures
        represents(
            Yaml::Hash(*final(entries)),
            YamlView::Hash(
                views.push(
                    spec_one_or_more(crate::utils::text_views(texts@), singular@, plural@),
                ),
            ),
        ),
{
    if texts.len() == 1 {
        let item = texts[0].to_yaml();
        push_entry(entries, singular, item, Ghost(views), Ghost(spec_text_yaml(texts@[0]@)));
    } else {
        let items = texts_to_yaml(texts);
        push_entry(
            entries,
            plural,
            items,
            Ghost(views),
            Ghost(spec_texts_yaml(crate::utils::text_views(texts@))),
        );
    }
}

impl FromYamlError {
    /// What is shown for the error.
    pub open spec fn spec_message(self) -> Seq<char> {
        match self {
            FromYamlError::MissingText => "missing \"text\""@,
            FromYamlError::InvalidText(_) => "text must be a string"@,
            FromYamlError::InvalidAscii(_) => "ascii must be a string"@,
            FromYamlError::NotStringOrHash(_) => "text must be a string or hash"@,
        }
    }

    /// What is shown for the error.
    pub fn message(&self) -> (r: String)
        ensures
            r@ == self.spec_message(),
    {
        match self {
            FromYamlError::MissingText => String::from_str("missing \"text\""),
            FromYamlError::InvalidText(_) => String::from_str("text must be a string"),
            FromYamlError::InvalidAscii(_) => String::from_str("ascii must be a string"),
            FromYamlError::NotStringOrHash(_) => String::from_str("text must be a string or hash"),
        }
    }
}

/// A message that names what is wrong and then says why.
pub fn with_detail(what: &str, detail: &str) -> (r: String)
    ensures
        r@ == what@ + ": "@ + detail@,
{
    let mut message = String::from_str(what);
    message.append(": ");
    message.append(detail);
    message
}

} // verus!
