//! Case-insensitive names by which entities refer to each other.

use vstd::prelude::*;
use vstd::std_specs::cmp::PartialEqSpecImpl;
use vstd::std_specs::convert::FromSpecImpl;
use vstd::string::{StrSliceExecFns, StringExecFns};

verus! {

/// The character that separates the segments of a dotted name.
pub open spec fn separator() -> char {
    '.'
}

/// A character with the ASCII capitals mapped to their small letters.
pub open spec fn fold_char(c: char) -> char {
    if 'A' <= c && c <= 'Z' {
        ((c as u8) + 32u8) as char
    } else {
        c
    }
}

/// A text with every character folded: the form by which names are compared.
pub open spec fn fold(text: Seq<char>) -> Seq<char> {
    Seq::new(text.len(), |i: int| fold_char(text[i]))
}

/// The part of `text` before its first separator, or all of it.
pub open spec fn first_segment(text: Seq<char>) -> Seq<char>
    decreases text.len(),
{
    if text.len() == 0 {
        text
    } else if text[0] == separator() {
        Seq::empty()
    } else {
        seq![text[0]] + first_segment(text.drop_first())
    }
}

/// The segments of `text` between separators, in order. A text without a
/// separator is one segment; the empty text is one empty segment.
pub open spec fn segments(text: Seq<char>) -> Seq<Seq<char>>
    decreases text.len(),
{
    let head = first_segment(text);
    if head.len() >= text.len() {
        seq![head]
    } else {
        seq![head] + segments(text.subrange((head.len() + 1) as int, text.len() as int))
    }
}

/// Whether `needle` occurs in `hay` starting at index `at`.
pub open spec fn occurs_at(hay: Seq<char>, needle: Seq<char>, at: int) -> bool {
    0 <= at && at + needle.len() <= hay.len() && hay.subrange(at, at + needle.len()) == needle
}

/// Whether `needle` occurs anywhere in `hay`.
pub open spec fn occurs(hay: Seq<char>, needle: Seq<char>) -> bool {
    exists|at: int| occurs_at(hay, needle, at)
}

/// The text of the wildcard: a name that stands for every name.
pub open spec fn wildcard() -> Seq<char> {
    "*"@
}

/// Where no separator stands before index `k`, and one stands at `k` or
/// the text ends there, the first segment is the text before `k`.
pub proof fn lemma_first_segment(text: Seq<char>, k: int)
    requires
        0 <= k <= text.len(),
        forall|j: int| 0 <= j < k ==> text[j] != separator(),
        k == text.len() || text[k] == separator(),
    ensures
        first_segment(text) == text.subrange(0, k),
    decreases k,
{
    if text.len() > 0 && k > 0 {
        lemma_first_segment(text.drop_first(), k - 1);
    }
}

/// Folding a text and taking its first segment can be done in either
/// order: the separator is no letter.
pub proof fn lemma_first_segment_fold(text: Seq<char>)
    ensures
        first_segment(fold(text)) == fold(first_segment(text)),
    decreases text.len(),
{
    if text.len() > 0 && text[0] != separator() {
        lemma_first_segment_fold(text.drop_first());
        assert(fold(text).drop_first() =~= fold(text.drop_first()));
    }
}

/// The first segment is no longer than the text.
pub proof fn lemma_first_segment_len(text: Seq<char>)
    ensures
        first_segment(text).len() <= text.len(),
    decreases text.len(),
{
    if text.len() > 0 && text[0] != separator() {
        lemma_first_segment_len(text.drop_first());
    }
}

/// Folding a text folds each of its segments and keeps their number.
pub proof fn lemma_segments_fold(text: Seq<char>)
    ensures
        segments(fold(text)).len() == segments(text).len(),
        forall|i: int|
            0 <= i < segments(text).len() ==> #[trigger] segments(fold(text))[i] == fold(
                segments(text)[i],
            ),
    decreases text.len(),
{
    let head = first_segment(text);
    lemma_first_segment_fold(text);
    lemma_first_segment_len(text);
    if head.len() < text.len() {
        let rest = text.subrange((head.len() + 1) as int, text.len() as int);
        lemma_segments_fold(rest);
        assert(fold(text).subrange((head.len() + 1) as int, text.len() as int) =~= fold(rest));
    }
}

/// A name used to match entities. Two names that differ only in the case of
/// ASCII letters are the same name.
#[derive(Debug)]
pub struct NameKey {
    text: String,
    folded: String,
}

impl View for NameKey {
    type V = Seq<char>;

    closed spec fn view(&self) -> Seq<char> {
        self.text@
    }
}

impl DeepView for NameKey {
    type V = Seq<char>;

    open spec fn deep_view(&self) -> Seq<char> {
        self@
    }
}

/// `str::to_ascii_lowercase` of std: a copy of the text in which the ASCII
/// capitals are replaced by their small letters and nothing else changes.
#[verifier::external_body]
pub(crate) fn ascii_lowercase(text: &str) -> (folded: String)
    ensures
        folded@ == fold(text@),
{
    text.to_ascii_lowercase()
}

impl NameKey {
    #[verifier::type_invariant]
    spec fn consistent(&self) -> bool {
        self.folded@ == fold(self.text@)
    }

    /// The form of this name by which it is compared and indexed.
    pub open spec fn norm(&self) -> Seq<char> {
        fold(self@)
    }

    /// Creates a name from `key`, kept as written.
    pub fn new(key: &str) -> (name: NameKey)
        ensures
            name@ == key@,
    {
        let folded = ascii_lowercase(key);
        let text = key.to_owned();
        NameKey { text, folded }
    }

    /// The name as it was written.
    pub fn get(&self) -> (text: &str)
        ensures
            text@ == self@,
    {
        self.text.as_str()
    }

    /// The name as it was written.
    pub fn get_string(&self) -> (text: &String)
        ensures
            text@ == self@,
    {
        &self.text
    }

    /// The folded form of the name: equal names have equal folded forms, so
    /// this is what a table of names is indexed by.
    pub fn folded(&self) -> (text: &str)
        ensures
            text@ == self.norm(),
    {
        proof {
            use_type_invariant(self);
        }
        self.folded.as_str()
    }
}

/// `str::contains` of std, for a text as the pattern: whether `needle`
/// occurs in `hay`.
#[verifier::external_body]
fn str_contains(hay: &str, needle: &str) -> (found: bool)
    ensures
        found == occurs(hay@, needle@),
{
    hay.contains(needle)
}

impl NameKey {
    /// Tests whether this name is the wildcard, which stands for every
    /// name of its level.
    pub fn is_wildcard(&self) -> (yes: bool)
        ensures
            yes == (self@ == wildcard()),
    {
        self.text == String::from_str("*")
    }

    /// Tests whether `other` occurs in any part of this name, whatever the
    /// case of the letters of either.
    pub fn partial_match(&self, other: &str) -> (found: bool)
        ensures
            found == occurs(self.norm(), fold(other@)),
    {
        let needle = ascii_lowercase(other);
        str_contains(self.folded(), needle.as_str())
    }

    /// Returns the segments of the name: the texts between its separators.
    pub fn split(&self) -> (parts: Vec<String>)
        ensures
            parts.deep_view() == segments(self@),
    {
        let text = self.text.as_str();
        let n = text.unicode_len();
        let mut parts: Vec<String> = Vec::new();
        let mut start: usize = 0;
        let mut i: usize = 0;
        assert(text@.subrange(0, n as int) =~= text@);
        while i < n
            invariant
                start <= i <= n,
                n == text@.len(),
                text@ == self@,
                forall|j: int| start <= j < i ==> text@[j] != separator(),
                segments(text@) == parts.deep_view() + segments(
                    text@.subrange(start as int, n as int),
                ),
            decreases n - i,
        {
            if text.get_char(i) == '.' {
                let ghost rest = text@.subrange(start as int, n as int);
                let part = text.substring_char(start, i).to_owned();
                proof {
                    lemma_first_segment(rest, i - start);
                    assert(rest.subrange(0, i - start) =~= text@.subrange(start as int, i as int));
                    assert(rest.subrange((i - start + 1) as int, rest.len() as int)
                        =~= text@.subrange((i + 1) as int, n as int));
                }
                parts.push(part);
                start = i + 1;
            }
            i = i + 1;
        }
        let ghost rest = text@.subrange(start as int, n as int);
        let part = text.substring_char(start, n).to_owned();
        proof {
            lemma_first_segment(rest, n - start);
            assert(rest.subrange(0, n - start) =~= rest);
        }
        parts.push(part);
        parts
    }
}

impl Clone for NameKey {
    fn clone(&self) -> (copy: NameKey)
        ensures
            copy@ == self@,
    {
        proof {
            use_type_invariant(self);
        }
        NameKey { text: self.text.clone(), folded: self.folded.clone() }
    }
}

impl PartialEq for NameKey {
    fn eq(&self, other: &NameKey) -> (same: bool) {
        proof {
            use_type_invariant(self);
            use_type_invariant(other);
        }
        self.folded == other.folded
    }
}

impl Eq for NameKey {}

impl PartialEqSpecImpl for NameKey {
    open spec fn obeys_eq_spec() -> bool {
        true
    }

    open spec fn eq_spec(&self, other: &NameKey) -> bool {
        self.norm() == other.norm()
    }
}

/// `Hash::hash` of std, for a text: feeds the text into the hasher. Nothing
/// is stated of the hasher after it.
#[verifier::external_body]
fn hash_text<H: core::hash::Hasher>(text: &str, state: &mut H) {
    core::hash::Hash::hash(text, state)
}

impl core::hash::Hash for NameKey {
    /// Feeds the folded name into the hasher, so that names that are equal
    /// are hashed alike.
    fn hash<H: core::hash::Hasher>(&self, state: &mut H) {
        hash_text(self.folded.as_str(), state)
    }
}

impl PartialEq<str> for NameKey {
    fn eq(&self, other: &str) -> (same: bool) {
        proof {
            use_type_invariant(self);
        }
        let folded = ascii_lowercase(other);
        self.folded == folded
    }
}

impl PartialEqSpecImpl<str> for NameKey {
    open spec fn obeys_eq_spec() -> bool {
        true
    }

    open spec fn eq_spec(&self, other: &str) -> bool {
        self.norm() == fold(other@)
    }
}

impl From<String> for NameKey {
    fn from(string: String) -> (key: NameKey)
        ensures
            key@ == string@,
    {
        NameKey::new(string.as_str())
    }
}

impl FromSpecImpl<String> for NameKey {
    open spec fn obeys_from_spec() -> bool {
        false
    }

    open spec fn from_spec(string: String) -> NameKey {
        arbitrary()
    }
}

} // verus!
