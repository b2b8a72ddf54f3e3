use vstd::prelude::*;

use crate::errors::{CrushError, CrushResult};

verus! {

#[verifier::external_type_specification]
#[verifier::external_body]
pub struct ExRegex(regex::Regex);

/// Whether the regex crate accepts `pattern` (valid syntax, within the
/// default size limit).
pub uninterp spec fn pattern_compiles(pattern: Seq<char>) -> bool;

/// The regex crate's message on why it does not accept `pattern`.
pub uninterp spec fn rejection_message(pattern: Seq<char>) -> Seq<char>;

/// Whether the compiled `pattern` matches anywhere in `text`.
pub uninterp spec fn pattern_finds(pattern: Seq<char>, text: Seq<char>) -> bool;

/// `text` with the first match of `pattern` replaced, `$` references in
/// `replacement` expanded.
pub uninterp spec fn replaced_first(pattern: Seq<char>, text: Seq<char>, replacement: Seq<char>) -> Seq<char>;

/// `text` with every non-overlapping match of `pattern` replaced, `$`
/// references in `replacement` expanded.
pub uninterp spec fn replaced_every(pattern: Seq<char>, text: Seq<char>, replacement: Seq<char>) -> Seq<char>;

/// A regular expression value: its source text and its compiled form, which
/// only `Re::new` builds, from that text.
#[derive(Debug)]
pub struct Re {
    pattern: String,
    compiled: regex::Regex,
}

impl View for Re {
    type V = Seq<char>;

    closed spec fn view(&self) -> Seq<char> {
        self.pattern@
    }
}

/// Relies on regex::Regex::new: it succeeds exactly on the patterns the
/// crate accepts; otherwise its error, as text (regex::Error's Display),
/// says why.
#[verifier::external_body]
fn compile(pattern: &str) -> (r: Result<regex::Regex, String>)
    ensures
        r is Ok <==> pattern_compiles(pattern@),
        r is Err ==> r->Err_0@ == rejection_message(pattern@),
{
    regex::Regex::new(pattern).map_err(|e| e.to_string())
}

/// Relies on regex::Regex::is_match: whether there is a match anywhere.
#[verifier::external_body]
fn find_in(re: &Re, text: &str) -> (r: bool)
    ensures
        r == pattern_finds(re@, text@),
{
    re.compiled.is_match(text)
}

/// Relies on regex::Regex::replace: the first match replaced; without a
/// match the text comes back unchanged.
#[verifier::external_body]
fn replace_first_in(re: &Re, text: &str, replacement: &str) -> (r: String)
    ensures
        r@ == replaced_first(re@, text@, replacement@),
        !pattern_finds(re@, text@) ==> r@ == text@,
{
    re.compiled.replace(text, replacement).into_owned()
}

/// Relies on regex::Regex::replace_all: every non-overlapping match
/// replaced; without a match the text comes back unchanged.
#[verifier::external_body]
fn replace_every_in(re: &Re, text: &str, replacement: &str) -> (r: String)
    ensures
        r@ == replaced_every(re@, text@, replacement@),
        !pattern_finds(re@, text@) ==> r@ == text@,
{
    re.compiled.replace_all(text, replacement).into_owned()
}

impl Re {
    /// Compiles `pattern`; fails, with the crate's reason, on a pattern it
    /// does not accept.
    pub fn new(pattern: String) -> (r: CrushResult<Re>)
        ensures
            r is Ok <==> pattern_compiles(pattern@),
            r is Ok ==> r->Ok_0@ == pattern@,
            r is Err ==> r->Err_0 is InvalidPattern && r->Err_0->InvalidPattern_0@ == rejection_message(
                pattern@,
            ),
    {
        match compile(pattern.as_str()) {
            Ok(compiled) => Ok(Re { pattern, compiled }),
            Err(message) => Err(CrushError::InvalidPattern(message)),
        }
    }

    /// The source text of the expression.
    pub fn pattern(&self) -> (r: &String)
        ensures
            r@ == self@,
    {
        &self.pattern
    }

    /// True if the expression matches anywhere in `needle`.
    pub fn matches(&self, needle: &String) -> (r: bool)
        ensures
            r == pattern_finds(self@, needle@),
    {
        find_in(self, needle.as_str())
    }

    /// True if the expression matches nowhere in `needle`.
    pub fn not_match(&self, needle: &String) -> (r: bool)
        ensures
            r == !pattern_finds(self@, needle@),
    {
        !find_in(self, needle.as_str())
    }

    /// `text` with its first match replaced by `replacement`.
    pub fn replace(&self, text: &String, replacement: &String) -> (r: String)
        ensures
            r@ == replaced_first(self@, text@, replacement@),
            !pattern_finds(self@, text@) ==> r@ == text@,
    {
        replace_first_in(self, text.as_str(), replacement.as_str())
    }

    /// `text` with every match replaced by `replacement`.
    pub fn replace_all(&self, text: &String, replacement: &String) -> (r: String)
        ensures
            r@ == replaced_every(self@, text@, replacement@),
            !pattern_finds(self@, text@) ==> r@ == text@,
    {
        replace_every_in(self, text.as_str(), replacement.as_str())
    }
}

} // verus!
