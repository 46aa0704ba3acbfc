use vstd::prelude::*;
use crate::text::seq_contains;

verus! {

#[verifier::external_type_specification]
#[verifier::external_body]
pub struct ExRegex(regex::Regex);

/// `regex::Regex::new` accepts the pattern (it is well formed and within the
/// default size limit). Deterministic in the pattern.
pub uninterp spec fn regex_valid(pattern: Seq<char>) -> bool;

/// The compiled form of `pattern` finds a match somewhere in `text`
/// (`regex::Regex::is_match`). Deterministic in the pattern and the text.
pub uninterp spec fn regex_matches(pattern: Seq<char>, text: Seq<char>) -> bool;

/// The characters that have a meaning in a regular expression
/// (`regex_syntax::is_meta_character`).
pub open spec fn is_meta_char(c: char) -> bool {
    c == '\\' || c == '.' || c == '+' || c == '*' || c == '?' || c == '(' || c == ')' || c == '|'
        || c == '[' || c == ']' || c == '{' || c == '}' || c == '^' || c == '$' || c == '#' || c == '&'
        || c == '-' || c == '~'
}

/// `regex::escape` of a text: each meta character preceded by a backslash,
/// every other character kept.
pub open spec fn regex_escaped(text: Seq<char>) -> Seq<char>
    decreases text.len(),
{
    if text.len() == 0 {
        Seq::empty()
    } else {
        let c = text.last();
        regex_escaped(text.drop_last()) + if is_meta_char(c) { seq!['\\', c] } else { seq![c] }
    }
}

/// A regular expression together with the pattern it was compiled from. Only
/// `compile_pattern` makes one, so the two always belong together.
pub struct CompiledPattern {
    source: String,
    regex: regex::Regex,
}

impl CompiledPattern {
    /// The pattern text the expression was compiled from.
    pub closed spec fn spec_source(&self) -> Seq<char> {
        self.source@
    }
}

/// Compiles `source` with `regex::Regex::new`; `None` exactly when the regex
/// crate refuses the pattern.
#[verifier::external_body]
pub(crate) fn compile_pattern(source: &String) -> (r: Option<CompiledPattern>)
    ensures
        r is Some <==> regex_valid(source@),
        r matches Some(p) ==> p.spec_source() == source@,
{
    match regex::Regex::new(source.as_str()) {
        Ok(re) => Some(CompiledPattern { source: source.clone(), regex: re }),
        Err(_) => None,
    }
}

/// `regex::Regex::is_match` of the compiled pattern on `text`.
#[verifier::external_body]
pub(crate) fn pattern_is_match(p: &CompiledPattern, text: &str) -> (b: bool)
    ensures
        b == regex_matches(p.spec_source(), text@),
{
    p.regex.is_match(text)
}

/// `pattern`, wherever the regex crate accepts it, finds a match in exactly
/// the texts that contain `text`.
pub open spec fn matches_literally(pattern: Seq<char>, text: Seq<char>) -> bool {
    regex_valid(pattern) ==> forall|hay: Seq<char>| #[trigger] regex_matches(pattern, hay) == seq_contains(hay, text)
}

/// `regex::escape`: each meta character gets a backslash in front. Its
/// documentation: the result "may be safely used as a literal in a regular
/// expression", so a compiled escape matches where `text` occurs.
#[verifier::external_body]
pub(crate) fn escape(text: &str) -> (r: String)
    ensures
        r@ == regex_escaped(text@),
        matches_literally(r@, text@),
{
    regex::escape(text)
}

} // verus!
