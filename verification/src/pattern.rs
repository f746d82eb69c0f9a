//! Compiled patterns and the registry that compiles each pattern once.
//!
//! A pattern constrains a whole value: the value conforms only if the pattern
//! matches it from its first character to its last.  Matching itself is done
//! by the `regex` crate; this module states what is assumed of it and proves
//! the bookkeeping around it.

use vstd::prelude::*;
use vstd::string::StringExecFns;

verus! {

/// `regex::Regex`, a compiled expression.  Nothing inside it is visible to
/// the verifier; what it matches is spoken of through [`regex_language`].
#[verifier::external_type_specification]
#[verifier::external_body]
pub struct ExRegex(regex::Regex);

/// `regex::Error`, the reason for which a pattern text was rejected.
/// Nothing inside it is visible to the verifier.
#[verifier::external_type_specification]
#[verifier::external_body]
pub struct ExRegexError(regex::Error);

/// The set of texts in which a compiled expression finds a match.
pub uninterp spec fn regex_language(re: regex::Regex) -> Set<Seq<char>>;

/// What compiling a pattern text gives: `None` where the text is rejected,
/// otherwise the set of texts in which the compiled expression finds a match.
pub uninterp spec fn compiled_language(pattern: Seq<char>) -> Option<Set<Seq<char>>>;

/// Calls `regex::Regex::new`.  Assumed: whether the call succeeds, and what
/// the resulting expression matches, depend on the pattern text alone.
#[verifier::external_body]
fn regex_new(pattern: &str) -> (res: Result<regex::Regex, regex::Error>)
    ensures
        match res {
            Ok(re) => compiled_language(pattern@) == Some(regex_language(re)),
            Err(_) => compiled_language(pattern@).is_none(),
        },
{
    regex::Regex::new(pattern)
}

/// Calls `regex::Regex::is_match`.  Assumed: the answer is membership of the
/// text in the set of texts that the expression matches.
#[verifier::external_body]
fn regex_is_match(re: &regex::Regex, text: &str) -> (found: bool)
    ensures
        found == regex_language(*re).contains(text@),
{
    re.is_match(text)
}

/// Calls `Clone::clone` of `regex::Regex`.  Assumed: the copy matches the
/// same texts as the expression it was made from.
#[verifier::external_body]
fn regex_clone(re: &regex::Regex) -> (copy: regex::Regex)
    ensures
        regex_language(copy) == regex_language(*re),
{
    re.clone()
}

/// Calls `ToString::to_string` of `regex::Error`, which renders the reason
/// for which a pattern was rejected.  Nothing is assumed of the text.
#[verifier::external_body]
fn regex_error_text(err: &regex::Error) -> (text: String)
{
    err.to_string()
}

/// The pattern text wrapped so that a match must span the whole value.
pub open spec fn anchored(source: Seq<char>) -> Seq<char> {
    "^(?:"@ + source + ")$"@
}

/// Whether a pattern text can be used as a constraint: it compiles as
/// written, and so does its anchored form.
pub open spec fn compiles(source: Seq<char>) -> bool {
    compiled_language(source).is_some() && compiled_language(anchored(source)).is_some()
}

/// Whether the pattern matches the entire text.
pub open spec fn full_match(source: Seq<char>, text: Seq<char>) -> bool {
    compiled_language(anchored(source)) matches Some(language) && language.contains(text)
}

/// A pattern text that could not be compiled.
#[derive(Debug, Clone)]
pub struct PatternCompileError {
    /// The rejected pattern text.
    pub pattern: String,
    /// The reason reported for the rejection.
    pub message: String,
}

/// A compiled pattern together with the text it was compiled from.
pub struct CompiledPattern {
    source: String,
    regex: regex::Regex,
}

impl CompiledPattern {
    #[verifier::type_invariant]
    spec fn well_formed(&self) -> bool {
        &&& compiled_language(self.source@).is_some()
        &&& compiled_language(anchored(self.source@)) == Some(regex_language(self.regex))
    }

    /// The pattern text as it was given to [`CompiledPattern::compile`].
    pub closed spec fn source_spec(&self) -> Seq<char> {
        self.source@
    }

    /// Compiles `source`.  Fails exactly when `source`, or its anchored form,
    /// is not a valid expression.
    pub fn compile(source: &str) -> (res: Result<CompiledPattern, PatternCompileError>)
        ensures
            res.is_ok() == compiles(source@),
            res matches Ok(p) ==> p.source_spec() == source@,
            res matches Err(e) ==> e.pattern@ == source@,
    {
        match regex_new(source) {
            Err(err) => Err(
                PatternCompileError {
                    pattern: String::from_str(source),
                    message: regex_error_text(&err),
                },
            ),
            Ok(_) => {
                let mut text = String::from_str("^(?:");
                text.append(source);
                text.append(")$");
                match regex_new(text.as_str()) {
                    Err(err) => Err(
                        PatternCompileError {
                            pattern: String::from_str(source),
                            message: regex_error_text(&err),
                        },
                    ),
                    Ok(regex) => Ok(CompiledPattern { source: String::from_str(source), regex }),
                }
            },
        }
    }

    /// The pattern text.
    pub fn source(&self) -> (s: &str)
        ensures
            s@ == self.source_spec(),
            compiles(s@),
    {
        proof {
            use_type_invariant(self);
        }
        self.source.as_str()
    }

    /// Whether the pattern matches the entire text.
    pub fn is_full_match(&self, text: &str) -> (matched: bool)
        ensures
            matched == full_match(self.source_spec(), text@),
    {
        proof {
            use_type_invariant(self);
        }
        regex_is_match(&self.regex, text)
    }

    /// A second handle on the same compiled pattern.
    pub fn duplicate(&self) -> (copy: CompiledPattern)
        ensures
            copy.source_spec() == self.source_spec(),
            compiles(copy.source_spec()),
    {
        proof {
            use_type_invariant(self);
        }
        CompiledPattern { source: self.source.clone(), regex: regex_clone(&self.regex) }
    }
}

/// The compiled patterns of a process, each compiled once.
///
/// The registry is an ordinary value: whoever validates documents owns one
/// and hands it to whatever needs a pattern.
pub struct PatternRegistry {
    entries: Vec<CompiledPattern>,
}

impl PatternRegistry {
    #[verifier::type_invariant]
    spec fn compiled_once(&self) -> bool {
        forall|i: int, j: int|
            0 <= i < j < self.entries@.len() ==> self.entries@[i].source_spec()
                != self.entries@[j].source_spec()
    }

    /// The pattern texts that the registry holds, in the order in which they
    /// were first requested.
    pub closed spec fn sources(&self) -> Seq<Seq<char>> {
        self.entries@.map_values(|entry: CompiledPattern| entry.source_spec())
    }

    /// A registry that holds no pattern.
    pub fn new() -> (registry: PatternRegistry)
        ensures
            registry.sources() == Seq::<Seq<char>>::empty(),
    {
        let registry = PatternRegistry { entries: Vec::new() };
        proof {
            assert(registry.sources() =~= Seq::<Seq<char>>::empty());
        }
        registry
    }

    /// The number of patterns held.
    pub fn len(&self) -> (count: usize)
        ensures
            count == self.sources().len(),
    {
        self.entries.len()
    }

    /// Whether `pattern` has been compiled into the registry.
    pub fn contains(&self, pattern: &str) -> (held: bool)
        ensures
            held == self.sources().contains(pattern@),
    {
        self.position(pattern).is_some()
    }

    /// Where in the registry `pattern` is held, if it is.
    fn position(&self, pattern: &str) -> (found: Option<usize>)
        ensures
            match found {
                Some(i) => i < self.entries@.len() && self.entries@[i as int].source_spec()
                    == pattern@,
                None => !self.sources().contains(pattern@),
            },
            found.is_some() == self.sources().contains(pattern@),
    {
        let wanted = String::from_str(pattern);
        let mut i: usize = 0;
        while i < self.entries.len()
            invariant
                i <= self.entries.len(),
                wanted@ == pattern@,
                forall|k: int| 0 <= k < i ==> self.entries@[k].source_spec() != pattern@,
            decreases self.entries.len() - i,
        {
            if self.entries[i].source == wanted {
                proof {
                    assert(self.sources()[i as int] == pattern@);
                }
                return Some(i);
            }
            i += 1;
        }
        proof {
            assert forall|k: int| 0 <= k < self.sources().len() implies self.sources()[k]
                != pattern@ by {
                assert(self.sources()[k] == self.entries@[k].source_spec());
            }
        }
        None
    }

    /// Returns the compiled form of `pattern`.  A pattern that the registry
    /// already holds is not compiled again and leaves the registry as it
    /// is; a new one is compiled and, if it is valid, added at the end.  No
    /// pattern is ever held twice.
    pub fn get_or_compile(&mut self, pattern: &str) -> (res: Result<
        CompiledPattern,
        PatternCompileError,
    >)
        ensures
            res.is_ok() == compiles(pattern@),
            res matches Ok(compiled) ==> compiled.source_spec() == pattern@,
            res matches Err(error) ==> error.pattern@ == pattern@,
            final(self).sources() == if compiles(pattern@) && !old(self).sources().contains(
                pattern@,
            ) {
                old(self).sources().push(pattern@)
            } else {
                old(self).sources()
            },
            final(self).sources().no_duplicates(),
    {
        proof {
            use_type_invariant(&*self);
            self.lemma_sources_distinct();
        }
        match self.position(pattern) {
            Some(i) => {
                Ok(self.entries[i].duplicate())
            },
            None => match CompiledPattern::compile(pattern) {
                Ok(compiled) => {
                    let copy = compiled.duplicate();
                    let ghost before = self.entries@;
                    let ghost known = self.sources();
                    let mut held = PatternRegistry { entries: Vec::new() };
                    std::mem::swap(self, &mut held);
                    proof {
                        use_type_invariant(&held);
                    }
                    let mut entries = held.entries;
                    entries.push(compiled);
                    proof {
                        assert forall|i: int, j: int|
                            0 <= i < j < entries@.len() implies entries@[i].source_spec()
                            != entries@[j].source_spec() by {
                            if j == before.len() {
                                assert(known[i] == before[i].source_spec());
                            }
                        }
                    }
                    *self = PatternRegistry { entries };
                    proof {
                        assert(self.sources() =~= known.push(pattern@));
                        self.lemma_sources_distinct();
                    }
                    Ok(copy)
                },
                Err(error) => Err(error),
            },
        }
    }

    /// Distinct entries make a list of sources without duplicates.
    proof fn lemma_sources_distinct(&self)
        requires
            self.compiled_once(),
        ensures
            self.sources().no_duplicates(),
    {
        assert forall|i: int, j: int|
            0 <= i < self.sources().len() && 0 <= j < self.sources().len() && i
                != j implies self.sources()[i] != self.sources()[j] by {
            assert(self.sources()[i] == self.entries@[i].source_spec());
            assert(self.sources()[j] == self.entries@[j].source_spec());
        }
    }
}

} // verus!
