use vstd::prelude::*;

verus! {

#[verifier::external_type_specification]
#[verifier::external_body]
pub struct ExPattern(glob::Pattern);

#[verifier::external_type_specification]
#[verifier::external_body]
pub struct ExPatternError(glob::PatternError);

/// Whether glob's compiler accepts a pattern.
pub uninterp spec fn glob_compiles(pattern: Seq<char>) -> bool;

/// Whether a compiled pattern matches a path, with glob's default options.
pub uninterp spec fn glob_matches(pattern: Seq<char>, path: Seq<char>) -> bool;

/// An exclusion pattern, compiled, beside the text it was compiled from.
pub struct ExcludePattern {
    source: String,
    matcher: glob::Pattern,
}

impl ExcludePattern {
    pub closed spec fn source(&self) -> Seq<char> {
        self.source@
    }

    /// Relies on glob::Pattern::new: it fails exactly on the patterns that
    /// glob's syntax rejects.
    #[verifier::external_body]
    pub(crate) fn compile(pattern: &str) -> (r: Result<ExcludePattern, glob::PatternError>)
        ensures
            r is Ok <==> glob_compiles(pattern@),
            r matches Ok(p) ==> p.source() == pattern@,
    {
        glob::Pattern::new(pattern).map(|m| ExcludePattern { source: pattern.to_string(), matcher: m })
    }

    /// Relies on glob::Pattern::matches: whether the path matches the pattern.
    #[verifier::external_body]
    pub(crate) fn matches(&self, path: &str) -> (r: bool)
        ensures
            r == glob_matches(self.source(), path@),
    {
        self.matcher.matches(path)
    }
}

/// A configured exclusion pattern that glob does not accept.
#[derive(Clone, Debug)]
pub struct PatternCompileError {
    pub index: usize,
    pub pattern: String,
}

pub open spec fn all_compile(patterns: Seq<String>) -> bool {
    forall|i: int| 0 <= i < patterns.len() ==> glob_compiles(#[trigger] patterns[i]@)
}

pub open spec fn first_invalid(patterns: Seq<String>, i: int) -> bool {
    &&& 0 <= i < patterns.len()
    &&& !glob_compiles(patterns[i]@)
    &&& forall|j: int| 0 <= j < i ==> glob_compiles(#[trigger] patterns[j]@)
}

/// Whether a path is excluded by a list of patterns, all of which compile:
/// it matches at least one of them.
pub open spec fn excluded_by(patterns: Seq<String>, path: Seq<char>) -> bool {
    exists|i: int| 0 <= i < patterns.len() && glob_matches(#[trigger] patterns[i]@, path)
}

/// Compiles every pattern, in order; the first one that does not compile
/// is the error.
pub fn compile_all(patterns: &Vec<String>) -> (r: Result<Vec<ExcludePattern>, PatternCompileError>)
    ensures
        r is Ok <==> all_compile(patterns@),
        r matches Ok(ms) ==> ms@.len() == patterns@.len()
            && forall|i: int| 0 <= i < ms@.len() ==> (#[trigger] ms@[i]).source() == patterns@[i]@,
        r matches Err(e) ==> first_invalid(patterns@, e.index as int) && e.pattern@ == patterns@[e.index as int]@,
{
    let mut ms: Vec<ExcludePattern> = Vec::new();
    let mut i: usize = 0;
    while i < patterns.len()
        invariant
            i <= patterns@.len(),
            ms@.len() == i,
            forall|j: int| 0 <= j < i ==> glob_compiles(#[trigger] patterns@[j]@),
            forall|j: int| 0 <= j < i ==> (#[trigger] ms@[j]).source() == patterns@[j]@,
        decreases patterns@.len() - i,
    {
        match ExcludePattern::compile(patterns[i].as_str()) {
            Ok(m) => ms.push(m),
            Err(_) => {
                return Err(PatternCompileError { index: i, pattern: patterns[i].clone() });
            },
        }
        i = i + 1;
    }
    Ok(ms)
}

/// Whether `path` matches at least one compiled pattern; the first match
/// ends the scan.
pub fn matches_any(matchers: &Vec<ExcludePattern>, path: &str) -> (r: bool)
    ensures
        r == exists|i: int| 0 <= i < matchers@.len() && glob_matches(#[trigger] matchers@[i].source(), path@),
{
    let mut i: usize = 0;
    while i < matchers.len()
        invariant
            i <= matchers@.len(),
            forall|j: int| 0 <= j < i ==> !glob_matches(#[trigger] matchers@[j].source(), path@),
        decreases matchers@.len() - i,
    {
        if matchers[i].matches(path) {
            return true;
        }
        i = i + 1;
    }
    false
}

/// Decides whether the target is excluded: no list excludes nothing; a list
/// with a pattern that does not compile is an error, whatever the path;
/// otherwise the path is excluded when it matches one of the patterns.
pub fn is_excluded(patterns: &Option<Vec<String>>, path: &str) -> (r: Result<bool, PatternCompileError>)
    ensures
        patterns is None ==> r == Ok::<bool, PatternCompileError>(false),
        patterns matches Some(ps) ==> {
            &&& r is Ok <==> all_compile(ps@)
            &&& r matches Ok(b) ==> b == excluded_by(ps@, path@)
            &&& r matches Err(e) ==> first_invalid(ps@, e.index as int) && e.pattern@ == ps@[e.index as int]@
        },
{
    match patterns {
        None => Ok(false),
        Some(ps) => {
            let ms = compile_all(ps)?;
            let hit = matches_any(&ms, path);
            proof {
                if hit {
                    let i = choose|i: int| 0 <= i < ms@.len() && glob_matches(#[trigger] ms@[i].source(), path@);
                    assert(glob_matches(ps@[i]@, path@));
                } else {
                    assert forall|i: int| 0 <= i < ps@.len() implies !glob_matches(#[trigger] ps@[i]@, path@) by {
                        assert(ms@[i].source() == ps@[i]@);
                    }
                }
            }
            Ok(hit)
        },
    }
}

} // verus!
