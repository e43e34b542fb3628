use vstd::prelude::*;

verus! {

#[verifier::external_type_specification]
#[verifier::external_body]
pub struct ExRegex(regex::Regex);

#[verifier::external_type_specification]
#[verifier::external_body]
pub struct ExRegexError(regex::Error);

/// The largest compiled size accepted for a package-name pattern, in bytes.
pub const NAME_REGEX_SIZE_LIMIT: usize = 1048576;

/// Whether `pattern` compiles into a regular expression of at most `size_limit`
/// bytes.
pub uninterp spec fn regex_compiles(pattern: Seq<char>, size_limit: nat) -> bool;

/// Relies on regex::RegexBuilder::new, size_limit and build: the pattern compiles,
/// or an error is returned when it is invalid or exceeds the size limit; which of
/// the two depends on the pattern and the limit alone.
#[verifier::external_body]
fn build_regex(pattern: &str, size_limit: usize) -> (r: Result<regex::Regex, regex::Error>)
    ensures
        r is Ok <==> regex_compiles(pattern@, size_limit as nat),
{
    regex::RegexBuilder::new(pattern).size_limit(size_limit).build()
}

/// A package-name pattern that did not compile.
#[derive(Debug)]
pub struct PatternError {
    pub pattern: String,
    pub source: regex::Error,
}

/// Compiles a pattern for matching package names, bounded in compiled size.
pub fn mk_package_name_regex(regex: &str) -> (r: Result<regex::Regex, PatternError>)
    ensures
        r is Ok <==> regex_compiles(regex@, NAME_REGEX_SIZE_LIMIT as nat),
        r matches Err(e) ==> e.pattern@ == regex@,
{
    match build_regex(regex, NAME_REGEX_SIZE_LIMIT) {
        Ok(re) => Ok(re),
        Err(source) => Err(PatternError { pattern: regex.to_owned(), source }),
    }
}

} // verus!
