//! Compatibility of a reported runtime version with a declared requirement.
use vstd::prelude::*;

verus! {

#[verifier::external_type_specification]
#[verifier::external_body]
pub struct ExVersionReq(semver::VersionReq);

#[verifier::external_type_specification]
#[verifier::external_body]
pub struct ExVersion(semver::Version);

#[verifier::external_type_specification]
#[verifier::external_body]
pub struct ExSemverError(semver::Error);

/// Whether `VersionReq::parse` accepts the text.
pub uninterp spec fn requirement_parses(text: Seq<char>) -> bool;

/// Whether `Version::parse` accepts the text.
pub uninterp spec fn version_parses(text: Seq<char>) -> bool;

/// Whether the version parsed from `version` meets the requirement parsed from `requirement`.
pub uninterp spec fn satisfies(requirement: Seq<char>, version: Seq<char>) -> bool;

/// The leftmost match of `\d+\.\d+\.\d+` in the text, if any.
pub uninterp spec fn first_triple(text: Seq<char>) -> Option<Seq<char>>;

/// A parsed requirement, with the text it was parsed from; only
/// `parse_requirement` builds one.
struct Requirement {
    source: Ghost<Seq<char>>,
    req: semver::VersionReq,
}

/// A parsed version, with the text it was parsed from; only `parse_version`
/// builds one.
struct ParsedVersion {
    source: Ghost<Seq<char>>,
    version: semver::Version,
}

/// Relies on semver::VersionReq::parse: success depends on the text alone;
/// the result records the text it was parsed from.
#[verifier::external_body]
fn parse_requirement(text: &str) -> (r: Result<Requirement, semver::Error>)
    ensures
        r is Ok <==> requirement_parses(text@),
        r matches Ok(q) ==> q.source@ == text@,
{
    match semver::VersionReq::parse(text) {
        Ok(req) => Ok(Requirement { source: Ghost(text@), req }),
        Err(e) => Err(e),
    }
}

/// Relies on semver::Version::parse: success depends on the text alone;
/// the result records the text it was parsed from.
#[verifier::external_body]
fn parse_version(text: &str) -> (r: Result<ParsedVersion, semver::Error>)
    ensures
        r is Ok <==> version_parses(text@),
        r matches Ok(v) ==> v.source@ == text@,
{
    match semver::Version::parse(text) {
        Ok(version) => Ok(ParsedVersion { source: Ghost(text@), version }),
        Err(e) => Err(e),
    }
}

/// Relies on semver::VersionReq::matches, a function of the requirement and
/// the version; `parse_requirement` and `parse_version`, the only builders of
/// the two values, record the text each was parsed from.
#[verifier::external_body]
fn requirement_matches(req: &Requirement, version: &ParsedVersion) -> (r: bool)
    ensures
        r == satisfies(req.source@, version.source@),
{
    req.req.matches(&version.version)
}

/// Relies on regex::Regex::find with the fixed pattern `\d+\.\d+\.\d+`
/// (a valid pattern, so `Regex::new` succeeds): the leftmost match, as text.
#[verifier::external_body]
fn find_triple(text: &str) -> (r: Option<String>)
    ensures
        r matches Some(m) ==> first_triple(text@) == Some(m@),
        r is None ==> first_triple(text@) is None,
{
    let re = regex::Regex::new(r"\d+\.\d+\.\d+").unwrap();
    re.find(text).map(|m| m.as_str().to_string())
}

/// Parses a requirement; `None` when its syntax is malformed.
fn parse_constraint(text: &str) -> (r: Option<Requirement>)
    ensures
        r is Some <==> requirement_parses(text@),
        r matches Some(q) ==> q.source@ == text@,
{
    match parse_requirement(text) {
        Ok(q) => Some(q),
        Err(_) => None,
    }
}

pub open spec fn view_opt(o: Option<String>) -> Option<Seq<char>> {
    match o {
        Some(s) => Some(s@),
        None => None,
    }
}

/// The version text is needed, since the constraint parses, but embeds no
/// `MAJOR.MINOR.PATCH` triple.
pub open spec fn lacks_triple(version: Seq<char>, constraint: Option<Seq<char>>) -> bool {
    match constraint {
        Some(c) => requirement_parses(c) && first_triple(version) is None,
        None => false,
    }
}

/// Fail-open compatibility: true unless a constraint is present, parses, and
/// the parsed triple of the version text violates it.
pub open spec fn compatible(version: Seq<char>, constraint: Option<Seq<char>>) -> bool {
    match constraint {
        None => true,
        Some(c) => {
            if !requirement_parses(c) {
                true
            } else {
                match first_triple(version) {
                    Some(t) => !version_parses(t) || satisfies(c, t),
                    None => true,
                }
            }
        },
    }
}

/// Decides whether the runtime version meets the declared constraint. An
/// absent or malformed constraint, or a triple that does not parse as a
/// version, counts as compatible. Where the constraint parses, the version
/// text must embed a `MAJOR.MINOR.PATCH` triple.
pub fn is_compatible(version: &str, constraint: &Option<String>) -> (r: bool)
    requires
        !lacks_triple(version@, view_opt(*constraint)),
    ensures
        r == compatible(version@, view_opt(*constraint)),
{
    let text = match constraint {
        None => {
            return true;
        },
        Some(c) => c,
    };
    let req = match parse_constraint(text.as_str()) {
        None => {
            return true;
        },
        Some(q) => q,
    };
    let triple = match find_triple(version) {
        Some(t) => t,
        None => {
            return true;
        },
    };
    let parsed = match parse_version(triple.as_str()) {
        Ok(v) => v,
        Err(_) => {
            return true;
        },
    };
    requirement_matches(&req, &parsed)
}

/// Without a declared constraint every version is compatible.
pub proof fn lemma_absent_constraint_compatible(version: Seq<char>)
    ensures
        compatible(version, None),
        !lacks_triple(version, None),
{
}

/// A constraint of malformed syntax makes every version compatible, with or
/// without a triple in the version text.
pub proof fn lemma_malformed_constraint_compatible(version: Seq<char>, constraint: Seq<char>)
    requires
        !requirement_parses(constraint),
    ensures
        compatible(version, Some(constraint)),
        !lacks_triple(version, Some(constraint)),
{
}

/// Compatibility where it can be decided: `None` when the constraint parses
/// but the version text embeds no `MAJOR.MINOR.PATCH` triple.
pub fn check_compatibility(version: &str, constraint: &Option<String>) -> (r: Option<bool>)
    ensures
        r is None <==> lacks_triple(version@, view_opt(*constraint)),
        r matches Some(b) ==> b == compatible(version@, view_opt(*constraint)),
{
    match constraint {
        Some(c) => {
            if parse_constraint(c.as_str()).is_some() && find_triple(version).is_none() {
                return None;
            }
        },
        None => {},
    }
    Some(is_compatible(version, constraint))
}

} // verus!
