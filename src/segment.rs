//! The whole segment: relevance, version, compatibility and rendering.
use vstd::prelude::*;
use crate::constraint::{check_compatibility, compatible, lacks_triple, view_opt};
use crate::manifest::{declared_constraint, engines_constraint};
use crate::probe::{evaluate, probe_result, DirEntry, ProbeSpec};
use crate::render::{first_unknown, render, rendered, Atom, Bindings, FormatError, Part, Segment};

verus! {

/// Presentation options of the segment.
#[derive(Clone, Debug)]
pub struct RenderOptions {
    pub symbol: String,
    pub style: String,
    pub not_capable_style: String,
    pub format: Vec<Part>,
}

/// Whitespace as `char::is_whitespace` has it (the Unicode White_Space set).
pub open spec fn is_white_space(c: char) -> bool {
    let u = c as u32;
    ||| 0x9 <= u <= 0xD
    ||| u == 0x20
    ||| u == 0x85
    ||| u == 0xA0
    ||| u == 0x1680
    ||| 0x2000 <= u <= 0x200A
    ||| u == 0x2028
    ||| u == 0x2029
    ||| u == 0x202F
    ||| u == 0x205F
    ||| u == 0x3000
}

pub open spec fn trim_start(s: Seq<char>) -> Seq<char>
    decreases s.len(),
{
    if s.len() > 0 && is_white_space(s[0]) {
        trim_start(s.drop_first())
    } else {
        s
    }
}

pub open spec fn trim_end(s: Seq<char>) -> Seq<char>
    decreases s.len(),
{
    if s.len() > 0 && is_white_space(s.last()) {
        trim_end(s.drop_last())
    } else {
        s
    }
}

/// The text without leading and trailing whitespace.
pub open spec fn trimmed(s: Seq<char>) -> Seq<char> {
    trim_end(trim_start(s))
}

fn white_space(c: char) -> (r: bool)
    ensures
        r == is_white_space(c),
{
    let u = c as u32;
    (0x9 <= u && u <= 0xD) || u == 0x20 || u == 0x85 || u == 0xA0 || u == 0x1680 || (0x2000 <= u
        && u <= 0x200A) || u == 0x2028 || u == 0x2029 || u == 0x202F || u == 0x205F || u == 0x3000
}

/// Removes leading and trailing whitespace.
pub fn trim(s: &str) -> (r: String)
    ensures
        r@ == trimmed(s@),
{
    let n = s.unicode_len();
    let mut a: usize = 0;
    assert(s@.subrange(0, n as int) =~= s@);
    while a < n && white_space(s.get_char(a))
        invariant
            a <= n == s@.len(),
            trim_start(s@) == trim_start(s@.subrange(a as int, n as int)),
        decreases n - a,
    {
        assert(s@.subrange(a as int, n as int).drop_first() =~= s@.subrange(a + 1, n as int));
        a += 1;
    }
    let ghost t = s@.subrange(a as int, n as int);
    assert(trim_start(s@) == t);
    let mut b: usize = n;
    while b > a && white_space(s.get_char(b - 1))
        invariant
            a <= b <= n == s@.len(),
            trim_end(t) == trim_end(s@.subrange(a as int, b as int)),
        decreases b,
    {
        assert(s@.subrange(a as int, b as int).drop_last() =~= s@.subrange(a as int, b - 1));
        b -= 1;
    }
    String::from_str(s.substring_char(a, b))
}

/// The bindings of the placeholders: the symbol, the style that the
/// compatibility picks, and the trimmed version text.
pub open spec fn bindings_for(options: RenderOptions, is_compatible: bool, version: Seq<char>) -> (
    Seq<char>,
    Seq<char>,
    Seq<char>,
) {
    (
        options.symbol@,
        if is_compatible {
            options.style@
        } else {
            options.not_capable_style@
        },
        trimmed(version),
    )
}

/// The declared constraint of the manifest text, if any was read.
pub open spec fn constraint_of(manifest: Option<Seq<char>>) -> Option<Seq<char>> {
    match manifest {
        Some(m) => declared_constraint(m),
        None => None,
    }
}

/// What `module` returns for a directory holding `entries`, the output of
/// the runtime's version command and the text of the manifest (each absent
/// where it could not be had). `Ok(None)` means no segment; an error names
/// the first unrecognized placeholder of the template.
pub open spec fn segment_of(
    entries: Seq<DirEntry>,
    probe: ProbeSpec,
    version: Option<Seq<char>>,
    manifest: Option<Seq<char>>,
    options: RenderOptions,
    r: Result<Option<Vec<Segment>>, FormatError>,
) -> bool {
    if !probe_result(entries, probe) {
        r matches Ok(None)
    } else {
        match version {
            None => r matches Ok(None),
            Some(v) => {
                let c = constraint_of(manifest);
                if lacks_triple(v, c) {
                    r matches Ok(None)
                } else {
                    let b = bindings_for(options, compatible(v, c), v);
                    match r {
                        Ok(None) => false,
                        Ok(Some(segs)) => rendered(options.format@, b, Ok(segs)),
                        Err(e) => rendered(options.format@, b, Err(e)),
                    }
                }
            },
        }
    }
}

fn text(s: &str) -> (r: String)
    ensures
        r@ == s@,
{
    String::from_str(s)
}

/// The markers of a Node.js project: `package.json` or `.node-version`, a
/// `js`, `mjs`, `cjs` or `ts` file, or a `node_modules` folder; an `esy.lock`
/// folder rules the directory out.
pub fn node_probe() -> (r: ProbeSpec)
    ensures
        r.file_names@.len() == 2,
        r.file_names@[0]@ == "package.json"@,
        r.file_names@[1]@ == ".node-version"@,
        r.extensions@.len() == 4,
        r.extensions@[0]@ == "js"@,
        r.extensions@[1]@ == "mjs"@,
        r.extensions@[2]@ == "cjs"@,
        r.extensions@[3]@ == "ts"@,
        r.folder_names@.len() == 1,
        r.folder_names@[0]@ == "node_modules"@,
        r.exclusion_folder_names@.len() == 1,
        r.exclusion_folder_names@[0]@ == "esy.lock"@,
{
    ProbeSpec {
        file_names: vec![text("package.json"), text(".node-version")],
        extensions: vec![text("js"), text("mjs"), text("cjs"), text("ts")],
        folder_names: vec![text("node_modules")],
        exclusion_folder_names: vec![text("esy.lock")],
    }
}

/// The default presentation: `via [$symbol$version]($style) `, with the
/// symbol `⬢ `, `bold green` when compatible and `bold red` when not.
pub fn node_options() -> (r: RenderOptions)
    ensures
        r.symbol@ == "⬢ "@,
        r.style@ == "bold green"@,
        r.not_capable_style@ == "bold red"@,
        r.format@.len() == 3,
        r.format@[0].atoms@.len() == 1,
        r.format@[0].atoms@[0] matches Atom::Text(t) && t@ == "via "@,
        r.format@[0].style is None,
        r.format@[1].atoms@.len() == 2,
        r.format@[1].atoms@[0] matches Atom::Var(n) && n@ == "symbol"@,
        r.format@[1].atoms@[1] matches Atom::Var(n) && n@ == "version"@,
        r.format@[1].style matches Some(Atom::Var(n)) && n@ == "style"@,
        r.format@[2].atoms@.len() == 1,
        r.format@[2].atoms@[0] matches Atom::Text(t) && t@ == " "@,
        r.format@[2].style is None,
{
    let lead = Part { atoms: vec![Atom::Text(text("via "))], style: None };
    let body = Part {
        atoms: vec![Atom::Var(text("symbol")), Atom::Var(text("version"))],
        style: Some(Atom::Var(text("style"))),
    };
    let tail = Part { atoms: vec![Atom::Text(text(" "))], style: None };
    RenderOptions {
        symbol: text("⬢ "),
        style: text("bold green"),
        not_capable_style: text("bold red"),
        format: vec![lead, body, tail],
    }
}

/// Computes the segment: nothing for an irrelevant directory, a missing
/// runtime version, or a version text without a triple where a constraint
/// needs one; an error for a template with an unrecognized placeholder, to be
/// reported by the caller; else the rendered
/// segments, styled by the compatibility of the version with the constraint
/// that the manifest declares.
pub fn module(
    entries: &Vec<DirEntry>,
    probe: &ProbeSpec,
    version: &Option<String>,
    manifest: &Option<String>,
    options: &RenderOptions,
) -> (r: Result<Option<Vec<Segment>>, FormatError>)
    ensures
        segment_of(entries@, *probe, view_opt(*version), view_opt(*manifest), *options, r),
{
    if !evaluate(entries, probe) {
        return Ok(None);
    }
    let v = match version {
        Some(v) => v,
        None => {
            return Ok(None);
        },
    };
    let constraint = match manifest {
        Some(m) => engines_constraint(m.as_str()),
        None => None,
    };
    let ok = match check_compatibility(v.as_str(), &constraint) {
        Some(ok) => ok,
        None => {
            return Ok(None);
        },
    };
    let style = if ok {
        options.style.clone()
    } else {
        options.not_capable_style.clone()
    };
    let b = Bindings { symbol: options.symbol.clone(), style, version: trim(v.as_str()) };
    match render(&options.format, &b) {
        Ok(segs) => Ok(Some(segs)),
        Err(e) => Err(e),
    }
}

} // verus!
