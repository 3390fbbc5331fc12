//! Placeholder substitution of a segment's format template.
use vstd::prelude::*;
use crate::constraint::view_opt;

verus! {

/// The recognized placeholders.
#[derive(Clone, Copy, Debug, PartialEq, Eq, Structural)]
pub enum Placeholder {
    Symbol,
    Style,
    Version,
}

/// A literal fragment or a named placeholder.
#[derive(Clone, Debug)]
pub enum Atom {
    Text(String),
    Var(String),
}

/// A run of atoms rendered as one segment, wrapped in an optional style.
#[derive(Clone, Debug)]
pub struct Part {
    pub atoms: Vec<Atom>,
    pub style: Option<Atom>,
}

/// The values the placeholders stand for.
#[derive(Clone, Debug)]
pub struct Bindings {
    pub symbol: String,
    pub style: String,
    pub version: String,
}

impl View for Bindings {
    /// The symbol, the style token and the version text.
    type V = (Seq<char>, Seq<char>, Seq<char>);

    open spec fn view(&self) -> Self::V {
        (self.symbol@, self.style@, self.version@)
    }
}

/// One rendered piece of text with the style that governs it.
#[derive(Clone, Debug, PartialEq, Eq)]
pub struct Segment {
    pub text: String,
    pub style: Option<String>,
}

/// A template names a placeholder outside the recognized set.
#[derive(Clone, Debug, PartialEq, Eq)]
pub struct FormatError {
    pub name: String,
}

pub open spec fn placeholder_of(name: Seq<char>) -> Option<Placeholder> {
    if name == seq!['s', 'y', 'm', 'b', 'o', 'l'] {
        Some(Placeholder::Symbol)
    } else if name == seq!['s', 't', 'y', 'l', 'e'] {
        Some(Placeholder::Style)
    } else if name == seq!['v', 'e', 'r', 's', 'i', 'o', 'n'] {
        Some(Placeholder::Version)
    } else {
        None
    }
}

pub open spec fn binding_of(p: Placeholder, b: (Seq<char>, Seq<char>, Seq<char>)) -> Seq<char> {
    match p {
        Placeholder::Symbol => b.0,
        Placeholder::Style => b.1,
        Placeholder::Version => b.2,
    }
}

/// The name of an atom that is an unrecognized placeholder.
pub open spec fn atom_unknown(a: Atom) -> Option<Seq<char>> {
    match a {
        Atom::Var(n) => if placeholder_of(n@) is None {
            Some(n@)
        } else {
            None
        },
        Atom::Text(_) => None,
    }
}

/// What an atom renders to (empty for an unrecognized placeholder).
pub open spec fn atom_value(a: Atom, b: (Seq<char>, Seq<char>, Seq<char>)) -> Seq<char> {
    match a {
        Atom::Text(t) => t@,
        Atom::Var(n) => match placeholder_of(n@) {
            Some(p) => binding_of(p, b),
            None => Seq::empty(),
        },
    }
}

/// The first unrecognized placeholder among the atoms, in order.
pub open spec fn atoms_unknown(atoms: Seq<Atom>) -> Option<Seq<char>>
    decreases atoms.len(),
{
    if atoms.len() == 0 {
        None
    } else {
        match atoms_unknown(atoms.drop_last()) {
            Some(n) => Some(n),
            None => atom_unknown(atoms.last()),
        }
    }
}

pub open spec fn atoms_text(atoms: Seq<Atom>, b: (Seq<char>, Seq<char>, Seq<char>)) -> Seq<char>
    decreases atoms.len(),
{
    if atoms.len() == 0 {
        Seq::empty()
    } else {
        atoms_text(atoms.drop_last(), b) + atom_value(atoms.last(), b)
    }
}

/// The first unrecognized placeholder of a part: its atoms, then its style.
pub open spec fn part_unknown(p: Part) -> Option<Seq<char>> {
    match atoms_unknown(p.atoms@) {
        Some(n) => Some(n),
        None => match p.style {
            Some(a) => atom_unknown(a),
            None => None,
        },
    }
}

/// The first unrecognized placeholder of a template, in order.
pub open spec fn first_unknown(parts: Seq<Part>) -> Option<Seq<char>>
    decreases parts.len(),
{
    if parts.len() == 0 {
        None
    } else {
        match first_unknown(parts.drop_last()) {
            Some(n) => Some(n),
            None => part_unknown(parts.last()),
        }
    }
}

pub open spec fn style_value(style: Option<Atom>, b: (Seq<char>, Seq<char>, Seq<char>)) -> Option<Seq<char>> {
    match style {
        Some(a) => Some(atom_value(a, b)),
        None => None,
    }
}

/// The segment a part renders to, when it holds no unrecognized placeholder.
pub open spec fn segment_matches(s: Segment, p: Part, b: (Seq<char>, Seq<char>, Seq<char>)) -> bool {
    &&& s.text@ == atoms_text(p.atoms@, b)
    &&& match s.style {
        Some(t) => style_value(p.style, b) == Some(t@),
        None => p.style is None,
    }
}

/// What `render` returns: the first unrecognized placeholder as an error, or
/// else one segment per part.
pub open spec fn rendered(template: Seq<Part>, b: (Seq<char>, Seq<char>, Seq<char>), r: Result<Vec<Segment>, FormatError>) -> bool {
    match r {
        Ok(segs) => {
            &&& first_unknown(template) is None
            &&& segs@.len() == template.len()
            &&& forall|i: int| 0 <= i < template.len() ==> segment_matches(#[trigger] segs@[i], template[i], b)
        },
        Err(e) => first_unknown(template) == Some(e.name@),
    }
}

/// Whether some atom of the part, in its text or as its style, is an
/// unrecognized placeholder.
pub open spec fn part_has_unknown(p: Part) -> bool {
    ||| exists|j: int| 0 <= j < p.atoms@.len() && (#[trigger] atom_unknown(p.atoms@[j])) is Some
    ||| (p.style matches Some(a) && atom_unknown(a) is Some)
}

/// Whether the template holds an unrecognized placeholder anywhere.
pub open spec fn has_unknown(template: Seq<Part>) -> bool {
    exists|i: int| 0 <= i < template.len() && part_has_unknown(#[trigger] template[i])
}

fn str_is(s: &String, lit: &str) -> (r: bool)
    ensures
        r == (s@ == lit@),
{
    *s == String::from_str(lit)
}

/// The placeholder a name stands for, if it is recognized.
pub fn placeholder(name: &String) -> (r: Option<Placeholder>)
    ensures
        r == placeholder_of(name@),
{
    proof {
        reveal_strlit("symbol");
        reveal_strlit("style");
        reveal_strlit("version");
    }
    assert("symbol"@ =~= seq!['s', 'y', 'm', 'b', 'o', 'l']);
    assert("style"@ =~= seq!['s', 't', 'y', 'l', 'e']);
    assert("version"@ =~= seq!['v', 'e', 'r', 's', 'i', 'o', 'n']);
    if str_is(name, "symbol") {
        Some(Placeholder::Symbol)
    } else if str_is(name, "style") {
        Some(Placeholder::Style)
    } else if str_is(name, "version") {
        Some(Placeholder::Version)
    } else {
        None
    }
}

fn resolve(a: &Atom, b: &Bindings) -> (r: Result<String, FormatError>)
    ensures
        match r {
            Ok(s) => atom_unknown(*a) is None && s@ == atom_value(*a, b@),
            Err(e) => atom_unknown(*a) == Some(e.name@),
        },
{
    match a {
        Atom::Text(t) => Ok(t.clone()),
        Atom::Var(n) => match placeholder(n) {
            Some(Placeholder::Symbol) => Ok(b.symbol.clone()),
            Some(Placeholder::Style) => Ok(b.style.clone()),
            Some(Placeholder::Version) => Ok(b.version.clone()),
            None => Err(FormatError { name: n.clone() }),
        },
    }
}

fn render_part(p: &Part, b: &Bindings) -> (r: Result<Segment, FormatError>)
    ensures
        match r {
            Ok(s) => part_unknown(*p) is None && segment_matches(s, *p, b@),
            Err(e) => part_unknown(*p) == Some(e.name@),
        },
{
    let mut text = String::new();
    let mut j: usize = 0;
    while j < p.atoms.len()
        invariant
            j <= p.atoms@.len(),
            atoms_unknown(p.atoms@.take(j as int)) is None,
            text@ == atoms_text(p.atoms@.take(j as int), b@),
        decreases p.atoms.len() - j,
    {
        assert(p.atoms@.take(j + 1).drop_last() =~= p.atoms@.take(j as int));
        match resolve(&p.atoms[j], b) {
            Ok(v) => {
                text.append(v.as_str());
            },
            Err(e) => {
                assert(p.atoms@ =~= p.atoms@.take(p.atoms@.len() as int));
                proof {
                    lemma_atoms_unknown_prefix(p.atoms@, j as int + 1);
                }
                return Err(e);
            },
        }
        j += 1;
    }
    assert(p.atoms@.take(j as int) =~= p.atoms@);
    let style = match &p.style {
        Some(a) => match resolve(a, b) {
            Ok(v) => Some(v),
            Err(e) => {
                return Err(e);
            },
        },
        None => None,
    };
    Ok(Segment { text, style })
}

proof fn lemma_atoms_unknown_prefix(atoms: Seq<Atom>, k: int)
    requires
        0 <= k <= atoms.len(),
        atoms_unknown(atoms.take(k)) is Some,
    ensures
        atoms_unknown(atoms) == atoms_unknown(atoms.take(k)),
    decreases atoms.len() - k,
{
    if k < atoms.len() {
        assert(atoms.take(k + 1).drop_last() =~= atoms.take(k));
        lemma_atoms_unknown_prefix(atoms, k + 1);
    } else {
        assert(atoms.take(k) =~= atoms);
    }
}

proof fn lemma_first_unknown_prefix(parts: Seq<Part>, k: int)
    requires
        0 <= k <= parts.len(),
        first_unknown(parts.take(k)) is Some,
    ensures
        first_unknown(parts) == first_unknown(parts.take(k)),
    decreases parts.len() - k,
{
    if k < parts.len() {
        assert(parts.take(k + 1).drop_last() =~= parts.take(k));
        lemma_first_unknown_prefix(parts, k + 1);
    } else {
        assert(parts.take(k) =~= parts);
    }
}

/// Renders a template: each part becomes one segment whose text joins its
/// literal fragments and resolved placeholders, styled by its resolved style.
/// The first placeholder outside {symbol, style, version} fails the whole
/// render.
pub fn render(template: &Vec<Part>, b: &Bindings) -> (r: Result<Vec<Segment>, FormatError>)
    ensures
        rendered(template@, b@, r),
{
    let mut segs: Vec<Segment> = Vec::new();
    let mut i: usize = 0;
    while i < template.len()
        invariant
            i <= template@.len(),
            first_unknown(template@.take(i as int)) is None,
            segs@.len() == i,
            forall|k: int| 0 <= k < i ==> segment_matches(#[trigger] segs@[k], template@[k], b@),
        decreases template.len() - i,
    {
        assert(template@.take(i + 1).drop_last() =~= template@.take(i as int));
        match render_part(&template[i], b) {
            Ok(s) => {
                segs.push(s);
            },
            Err(e) => {
                proof {
                    lemma_first_unknown_prefix(template@, i as int + 1);
                }
                return Err(e);
            },
        }
        i += 1;
    }
    assert(template@.take(i as int) =~= template@);
    Ok(segs)
}

proof fn lemma_atoms_unknown_found(atoms: Seq<Atom>, j: int)
    requires
        0 <= j < atoms.len(),
        atom_unknown(atoms[j]) is Some,
    ensures
        atoms_unknown(atoms) is Some,
    decreases atoms.len(),
{
    if j < atoms.len() - 1 {
        assert(atoms.drop_last()[j] == atoms[j]);
        lemma_atoms_unknown_found(atoms.drop_last(), j);
    }
}

proof fn lemma_first_unknown_found(parts: Seq<Part>, i: int)
    requires
        0 <= i < parts.len(),
        part_has_unknown(parts[i]),
    ensures
        first_unknown(parts) is Some,
    decreases parts.len(),
{
    if i < parts.len() - 1 {
        assert(parts.drop_last()[i] == parts[i]);
        lemma_first_unknown_found(parts.drop_last(), i);
    } else if exists|j: int| 0 <= j < parts[i].atoms@.len() && (#[trigger] atom_unknown(parts[i].atoms@[j])) is Some {
        let j = choose|j: int| 0 <= j < parts[i].atoms@.len() && (#[trigger] atom_unknown(parts[i].atoms@[j])) is Some;
        lemma_atoms_unknown_found(parts[i].atoms@, j);
    }
}

/// A template that names a placeholder outside {symbol, style, version}
/// renders to an error and to no output, whatever the bindings.
pub proof fn lemma_unknown_placeholder_fails(
    template: Seq<Part>,
    b: (Seq<char>, Seq<char>, Seq<char>),
    r: Result<Vec<Segment>, FormatError>,
)
    requires
        has_unknown(template),
        rendered(template, b, r),
    ensures
        r is Err,
{
    let i = choose|i: int| 0 <= i < template.len() && part_has_unknown(#[trigger] template[i]);
    lemma_first_unknown_found(template, i);
}

/// Rendering is deterministic: two results for the same template and
/// bindings carry the same texts and styles, or the same error.
pub proof fn lemma_render_deterministic(
    template: Seq<Part>,
    b: (Seq<char>, Seq<char>, Seq<char>),
    r1: Result<Vec<Segment>, FormatError>,
    r2: Result<Vec<Segment>, FormatError>,
)
    requires
        rendered(template, b, r1),
        rendered(template, b, r2),
    ensures
        match (r1, r2) {
            (Ok(s1), Ok(s2)) => {
                &&& s1@.len() == s2@.len()
                &&& forall|i: int|
                    0 <= i < s1@.len() ==> (#[trigger] s1@[i]).text@ == s2@[i].text@ && view_opt(s1@[i].style)
                        == view_opt(s2@[i].style)
            },
            (Err(e1), Err(e2)) => e1.name@ == e2.name@,
            _ => false,
        },
{
    if let (Ok(s1), Ok(s2)) = (r1, r2) {
        assert forall|i: int| 0 <= i < s1@.len() implies (#[trigger] s1@[i]).text@ == s2@[i].text@ && view_opt(
            s1@[i].style,
        ) == view_opt(s2@[i].style) by {
            assert(segment_matches(s1@[i], template[i], b));
            assert(segment_matches(s2@[i], template[i], b));
        }
    }
}

} // verus!
