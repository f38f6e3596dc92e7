//! What a body is. Physics treats every body as a point mass; the kind only
//! changes presentation and classification.

use vstd::prelude::*;

use crate::text::str_eq;

verus! {

/// What a body is, for rendering and classification.
#[derive(Debug, Clone, Copy, PartialEq, Eq, Structural)]
pub enum Kind {
    Star,
    Planet,
    Moon,
    Satellite,
    Debris,
}

/// The kind a scenario or command names: `star`, `moon`, `satellite` and
/// `debris` are themselves, anything else is a planet.
pub open spec fn spec_parse_kind(s: Seq<char>) -> Kind {
    if s == "star"@ {
        Kind::Star
    } else if s == "moon"@ {
        Kind::Moon
    } else if s == "satellite"@ {
        Kind::Satellite
    } else if s == "debris"@ {
        Kind::Debris
    } else {
        Kind::Planet
    }
}

/// The kind named by `s`; unknown names are planets.
pub fn parse_kind(s: &str) -> (k: Kind)
    ensures
        k == spec_parse_kind(s@),
{
    if str_eq(s, "star") {
        Kind::Star
    } else if str_eq(s, "moon") {
        Kind::Moon
    } else if str_eq(s, "satellite") {
        Kind::Satellite
    } else if str_eq(s, "debris") {
        Kind::Debris
    } else {
        Kind::Planet
    }
}

impl Kind {
    /// The lower-case word for the kind, as the details card shows it.
    pub open spec fn spec_label(self) -> Seq<char> {
        match self {
            Kind::Star => "star"@,
            Kind::Planet => "planet"@,
            Kind::Moon => "moon"@,
            Kind::Satellite => "satellite"@,
            Kind::Debris => "debris"@,
        }
    }

    /// The lower-case word for the kind, as the details card shows it.
    pub fn label(self) -> (s: &'static str)
        ensures
            s@ == self.spec_label(),
    {
        match self {
            Kind::Star => "star",
            Kind::Planet => "planet",
            Kind::Moon => "moon",
            Kind::Satellite => "satellite",
            Kind::Debris => "debris",
        }
    }
}

/// Naming a kind by its label and parsing the label back gives the kind.
pub proof fn lemma_parse_kind_label(k: Kind)
    ensures
        spec_parse_kind(k.spec_label()) == k,
{
    reveal_strlit("star");
    reveal_strlit("planet");
    reveal_strlit("moon");
    reveal_strlit("satellite");
    reveal_strlit("debris");
    let l = k.spec_label();
    match k {
        Kind::Star => {},
        Kind::Planet => {
            assert(l[0] != "star"@[0] && l.len() != "moon"@.len() && l[0] != "satellite"@[0] && l[0] != "debris"@[0]);
        },
        Kind::Moon => {
            assert(l[0] != "star"@[0]);
        },
        Kind::Satellite => {
            assert(l.len() != "star"@.len() && l.len() != "moon"@.len());
        },
        Kind::Debris => {
            assert(l[0] != "star"@[0] && l[0] != "moon"@[0] && l[0] != "satellite"@[0]);
        },
    }
}

/// The names held by a list of strings.
pub open spec fn names_of(v: Seq<String>) -> Seq<Seq<char>> {
    Seq::new(v.len(), |i: int| v[i]@)
}

/// The first position at or after `from` where `names` holds `name`.
pub open spec fn first_named_from(names: Seq<Seq<char>>, name: Seq<char>, from: int) -> Option<int>
    decreases names.len() - from,
{
    if from < 0 || from >= names.len() {
        None
    } else if names[from] == name {
        Some(from)
    } else {
        first_named_from(names, name, from + 1)
    }
}

/// The first position where `names` holds `name`.
pub open spec fn first_named(names: Seq<Seq<char>>, name: Seq<char>) -> Option<int> {
    first_named_from(names, name, 0)
}

proof fn lemma_first_named_from(names: Seq<Seq<char>>, name: Seq<char>, from: int)
    requires
        0 <= from <= names.len(),
    ensures
        match first_named_from(names, name, from) {
            Some(p) => from <= p < names.len() && names[p] == name && forall|q: int|
                from <= q < p ==> names[q] != name,
            None => forall|q: int| from <= q < names.len() ==> names[q] != name,
        },
    decreases names.len() - from,
{
    if from < names.len() && names[from] != name {
        lemma_first_named_from(names, name, from + 1);
    }
}

/// `first_named` gives the first position holding the name, and `None` only
/// where no position holds it.
pub proof fn lemma_first_named(names: Seq<Seq<char>>, name: Seq<char>)
    ensures
        match first_named(names, name) {
            Some(p) => 0 <= p < names.len() && names[p] == name && forall|q: int|
                0 <= q < p ==> names[q] != name,
            None => forall|q: int| 0 <= q < names.len() ==> names[q] != name,
        },
{
    lemma_first_named_from(names, name, 0);
}

/// The index of the first of `names` equal to `name`, as a body lookup by
/// name finds it.
pub fn find_name(names: &Vec<String>, name: &str) -> (r: Option<usize>)
    ensures
        match r {
            Some(i) => first_named(names_of(names@), name@) == Some(i as int),
            None => first_named(names_of(names@), name@) is None,
        },
{
    let ghost ns = names_of(names@);
    let mut i: usize = 0;
    while i < names.len()
        invariant
            i <= names@.len(),
            ns == names_of(names@),
            first_named_from(ns, name@, 0) == first_named_from(ns, name@, i as int),
        decreases names@.len() - i,
    {
        if str_eq(names[i].as_str(), name) {
            return Some(i);
        }
        i += 1;
    }
    None
}

} // verus!
