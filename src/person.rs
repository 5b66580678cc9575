use vstd::prelude::*;

use crate::model::Person;

verus! {

/// The text of a name part that is present and not empty.
pub open spec fn given_part(o: Option<String>) -> Option<Seq<char>> {
    match o {
        Some(x) => if x@.len() > 0 {
            Some(x@)
        } else {
            None
        },
        None => None,
    }
}

/// A person's name as BibLaTeX reads it: `Last, First` where both parts are
/// given, `Last` or `First` where only one is, or the name as it was given.
/// An empty part counts as not given.
pub open spec fn person_text(p: Person) -> Seq<char> {
    match p {
        Person::Structured { last, first } => match (given_part(last), given_part(first)) {
            (Some(l), Some(f)) => l + ", "@ + f,
            (Some(l), None) => l,
            (None, Some(f)) => f,
            (None, None) => Seq::empty(),
        },
        Person::Literal(n) => n@,
    }
}

/// The names of `ps` in order, separated by ` and `.
pub open spec fn join_names(ps: Seq<Person>) -> Seq<char>
    decreases ps.len(),
{
    if ps.len() == 0 {
        Seq::empty()
    } else if ps.len() == 1 {
        person_text(ps[0])
    } else {
        join_names(ps.drop_last()) + " and "@ + person_text(ps.last())
    }
}

fn name_part(o: &Option<String>) -> (r: Option<&String>)
    ensures
        match r {
            Some(x) => given_part(*o) == Some(x@),
            None => given_part(*o) is None,
        },
{
    match o {
        Some(x) => if x.as_str().unicode_len() > 0 {
            Some(x)
        } else {
            None
        },
        None => None,
    }
}

/// Writes one person's name in BibLaTeX form.
pub fn format_person_name(p: &Person) -> (r: String)
    ensures
        r@ == person_text(*p),
{
    match p {
        Person::Structured { last, first } => match (name_part(last), name_part(first)) {
            (Some(l), Some(f)) => {
                let mut s = l.clone();
                s.append(", ");
                s.append(f.as_str());
                s
            },
            (Some(l), None) => l.clone(),
            (None, Some(f)) => f.clone(),
            (None, None) => String::new(),
        },
        Person::Literal(n) => n.clone(),
    }
}

/// Writes the names of a list of persons, joined by ` and `.
pub fn format_person_list(ps: &Vec<Person>) -> (r: String)
    ensures
        r@ == join_names(ps@),
{
    let mut out = String::new();
    let mut i: usize = 0;
    while i < ps.len()
        invariant
            i <= ps@.len(),
            out@ == join_names(ps@.take(i as int)),
        decreases ps@.len() - i,
    {
        let name = format_person_name(&ps[i]);
        assert(ps@.take(i + 1).drop_last() =~= ps@.take(i as int));
        if i > 0 {
            out.append(" and ");
        }
        out.append(name.as_str());
        i = i + 1;
    }
    assert(ps@.take(ps@.len() as int) =~= ps@);
    out
}

} // verus!
