use vstd::prelude::*;

use crate::date::{date_text, format_date};
use crate::escape::{escape_latex, escape_text};
use crate::model::{Entry, EntryType, Publisher};
use crate::person::{format_person_list, join_names};

verus! {

/// One `name = {value}` field of an entry block.
pub struct Field {
    pub name: String,
    pub value: String,
}

impl View for Field {
    type V = (Seq<char>, Seq<char>);

    open spec fn view(&self) -> (Seq<char>, Seq<char>) {
        (self.name@, self.value@)
    }
}

/// The (name, value) pairs that a list of fields stands for.
pub open spec fn fields_view(fs: Seq<Field>) -> Seq<(Seq<char>, Seq<char>)> {
    fs.map_values(|f: Field| f@)
}

/// The text of an optional string.
pub open spec fn opt_view(o: Option<String>) -> Option<Seq<char>> {
    match o {
        Some(s) => Some(s@),
        None => None,
    }
}

/// The field `name` with value `v` where `v` is present, and nothing where not.
pub open spec fn opt_field(name: Seq<char>, v: Option<Seq<char>>) -> Seq<(Seq<char>, Seq<char>)> {
    match v {
        Some(x) => seq![(name, x)],
        None => Seq::empty(),
    }
}

/// The escaped form of an optional string.
pub open spec fn escaped_opt(o: Option<String>) -> Option<Seq<char>> {
    match o {
        Some(s) => Some(escape_text(s@)),
        None => None,
    }
}

/// The author list, where at least one author is known.
pub open spec fn author_value(e: Entry) -> Option<Seq<char>> {
    match e.authors {
        Some(ps) => if ps@.len() > 0 {
            Some(escape_text(join_names(ps@)))
        } else {
            None
        },
        None => None,
    }
}

/// The date, where it has a form that can be written.
pub open spec fn date_value(e: Entry) -> Option<Seq<char>> {
    match e.date {
        Some(d) => if date_text(d).len() > 0 {
            Some(date_text(d))
        } else {
            None
        },
        None => None,
    }
}

/// `name` or `name, location`; nothing where the name is unknown.
pub open spec fn publisher_text(p: Publisher) -> Option<Seq<char>> {
    match (p.name, p.location) {
        (Some(n), Some(l)) => Some(n@ + ", "@ + l@),
        (Some(n), None) => Some(n@),
        (None, _) => None,
    }
}

/// The escaped publisher text, where there is one and it is not empty.
pub open spec fn publisher_value(e: Entry) -> Option<Seq<char>> {
    match e.publisher {
        Some(p) => match publisher_text(p) {
            Some(t) => if t.len() > 0 {
                Some(escape_text(t))
            } else {
                None
            },
            None => None,
        },
        None => None,
    }
}

/// The fields that every kind of entry may have, in their fixed order.
pub open spec fn own_fields(e: Entry) -> Seq<(Seq<char>, Seq<char>)> {
    opt_field("title"@, escaped_opt(e.title))
        + opt_field("author"@, author_value(e))
        + opt_field("date"@, date_value(e))
        + opt_field("publisher"@, publisher_value(e))
        + opt_field("url"@, opt_view(e.url))
        + opt_field("doi"@, opt_view(e.doi))
        + opt_field("pages"@, opt_view(e.page_range))
}

/// Whether the entry is an article that has a parent to take journal data from.
pub open spec fn promotes_journal(e: Entry) -> bool {
    e.entry_type is Article && e.parents@.len() > 0
}

/// The journal title, volume and number of an article, read from its first
/// parent.
pub open spec fn journal_fields(e: Entry) -> Seq<(Seq<char>, Seq<char>)> {
    if promotes_journal(e) {
        let p = e.parents@[0];
        opt_field("journaltitle"@, escaped_opt(p.title))
            + opt_field("volume"@, opt_view(p.volume))
            + opt_field("number"@, opt_view(p.issue))
    } else {
        Seq::empty()
    }
}

/// All fields of an entry block, in the order in which they are written.
pub open spec fn fields_of(e: Entry) -> Seq<(Seq<char>, Seq<char>)> {
    own_fields(e) + journal_fields(e)
}

fn push_field(fs: &mut Vec<Field>, name: &str, value: Option<String>)
    ensures
        fields_view(final(fs)@) == fields_view(old(fs)@) + opt_field(name@, opt_view(value)),
{
    let ghost before = fs@;
    match value {
        Some(v) => {
            let f = Field { name: String::from_str(name), value: v };
            fs.push(f);
            assert(fields_view(fs@) =~= fields_view(before) + opt_field(name@, opt_view(Some(f.value))));
        },
        None => {
            assert(fields_view(fs@) =~= fields_view(before) + opt_field(name@, opt_view(value)));
        },
    }
}

fn escaped(o: &Option<String>) -> (r: Option<String>)
    ensures
        opt_view(r) == escaped_opt(*o),
{
    match o {
        Some(s) => Some(escape_latex(s.as_str())),
        None => None,
    }
}

fn verbatim(o: &Option<String>) -> (r: Option<String>)
    ensures
        opt_view(r) == opt_view(*o),
{
    match o {
        Some(s) => Some(s.clone()),
        None => None,
    }
}

/// Lists the fields of an entry block: title, author, date, publisher, url,
/// doi and pages, each where present, then for an article with a parent the
/// journal title, volume and number of that parent.
pub fn entry_fields(e: &Entry) -> (r: Vec<Field>)
    ensures
        fields_view(r@) == fields_of(*e),
{
    let mut fs: Vec<Field> = Vec::new();
    push_field(&mut fs, "title", escaped(&e.title));
    let author = match &e.authors {
        Some(ps) => if ps.len() > 0 {
            let names = format_person_list(ps);
            Some(escape_latex(names.as_str()))
        } else {
            None
        },
        None => None,
    };
    push_field(&mut fs, "author", author);
    let date = match &e.date {
        Some(d) => {
            let s = format_date(d);
            if s.as_str().unicode_len() > 0 {
                Some(s)
            } else {
                None
            }
        },
        None => None,
    };
    push_field(&mut fs, "date", date);
    let publisher = match &e.publisher {
        Some(p) => match &p.name {
            Some(n) => {
                let mut s = n.clone();
                match &p.location {
                    Some(l) => {
                        s.append(", ");
                        s.append(l.as_str());
                    },
                    None => {},
                }
                if s.as_str().unicode_len() > 0 {
                    Some(escape_latex(s.as_str()))
                } else {
                    None
                }
            },
            None => None,
        },
        None => None,
    };
    push_field(&mut fs, "publisher", publisher);
    push_field(&mut fs, "url", verbatim(&e.url));
    push_field(&mut fs, "doi", verbatim(&e.doi));
    push_field(&mut fs, "pages", verbatim(&e.page_range));
    assert(fields_view(fs@) =~= own_fields(*e));
    if matches!(e.entry_type, EntryType::Article) && e.parents.len() > 0 {
        let p = &e.parents[0];
        push_field(&mut fs, "journaltitle", escaped(&p.title));
        push_field(&mut fs, "volume", verbatim(&p.volume));
        push_field(&mut fs, "number", verbatim(&p.issue));
    }
    assert(fields_view(fs@) =~= fields_of(*e));
    fs
}

} // verus!

verus! {

/// The names of the fields that an article takes from its journal.
pub open spec fn is_journal_name(n: Seq<char>) -> bool {
    n == "journaltitle"@ || n == "volume"@ || n == "number"@
}

/// Journal data is taken only for an article with a parent. There the first
/// parent's title, volume and number are among the entry's fields; in every
/// other entry no field is named `journaltitle`, `volume` or `number`.
pub proof fn lemma_journal_promotion(e: Entry)
    ensures
        promotes_journal(e) ==> {
            let p = e.parents@[0];
            &&& p.title is Some ==> fields_of(e).contains(("journaltitle"@, escape_text(p.title->0@)))
            &&& p.volume is Some ==> fields_of(e).contains(("volume"@, p.volume->0@))
            &&& p.issue is Some ==> fields_of(e).contains(("number"@, p.issue->0@))
        },
        !promotes_journal(e) ==> forall|i: int|
            0 <= i < fields_of(e).len() ==> !is_journal_name(#[trigger] fields_of(e)[i].0),
{
    let own = own_fields(e);
    if promotes_journal(e) {
        let p = e.parents@[0];
        let j = journal_fields(e);
        let fs = fields_of(e);
        let t = opt_field("journaltitle"@, escaped_opt(p.title));
        let v = opt_field("volume"@, opt_view(p.volume));
        let n = opt_field("number"@, opt_view(p.issue));
        assert(j == t + v + n);
        if p.title is Some {
            assert(fs[own.len() as int] == ("journaltitle"@, escape_text(p.title->0@)));
        }
        if p.volume is Some {
            assert(fs[(own.len() + t.len()) as int] == ("volume"@, p.volume->0@));
        }
        if p.issue is Some {
            assert(fs[(own.len() + t.len() + v.len()) as int] == ("number"@, p.issue->0@));
        }
    } else {
        reveal_strlit("title");
        reveal_strlit("author");
        reveal_strlit("date");
        reveal_strlit("publisher");
        reveal_strlit("url");
        reveal_strlit("doi");
        reveal_strlit("pages");
        reveal_strlit("journaltitle");
        reveal_strlit("volume");
        reveal_strlit("number");
        assert(!is_journal_name("author"@)) by {
            assert("author"@[0] != "volume"@[0]);
            assert("author"@[0] != "number"@[0]);
        }
        assert forall|i: int| 0 <= i < fields_of(e).len() implies !is_journal_name(
            #[trigger] fields_of(e)[i].0,
        ) by {
            assert(fields_of(e) =~= own);
            let name = own[i].0;
            assert(name == "title"@ || name == "author"@ || name == "date"@ || name == "publisher"@
                || name == "url"@ || name == "doi"@ || name == "pages"@);
        }
    }
}

} // verus!
