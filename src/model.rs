use vstd::prelude::*;

verus! {

/// The kind of a bibliographic record.
#[derive(Clone, Debug)]
pub enum EntryType {
    Article,
    Book,
    Chapter,
    Periodical,
    Report,
    Thesis,
    Proceedings,
    Unpublished,
    Miscellaneous,
    /// Any other kind, under its own tag.
    Other(String),
}

/// A person, either with separately known name parts or as one literal name.
#[derive(Clone, Debug)]
pub enum Person {
    Structured { last: Option<String>, first: Option<String> },
    Literal(String),
}

/// A date of which only the year is certain to be known.
///
/// `month` counts from 1 to 12 and `day` from 1 to 31.
#[derive(Clone, Copy, Debug)]
pub struct PartialDate {
    pub year: i32,
    pub month: Option<u8>,
    pub day: Option<u8>,
}

/// The publisher of a record and where it is based.
#[derive(Clone, Debug)]
pub struct Publisher {
    pub name: Option<String>,
    pub location: Option<String>,
}

/// One bibliographic record.
///
/// `parents` are the publications that contain this one; for an article the
/// first of them is its journal, whose `volume` and `issue` are read too.
#[derive(Debug)]
pub struct Entry {
    pub key: String,
    pub entry_type: EntryType,
    pub title: Option<String>,
    pub authors: Option<Vec<Person>>,
    pub date: Option<PartialDate>,
    pub publisher: Option<Publisher>,
    pub url: Option<String>,
    pub doi: Option<String>,
    pub page_range: Option<String>,
    pub volume: Option<String>,
    pub issue: Option<String>,
    pub parents: Vec<Entry>,
}

/// The records of a bibliography, in the order in which they are written out.
#[derive(Debug)]
pub struct Library {
    pub entries: Vec<Entry>,
}

impl Entry {
    /// A record of the given key and type with every optional field absent.
    pub fn new(key: String, entry_type: EntryType) -> (r: Entry)
        ensures
            r.key@ == key@,
            r.entry_type == entry_type,
            r.title is None,
            r.authors is None,
            r.date is None,
            r.publisher is None,
            r.url is None,
            r.doi is None,
            r.page_range is None,
            r.volume is None,
            r.issue is None,
            r.parents@.len() == 0,
    {
        Entry {
            key,
            entry_type,
            title: None,
            authors: None,
            date: None,
            publisher: None,
            url: None,
            doi: None,
            page_range: None,
            volume: None,
            issue: None,
            parents: Vec::new(),
        }
    }
}

} // verus!
