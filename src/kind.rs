use vstd::prelude::*;

use crate::model::EntryType;

verus! {

/// The BibLaTeX type name of each kind of record; any other kind is `misc`.
pub open spec fn kind_name(t: EntryType) -> Seq<char> {
    match t {
        EntryType::Article => "article"@,
        EntryType::Book => "book"@,
        EntryType::Chapter => "incollection"@,
        EntryType::Periodical => "periodical"@,
        EntryType::Report => "report"@,
        EntryType::Thesis => "thesis"@,
        EntryType::Proceedings => "proceedings"@,
        EntryType::Unpublished => "unpublished"@,
        EntryType::Miscellaneous => "misc"@,
        EntryType::Other(_) => "misc"@,
    }
}

/// The BibLaTeX type name under which a record of kind `t` is written.
pub fn entry_type_name(t: &EntryType) -> (r: &'static str)
    ensures
        r@ == kind_name(*t),
{
    match t {
        EntryType::Article => "article",
        EntryType::Book => "book",
        EntryType::Chapter => "incollection",
        EntryType::Periodical => "periodical",
        EntryType::Report => "report",
        EntryType::Thesis => "thesis",
        EntryType::Proceedings => "proceedings",
        EntryType::Unpublished => "unpublished",
        EntryType::Miscellaneous => "misc",
        EntryType::Other(_) => "misc",
    }
}

} // verus!
