use vstd::prelude::*;

use crate::fields::{entry_fields, fields_of, fields_view, Field};
use crate::kind::{entry_type_name, kind_name};
use crate::model::{Entry, Library};

verus! {

/// One field as it stands in an entry block: `,\n  name = {value}`.
pub open spec fn field_line(f: (Seq<char>, Seq<char>)) -> Seq<char> {
    ",\n  "@ + f.0 + " = {"@ + f.1 + "}"@
}

/// The lines of the fields, in order.
pub open spec fn render_fields(fs: Seq<(Seq<char>, Seq<char>)>) -> Seq<char>
    decreases fs.len(),
{
    if fs.len() == 0 {
        Seq::empty()
    } else {
        render_fields(fs.drop_last()) + field_line(fs.last())
    }
}

/// The block of one entry: `@type{key`, its fields, and a closing brace
/// followed by a blank line.
pub open spec fn entry_block(e: Entry) -> Seq<char> {
    "@"@ + kind_name(e.entry_type) + "{"@ + e.key@ + render_fields(fields_of(e)) + "\n}\n\n"@
}

/// The blocks of all entries, in order.
pub open spec fn library_text(es: Seq<Entry>) -> Seq<char>
    decreases es.len(),
{
    if es.len() == 0 {
        Seq::empty()
    } else {
        library_text(es.drop_last()) + entry_block(es.last())
    }
}

fn write_fields(out: &mut String, fs: &Vec<Field>)
    ensures
        final(out)@ == old(out)@ + render_fields(fields_view(fs@)),
{
    let ghost start = out@;
    let mut i: usize = 0;
    while i < fs.len()
        invariant
            i <= fs@.len(),
            out@ == start + render_fields(fields_view(fs@.take(i as int))),
        decreases fs@.len() - i,
    {
        let f = &fs[i];
        out.append(",\n  ");
        out.append(f.name.as_str());
        out.append(" = {");
        out.append(f.value.as_str());
        out.append("}");
        assert(fields_view(fs@.take(i + 1)).drop_last() =~= fields_view(fs@.take(i as int)));
        assert(out@ =~= start + render_fields(fields_view(fs@.take(i + 1))));
        i = i + 1;
    }
    assert(fs@.take(fs@.len() as int) =~= fs@);
}

/// Appends the block of one entry to `out`.
pub fn write_entry(out: &mut String, e: &Entry)
    ensures
        final(out)@ == old(out)@ + entry_block(*e),
{
    let ghost start = out@;
    out.append("@");
    out.append(entry_type_name(&e.entry_type));
    out.append("{");
    out.append(e.key.as_str());
    let fs = entry_fields(e);
    write_fields(out, &fs);
    out.append("\n}\n\n");
    assert(out@ =~= start + entry_block(*e));
}

/// Writes every entry of the library as a BibLaTeX block, in library order.
pub fn export_to_biblatex(library: &Library) -> (r: String)
    ensures
        r@ == library_text(library.entries@),
        library.entries@.len() == 0 ==> r@.len() == 0,
{
    let mut out = String::new();
    let mut i: usize = 0;
    while i < library.entries.len()
        invariant
            i <= library.entries@.len(),
            out@ == library_text(library.entries@.take(i as int)),
        decreases library.entries@.len() - i,
    {
        write_entry(&mut out, &library.entries[i]);
        assert(library.entries@.take(i + 1).drop_last() =~= library.entries@.take(i as int));
        i = i + 1;
    }
    assert(library.entries@.take(library.entries@.len() as int) =~= library.entries@);
    out
}

} // verus!

verus! {

/// The output depends on the entries alone: two exports of equal libraries
/// give the same text.
pub proof fn lemma_export_deterministic(a: &Library, b: &Library)
    requires
        a.entries@ == b.entries@,
    ensures
        library_text(a.entries@) == library_text(b.entries@),
{
}

/// A library without entries is written as the empty text.
pub proof fn lemma_empty_library(lib: &Library)
    requires
        lib.entries@.len() == 0,
    ensures
        library_text(lib.entries@) == Seq::<char>::empty(),
{
}

} // verus!
