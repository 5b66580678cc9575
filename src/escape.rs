use vstd::prelude::*;

use crate::text::push_char;

verus! {

/// The characters that BibLaTeX escapes with a single leading backslash.
pub open spec fn is_structural(c: char) -> bool {
    c == '&' || c == '#' || c == '$' || c == '%' || c == '_' || c == '{' || c == '}' || c == '~'
        || c == '^'
}

/// The characters that escaping changes.
pub open spec fn is_special(c: char) -> bool {
    is_structural(c) || c == '\\'
}

/// The escaped form of one character of the original text.
pub open spec fn escape_char(c: char) -> Seq<char> {
    if c == '\\' {
        "\\textbackslash{}"@
    } else if is_structural(c) {
        seq!['\\', c]
    } else {
        seq![c]
    }
}

/// The text with every character replaced by its escaped form, in one pass.
pub open spec fn escape_text(s: Seq<char>) -> Seq<char>
    decreases s.len(),
{
    if s.len() == 0 {
        Seq::empty()
    } else {
        escape_text(s.drop_last()) + escape_char(s.last())
    }
}

/// Escapes the characters of `text` that carry meaning in BibLaTeX.
///
/// Each character of the input is looked at once: the backslashes that
/// escaping inserts are never escaped again.
pub fn escape_latex(text: &str) -> (r: String)
    ensures
        r@ == escape_text(text@),
{
    let mut out = String::new();
    for c in it: text.chars()
        invariant
            it.seq() == text@,
            out@ == escape_text(text@.take(it.index() as int)),
    {
        let ghost i = it.index();
        assert(text@.take(i + 1).drop_last() =~= text@.take(i as int));
        if c == '\\' {
            out.append("\\textbackslash{}");
        } else if c == '&' || c == '#' || c == '$' || c == '%' || c == '_' || c == '{' || c == '}'
            || c == '~' || c == '^' {
            push_char(&mut out, '\\');
            push_char(&mut out, c);
            assert(out@ == escape_text(text@.take(i + 1)));
        } else {
            push_char(&mut out, c);
        }
    }
    assert(text@.take(text@.len() as int) =~= text@);
    out
}

} // verus!

verus! {

/// Escaping leaves alone a text that holds none of the special characters.
pub proof fn lemma_escape_plain_text(s: Seq<char>)
    requires
        forall|i: int| 0 <= i < s.len() ==> !is_special(#[trigger] s[i]),
    ensures
        escape_text(s) == s,
    decreases s.len(),
{
    if s.len() > 0 {
        let t = s.drop_last();
        assert forall|i: int| 0 <= i < t.len() implies !is_special(#[trigger] t[i]) by {
            assert(t[i] == s[i]);
        }
        lemma_escape_plain_text(t);
        assert(s =~= t + seq![s.last()]);
    }
}

} // verus!
