//! The index page: the list of documented units as HTML.
//!
//! The page is a fixed head, one list item per unit in the order given, and
//! a fixed tail. Each item links to the unit's own documentation, which
//! rustdoc writes under the unit's crate name. Unit names are escaped, so a
//! name can never add markup to the page.

use crate::units::{unit_views, DocumentableUnit, UnitView};
use vstd::prelude::*;
use vstd::std_specs::iter::IteratorSpec;

verus! {

pub const INDEX_HEAD: &'static str =
    "<!DOCTYPE html>\n<html>\n<head>\n<meta charset=\"utf-8\">\n<title>Documentation</title>\n</head>\n<body>\n<h1>Documentation</h1>\n<ul>\n";

pub const INDEX_TAIL: &'static str = "</ul>\n</body>\n</html>\n";

/// Whether `c` is one of the six characters that are written as an entity.
pub open spec fn is_markup(c: char) -> bool {
    c == '<' || c == '>' || c == '&' || c == '"' || c == '\'' || c == '/'
}

/// How one character of a name is written in the page.
pub open spec fn escaped_char(c: char) -> Seq<char> {
    if c == '<' {
        seq!['&', 'l', 't', ';']
    } else if c == '>' {
        seq!['&', 'g', 't', ';']
    } else if c == '&' {
        seq!['&', 'a', 'm', 'p', ';']
    } else if c == '"' {
        seq!['&', 'q', 'u', 'o', 't', ';']
    } else if c == '\'' {
        seq!['&', '#', 'x', '2', '7', ';']
    } else if c == '/' {
        seq!['&', '#', 'x', '2', 'f', ';']
    } else {
        seq![c]
    }
}

/// `text` with every markup character replaced by its entity.
pub open spec fn escape_html(text: Seq<char>) -> Seq<char>
    decreases text.len(),
{
    if text.len() == 0 {
        Seq::empty()
    } else {
        escape_html(text.drop_last()) + escaped_char(text.last())
    }
}

/// The name under which rustdoc writes a unit's pages: hyphens become
/// underscores.
pub open spec fn crate_name(name: Seq<char>) -> Seq<char> {
    name.map_values(
        |c: char|
            if c == '-' {
                '_'
            } else {
                c
            },
    )
}

/// The list item of one unit.
pub open spec fn index_entry(unit: UnitView) -> Seq<char> {
    "<li><a href=\""@ + escape_html(crate_name(unit.name)) + "/index.html\">"@ + escape_html(
        unit.name,
    ) + "</a></li>\n"@
}

/// The list items of `units`, in order.
pub open spec fn index_entries(units: Seq<UnitView>) -> Seq<char>
    decreases units.len(),
{
    if units.len() == 0 {
        Seq::empty()
    } else {
        index_entries(units.drop_last()) + index_entry(units.last())
    }
}

/// The whole index page for `units`.
pub open spec fn index_page(units: Seq<UnitView>) -> Seq<char> {
    INDEX_HEAD@ + index_entries(units) + INDEX_TAIL@
}

/// Appends `text` to `out`, escaped.
pub fn escape_into(out: &mut String, text: &str)
    ensures
        final(out)@ == old(out)@ + escape_html(text@),
{
    broadcast use vstd::string::group_string_axioms;

    let chars = text.chars();
    assert(chars.remaining() == text@);
    for c in it: chars
        invariant
            it.seq() == text@,
            out@ == old(out)@ + escape_html(text@.take(it.index())),
    {
        proof {
            reveal_strlit("&lt;");
            reveal_strlit("&gt;");
            reveal_strlit("&amp;");
            reveal_strlit("&quot;");
            reveal_strlit("&#x27;");
            reveal_strlit("&#x2f;");
            let done = text@.take(it.index() + 1);
            assert(done.drop_last() == text@.take(it.index()));
            assert(done.last() == c);
        }
        if c == '<' {
            out.append("&lt;");
            assert("&lt;"@ == escaped_char(c));
        } else if c == '>' {
            out.append("&gt;");
            assert("&gt;"@ == escaped_char(c));
        } else if c == '&' {
            out.append("&amp;");
            assert("&amp;"@ == escaped_char(c));
        } else if c == '"' {
            out.append("&quot;");
            assert("&quot;"@ == escaped_char(c));
        } else if c == '\'' {
            out.append("&#x27;");
            assert("&#x27;"@ == escaped_char(c));
        } else if c == '/' {
            out.append("&#x2f;");
            assert("&#x2f;"@ == escaped_char(c));
        } else {
            out.push(c);
        }
    }
    assert(text@.take(text@.len() as int) == text@);
}

/// The crate name of a unit called `name`.
pub fn crate_name_of(name: &str) -> (out: String)
    ensures
        out@ == crate_name(name@),
{
    broadcast use vstd::string::group_string_axioms;

    let mut out = String::new();
    let chars = name.chars();
    assert(chars.remaining() == name@);
    for c in it: chars
        invariant
            it.seq() == name@,
            out@ == crate_name(name@.take(it.index())),
    {
        if c == '-' {
            out.push('_');
        } else {
            out.push(c);
        }
        assert(out@ =~= crate_name(name@.take(it.index() + 1)));
    }
    assert(name@.take(name@.len() as int) == name@);
    out
}

/// Appends the list item of `unit` to `out`.
fn entry_into(out: &mut String, unit: &DocumentableUnit)
    ensures
        final(out)@ == old(out)@ + index_entry(unit@),
{
    let linked = crate_name_of(unit.name.as_str());
    out.append("<li><a href=\"");
    escape_into(out, linked.as_str());
    out.append("/index.html\">");
    escape_into(out, unit.name.as_str());
    out.append("</a></li>\n");
    assert(out@ =~= old(out)@ + index_entry(unit@));
}

/// Renders the index page for `units`, which are listed in the order given.
pub fn render(units: &Vec<DocumentableUnit>) -> (html: String)
    ensures
        html@ == index_page(unit_views(units@)),
{
    let ghost views = unit_views(units@);
    let mut html = String::from_str(INDEX_HEAD);
    let mut i: usize = 0;
    while i < units.len()
        invariant
            i <= units.len(),
            views == unit_views(units@),
            html@ == INDEX_HEAD@ + index_entries(views.take(i as int)),
        decreases units.len() - i,
    {
        entry_into(&mut html, &units[i]);
        proof {
            let done = views.take(i + 1);
            assert(done.drop_last() == views.take(i as int));
            assert(done.last() == units[i as int]@);
        }
        i = i + 1;
    }
    assert(views.take(units.len() as int) == views);
    html.append(INDEX_TAIL);
    html
}

/// Rendering is a function of the ordered unit list alone: the same list
/// gives the same page, character for character.
pub proof fn lemma_render_deterministic(first: Seq<UnitView>, second: Seq<UnitView>)
    requires
        first == second,
    ensures
        index_page(first) == index_page(second),
{
}

/// A name without markup characters is written as it is.
pub proof fn lemma_escape_plain(text: Seq<char>)
    requires
        forall|i: int| 0 <= i < text.len() ==> !is_markup(#[trigger] text[i]),
    ensures
        escape_html(text) == text,
    decreases text.len(),
{
    if text.len() > 0 {
        lemma_escape_plain(text.drop_last());
        assert(escape_html(text) =~= text);
    }
}

/// Escaped text holds none of `<`, `>`, `"`, `'` and `/`: a name cannot open
/// or close a tag or an attribute.
pub proof fn lemma_escape_leaves_no_markup(text: Seq<char>)
    ensures
        forall|i: int|
            0 <= i < escape_html(text).len() ==> {
                let c = #[trigger] escape_html(text)[i];
                c != '<' && c != '>' && c != '"' && c != '\'' && c != '/'
            },
    decreases text.len(),
{
    if text.len() > 0 {
        lemma_escape_leaves_no_markup(text.drop_last());
        let before = escape_html(text.drop_last());
        let tail = escaped_char(text.last());
        assert forall|i: int| 0 <= i < escape_html(text).len() implies {
            let c = #[trigger] escape_html(text)[i];
            c != '<' && c != '>' && c != '"' && c != '\'' && c != '/'
        } by {
            if i < before.len() {
                assert(escape_html(text)[i] == before[i]);
            } else {
                assert(escape_html(text)[i] == tail[i - before.len()]);
            }
        }
    }
}

/// Where the list item of unit `i` starts within the list items.
pub open spec fn entry_offset(units: Seq<UnitView>, i: int) -> int {
    index_entries(units.take(i)).len() as int
}

/// Units are listed in the order given: the item of unit `i` stands in the
/// page at its offset, after the items of all units before it and before
/// those of all units after it.
pub proof fn lemma_entries_in_order(units: Seq<UnitView>, i: int)
    requires
        0 <= i < units.len(),
    ensures
        entry_offset(units, i) + index_entry(units[i]).len() == entry_offset(units, i + 1),
        entry_offset(units, i + 1) <= index_entries(units).len(),
        index_entries(units).subrange(entry_offset(units, i), entry_offset(units, i + 1))
            == index_entry(units[i]),
        index_page(units).subrange(
            INDEX_HEAD@.len() + entry_offset(units, i),
            INDEX_HEAD@.len() + entry_offset(units, i + 1),
        ) == index_entry(units[i]),
    decreases units.len(),
{
    let upto = units.take(i + 1);
    assert(upto.drop_last() == units.take(i));
    assert(upto.last() == units[i]);
    if i + 1 == units.len() {
        assert(units.take(i + 1) == units);
    } else {
        let shorter = units.drop_last();
        lemma_entries_in_order(shorter, i);
        assert(shorter.take(i) == units.take(i));
        assert(shorter.take(i + 1) == units.take(i + 1));
        assert(shorter[i] == units[i]);
    }
    let from = entry_offset(units, i);
    let to = entry_offset(units, i + 1);
    assert(index_entries(units).subrange(from, to) =~= index_entry(units[i]));
    assert(index_page(units).subrange(INDEX_HEAD@.len() + from, INDEX_HEAD@.len() + to)
        =~= index_entry(units[i]));
}

} // verus!
