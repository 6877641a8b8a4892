//! Extraction: the markup of the elements that a selector matches in an HTML document,
//! joined by line-break elements.

use vstd::prelude::*;

verus! {

/// kuchiki's compiled selector list, held opaque.
#[verifier::external_type_specification]
#[verifier::external_body]
pub struct ExSelectors(kuchiki::Selectors);

/// kuchiki's handle on a node of a document tree, held opaque.
#[verifier::external_type_specification]
#[verifier::external_body]
pub struct ExNodeRef(kuchiki::NodeRef);

/// Whether kuchiki compiles `text` as a list of selectors.
pub uninterp spec fn css_selector_valid(text: Seq<char>) -> bool;

/// The serialized markup of each element of the HTML document `html` that the selector
/// list `selector` matches, in document order.
pub uninterp spec fn selected_markup(html: Seq<char>, selector: Seq<char>) -> Seq<Seq<char>>;

/// The markup of a line-break element, which stands between two extracted fragments.
pub open spec fn separator() -> Seq<char> {
    seq!['<', 'b', 'r', '>']
}

/// The fragments one after another, with a separator between any two neighbours.
pub open spec fn joined(parts: Seq<Seq<char>>) -> Seq<char>
    decreases parts.len(),
{
    if parts.len() == 0 {
        Seq::empty()
    } else if parts.len() == 1 {
        parts[0]
    } else {
        joined(parts.drop_last()) + separator() + parts.last()
    }
}

/// What extraction makes of the document `html` with the selector list `selector`.
pub open spec fn extraction(html: Seq<char>, selector: Seq<char>) -> Seq<char> {
    joined(selected_markup(html, selector))
}

/// The views of a sequence of strings.
pub open spec fn texts(v: Seq<String>) -> Seq<Seq<char>> {
    v.map_values(|s: String| s@)
}

/// A compiled CSS selector list, together with the text it was compiled from.
pub struct CssSelector {
    text: String,
    compiled: kuchiki::Selectors,
}

impl View for CssSelector {
    type V = Seq<char>;

    closed spec fn view(&self) -> Seq<char> {
        self.text@
    }
}

/// Relies on kuchiki::Selectors::compile, which fails on exactly the texts that are not
/// a selector list it supports, and otherwise depends on the text alone.
#[verifier::external_body]
fn compile_selectors(text: &str) -> (r: Result<kuchiki::Selectors, ()>)
    ensures
        r is Ok <==> css_selector_valid(text@),
{
    kuchiki::Selectors::compile(text)
}

impl CssSelector {
    /// Compiles `text`; fails where it is not a selector list.
    pub fn compile(text: &str) -> (r: Result<CssSelector, ()>)
        ensures
            r is Ok <==> css_selector_valid(text@),
            r matches Ok(s) ==> s@ == text@,
    {
        match compile_selectors(text) {
            Ok(compiled) => Ok(CssSelector { text: text.to_owned(), compiled }),
            Err(()) => Err(()),
        }
    }

    /// The text this selector list was compiled from.
    pub fn as_str(&self) -> (r: &str)
        ensures
            r@ == self@,
    {
        self.text.as_str()
    }
}

/// An HTML document parsed from `text`. The tree in `root` is always the one that
/// `parse_html_document` built from `text`.
struct Document {
    text: String,
    root: kuchiki::NodeRef,
}

/// Relies on kuchiki::parse_html_with_options: html5ever's parser, with scripting
/// disabled, builds the document tree of `text` and never rejects it.
#[verifier::external_body]
fn parse_html_document(text: &str) -> kuchiki::NodeRef {
    let opts = kuchiki::ParseOpts {
        tree_builder: html5ever::tree_builder::TreeBuilderOpts {
            scripting_enabled: false,
            ..Default::default()
        },
        ..Default::default()
    };
    kuchiki::traits::TendrilSink::one(kuchiki::parse_html_with_options(opts), text)
}

impl Document {
    fn parse(text: &str) -> (d: Document)
        ensures
            d.text@ == text@,
    {
        Document { text: text.to_owned(), root: parse_html_document(text) }
    }
}

/// Relies on kuchiki::Selectors::filter over the elements of the document in tree order
/// (depth first, each element before its descendants), with each match serialized,
/// descendants and attributes included, by kuchiki's NodeRef::to_string. The document's
/// tree is the one parsed from its text, and the selector list the one compiled from its
/// text, so the result depends on those two texts alone.
#[verifier::external_body]
fn select_markup(document: &Document, selector: &CssSelector) -> (r: Vec<String>)
    ensures
        texts(r@) == selected_markup(document.text@, selector.text@),
{
    let elements = kuchiki::iter::NodeIterator::elements(document.root.descendants());
    selector.compiled.filter(elements).map(|e| e.as_node().to_string()).collect()
}

/// Joins the fragments in order, with a line-break element between any two neighbours:
/// none before the first, none after the last, and nothing at all for no fragments.
pub fn recompose(fragments: &Vec<String>) -> (r: String)
    ensures
        r@ == joined(texts(fragments@)),
{
    let ghost parts = texts(fragments@);
    let mut out = String::new();
    let mut i: usize = 0;
    while i < fragments.len()
        invariant
            i <= fragments.len(),
            parts == texts(fragments@),
            out@ == joined(parts.take(i as int)),
        decreases fragments.len() - i,
    {
        let ghost before = out@;
        if i > 0 {
            out.append("<br>");
            proof {
                reveal_strlit("<br>");
            }
        }
        out.append(fragments[i].as_str());
        proof {
            let next = parts.take(i + 1);
            assert(next.drop_last() =~= parts.take(i as int));
            assert(next.last() == fragments@[i as int]@);
            if i == 0 {
                assert(out@ =~= before + parts[0]);
            } else {
                assert(out@ =~= before + separator() + next.last());
            }
        }
        i += 1;
    }
    proof {
        assert(parts.take(fragments.len() as int) =~= parts);
    }
    out
}

/// Extracts from the HTML document `html` the elements that `selector` matches, and
/// recomposes their markup into one fragment. A selector that matches nothing gives
/// the empty string.
pub fn extract(html: &str, selector: &CssSelector) -> (r: String)
    ensures
        r@ == extraction(html@, selector@),
{
    let document = Document::parse(html);
    let fragments = select_markup(&document, selector);
    recompose(&fragments)
}

} // verus!
