//! Rewriting of proxied HTML so that relative links resolve against the
//! upstream server.
use vstd::prelude::*;
use crate::text::{chars_of, find_from, first_occurrence, lemma_first_occurrence, occurs_at};

verus! {

/// The `<base>` element that points relative links at `href`.
pub open spec fn base_tag(href: Seq<char>) -> Seq<char> {
    "<base href=\""@ + href + "\">"@
}

/// The document wrapped behind a synthetic head that holds only `tag`.
pub open spec fn with_synthetic_head(doc: Seq<char>, tag: Seq<char>) -> Seq<char> {
    "<head>"@ + tag + "</head>"@ + doc
}

/// `piece` put into `doc` at index `at`.
pub open spec fn inserted(doc: Seq<char>, at: int, piece: Seq<char>) -> Seq<char> {
    doc.subrange(0, at) + piece + doc.subrange(at, doc.len() as int)
}

/// Where the first head opening tag of a document ends: after the first
/// `<head>` or the first `<head ...>` closed by a `>`, whichever comes first
/// in the document; `None` when there is neither.
pub open spec fn head_tag_end(doc: Seq<char>) -> Option<int> {
    let bare = first_occurrence(doc, "<head>"@, 0);
    let open = first_occurrence(doc, "<head "@, 0);
    match bare {
        Some(a) => match open {
            Some(b) if b < a => match first_occurrence(doc, ">"@, b) {
                Some(q) => Some(q + 1),
                None => Some(a + "<head>"@.len()),
            },
            _ => Some(a + "<head>"@.len()),
        },
        None => match open {
            Some(b) => match first_occurrence(doc, ">"@, b) {
                Some(q) => Some(q + 1),
                None => None,
            },
            None => None,
        },
    }
}

/// The document with a `<base href>` element placed right after its first
/// head opening tag, a bare `<head>` or a `<head ...>` closed by a `>`,
/// whichever comes first. A document without either gets a synthetic head
/// in front.
pub open spec fn with_base_tag(doc: Seq<char>, href: Seq<char>) -> Seq<char> {
    match head_tag_end(doc) {
        Some(e) => inserted(doc, e, base_tag(href)),
        None => with_synthetic_head(doc, base_tag(href)),
    }
}

fn insert_at(contents: &mut String, at: usize, piece: &str)
    requires
        at <= old(contents)@.len(),
    ensures
        final(contents)@ == inserted(old(contents)@, at as int, piece@),
{
    let s = contents.as_str();
    let n = s.unicode_len();
    let mut r = String::from_str(s.substring_char(0, at));
    r.append(piece);
    r.append(s.substring_char(at, n));
    *contents = r;
}

/// Inserts `<base href="{base_href}">` after the document's head opening tag,
/// or puts a synthetic head holding it in front of a document that has none.
pub fn insert_base_tag(contents: &mut String, base_href: &str)
    ensures
        final(contents)@ == with_base_tag(old(contents)@, base_href@),
{
    let doc = chars_of(contents.as_str());
    let n = doc.len();
    let mut tag = String::from_str("<base href=\"");
    tag.append(base_href);
    tag.append("\">");
    assert(tag@ == base_tag(base_href@));
    let head = chars_of("<head>");
    let head_with_attributes = chars_of("<head ");
    let close = chars_of(">");
    let bare = find_from(&doc, &head, 0);
    let open = find_from(&doc, &head_with_attributes, 0);
    proof {
        lemma_first_occurrence(doc@, head@, 0);
        lemma_first_occurrence(doc@, head_with_attributes@, 0);
        reveal_strlit(">");
    }
    let end: Option<usize> = match open {
        Some(b) if bare.is_none() || b < bare.unwrap() => {
            proof {
                lemma_first_occurrence(doc@, close@, b as int);
            }
            match find_from(&doc, &close, b) {
                Some(q) => {
                    assert(q + 1 <= doc@.len());
                    Some(q + 1)
                },
                None => match bare {
                    Some(a) => {
                        assert(a + head@.len() <= doc@.len());
                        Some(a + head.len())
                    },
                    None => None,
                },
            }
        },
        _ => match bare {
            Some(a) => {
                assert(a + head@.len() <= doc@.len());
                Some(a + head.len())
            },
            None => None,
        },
    };
    assert(end matches Some(e) ==> head_tag_end(doc@) == Some(e as int) && e <= doc@.len());
    assert(end is None ==> head_tag_end(doc@) is None);
    if let Some(e) = end {
        insert_at(contents, e, tag.as_str());
        return;
    }
    let mut r = String::from_str("<head>");
    r.append(tag.as_str());
    r.append("</head>");
    r.append(contents.as_str());
    *contents = r;
}

/// The rewritten document keeps everything up to the end of the first
/// head opening tag, has the `<base>` element right there, and then the
/// rest of the document unchanged.
pub proof fn lemma_base_tag_follows_head_tag(doc: Seq<char>, href: Seq<char>, e: int)
    requires
        head_tag_end(doc) == Some(e),
    ensures
        0 < e <= doc.len(),
        doc[e - 1] == '>',
        ({
            let out = with_base_tag(doc, href);
            let tag = base_tag(href);
            &&& out.subrange(0, e) == doc.subrange(0, e)
            &&& out.subrange(e, e + tag.len()) == tag
            &&& out.subrange(e + tag.len(), out.len() as int) == doc.subrange(e, doc.len() as int)
        }),
{
    reveal_strlit("<head>");
    reveal_strlit(">");
    lemma_first_occurrence(doc, "<head>"@, 0);
    lemma_first_occurrence(doc, "<head "@, 0);
    if let Some(b) = first_occurrence(doc, "<head "@, 0) {
        lemma_first_occurrence(doc, ">"@, b);
        if let Some(q) = first_occurrence(doc, ">"@, b) {
            assert(doc.subrange(q, q + 1)[0] == '>');
            assert(doc[q] == '>');
        }
    }
    if let Some(a) = first_occurrence(doc, "<head>"@, 0) {
        assert(doc.subrange(a, a + 6)[5] == '>');
        assert(doc[a + 5] == '>');
    }
    let out = with_base_tag(doc, href);
    let tag = base_tag(href);
    assert(out == doc.subrange(0, e) + tag + doc.subrange(e, doc.len() as int));
    assert(out.subrange(0, e) =~= doc.subrange(0, e));
    assert(out.subrange(e, e + tag.len()) =~= tag);
    assert(out.subrange(e + tag.len(), out.len() as int) =~= doc.subrange(e, doc.len() as int));
}

/// Where the first head opening tag is a bare `<head>` at `p`, the `<base>`
/// element comes right after it.
pub proof fn lemma_base_tag_follows_head(doc: Seq<char>, href: Seq<char>, p: int)
    requires
        first_occurrence(doc, "<head>"@, 0) == Some(p),
        forall|j: int| 0 <= j < p ==> !occurs_at(doc, "<head "@, j),
    ensures
        head_tag_end(doc) == Some(p + "<head>"@.len()),
        with_base_tag(doc, href).subrange(p, p + "<head>"@.len()) == "<head>"@,
        with_base_tag(doc, href).subrange(p + "<head>"@.len(), p + "<head>"@.len() + base_tag(href).len())
            == base_tag(href),
{
    reveal_strlit("<head>");
    reveal_strlit("<head ");
    lemma_first_occurrence(doc, "<head>"@, 0);
    lemma_first_occurrence(doc, "<head "@, 0);
    if let Some(b) = first_occurrence(doc, "<head "@, 0) {
        if b == p {
            assert(doc.subrange(p, p + 6)[5] == '>');
            assert(doc.subrange(b, b + 6)[5] == ' ');
        }
    }
    assert(head_tag_end(doc) == Some(p + 6));
    lemma_base_tag_follows_head_tag(doc, href, p + 6);
    let out = with_base_tag(doc, href);
    assert(out.subrange(p, p + 6) =~= out.subrange(0, p + 6).subrange(p, p + 6));
    assert(doc.subrange(p, p + 6) =~= doc.subrange(0, p + 6).subrange(p, p + 6));
}

/// A document with no head opening tag at all is put behind a synthetic
/// head that holds only the `<base>` element, and is otherwise unchanged.
pub proof fn lemma_headless_document(doc: Seq<char>, href: Seq<char>)
    requires
        forall|i: int| !occurs_at(doc, "<head>"@, i),
        forall|i: int| !occurs_at(doc, "<head "@, i),
    ensures
        with_base_tag(doc, href) == "<head>"@ + base_tag(href) + "</head>"@ + doc,
{
    lemma_first_occurrence(doc, "<head>"@, 0);
    lemma_first_occurrence(doc, "<head "@, 0);
}

} // verus!
