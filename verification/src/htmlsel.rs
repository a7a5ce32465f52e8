//! Trusted boundary to the HTML parser and the URL parser.  Each
//! wrapper names what the outside call returns; everything done with
//! those results is verified in the callers.

use vstd::prelude::*;

verus! {

/// The host part of `url`: `None` when the URL does not parse, and
/// otherwise the host string (empty for host-less schemes).
pub uninterp spec fn parsed_host(url: Seq<char>) -> Option<Seq<char>>;

/// Relies on the `url` crate's `Url::parse` and `Url::host_str`: which
/// strings parse as URLs and what host they carry depend on the input
/// alone.
#[verifier::external_body]
pub fn url_host(url: &str) -> (r: Option<String>)
    ensures
        r is Some <==> parsed_host(url@) is Some,
        r matches Some(h) ==> parsed_host(url@) == Some(h@),
{
    match url::Url::parse(url) {
        Ok(u) => Some(match u.host_str() {
            Some(h) => h.to_string(),
            None => String::new(),
        }),
        Err(_) => None,
    }
}

/// The flattened text of each element of `html` matching `selector`,
/// in document order; an unparsable selector matches nothing.
pub uninterp spec fn texts_of(html: Seq<char>, selector: Seq<char>) -> Seq<Seq<char>>;

/// Relies on scraper's `Html::parse_document`, `Selector::parse` and
/// the `Select`/`Text` iterators: the matched elements and their text
/// depend on the document and the selector alone.
#[verifier::external_body]
pub fn select_texts(html: &str, selector: &str) -> (r: Vec<String>)
    ensures
        r.deep_view() == texts_of(html@, selector@),
{
    let doc = scraper::Html::parse_document(html);
    let sel = match scraper::Selector::parse(selector) {
        Ok(s) => s,
        Err(_) => return Vec::new(),
    };
    doc.select(&sel).map(|el| el.text().collect::<String>()).collect()
}

/// For each element of `html` matching `row_selector`, its flattened
/// text paired with the flattened text of each of its descendants
/// matching `cell_selector`, in document order; an unparsable selector
/// matches nothing.
pub uninterp spec fn rows_of(html: Seq<char>, row_selector: Seq<char>, cell_selector: Seq<char>) -> Seq<
    (Seq<char>, Seq<Seq<char>>),
>;

/// Relies on scraper's `Html::parse_document`, `Selector::parse`,
/// `ElementRef::select` and the `Text` iterator: row and cell contents
/// depend on the document and the two selectors alone.
#[verifier::external_body]
pub fn select_rows(html: &str, row_selector: &str, cell_selector: &str) -> (r: Vec<
    (String, Vec<String>),
>)
    ensures
        r.deep_view() == rows_of(html@, row_selector@, cell_selector@),
{
    let doc = scraper::Html::parse_document(html);
    let sels = (scraper::Selector::parse(row_selector), scraper::Selector::parse(cell_selector));
    let (Ok(rows), Ok(cells)) = sels else { return Vec::new() };
    doc.select(&rows)
        .map(|el| {
            let text = el.text().collect::<String>();
            (text, el.select(&cells).map(|c| c.text().collect::<String>()).collect())
        })
        .collect()
}

/// For each element of `html` matching `block_selector`: the inner HTML
/// of its first descendant matching `title_selector`, the `href`
/// attribute of that descendant, and the inner HTML of its first
/// descendant matching `snippet_selector`, each absent when there is no
/// such descendant or attribute; an unparsable selector matches
/// nothing.
pub uninterp spec fn hits_of(
    html: Seq<char>,
    block_selector: Seq<char>,
    title_selector: Seq<char>,
    snippet_selector: Seq<char>,
) -> Seq<(Option<Seq<char>>, Option<Seq<char>>, Option<Seq<char>>)>;

/// Relies on scraper's `Html::parse_document`, `Selector::parse`,
/// `ElementRef::select`, `ElementRef::inner_html` and
/// `ElementRef::attr`: the result blocks depend on the document and the
/// three selectors alone.
#[verifier::external_body]
pub fn select_hits(html: &str, block_selector: &str, title_selector: &str, snippet_selector: &str) -> (r:
    Vec<(Option<String>, Option<String>, Option<String>)>)
    ensures
        r.deep_view() == hits_of(html@, block_selector@, title_selector@, snippet_selector@),
{
    let doc = scraper::Html::parse_document(html);
    let parsed = (
        scraper::Selector::parse(block_selector),
        scraper::Selector::parse(title_selector),
        scraper::Selector::parse(snippet_selector),
    );
    let (Ok(blocks), Ok(titles), Ok(snippets)) = parsed else { return Vec::new() };
    doc.select(&blocks)
        .map(|el| {
            let title = el.select(&titles).next();
            let href = title.and_then(|t| t.attr("href")).map(|a| a.to_string());
            (title.map(|t| t.inner_html()), href, el.select(&snippets).next().map(|s| s.inner_html()))
        })
        .collect()
}

} // verus!
