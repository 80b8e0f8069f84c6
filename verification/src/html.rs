//! Reading HTML pages with the `visdom` crate.
//!
//! `visdom::Vis::load` never fails on the pages it is given in practice, but
//! its signature admits failure; each reader here reports that as `None`.
//! A selector that does not parse selects nothing: `Elements::find` on a
//! loaded document hands the parse error to the document's error handler,
//! of which none is installed, and returns no element.
use vstd::prelude::*;

use crate::text::string_views;

verus! {

/// What loading `html` with `visdom::Vis::load`, selecting `selector` with
/// `Elements::find` and taking each selected element's text gives; `None`
/// when the page is rejected.
pub uninterp spec fn html_select_texts(html: Seq<char>, selector: Seq<char>) -> Option<
    Seq<Seq<char>>,
>;

/// What loading `html` with `visdom::Vis::load`, selecting `selector` with
/// `Elements::find` and taking each selected element's inner HTML gives;
/// `None` when the page is rejected.
pub uninterp spec fn html_select_inner_htmls(html: Seq<char>, selector: Seq<char>) -> Option<
    Seq<Seq<char>>,
>;

/// What loading `html` with `visdom::Vis::load`, selecting `selector` with
/// `Elements::find` and reading attribute `name` of the first selected
/// element with `Elements::attr` gives; `None` when the page is rejected,
/// `Some(None)` when no element is selected or it lacks the attribute.
pub uninterp spec fn html_select_attr(html: Seq<char>, selector: Seq<char>, name: Seq<char>) -> Option<
    Option<Seq<char>>,
>;

/// What loading `html` with `visdom::Vis::load`, selecting `selector` with
/// `Elements::find` and taking the combined text of the selection with
/// `Elements::text` gives; `None` when the page is rejected.
pub uninterp spec fn html_select_text(html: Seq<char>, selector: Seq<char>) -> Option<Seq<char>>;

/// `visdom::Vis::load`, `Elements::find`, then `text` of each selected element.
/// Claimed: the result is `html_select_texts` of the arguments (parsing is
/// deterministic); no call panics.
#[verifier::external_body]
pub(crate) fn select_texts(html: &str, selector: &str) -> (r: Option<Vec<String>>)
    ensures
        match r {
            Some(v) => html_select_texts(html@, selector@) == Some(string_views(v@)),
            None => html_select_texts(html@, selector@) is None,
        },
{
    match visdom::Vis::load(html) {
        Ok(doc) => {
            let mut out = Vec::new();
            for ele in doc.find(selector) {
                out.push(ele.text());
            }
            Some(out)
        },
        Err(_) => None,
    }
}

/// `visdom::Vis::load`, `Elements::find`, then `html` (the inner HTML) of
/// each selected element. Claimed: the result is `html_select_inner_htmls`
/// of the arguments; no call panics.
#[verifier::external_body]
pub(crate) fn select_inner_htmls(html: &str, selector: &str) -> (r: Option<Vec<String>>)
    ensures
        match r {
            Some(v) => html_select_inner_htmls(html@, selector@) == Some(string_views(v@)),
            None => html_select_inner_htmls(html@, selector@) is None,
        },
{
    match visdom::Vis::load(html) {
        Ok(doc) => {
            let mut out = Vec::new();
            for ele in doc.find(selector) {
                out.push(ele.html());
            }
            Some(out)
        },
        Err(_) => None,
    }
}

/// `visdom::Vis::load`, `Elements::find`, then `Elements::attr`, the value
/// written as text (`IAttrValue`'s `Display`). Claimed: the result is
/// `html_select_attr` of the arguments; no call panics.
#[verifier::external_body]
pub(crate) fn select_attr(html: &str, selector: &str, name: &str) -> (r: Option<Option<String>>)
    ensures
        match r {
            Some(Some(v)) => html_select_attr(html@, selector@, name@) == Some(Some(v@)),
            Some(None) => html_select_attr(html@, selector@, name@) == Some(None::<Seq<char>>),
            None => html_select_attr(html@, selector@, name@) is None,
        },
{
    match visdom::Vis::load(html) {
        Ok(doc) => match doc.find(selector).attr(name) {
            Some(value) => Some(Some(value.to_string())),
            None => Some(None),
        },
        Err(_) => None,
    }
}

/// `visdom::Vis::load`, `Elements::find`, then `Elements::text`. Claimed:
/// the result is `html_select_text` of the arguments; no call panics.
#[verifier::external_body]
pub(crate) fn select_text(html: &str, selector: &str) -> (r: Option<String>)
    ensures
        match r {
            Some(t) => html_select_text(html@, selector@) == Some(t@),
            None => html_select_text(html@, selector@) is None,
        },
{
    match visdom::Vis::load(html) {
        Ok(doc) => Some(doc.find(selector).text()),
        Err(_) => None,
    }
}

} // verus!
