//! Query completion: minimal information about papers matching a partial
//! query.
//!
//! `GET /paper/autocomplete?query=...`
use vstd::prelude::*;
use crate::parse::{authors_of, authors_text, year_of, year_value};
use crate::query::{graph_api_base, graph_api_url};

verus! {

/// Parameters of a completion request.
#[derive(Debug, Clone, PartialEq)]
pub struct PaperAutocompleteParam {
    /// The partial query to complete.
    pub query: String,
}

impl PaperAutocompleteParam {
    /// Completions of `query`.
    pub fn new(query: &str) -> (r: Self)
        ensures
            r.query@ == query@,
    {
        PaperAutocompleteParam { query: query.to_string() }
    }

    /// Address of the endpoint; the query goes in the `query` parameter.
    pub fn url(&self) -> (r: String)
        ensures
            r@ == graph_api_base() + "/paper/autocomplete"@,
    {
        graph_api_url("/paper/autocomplete")
    }
}

/// Answer to a completion request.
#[derive(Debug, Clone, PartialEq)]
pub struct PaperAutocompleteResponse {
    pub matches: Vec<AutocompletePaper>,
}

/// One completion.
#[derive(Debug, Clone, PartialEq)]
pub struct AutocompletePaper {
    /// Semantic Scholar ID of the paper.
    pub id: String,
    /// Title of the paper.
    pub title: String,
    /// Authors and year, as `"authors, year"`.
    pub authors_year: String,
}

impl AutocompletePaper {
    /// The authors: all of `authors_year` before its first comma.
    pub fn authors(&self) -> (r: String)
        ensures
            r@ == authors_of(self.authors_year@),
    {
        authors_text(self.authors_year.as_str())
    }

    /// The year, if the part of `authors_year` after its first comma is one.
    pub fn year(&self) -> (r: Option<u32>)
        ensures
            r == year_of(self.authors_year@),
    {
        year_value(self.authors_year.as_str())
    }
}

} // verus!
