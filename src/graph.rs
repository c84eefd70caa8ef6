//! Earlier forms of the completion and batch requests of the Semantic
//! Scholar graph API, and the paper record that the batch request returns.
use vstd::prelude::*;
use crate::models::{
    AssociatedPaper, Author, ExternalIds, Journal, OpenAccessPdf, PaperField, PaperId, PublicationVenue,
    S2FieldsOfStudy,
};
use crate::parse::{authors_of, authors_text, year_of, year_value};
use crate::query::{append_list_part, graph_api_base, graph_api_url, list_part, opt_seq};

verus! {

/// Parameters of a completion request.
#[derive(Debug, Clone, PartialEq)]
pub struct AutoCompleteParam {
    /// The partial query to complete.
    pub query: String,
}

/// Answer to a completion request.
#[derive(Debug, Clone, PartialEq)]
pub struct AutoCompleteResponse {
    pub matches: Vec<AutoCompletePaper>,
}

/// One completion.
#[derive(Debug, Clone, PartialEq)]
pub struct AutoCompletePaper {
    pub id: String,
    pub title: String,
    /// Authors and year, as `"authors, year"`.
    pub authors_year: String,
}

impl AutoCompletePaper {
    /// The authors: all of `authors_year` before its first comma.
    pub fn authors(&self) -> (r: String)
        ensures
            r@ == authors_of(self.authors_year@),
    {
        authors_text(self.authors_year.as_str())
    }

    /// The year, if the part of `authors_year` after its first comma is one.
    pub fn year(&self) -> (r: Option<u32>)
        ensures
            r == year_of(self.authors_year@),
    {
        year_value(self.authors_year.as_str())
    }
}

/// Papers to fetch at once, and the fields to return for each.
#[derive(Debug, Clone)]
pub struct BatchDetailQueryParam(pub Vec<PaperId>, pub Option<Vec<PaperField>>);

impl BatchDetailQueryParam {
    /// Address of this request; the identifiers go in its body.
    pub fn url(&self) -> (r: String)
        ensures
            r@ == graph_api_base() + "/paper/batch"@ + list_part("?fields="@, opt_seq(self.1)),
    {
        let mut u = graph_api_url("/paper/batch");
        append_list_part(&mut u, "?fields=", &self.1);
        u
    }
}

/// A paper as the batch request returns it.
#[derive(Debug, Clone)]
pub struct PaperDetail {
    pub paper_id: String,
    pub corpus_id: Option<u64>,
    pub external_ids: Option<ExternalIds>,
    pub url: Option<String>,
    pub title: Option<String>,
    pub abstract_: Option<String>,
    pub venue: Option<String>,
    pub publication_venue: Option<PublicationVenue>,
    pub year: Option<u32>,
    pub reference_count: Option<u32>,
    pub citation_count: Option<u32>,
    pub influential_citation_count: Option<u32>,
    pub is_open_access: Option<bool>,
    pub open_access_pdf: Option<OpenAccessPdf>,
    pub fields_of_study: Option<Vec<String>>,
    pub s2_fields_of_study: Option<Vec<S2FieldsOfStudy>>,
    pub publication_types: Option<Vec<String>>,
    pub publication_date: Option<String>,
    pub journal: Option<Journal>,
    /// Citation of the paper in each style, keyed by style name.
    pub citation_styles: Option<Vec<(String, String)>>,
    pub authors: Option<Vec<Author>>,
    pub citations: Option<Vec<AssociatedPaper>>,
    pub references: Option<Vec<AssociatedPaper>>,
    pub text_availability: Option<String>,
}

} // verus!
