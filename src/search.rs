//! Paper search with a publication date or year filter given as text.
//!
//! `GET /paper/search?query=...`
use vstd::prelude::*;
use crate::error::{Error, Result};
use crate::models::{FieldOfStudy, PaperField, PublicationType};
use crate::query::{
    append_flag_part, append_list_part, append_number_part, append_text_part, append_venue_part,
    append_year_part, check_years_in_order, copy_text, copy_texts, copy_values, flag_part,
    graph_api_base, graph_api_url, list_part, nat_of_u32, nat_of_u8, number_part, opt_seq, opt_text,
    opt_texts, push_text, push_value, pushed, text_part, venue_part, widen_u32, widen_u8,
    year_order_error, year_order_message, year_part, years_in_order,
};

verus! {

/// A range of years, maybe open at one end.
#[derive(Debug, Clone, Copy, PartialEq, Eq, Structural)]
pub struct YearRange {
    pub start: Option<u32>,
    pub end: Option<u32>,
}

/// The bounds of an optional year range.
pub open spec fn year_bounds(o: Option<YearRange>) -> Option<(Option<u32>, Option<u32>)> {
    match o {
        Some(y) => Some((y.start, y.end)),
        None => None,
    }
}

impl YearRange {
    /// The years from `start` to `end`.
    pub fn new(start: u32, end: u32) -> (r: Self)
        ensures
            r == (YearRange { start: Some(start), end: Some(end) }),
    {
        YearRange { start: Some(start), end: Some(end) }
    }

    /// The years from `start` on.
    pub fn from(start: u32) -> (r: Self)
        ensures
            r == (YearRange { start: Some(start), end: None }),
    {
        YearRange { start: Some(start), end: None }
    }

    /// The years up to `end`.
    pub fn to(end: u32) -> (r: Self)
        ensures
            r == (YearRange { start: None, end: Some(end) }),
    {
        YearRange { start: None, end: Some(end) }
    }

    /// The one year `year`.
    pub fn at(year: u32) -> (r: Self)
        ensures
            r == (YearRange { start: Some(year), end: Some(year) }),
    {
        YearRange { start: Some(year), end: Some(year) }
    }

    /// The bounds of an optional year range.
    pub fn bounds(o: Option<YearRange>) -> (r: Option<(Option<u32>, Option<u32>)>)
        ensures
            r == year_bounds(o),
    {
        match o {
            Some(y) => Some((y.start, y.end)),
            None => None,
        }
    }
}

/// What a paper search asks for.
pub struct PaperSearchView {
    pub query: Seq<char>,
    pub fields: Option<Seq<PaperField>>,
    pub publication_types: Option<Seq<PublicationType>>,
    pub open_access_pdf: Option<bool>,
    pub min_citation_count: Option<u32>,
    pub publication_date_or_year: Option<Seq<char>>,
    pub year: Option<YearRange>,
    pub fields_of_study: Option<Seq<FieldOfStudy>>,
    pub venue: Option<Seq<Seq<char>>>,
    pub offset: Option<u32>,
    pub limit: Option<u8>,
}

/// Parameters of a paper search that filters by a publication date or year given as text.
#[derive(Debug, Clone)]
pub struct PaperSearchParam {
    /// Plain-text search query; words are matched in titles and abstracts.
    pub query: String,
    /// Fields of each paper to return.
    pub fields: Option<Vec<PaperField>>,
    /// Keep only papers of these publication types.
    pub publication_types: Option<Vec<PublicationType>>,
    /// Keep only papers with a public PDF.
    pub open_access_pdf: Option<bool>,
    /// Keep only papers cited at least this often.
    pub min_citation_count: Option<u32>,
    /// Keep only papers published in this range, written `<start>:<end>` with dates `YYYY-MM-DD`, a prefix such as `2020-06`, or an open end.
    pub publication_date_or_year: Option<String>,
    /// Keep only papers published in this range of years.
    pub year: Option<YearRange>,
    /// Keep only papers of these fields of study.
    pub fields_of_study: Option<Vec<FieldOfStudy>>,
    /// Keep only papers of these venues.
    pub venue: Option<Vec<String>>,
    /// Index of the first result to return.
    pub offset: Option<u32>,
    /// Largest number of results to return (at most 100).
    pub limit: Option<u8>,
}

impl View for PaperSearchParam {
    type V = PaperSearchView;

    open spec fn view(&self) -> PaperSearchView {
        PaperSearchView {
            query: self.query@,
            fields: opt_seq(self.fields),
            publication_types: opt_seq(self.publication_types),
            open_access_pdf: self.open_access_pdf,
            min_citation_count: self.min_citation_count,
            publication_date_or_year: opt_text(self.publication_date_or_year),
            year: self.year,
            fields_of_study: opt_seq(self.fields_of_study),
            venue: opt_texts(self.venue),
            offset: self.offset,
            limit: self.limit,
        }
    }
}

/// The query string of a paper search.
pub open spec fn search_query_text(v: PaperSearchView) -> Seq<char> {
    "query="@ + v.query
        + list_part("&fields="@, v.fields)
        + list_part("&publicationTypes="@, v.publication_types)
        + flag_part("&openAccessPdf"@, v.open_access_pdf)
        + number_part("&minCitationCount="@, nat_of_u32(v.min_citation_count))
        + text_part("&publicationDateOrYear="@, v.publication_date_or_year)
        + year_part(year_bounds(v.year))
        + list_part("&fieldsOfStudy="@, v.fields_of_study)
        + venue_part(v.venue)
        + number_part("&offset="@, nat_of_u32(v.offset))
        + number_part("&limit="@, nat_of_u8(v.limit))
}

impl PaperSearchParam {
    /// The query string of this search.
    pub fn query_string(&self) -> (r: String)
        ensures
            r@ == search_query_text(self@),
    {
        let mut q = String::from_str("query=");
        q.append(self.query.as_str());
        append_list_part(&mut q, "&fields=", &self.fields);
        append_list_part(&mut q, "&publicationTypes=", &self.publication_types);
        append_flag_part(&mut q, "&openAccessPdf", self.open_access_pdf);
        append_number_part(&mut q, "&minCitationCount=", widen_u32(self.min_citation_count));
        append_text_part(&mut q, "&publicationDateOrYear=", &self.publication_date_or_year);
        append_year_part(&mut q, YearRange::bounds(self.year));
        append_list_part(&mut q, "&fieldsOfStudy=", &self.fields_of_study);
        append_venue_part(&mut q, &self.venue);
        append_number_part(&mut q, "&offset=", widen_u32(self.offset));
        append_number_part(&mut q, "&limit=", widen_u8(self.limit));
        q
    }

    /// Address of this search.
    pub fn url(&self) -> (r: String)
        ensures
            r@ == graph_api_base() + "/paper/search?"@ + search_query_text(self@),
    {
        let mut u = graph_api_url("/paper/search?");
        let q = self.query_string();
        u.append(q.as_str());
        u
    }
}

/// Builds a [`PaperSearchParam`] step by step.
#[derive(Debug, Clone)]
pub struct PaperSearchParamBuilder {
    query: String,
    fields: Option<Vec<PaperField>>,
    publication_types: Option<Vec<PublicationType>>,
    open_access_pdf: Option<bool>,
    min_citation_count: Option<u32>,
    publication_date_or_year: Option<String>,
    year: Option<YearRange>,
    fields_of_study: Option<Vec<FieldOfStudy>>,
    venue: Option<Vec<String>>,
    offset: Option<u32>,
    limit: Option<u8>,
}

impl View for PaperSearchParamBuilder {
    type V = PaperSearchView;

    closed spec fn view(&self) -> PaperSearchView {
        PaperSearchView {
            query: self.query@,
            fields: opt_seq(self.fields),
            publication_types: opt_seq(self.publication_types),
            open_access_pdf: self.open_access_pdf,
            min_citation_count: self.min_citation_count,
            publication_date_or_year: opt_text(self.publication_date_or_year),
            year: self.year,
            fields_of_study: opt_seq(self.fields_of_study),
            venue: opt_texts(self.venue),
            offset: self.offset,
            limit: self.limit,
        }
    }
}

impl PaperSearchParamBuilder {
    /// A builder for a search for `query`, with no filter.
    pub fn new(query: &str) -> (r: Self)
        ensures
            r@ == (PaperSearchView {
                query: query@,
                fields: None,
                publication_types: None,
                open_access_pdf: None,
                min_citation_count: None,
                publication_date_or_year: None,
                year: None,
                fields_of_study: None,
                venue: None,
                offset: None,
                limit: None,
            }),
    {
        PaperSearchParamBuilder {
            query: query.to_string(),
            fields: None,
            publication_types: None,
            open_access_pdf: None,
            min_citation_count: None,
            publication_date_or_year: None,
            year: None,
            fields_of_study: None,
            venue: None,
            offset: None,
            limit: None,
        }
    }

    /// Ask for one more field of each paper.
    pub fn field(&mut self, field: PaperField) -> (r: &mut Self)
        ensures
            (*r)@ == (PaperSearchView { fields: pushed(old(self)@.fields, field), ..old(self)@ }),
            *final(self) == *final(r),
    {
        push_value(&mut self.fields, field);
        self
    }

    /// Keep papers of this publication type too.
    pub fn publication_type(&mut self, type_: PublicationType) -> (r: &mut Self)
        ensures
            (*r)@ == (PaperSearchView { publication_types: pushed(old(self)@.publication_types, type_), ..old(self)@ }),
            *final(self) == *final(r),
    {
        push_value(&mut self.publication_types, type_);
        self
    }

    /// Keep only papers with a public PDF.
    pub fn open_access_pdf(&mut self) -> (r: &mut Self)
        ensures
            (*r)@ == (PaperSearchView { open_access_pdf: Some(true), ..old(self)@ }),
            *final(self) == *final(r),
    {
        self.open_access_pdf = Some(true);
        self
    }

    /// Keep only papers cited at least this often.
    pub fn min_citation_count(&mut self, min_citation_count: u32) -> (r: &mut Self)
        ensures
            (*r)@ == (PaperSearchView { min_citation_count: Some(min_citation_count), ..old(self)@ }),
            *final(self) == *final(r),
    {
        self.min_citation_count = Some(min_citation_count);
        self
    }

    /// Keep papers published in this range (`2019-03-05:2020-06-06`, `2020-06`, `:2015-01`).
    pub fn publication_date_or_year(&mut self, publication_date_or_year: &str) -> (r: &mut Self)
        ensures
            (*r)@ == (PaperSearchView { publication_date_or_year: Some(publication_date_or_year@), ..old(self)@ }),
            *final(self) == *final(r),
    {
        self.publication_date_or_year = Some(publication_date_or_year.to_string());
        self
    }

    /// Keep papers published from `start` to `end`.
    pub fn year_range(&mut self, start: u32, end: u32) -> (r: &mut Self)
        ensures
            (*r)@ == (PaperSearchView { year: Some(YearRange { start: Some(start), end: Some(end) }), ..old(self)@ }),
            *final(self) == *final(r),
    {
        self.year = Some(YearRange::new(start, end));
        self
    }

    /// Keep papers published in `start` or later.
    pub fn year_from(&mut self, start: u32) -> (r: &mut Self)
        ensures
            (*r)@ == (PaperSearchView { year: Some(YearRange { start: Some(start), end: None }), ..old(self)@ }),
            *final(self) == *final(r),
    {
        self.year = Some(YearRange::from(start));
        self
    }

    /// Keep papers published in `end` or earlier.
    pub fn year_to(&mut self, end: u32) -> (r: &mut Self)
        ensures
            (*r)@ == (PaperSearchView { year: Some(YearRange { start: None, end: Some(end) }), ..old(self)@ }),
            *final(self) == *final(r),
    {
        self.year = Some(YearRange::to(end));
        self
    }

    /// Keep papers published in `year`.
    pub fn year_at(&mut self, year: u32) -> (r: &mut Self)
        ensures
            (*r)@ == (PaperSearchView { year: Some(YearRange { start: Some(year), end: Some(year) }), ..old(self)@ }),
            *final(self) == *final(r),
    {
        self.year = Some(YearRange::at(year));
        self
    }

    /// Keep papers of this field of study too.
    pub fn field_of_study(&mut self, field_of_study: FieldOfStudy) -> (r: &mut Self)
        ensures
            (*r)@ == (PaperSearchView { fields_of_study: pushed(old(self)@.fields_of_study, field_of_study), ..old(self)@ }),
            *final(self) == *final(r),
    {
        push_value(&mut self.fields_of_study, field_of_study);
        self
    }

    /// Keep papers of this venue too.
    pub fn venue(&mut self, venue: &str) -> (r: &mut Self)
        ensures
            (*r)@ == (PaperSearchView { venue: pushed(old(self)@.venue, venue@), ..old(self)@ }),
            *final(self) == *final(r),
    {
        push_text(&mut self.venue, venue);
        self
    }

    /// Start at this result.
    pub fn offset(&mut self, offset: u32) -> (r: &mut Self)
        ensures
            (*r)@ == (PaperSearchView { offset: Some(offset), ..old(self)@ }),
            *final(self) == *final(r),
    {
        self.offset = Some(offset);
        self
    }

    /// Return at most this many results (at most 100).
    pub fn limit(&mut self, limit: u8) -> (r: &mut Self)
        ensures
            (*r)@ == (PaperSearchView { limit: Some(limit), ..old(self)@ }),
            *final(self) == *final(r),
    {
        self.limit = Some(limit);
        self
    }

    /// The parameters, unless the year range starts after it ends.
    pub fn build(&self) -> (r: Result<PaperSearchParam>)
        ensures
            !years_in_order(year_bounds(self@.year)) ==> (r matches Err(Error::InvalidParameter(m)) && m@ == year_order_message()),
            years_in_order(year_bounds(self@.year)) ==> (r matches Ok(p) && p@ == self@),
    {
        if !check_years_in_order(YearRange::bounds(self.year)) {
            return Err(year_order_error());
        }
        Ok(PaperSearchParam {
            query: self.query.clone(),
            fields: copy_values(&self.fields),
            publication_types: copy_values(&self.publication_types),
            open_access_pdf: self.open_access_pdf,
            min_citation_count: self.min_citation_count,
            publication_date_or_year: copy_text(&self.publication_date_or_year),
            year: self.year,
            fields_of_study: copy_values(&self.fields_of_study),
            venue: copy_texts(&self.venue),
            offset: self.offset,
            limit: self.limit,
        })
    }
}

} // verus!
