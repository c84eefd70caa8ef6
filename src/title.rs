//! Search for the paper whose title best matches a query.
//!
//! `GET /paper/search/match?query=...`
use vstd::prelude::*;
use crate::date::Date;
use crate::error::{Error, Result};
use crate::models::{FieldOfStudy, PaperField, PublicationType};
use crate::query::{
    append_date_part, append_flag_part, append_list_part, append_number_part, append_venue_part,
    append_year_part, check_dates_exist, check_years_in_order, copy_texts, copy_values, date_part,
    dates_exist, flag_part, graph_api_base, graph_api_url, invalid_date_error, invalid_date_message,
    list_part, nat_of_u32, number_part, opt_seq, opt_texts, push_text, push_value, pushed, set_end,
    set_start, venue_part, widen_u32, with_end, with_start, year_order_error, year_order_message,
    year_part, years_in_order,
};

verus! {

/// What a title match search asks for.
pub struct PaperTitleSearchView {
    pub query: Seq<char>,
    pub fields: Option<Seq<PaperField>>,
    pub publication_types: Option<Seq<PublicationType>>,
    pub open_access_pdf: Option<bool>,
    pub min_citation_count: Option<u32>,
    pub publication_date: Option<(Option<Date>, Option<Date>)>,
    pub year: Option<(Option<u32>, Option<u32>)>,
    pub fields_of_study: Option<Seq<FieldOfStudy>>,
    pub venue: Option<Seq<Seq<char>>>,
}

/// Parameters of a search for the paper whose title best matches a query.
#[derive(Debug, Clone)]
pub struct PaperTitleSearchParam {
    /// Plain-text search query; words are matched in titles and abstracts.
    pub query: String,
    /// Fields of each paper to return.
    pub fields: Option<Vec<PaperField>>,
    /// Keep only papers of these publication types.
    pub publication_types: Option<Vec<PublicationType>>,
    /// Keep only papers with a public PDF.
    pub open_access_pdf: Option<bool>,
    /// Keep only papers cited at least this often.
    pub min_citation_count: Option<u32>,
    /// Keep only papers published in this range of dates.
    pub publication_date: Option<(Option<Date>, Option<Date>)>,
    /// Keep only papers published in this range of years.
    pub year: Option<(Option<u32>, Option<u32>)>,
    /// Keep only papers of these fields of study.
    pub fields_of_study: Option<Vec<FieldOfStudy>>,
    /// Keep only papers of these venues.
    pub venue: Option<Vec<String>>,
}

impl View for PaperTitleSearchParam {
    type V = PaperTitleSearchView;

    open spec fn view(&self) -> PaperTitleSearchView {
        PaperTitleSearchView {
            query: self.query@,
            fields: opt_seq(self.fields),
            publication_types: opt_seq(self.publication_types),
            open_access_pdf: self.open_access_pdf,
            min_citation_count: self.min_citation_count,
            publication_date: self.publication_date,
            year: self.year,
            fields_of_study: opt_seq(self.fields_of_study),
            venue: opt_texts(self.venue),
        }
    }
}

/// The query string of a title match search.
pub open spec fn title_query_text(v: PaperTitleSearchView) -> Seq<char> {
    "query="@ + v.query
        + list_part("&fields="@, v.fields)
        + list_part("&publicationTypes="@, v.publication_types)
        + flag_part("&openAccessPdf"@, v.open_access_pdf)
        + number_part("&minCitationCount="@, nat_of_u32(v.min_citation_count))
        + date_part(v.publication_date)
        + year_part(v.year)
        + list_part("&fieldsOfStudy="@, v.fields_of_study)
        + venue_part(v.venue)
}

impl PaperTitleSearchParam {
    /// The query string of this search.
    pub fn query_string(&self) -> (r: String)
        ensures
            r@ == title_query_text(self@),
    {
        let mut q = String::from_str("query=");
        q.append(self.query.as_str());
        append_list_part(&mut q, "&fields=", &self.fields);
        append_list_part(&mut q, "&publicationTypes=", &self.publication_types);
        append_flag_part(&mut q, "&openAccessPdf", self.open_access_pdf);
        append_number_part(&mut q, "&minCitationCount=", widen_u32(self.min_citation_count));
        append_date_part(&mut q, &self.publication_date);
        append_year_part(&mut q, self.year);
        append_list_part(&mut q, "&fieldsOfStudy=", &self.fields_of_study);
        append_venue_part(&mut q, &self.venue);
        q
    }

    /// Address of this search.
    pub fn url(&self) -> (r: String)
        ensures
            r@ == graph_api_base() + "/paper/search/match?"@ + title_query_text(self@),
    {
        let mut u = graph_api_url("/paper/search/match?");
        let q = self.query_string();
        u.append(q.as_str());
        u
    }
}

/// Builds a [`PaperTitleSearchParam`] step by step.
#[derive(Debug, Clone)]
pub struct PaperTitleSearchParamBuilder {
    query: String,
    fields: Option<Vec<PaperField>>,
    publication_types: Option<Vec<PublicationType>>,
    open_access_pdf: Option<bool>,
    min_citation_count: Option<u32>,
    publication_date: Option<(Option<Date>, Option<Date>)>,
    year: Option<(Option<u32>, Option<u32>)>,
    fields_of_study: Option<Vec<FieldOfStudy>>,
    venue: Option<Vec<String>>,
}

impl View for PaperTitleSearchParamBuilder {
    type V = PaperTitleSearchView;

    closed spec fn view(&self) -> PaperTitleSearchView {
        PaperTitleSearchView {
            query: self.query@,
            fields: opt_seq(self.fields),
            publication_types: opt_seq(self.publication_types),
            open_access_pdf: self.open_access_pdf,
            min_citation_count: self.min_citation_count,
            publication_date: self.publication_date,
            year: self.year,
            fields_of_study: opt_seq(self.fields_of_study),
            venue: opt_texts(self.venue),
        }
    }
}

impl PaperTitleSearchParamBuilder {
    /// A builder for a search for `query`, with no filter.
    pub fn new(query: &str) -> (r: Self)
        ensures
            r@ == (PaperTitleSearchView {
                query: query@,
                fields: None,
                publication_types: None,
                open_access_pdf: None,
                min_citation_count: None,
                publication_date: None,
                year: None,
                fields_of_study: None,
                venue: None,
            }),
    {
        PaperTitleSearchParamBuilder {
            query: query.to_string(),
            fields: None,
            publication_types: None,
            open_access_pdf: None,
            min_citation_count: None,
            publication_date: None,
            year: None,
            fields_of_study: None,
            venue: None,
        }
    }

    /// Ask for one more field of each paper.
    pub fn field(&mut self, field: PaperField) -> (r: &mut Self)
        ensures
            (*r)@ == (PaperTitleSearchView { fields: pushed(old(self)@.fields, field), ..old(self)@ }),
            *final(self) == *final(r),
    {
        push_value(&mut self.fields, field);
        self
    }

    /// Keep papers of this publication type too.
    pub fn publication_type(&mut self, type_: PublicationType) -> (r: &mut Self)
        ensures
            (*r)@ == (PaperTitleSearchView { publication_types: pushed(old(self)@.publication_types, type_), ..old(self)@ }),
            *final(self) == *final(r),
    {
        push_value(&mut self.publication_types, type_);
        self
    }

    /// Keep only papers with a public PDF.
    pub fn open_access_pdf(&mut self) -> (r: &mut Self)
        ensures
            (*r)@ == (PaperTitleSearchView { open_access_pdf: Some(true), ..old(self)@ }),
            *final(self) == *final(r),
    {
        self.open_access_pdf = Some(true);
        self
    }

    /// Keep only papers cited at least this often.
    pub fn min_citation_count(&mut self, min_citation_count: u32) -> (r: &mut Self)
        ensures
            (*r)@ == (PaperTitleSearchView { min_citation_count: Some(min_citation_count), ..old(self)@ }),
            *final(self) == *final(r),
    {
        self.min_citation_count = Some(min_citation_count);
        self
    }

    /// Keep papers published on this day or later.
    pub fn from_date(&mut self, year: i32, month: u32, day: u32) -> (r: &mut Self)
        ensures
            (*r)@ == (PaperTitleSearchView { publication_date: with_start(old(self)@.publication_date, Date { year, month, day: Some(day) }), ..old(self)@ }),
            *final(self) == *final(r),
    {
        set_start(&mut self.publication_date, Date::ymd(year, month, day));
        self
    }

    /// Keep papers published on this day or earlier.
    pub fn to_date(&mut self, year: i32, month: u32, day: u32) -> (r: &mut Self)
        ensures
            (*r)@ == (PaperTitleSearchView { publication_date: with_end(old(self)@.publication_date, Date { year, month, day: Some(day) }), ..old(self)@ }),
            *final(self) == *final(r),
    {
        set_end(&mut self.publication_date, Date::ymd(year, month, day));
        self
    }

    /// Keep papers published in this month or later.
    pub fn from_month(&mut self, year: i32, month: u32) -> (r: &mut Self)
        ensures
            (*r)@ == (PaperTitleSearchView { publication_date: with_start(old(self)@.publication_date, Date { year, month, day: None }), ..old(self)@ }),
            *final(self) == *final(r),
    {
        set_start(&mut self.publication_date, Date::ym(year, month));
        self
    }

    /// Keep papers published in this month or earlier.
    pub fn to_month(&mut self, year: i32, month: u32) -> (r: &mut Self)
        ensures
            (*r)@ == (PaperTitleSearchView { publication_date: with_end(old(self)@.publication_date, Date { year, month, day: None }), ..old(self)@ }),
            *final(self) == *final(r),
    {
        set_end(&mut self.publication_date, Date::ym(year, month));
        self
    }

    /// Keep papers published in this year or later.
    pub fn from_year(&mut self, year: u32) -> (r: &mut Self)
        ensures
            (*r)@ == (PaperTitleSearchView { year: with_start(old(self)@.year, year), ..old(self)@ }),
            *final(self) == *final(r),
    {
        set_start(&mut self.year, year);
        self
    }

    /// Keep papers published in this year or earlier.
    pub fn to_year(&mut self, year: u32) -> (r: &mut Self)
        ensures
            (*r)@ == (PaperTitleSearchView { year: with_end(old(self)@.year, year), ..old(self)@ }),
            *final(self) == *final(r),
    {
        set_end(&mut self.year, year);
        self
    }

    /// Keep papers published in this year.
    pub fn at_year(&mut self, year: u32) -> (r: &mut Self)
        ensures
            (*r)@ == (PaperTitleSearchView { year: Some((Some(year), Some(year))), ..old(self)@ }),
            *final(self) == *final(r),
    {
        self.year = Some((Some(year), Some(year)));
        self
    }

    /// Keep papers of this field of study too.
    pub fn field_of_study(&mut self, field_of_study: FieldOfStudy) -> (r: &mut Self)
        ensures
            (*r)@ == (PaperTitleSearchView { fields_of_study: pushed(old(self)@.fields_of_study, field_of_study), ..old(self)@ }),
            *final(self) == *final(r),
    {
        push_value(&mut self.fields_of_study, field_of_study);
        self
    }

    /// Keep papers of this venue too.
    pub fn venue(&mut self, venue: &str) -> (r: &mut Self)
        ensures
            (*r)@ == (PaperTitleSearchView { venue: pushed(old(self)@.venue, venue@), ..old(self)@ }),
            *final(self) == *final(r),
    {
        push_text(&mut self.venue, venue);
        self
    }

    /// The parameters, unless the year range starts after it ends or a date does not exist.
    pub fn build(&self) -> (r: Result<PaperTitleSearchParam>)
        ensures
            !years_in_order(self@.year) ==> (r matches Err(Error::InvalidParameter(m)) && m@ == year_order_message()),
            years_in_order(self@.year) && !dates_exist(self@.publication_date) ==> (r matches Err(Error::InvalidParameter(m)) && m@ == invalid_date_message()),
            years_in_order(self@.year) && dates_exist(self@.publication_date) ==> (r matches Ok(p) && p@ == self@),
    {
        if !check_years_in_order(self.year) {
            return Err(year_order_error());
        }
        if !check_dates_exist(&self.publication_date) {
            return Err(invalid_date_error());
        }
        Ok(PaperTitleSearchParam {
            query: self.query.clone(),
            fields: copy_values(&self.fields),
            publication_types: copy_values(&self.publication_types),
            open_access_pdf: self.open_access_pdf,
            min_citation_count: self.min_citation_count,
            publication_date: self.publication_date,
            year: self.year,
            fields_of_study: copy_values(&self.fields_of_study),
            venue: copy_texts(&self.venue),
        })
    }
}

} // verus!
