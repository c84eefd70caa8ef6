//! Bulk paper search: papers matching a boolean query, without relevance
//! ranking, up to 1,000 per call, with a token to continue.
//!
//! `GET /paper/search/bulk?query=...`
use vstd::prelude::*;
use crate::date::Date;
use crate::error::{Error, Result};
use crate::models::{FieldOfStudy, PaperField, PublicationType};
use crate::query::{
    append_date_part, append_flag_part, append_list_part, append_number_part, append_text_part,
    append_venue_part, append_year_part, check_dates_exist, check_years_in_order, copy_text,
    copy_texts, copy_values, date_part, dates_exist, flag_part, graph_api_base, graph_api_url,
    invalid_date_error, invalid_date_message, list_part, nat_of_u32, number_part, opt_seq, opt_text, opt_texts,
    push_text, push_value, pushed, set_end, set_start, text_part, venue_part, widen_u32, with_end,
    with_start, year_order_error, year_order_message, year_part, years_in_order,
};
use crate::text::{QueryValue, contains_value, decimal, decimal_string};

verus! {

/// A boolean text query.
#[derive(Debug)]
pub enum QueryExpr {
    /// A word: `word`.
    Term(String),
    /// A phrase: `"word phrase"`.
    Phrase(String),
    /// A word prefix: `word*`.
    Prefix(String),
    /// A word with a tolerance in edit distance: `word~N`, or `word~` for the default.
    FuzzyTerm(String, Option<u8>),
    /// A phrase whose words may be up to N words apart: `"word phrase"~N`.
    ProximityPhrase(String, u8),
    /// All of the queries: `a + b`.
    And(Vec<QueryExpr>),
    /// Any of the queries: `a | b`.
    Or(Vec<QueryExpr>),
    /// Not the query: `-a`.
    Not(Box<QueryExpr>),
}

/// How a query reads.
pub open spec fn expr_text(e: QueryExpr) -> Seq<char>
    decreases e, 0nat,
{
    match e {
        QueryExpr::Term(t) => t@,
        QueryExpr::Phrase(p) => "\""@ + p@ + "\""@,
        QueryExpr::Prefix(p) => p@ + "*"@,
        QueryExpr::FuzzyTerm(t, n) => match n {
            Some(n) => t@ + "~"@ + decimal(n as nat),
            None => t@ + "~"@,
        },
        QueryExpr::ProximityPhrase(p, n) => "\""@ + p@ + "\"~"@ + decimal(n as nat),
        QueryExpr::Not(b) => match *b {
            QueryExpr::And(_) | QueryExpr::Or(_) => "-("@ + expr_text(*b) + ")"@,
            _ => "-"@ + expr_text(*b),
        },
        QueryExpr::And(list) => items_text(list@, list@.len() as nat, true),
        QueryExpr::Or(list) => items_text(list@, list@.len() as nat, false),
    }
}

/// The first `n` queries of `items`, joined by ` + ` (`conj`) or ` | `; in a
/// conjunction a disjunction is put in parentheses.
pub open spec fn items_text(items: Seq<QueryExpr>, n: nat, conj: bool) -> Seq<char>
    decreases items, n,
{
    if n == 0 || n > items.len() {
        Seq::empty()
    } else {
        let item = items[n - 1];
        let t = if conj && item is Or {
            "("@ + expr_text(item) + ")"@
        } else {
            expr_text(item)
        };
        if n == 1 {
            t
        } else {
            items_text(items, (n - 1) as nat, conj) + if conj {
                " + "@
            } else {
                " | "@
            } + t
        }
    }
}

fn item_text(item: &QueryExpr, conj: bool) -> (r: String)
    ensures
        r@ == if conj && *item is Or {
            "("@ + expr_text(*item) + ")"@
        } else {
            expr_text(*item)
        },
    decreases *item, 1nat,
{
    let inner = item.to_query_text();
    if conj && matches!(item, QueryExpr::Or(_)) {
        let mut t = String::from_str("(");
        t.append(inner.as_str());
        t.append(")");
        proof {
            reveal_strlit("(");
            reveal_strlit(")");
        }
        t
    } else {
        inner
    }
}

fn list_text(items: &Vec<QueryExpr>, conj: bool) -> (r: String)
    ensures
        r@ == items_text(items@, items@.len() as nat, conj),
    decreases items, 0nat,
{
    let mut out = String::new();
    let mut i: usize = 0;
    while i < items.len()
        invariant
            i <= items.len(),
            out@ == items_text(items@, i as nat, conj),
        decreases items.len() - i,
    {
        proof {
            assert(decreases_to!(items => items@[i as int]));
        }
        let t = item_text(&items[i], conj);
        if i > 0 {
            if conj {
                out.append(" + ");
            } else {
                out.append(" | ");
            }
        }
        out.append(t.as_str());
        i = i + 1;
    }
    out
}

impl QueryExpr {
    /// A word.
    pub fn term(term: &str) -> (r: Self)
        ensures
            r matches QueryExpr::Term(t) && t@ == term@,
    {
        QueryExpr::Term(term.to_string())
    }

    /// A phrase.
    pub fn phrase(phrase: &str) -> (r: Self)
        ensures
            r matches QueryExpr::Phrase(t) && t@ == phrase@,
    {
        QueryExpr::Phrase(phrase.to_string())
    }

    /// A word prefix.
    pub fn prefix(prefix: &str) -> (r: Self)
        ensures
            r matches QueryExpr::Prefix(t) && t@ == prefix@,
    {
        QueryExpr::Prefix(prefix.to_string())
    }

    /// A word with an edit-distance tolerance.
    pub fn fuzzy(term: &str, distance: Option<u8>) -> (r: Self)
        ensures
            r matches QueryExpr::FuzzyTerm(t, d) && t@ == term@ && d == distance,
    {
        QueryExpr::FuzzyTerm(term.to_string(), distance)
    }

    /// A phrase whose words may stand apart.
    pub fn proximity(phrase: &str, distance: u8) -> (r: Self)
        ensures
            r matches QueryExpr::ProximityPhrase(t, d) && t@ == phrase@ && d == distance,
    {
        QueryExpr::ProximityPhrase(phrase.to_string(), distance)
    }

    /// This query and `other`; a conjunction grows by one.
    pub fn and(self, other: QueryExpr) -> (r: Self)
        ensures
            self matches QueryExpr::And(list) ==> (r matches QueryExpr::And(l) && l@ == list@.push(other)),
            !(self is And) ==> (r matches QueryExpr::And(l) && l@ == seq![self, other]),
    {
        match self {
            QueryExpr::And(mut nodes) => {
                nodes.push(other);
                QueryExpr::And(nodes)
            },
            _ => {
                let mut nodes = Vec::new();
                nodes.push(self);
                nodes.push(other);
                QueryExpr::And(nodes)
            },
        }
    }

    /// This query or `other`; a disjunction grows by one.
    pub fn or(self, other: QueryExpr) -> (r: Self)
        ensures
            self matches QueryExpr::Or(list) ==> (r matches QueryExpr::Or(l) && l@ == list@.push(other)),
            !(self is Or) ==> (r matches QueryExpr::Or(l) && l@ == seq![self, other]),
    {
        match self {
            QueryExpr::Or(mut nodes) => {
                nodes.push(other);
                QueryExpr::Or(nodes)
            },
            _ => {
                let mut nodes = Vec::new();
                nodes.push(self);
                nodes.push(other);
                QueryExpr::Or(nodes)
            },
        }
    }

    /// Not this query.
    pub fn not(self) -> (r: Self)
        ensures
            r matches QueryExpr::Not(b) && *b == self,
    {
        QueryExpr::Not(Box::new(self))
    }

    /// The query as the API reads it (`"deep learning" + -survey`).
    pub fn to_query_text(&self) -> (r: String)
        ensures
            r@ == expr_text(*self),
        decreases *self, 0nat,
    {
        proof {
            reveal_strlit("\"");
            reveal_strlit("*");
            reveal_strlit("~");
            reveal_strlit("\"~");
            reveal_strlit("-");
            reveal_strlit("-(");
            reveal_strlit(")");
        }
        match self {
            QueryExpr::Term(t) => t.clone(),
            QueryExpr::Phrase(p) => {
                let mut s = String::from_str("\"");
                s.append(p.as_str());
                s.append("\"");
                s
            },
            QueryExpr::Prefix(p) => {
                let mut s = p.clone();
                s.append("*");
                s
            },
            QueryExpr::FuzzyTerm(t, n) => {
                let mut s = t.clone();
                s.append("~");
                match n {
                    Some(n) => {
                        let d = decimal_string(*n as u64);
                        s.append(d.as_str());
                    },
                    None => {},
                }
                s
            },
            QueryExpr::ProximityPhrase(p, n) => {
                let mut s = String::from_str("\"");
                s.append(p.as_str());
                s.append("\"~");
                let d = decimal_string(*n as u64);
                s.append(d.as_str());
                s
            },
            QueryExpr::Not(b) => {
                let inner = b.to_query_text();
                match **b {
                    QueryExpr::And(_) | QueryExpr::Or(_) => {
                        let mut s = String::from_str("-(");
                        s.append(inner.as_str());
                        s.append(")");
                        s
                    },
                    _ => {
                        let mut s = String::from_str("-");
                        s.append(inner.as_str());
                        s
                    },
                }
            },
            QueryExpr::And(list) => list_text(list, true),
            QueryExpr::Or(list) => list_text(list, false),
        }
    }
}

/// Direction of a sort.
#[derive(Debug, Clone, Copy, PartialEq, Eq, Structural)]
pub enum SortOrder {
    Ascending,
    Descending,
}

/// The key that results are sorted by.
#[derive(Debug, Clone, Copy, PartialEq, Eq, Structural)]
pub enum SortBy {
    PaperId(SortOrder),
    PublicationDate(SortOrder),
    CitationCount(SortOrder),
}

/// How a sort direction reads.
pub open spec fn order_text(o: SortOrder) -> Seq<char> {
    match o {
        SortOrder::Ascending => "asc"@,
        SortOrder::Descending => "desc"@,
    }
}

/// How a sort reads (`citationCount:desc`).
pub open spec fn sort_text(s: SortBy) -> Seq<char> {
    match s {
        SortBy::PaperId(o) => "paperId:"@ + order_text(o),
        SortBy::PublicationDate(o) => "publicationDate:"@ + order_text(o),
        SortBy::CitationCount(o) => "citationCount:"@ + order_text(o),
    }
}

impl SortOrder {
    /// How the direction reads.
    pub fn as_str(self) -> (r: &'static str)
        ensures
            r@ == order_text(self),
    {
        match self {
            SortOrder::Ascending => "asc",
            SortOrder::Descending => "desc",
        }
    }
}

impl SortBy {
    /// How the sort reads.
    pub fn to_query_text(self) -> (r: String)
        ensures
            r@ == sort_text(self),
    {
        let (key, order) = match self {
            SortBy::PaperId(o) => ("paperId:", o),
            SortBy::PublicationDate(o) => ("publicationDate:", o),
            SortBy::CitationCount(o) => ("citationCount:", o),
        };
        let mut s = String::from_str(key);
        s.append(order.as_str());
        s
    }
}

/// The `sort` parameter, when there is one.
pub open spec fn sort_part(o: Option<SortBy>) -> Seq<char> {
    match o {
        Some(s) => "&sort="@ + sort_text(s),
        None => Seq::empty(),
    }
}

/// What a bulk search asks for.
pub struct PaperBulkSearchView {
    pub query: Seq<char>,
    pub token: Option<Seq<char>>,
    pub sort: Option<SortBy>,
    pub fields: Option<Seq<PaperField>>,
    pub publication_types: Option<Seq<PublicationType>>,
    pub open_access_pdf: Option<bool>,
    pub min_citation_count: Option<u32>,
    pub publication_date: Option<(Option<Date>, Option<Date>)>,
    pub year: Option<(Option<u32>, Option<u32>)>,
    pub fields_of_study: Option<Seq<FieldOfStudy>>,
    pub venue: Option<Seq<Seq<char>>>,
}

/// Parameters of a bulk paper search.
#[derive(Debug, Clone)]
pub struct PaperBulkSearchParam {
    /// The boolean query, as text.
    pub query: String,
    /// Token from an earlier answer, to fetch the next batch.
    pub token: Option<String>,
    /// Fields of each paper to return.
    pub fields: Option<Vec<PaperField>>,
    /// Order of the results.
    pub sort: Option<SortBy>,
    /// Keep only papers of these publication types.
    pub publication_types: Option<Vec<PublicationType>>,
    /// Keep only papers with a public PDF.
    pub open_access_pdf: Option<bool>,
    /// Keep only papers cited at least this often.
    pub min_citation_count: Option<u32>,
    /// Keep only papers published in this range of dates.
    pub publication_date: Option<(Option<Date>, Option<Date>)>,
    /// Keep only papers published in this range of years.
    pub year: Option<(Option<u32>, Option<u32>)>,
    /// Keep only papers of these fields of study.
    pub fields_of_study: Option<Vec<FieldOfStudy>>,
    /// Keep only papers of these venues.
    pub venue: Option<Vec<String>>,
}

impl View for PaperBulkSearchParam {
    type V = PaperBulkSearchView;

    open spec fn view(&self) -> PaperBulkSearchView {
        PaperBulkSearchView {
            query: self.query@,
            token: opt_text(self.token),
            sort: self.sort,
            fields: opt_seq(self.fields),
            publication_types: opt_seq(self.publication_types),
            open_access_pdf: self.open_access_pdf,
            min_citation_count: self.min_citation_count,
            publication_date: self.publication_date,
            year: self.year,
            fields_of_study: opt_seq(self.fields_of_study),
            venue: opt_texts(self.venue),
        }
    }
}

/// The query string of a bulk search.
pub open spec fn bulk_query_text(v: PaperBulkSearchView) -> Seq<char> {
    "query="@ + v.query
        + text_part("&token="@, v.token)
        + sort_part(v.sort)
        + list_part("&fields="@, v.fields)
        + list_part("&publicationTypes="@, v.publication_types)
        + flag_part("&openAccessPdf"@, v.open_access_pdf)
        + number_part("&minCitationCount="@, nat_of_u32(v.min_citation_count))
        + date_part(v.publication_date)
        + year_part(v.year)
        + list_part("&fieldsOfStudy="@, v.fields_of_study)
        + venue_part(v.venue)
}

impl PaperBulkSearchParam {
    /// The query string of this search.
    pub fn query_string(&self) -> (r: String)
        ensures
            r@ == bulk_query_text(self@),
    {
        let mut q = String::from_str("query=");
        q.append(self.query.as_str());
        append_text_part(&mut q, "&token=", &self.token);
        match self.sort {
            Some(s) => {
                q.append("&sort=");
                let t = s.to_query_text();
                q.append(t.as_str());
            },
            None => {
                assert(q@ =~= q@ + Seq::<char>::empty());
            },
        }
        append_list_part(&mut q, "&fields=", &self.fields);
        append_list_part(&mut q, "&publicationTypes=", &self.publication_types);
        append_flag_part(&mut q, "&openAccessPdf", self.open_access_pdf);
        append_number_part(&mut q, "&minCitationCount=", widen_u32(self.min_citation_count));
        append_date_part(&mut q, &self.publication_date);
        append_year_part(&mut q, self.year);
        append_list_part(&mut q, "&fieldsOfStudy=", &self.fields_of_study);
        append_venue_part(&mut q, &self.venue);
        q
    }

    /// Address of this search.
    pub fn url(&self) -> (r: String)
        ensures
            r@ == graph_api_base() + "/paper/search/bulk?"@ + bulk_query_text(self@),
    {
        let mut u = graph_api_url("/paper/search/bulk?");
        let q = self.query_string();
        u.append(q.as_str());
        u
    }
}

/// What a bulk search builder holds; the query is kept as text.
pub struct PaperBulkSearchBuilderView {
    pub query: Option<Seq<char>>,
    pub token: Option<Seq<char>>,
    pub sort: Option<SortBy>,
    pub fields: Option<Seq<PaperField>>,
    pub publication_types: Option<Seq<PublicationType>>,
    pub open_access_pdf: Option<bool>,
    pub min_citation_count: Option<u32>,
    pub publication_date: Option<(Option<Date>, Option<Date>)>,
    pub year: Option<(Option<u32>, Option<u32>)>,
    pub fields_of_study: Option<Seq<FieldOfStudy>>,
    pub venue: Option<Seq<Seq<char>>>,
}

/// Builds a [`PaperBulkSearchParam`] step by step.
#[derive(Debug, Clone)]
pub struct PaperBulkSearchParamBuilder {
    query: Option<String>,
    token: Option<String>,
    sort: Option<SortBy>,
    fields: Option<Vec<PaperField>>,
    publication_types: Option<Vec<PublicationType>>,
    open_access_pdf: Option<bool>,
    min_citation_count: Option<u32>,
    publication_date: Option<(Option<Date>, Option<Date>)>,
    year: Option<(Option<u32>, Option<u32>)>,
    fields_of_study: Option<Vec<FieldOfStudy>>,
    venue: Option<Vec<String>>,
}

impl View for PaperBulkSearchParamBuilder {
    type V = PaperBulkSearchBuilderView;

    closed spec fn view(&self) -> PaperBulkSearchBuilderView {
        PaperBulkSearchBuilderView {
            query: opt_text(self.query),
            token: opt_text(self.token),
            sort: self.sort,
            fields: opt_seq(self.fields),
            publication_types: opt_seq(self.publication_types),
            open_access_pdf: self.open_access_pdf,
            min_citation_count: self.min_citation_count,
            publication_date: self.publication_date,
            year: self.year,
            fields_of_study: opt_seq(self.fields_of_study),
            venue: opt_texts(self.venue),
        }
    }
}

impl Default for PaperBulkSearchParamBuilder {
    /// A builder with nothing set.
    fn default() -> (r: Self)
        ensures
            r@ == (PaperBulkSearchBuilderView {
                query: None,
                token: None,
                sort: None,
                fields: None,
                publication_types: None,
                open_access_pdf: None,
                min_citation_count: None,
                publication_date: None,
                year: None,
                fields_of_study: None,
                venue: None,
            }),
    {
        PaperBulkSearchParamBuilder {
            query: None,
            token: None,
            sort: None,
            fields: None,
            publication_types: None,
            open_access_pdf: None,
            min_citation_count: None,
            publication_date: None,
            year: None,
            fields_of_study: None,
            venue: None,
        }
    }
}

/// The first of the fields that a bulk search cannot return (citations,
/// references, embedding, summary) that `fields` asks for.
pub open spec fn unsupported_field(fields: Option<Seq<PaperField>>) -> Option<PaperField> {
    match fields {
        Some(f) => if f.contains(PaperField::Citations) {
            Some(PaperField::Citations)
        } else if f.contains(PaperField::References) {
            Some(PaperField::References)
        } else if f.contains(PaperField::Embedding) {
            Some(PaperField::Embedding)
        } else if f.contains(PaperField::Tldr) {
            Some(PaperField::Tldr)
        } else {
            None
        },
        None => None,
    }
}

/// Message of the error for a bulk search without a query.
pub open spec fn missing_query_message() -> Seq<char> {
    "query must be set"@
}

/// The parameters that a builder holding `b` gives, once checked.
pub open spec fn bulk_param_of(b: PaperBulkSearchBuilderView) -> PaperBulkSearchView {
    PaperBulkSearchView {
        query: match b.query {
            Some(q) => q,
            None => Seq::empty(),
        },
        token: b.token,
        sort: b.sort,
        fields: b.fields,
        publication_types: b.publication_types,
        open_access_pdf: b.open_access_pdf,
        min_citation_count: b.min_citation_count,
        publication_date: b.publication_date,
        year: b.year,
        fields_of_study: b.fields_of_study,
        venue: b.venue,
    }
}

fn first_unsupported_field(fields: &Option<Vec<PaperField>>) -> (r: Option<PaperField>)
    ensures
        r == unsupported_field(opt_seq(*fields)),
{
    match fields {
        Some(f) => {
            if contains_value(f, PaperField::Citations) {
                Some(PaperField::Citations)
            } else if contains_value(f, PaperField::References) {
                Some(PaperField::References)
            } else if contains_value(f, PaperField::Embedding) {
                Some(PaperField::Embedding)
            } else if contains_value(f, PaperField::Tldr) {
                Some(PaperField::Tldr)
            } else {
                None
            }
        },
        None => None,
    }
}

impl PaperBulkSearchParamBuilder {
    /// Search for papers matching `query`.
    pub fn query(&mut self, query: &QueryExpr) -> (r: &mut Self)
        ensures
            (*r)@ == (PaperBulkSearchBuilderView { query: Some(expr_text(*query)), ..old(self)@ }),
            *final(self) == *final(r),
    {
        self.query = Some(query.to_query_text());
        self
    }

    /// Continue an earlier search from its token.
    pub fn token(&mut self, token: &str) -> (r: &mut Self)
        ensures
            (*r)@ == (PaperBulkSearchBuilderView { token: Some(token@), ..old(self)@ }),
            *final(self) == *final(r),
    {
        self.token = Some(token.to_string());
        self
    }

    /// Sort the results.
    pub fn sort_by(&mut self, sort_by: SortBy) -> (r: &mut Self)
        ensures
            (*r)@ == (PaperBulkSearchBuilderView { sort: Some(sort_by), ..old(self)@ }),
            *final(self) == *final(r),
    {
        self.sort = Some(sort_by);
        self
    }

    /// Ask for one more field of each paper.
    pub fn field(&mut self, field: PaperField) -> (r: &mut Self)
        ensures
            (*r)@ == (PaperBulkSearchBuilderView { fields: pushed(old(self)@.fields, field), ..old(self)@ }),
            *final(self) == *final(r),
    {
        push_value(&mut self.fields, field);
        self
    }

    /// Keep papers of this publication type too.
    pub fn publication_type(&mut self, type_: PublicationType) -> (r: &mut Self)
        ensures
            (*r)@ == (PaperBulkSearchBuilderView { publication_types: pushed(old(self)@.publication_types, type_), ..old(self)@ }),
            *final(self) == *final(r),
    {
        push_value(&mut self.publication_types, type_);
        self
    }

    /// Keep only papers with a public PDF.
    pub fn open_access_pdf(&mut self) -> (r: &mut Self)
        ensures
            (*r)@ == (PaperBulkSearchBuilderView { open_access_pdf: Some(true), ..old(self)@ }),
            *final(self) == *final(r),
    {
        self.open_access_pdf = Some(true);
        self
    }

    /// Keep only papers cited at least this often.
    pub fn min_citation_count(&mut self, min_citation_count: u32) -> (r: &mut Self)
        ensures
            (*r)@ == (PaperBulkSearchBuilderView { min_citation_count: Some(min_citation_count), ..old(self)@ }),
            *final(self) == *final(r),
    {
        self.min_citation_count = Some(min_citation_count);
        self
    }

    /// Keep papers published on this day or later.
    pub fn from_date(&mut self, year: i32, month: u32, day: u32) -> (r: &mut Self)
        ensures
            (*r)@ == (PaperBulkSearchBuilderView { publication_date: with_start(old(self)@.publication_date, Date { year, month, day: Some(day) }), ..old(self)@ }),
            *final(self) == *final(r),
    {
        set_start(&mut self.publication_date, Date::ymd(year, month, day));
        self
    }

    /// Keep papers published on this day or earlier.
    pub fn to_date(&mut self, year: i32, month: u32, day: u32) -> (r: &mut Self)
        ensures
            (*r)@ == (PaperBulkSearchBuilderView { publication_date: with_end(old(self)@.publication_date, Date { year, month, day: Some(day) }), ..old(self)@ }),
            *final(self) == *final(r),
    {
        set_end(&mut self.publication_date, Date::ymd(year, month, day));
        self
    }

    /// Keep papers published in this month or later.
    pub fn from_month(&mut self, year: i32, month: u32) -> (r: &mut Self)
        ensures
            (*r)@ == (PaperBulkSearchBuilderView { publication_date: with_start(old(self)@.publication_date, Date { year, month, day: None }), ..old(self)@ }),
            *final(self) == *final(r),
    {
        set_start(&mut self.publication_date, Date::ym(year, month));
        self
    }

    /// Keep papers published in this month or earlier.
    pub fn to_month(&mut self, year: i32, month: u32) -> (r: &mut Self)
        ensures
            (*r)@ == (PaperBulkSearchBuilderView { publication_date: with_end(old(self)@.publication_date, Date { year, month, day: None }), ..old(self)@ }),
            *final(self) == *final(r),
    {
        set_end(&mut self.publication_date, Date::ym(year, month));
        self
    }

    /// Keep papers published in this year or later.
    pub fn from_year(&mut self, year: u32) -> (r: &mut Self)
        ensures
            (*r)@ == (PaperBulkSearchBuilderView { year: with_start(old(self)@.year, year), ..old(self)@ }),
            *final(self) == *final(r),
    {
        set_start(&mut self.year, year);
        self
    }

    /// Keep papers published in this year or earlier.
    pub fn to_year(&mut self, year: u32) -> (r: &mut Self)
        ensures
            (*r)@ == (PaperBulkSearchBuilderView { year: with_end(old(self)@.year, year), ..old(self)@ }),
            *final(self) == *final(r),
    {
        set_end(&mut self.year, year);
        self
    }

    /// Keep papers published in this year.
    pub fn at_year(&mut self, year: u32) -> (r: &mut Self)
        ensures
            (*r)@ == (PaperBulkSearchBuilderView { year: Some((Some(year), Some(year))), ..old(self)@ }),
            *final(self) == *final(r),
    {
        self.year = Some((Some(year), Some(year)));
        self
    }

    /// Keep papers of this field of study too.
    pub fn field_of_study(&mut self, field_of_study: FieldOfStudy) -> (r: &mut Self)
        ensures
            (*r)@ == (PaperBulkSearchBuilderView { fields_of_study: pushed(old(self)@.fields_of_study, field_of_study), ..old(self)@ }),
            *final(self) == *final(r),
    {
        push_value(&mut self.fields_of_study, field_of_study);
        self
    }

    /// Keep papers of this venue too.
    pub fn venue(&mut self, venue: &str) -> (r: &mut Self)
        ensures
            (*r)@ == (PaperBulkSearchBuilderView { venue: pushed(old(self)@.venue, venue@), ..old(self)@ }),
            *final(self) == *final(r),
    {
        push_text(&mut self.venue, venue);
        self
    }

    /// The parameters, unless the query is missing, a field cannot be
    /// returned by a bulk search, the year range starts after it ends or a
    /// date does not exist (checked in that order).
    pub fn build(&self) -> (r: Result<PaperBulkSearchParam>)
        ensures
            self@.query is None ==> (r matches Err(Error::InvalidParameter(m)) && m@ == missing_query_message()),
            self@.query is Some ==> (unsupported_field(self@.fields) matches Some(f) ==> (r matches Err(
                Error::InvalidParameter(m),
            ) && m@ == f.spec_name() + " is not supported"@)),
            self@.query is Some && unsupported_field(self@.fields) is None && !years_in_order(self@.year)
                ==> (r matches Err(Error::InvalidParameter(m)) && m@ == year_order_message()),
            self@.query is Some && unsupported_field(self@.fields) is None && years_in_order(self@.year)
                && !dates_exist(self@.publication_date) ==> (r matches Err(Error::InvalidParameter(m))
                && m@ == invalid_date_message()),
            self@.query is Some && unsupported_field(self@.fields) is None && years_in_order(self@.year)
                && dates_exist(self@.publication_date) ==> (r matches Ok(p) && p@ == bulk_param_of(self@)),
    {
        let query = match &self.query {
            Some(q) => q.clone(),
            None => {
                return Err(Error::InvalidParameter("query must be set".to_string()));
            },
        };
        match first_unsupported_field(&self.fields) {
            Some(f) => {
                let mut m = String::from_str(f.name());
                m.append(" is not supported");
                return Err(Error::InvalidParameter(m));
            },
            None => {},
        }
        if !check_years_in_order(self.year) {
            return Err(year_order_error());
        }
        if !check_dates_exist(&self.publication_date) {
            return Err(invalid_date_error());
        }
        Ok(PaperBulkSearchParam {
            query,
            token: copy_text(&self.token),
            sort: self.sort,
            fields: copy_values(&self.fields),
            publication_types: copy_values(&self.publication_types),
            open_access_pdf: self.open_access_pdf,
            min_citation_count: self.min_citation_count,
            publication_date: self.publication_date,
            year: self.year,
            fields_of_study: copy_values(&self.fields_of_study),
            venue: copy_texts(&self.venue),
        })
    }
}

} // verus!
