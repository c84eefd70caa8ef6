use connected_papers::autocomplete::{AutocompletePaper, PaperAutocompleteParam};
use connected_papers::batch::PaperBatchParamBuilder;
use connected_papers::bulk::{PaperBulkSearchParamBuilder, QueryExpr, SortBy, SortOrder};
use connected_papers::date::Date;
use connected_papers::error::Error;
use connected_papers::graph::{AutoCompletePaper, BatchDetailQueryParam};
use connected_papers::models::{FieldOfStudy, PaperField, PaperId, PublicationType};
use connected_papers::paper_id::PaperIdSearchParam;
use connected_papers::relevance;
use connected_papers::search::{PaperSearchParamBuilder, YearRange};
use connected_papers::title::PaperTitleSearchParamBuilder;

#[test]
fn test_paper_search_param_builder() {
    let mut builder = PaperSearchParamBuilder::new("test");
    builder
        .field(PaperField::Title)
        .publication_type(PublicationType::JournalArticle)
        .open_access_pdf()
        .min_citation_count(10)
        .publication_date_or_year("2020-01-01:2020-12-31")
        .year_at(2020)
        .field_of_study(FieldOfStudy::ComputerScience);
    let param = builder.build().unwrap();
    assert_eq!(param.query, "test");
    assert_eq!(param.fields, Some(vec![PaperField::Title]));
    assert_eq!(param.publication_types, Some(vec![PublicationType::JournalArticle]));
    assert_eq!(param.open_access_pdf, Some(true));
    assert_eq!(param.min_citation_count, Some(10));
    assert_eq!(param.publication_date_or_year, Some("2020-01-01:2020-12-31".to_owned()));
    assert_eq!(param.year, Some(YearRange::at(2020)));
    assert_eq!(param.fields_of_study, Some(vec![FieldOfStudy::ComputerScience]));
}

#[test]
fn test_paper_relevance_search_param_builder() {
    let mut builder = relevance::PaperSearchParamBuilder::new("test");
    builder
        .field(PaperField::Title)
        .publication_type(PublicationType::JournalArticle)
        .open_access_pdf()
        .min_citation_count(10)
        .from_date(2020, 1, 1)
        .field_of_study(FieldOfStudy::ComputerScience);
    let param = builder.build().unwrap();
    assert_eq!(param.query, "test");
    assert_eq!(param.fields, Some(vec![PaperField::Title]));
    assert_eq!(param.publication_types, Some(vec![PublicationType::JournalArticle]));
    assert_eq!(param.open_access_pdf, Some(true));
    assert_eq!(param.min_citation_count, Some(10));
    assert_eq!(param.fields_of_study, Some(vec![FieldOfStudy::ComputerScience]));
}

#[test]
fn test_paper_bulk_search_param_builder() {
    let mut builder = PaperBulkSearchParamBuilder::default();
    builder
        .query(&QueryExpr::term("test"))
        .field(PaperField::Title)
        .publication_type(PublicationType::JournalArticle)
        .open_access_pdf()
        .min_citation_count(10)
        .from_date(2020, 1, 1)
        .field_of_study(FieldOfStudy::ComputerScience);
    let param = builder.build().unwrap();
    assert_eq!(param.query, "test");
    assert_eq!(param.fields, Some(vec![PaperField::Title]));
    assert_eq!(param.publication_types, Some(vec![PublicationType::JournalArticle]));
    assert_eq!(param.open_access_pdf, Some(true));
    assert_eq!(param.min_citation_count, Some(10));
    assert_eq!(param.fields_of_study, Some(vec![FieldOfStudy::ComputerScience]));
}

#[test]
fn test_paper_batch_param_builder() {
    let mut builder = PaperBatchParamBuilder::default();
    builder.id(PaperId::id("649def34f8be52c8b66281af98ae884c09aef38b"));
    builder.field(PaperField::IsOpenAccess);
    let param = builder.build().unwrap();
    assert_eq!(param.ids, vec![PaperId::id("649def34f8be52c8b66281af98ae884c09aef38b")]);
    assert_eq!(param.fields, Some(vec![PaperField::IsOpenAccess]));
}

#[test]
fn relevance_query_string_lists_every_filter() {
    let mut builder = relevance::PaperSearchParamBuilder::new("graph");
    builder
        .field(PaperField::Title)
        .field(PaperField::Year)
        .field(PaperField::Title)
        .publication_type(PublicationType::Review)
        .open_access_pdf()
        .min_citation_count(5)
        .from_date(2019, 3, 5)
        .to_month(2020, 6)
        .from_year(2015)
        .to_year(2021)
        .field_of_study(FieldOfStudy::Medicine)
        .venue("Nature")
        .venue("ACL")
        .offset(100)
        .limit(20);
    let param = builder.build().unwrap();
    assert_eq!(
        param.query_string(),
        "query=graph&fields=title,year&publicationTypes=Review&openAccessPdf&minCitationCount=5&publicationDate=2019-03-05:2020-06&year=2015-2021&fieldsOfStudy=Medicine&venue=Nature,ACL&offset=100&limit=20"
    );
    assert_eq!(
        param.url(),
        "https://api.semanticscholar.org/graph/v1/paper/search?query=graph&fields=title,year&publicationTypes=Review&openAccessPdf&minCitationCount=5&publicationDate=2019-03-05:2020-06&year=2015-2021&fieldsOfStudy=Medicine&venue=Nature,ACL&offset=100&limit=20"
    );
}

#[test]
fn year_filters_read_as_ranges() {
    let mut b = relevance::PaperSearchParamBuilder::new("q");
    b.at_year(2020);
    assert_eq!(b.build().unwrap().query_string(), "query=q&year=2020");
    let mut b = relevance::PaperSearchParamBuilder::new("q");
    b.from_year(2016);
    assert_eq!(b.build().unwrap().query_string(), "query=q&year=2016-");
    let mut b = relevance::PaperSearchParamBuilder::new("q");
    b.to_year(2010);
    assert_eq!(b.build().unwrap().query_string(), "query=q&year=-2010");
    let mut b = PaperSearchParamBuilder::new("q");
    b.year_range(2001, 2003).publication_date_or_year("2020-06");
    assert_eq!(b.build().unwrap().query_string(), "query=q&publicationDateOrYear=2020-06&year=2001-2003");
}

#[test]
fn reversed_year_range_is_rejected() {
    let msg = "start year must be less than or equal to end year".to_owned();
    let mut b = PaperSearchParamBuilder::new("q");
    b.year_range(2021, 2020);
    assert_eq!(b.build().unwrap_err(), Error::InvalidParameter(msg.clone()));
    let mut b = relevance::PaperSearchParamBuilder::new("q");
    b.from_year(2021).to_year(2020);
    assert_eq!(b.build().unwrap_err(), Error::InvalidParameter(msg.clone()));
    let mut b = PaperTitleSearchParamBuilder::new("q");
    b.from_year(2021).to_year(2020);
    assert_eq!(b.build().unwrap_err(), Error::InvalidParameter(msg));
}

#[test]
fn nonexistent_date_is_rejected() {
    let mut b = relevance::PaperSearchParamBuilder::new("q");
    b.from_date(2019, 2, 29);
    assert_eq!(b.build().unwrap_err(), Error::InvalidParameter("date does not exist".to_owned()));
    let mut b = relevance::PaperSearchParamBuilder::new("q");
    b.from_date(2020, 2, 29).to_month(2020, 13);
    assert_eq!(b.build().unwrap_err(), Error::InvalidParameter("date does not exist".to_owned()));
    let mut b = relevance::PaperSearchParamBuilder::new("q");
    b.from_date(2020, 2, 29);
    assert_eq!(b.build().unwrap().query_string(), "query=q&publicationDate=2020-02-29:");
}

#[test]
fn dates_exist_by_the_calendar() {
    assert!(Date::ymd(2020, 2, 29).is_valid());
    assert!(!Date::ymd(1900, 2, 29).is_valid());
    assert!(Date::ymd(2000, 2, 29).is_valid());
    assert!(!Date::ymd(2023, 4, 31).is_valid());
    assert!(!Date::ymd(2023, 0, 1).is_valid());
    assert!(Date::ymd(-4, 2, 29).is_valid());
    assert!(!Date::ymd(400000, 1, 1).is_valid());
    assert!(Date::ym(2023, 12).is_valid());
    assert_eq!(Date::ymd(7, 1, 9).to_query_text(), "0007-01-09");
    assert_eq!(Date::ymd(-44, 3, 15).to_query_text(), "-0044-03-15");
    assert_eq!(Date::ym(2024, 11).to_query_text(), "2024-11");
}

#[test]
fn title_search_query_string() {
    let mut b = PaperTitleSearchParamBuilder::new("Construction of the Literature Graph");
    b.field(PaperField::Authors).to_date(2018, 12, 31);
    let p = b.build().unwrap();
    assert_eq!(p.query_string(), "query=Construction of the Literature Graph&fields=authors&publicationDate=:2018-12-31");
    assert!(p.url().starts_with("https://api.semanticscholar.org/graph/v1/paper/search/match?"));
}

#[test]
fn bulk_query_expressions_read_as_the_api_expects() {
    let q = QueryExpr::phrase("deep learning")
        .and(QueryExpr::term("vision").or(QueryExpr::prefix("imag")))
        .and(QueryExpr::term("survey").not());
    assert_eq!(q.to_query_text(), "\"deep learning\" + (vision | imag*) + -survey");
    assert_eq!(QueryExpr::fuzzy("graf", Some(2)).to_query_text(), "graf~2");
    assert_eq!(QueryExpr::fuzzy("graf", None).to_query_text(), "graf~");
    assert_eq!(QueryExpr::proximity("citation graph", 3).to_query_text(), "\"citation graph\"~3");
    let n = QueryExpr::term("a").or(QueryExpr::term("b")).not();
    assert_eq!(n.to_query_text(), "-(a | b)");
}

#[test]
fn bulk_query_string_and_errors() {
    let mut b = PaperBulkSearchParamBuilder::default();
    assert_eq!(b.build().unwrap_err(), Error::InvalidParameter("query must be set".to_owned()));
    b.query(&QueryExpr::term("x")).field(PaperField::Title).field(PaperField::Embedding).field(PaperField::Citations);
    assert_eq!(b.build().unwrap_err(), Error::InvalidParameter("citations is not supported".to_owned()));
    let mut b = PaperBulkSearchParamBuilder::default();
    b.query(&QueryExpr::term("x")).token("abc").sort_by(SortBy::CitationCount(SortOrder::Descending)).at_year(2020);
    let p = b.build().unwrap();
    assert_eq!(p.query_string(), "query=x&token=abc&sort=citationCount:desc&year=2020");
}

#[test]
fn paper_id_and_batch_addresses() {
    let mut p = PaperIdSearchParam::new(&PaperId::arxiv("2106.15928"));
    p.add_field(PaperField::Title).add_field(PaperField::Year);
    assert_eq!(p.query_string(), "ARXIV:2106.15928?fields=title,year");
    assert_eq!(p.url(), "https://api.semanticscholar.org/graph/v1/paper/ARXIV:2106.15928?fields=title,year");
    let mut b = PaperBatchParamBuilder::default();
    assert_eq!(b.build().unwrap_err(), Error::InvalidParameter("ids is empty".to_owned()));
    b.id(PaperId::pubmed(19872477)).id(PaperId::id("abc"));
    let param = b.build().unwrap();
    assert_eq!(param.url(), "https://api.semanticscholar.org/graph/v1/paper/batch");
    assert_eq!(param.id_texts(), vec!["PMID:19872477".to_owned(), "abc".to_owned()]);
    let legacy = BatchDetailQueryParam(vec![PaperId::id("abc")], Some(vec![PaperField::IsOpenAccess]));
    assert_eq!(legacy.url(), "https://api.semanticscholar.org/graph/v1/paper/batch?fields=isOpenAccess");
}

#[test]
fn autocomplete_splits_authors_and_year() {
    let p = AutocompletePaper {
        id: "1".to_owned(),
        title: "t".to_owned(),
        authors_year: "Waleed Ammar et al., 2018".to_owned(),
    };
    assert_eq!(p.authors(), "Waleed Ammar et al.");
    assert_eq!(p.year(), Some(2018));
    let q = AutoCompletePaper { id: "2".to_owned(), title: "t".to_owned(), authors_year: "Anonymous".to_owned() };
    assert_eq!(q.authors(), "Anonymous");
    assert_eq!(q.year(), None);
    let r = AutoCompletePaper { id: "3".to_owned(), title: "t".to_owned(), authors_year: "A, \u{3000}+2021\t, x".to_owned() };
    assert_eq!(r.year(), Some(2021));
    let s = AutoCompletePaper { id: "4".to_owned(), title: "t".to_owned(), authors_year: "A, 99999999999".to_owned() };
    assert_eq!(s.year(), None);
    assert_eq!(PaperAutocompleteParam::new("sem").url(), "https://api.semanticscholar.org/graph/v1/paper/autocomplete");
}
