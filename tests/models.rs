use connected_papers::error::Error;
use connected_papers::models::{
    merge_fields_of_study, merge_paper_fields, merge_publication_types, FieldOfStudy, PaperField, PaperId,
    PublicationType,
};
use serde::ser::SerializeStruct;
use serde::{Serialize, Serializer};

struct WireId<'a>(&'a PaperId);

impl Serialize for WireId<'_> {
    fn serialize<S: Serializer>(&self, serializer: S) -> Result<S::Ok, S::Error> {
        serializer.serialize_str(&self.0.to_query_text())
    }
}

struct PaperIds {
    ids: Vec<PaperId>,
}

impl Serialize for PaperIds {
    fn serialize<S: Serializer>(&self, serializer: S) -> Result<S::Ok, S::Error> {
        let ids: Vec<WireId> = self.ids.iter().map(WireId).collect();
        let mut st = serializer.serialize_struct("PaperIds", 1)?;
        st.serialize_field("ids", &ids)?;
        st.end()
    }
}

fn all_fields() -> Vec<PaperField> {
    vec![
        PaperField::CorpusId,
        PaperField::ExternalIds,
        PaperField::URL,
        PaperField::Title,
        PaperField::Abstract,
        PaperField::Venue,
        PaperField::PublicationVenue,
        PaperField::Year,
        PaperField::ReferenceCount,
        PaperField::CitationCount,
        PaperField::InfluentialCitationCount,
        PaperField::IsOpenAccess,
        PaperField::OpenAccessPDF,
        PaperField::FieldsOfStudy,
        PaperField::S2FieldsOfStudy,
        PaperField::PublicationTypes,
        PaperField::PublicationDate,
        PaperField::Journal,
        PaperField::CitationStyles,
        PaperField::Authors,
        PaperField::Citations,
        PaperField::References,
        PaperField::Embedding,
        PaperField::Tldr,
    ]
}

const ALL_FIELDS: &str = "corpusId,externalIds,url,title,abstract,venue,publicationVenue,year,referenceCount,citationCount,influentialCitationCount,isOpenAccess,openAccessPdf,fieldsOfStudy,s2FieldsOfStudy,publicationTypes,publicationDate,journal,citationStyles,authors,citations,references,embedding,tldr";

#[test]
fn models_test_paper_field_merge() {
    let fields = all_fields();
    let fields_merged = merge_paper_fields(&fields);
    assert_eq!(fields_merged, ALL_FIELDS);
}

#[test]
fn graph_test_paper_field_merge() {
    let fields = all_fields();
    let fields_merged = merge_paper_fields(&fields);
    assert_eq!(fields_merged, ALL_FIELDS);
}

fn check_serialized_ids() -> Vec<PaperId> {
    let id = PaperId::id("649def34f8be52c8b66281af98ae884c09aef38b");
    let id_serialized = serde_json::to_string(&WireId(&id)).unwrap();
    assert_eq!(id_serialized, "\"649def34f8be52c8b66281af98ae884c09aef38b\"");
    let corpus_id = PaperId::CorpusId(215416146);
    let corpus_id_serialized = serde_json::to_string(&WireId(&corpus_id)).unwrap();
    assert_eq!(corpus_id_serialized, "\"CorpusId:215416146\"");
    let doi = PaperId::doi("10.18653/v1/N18-3011");
    let doi_serialized = serde_json::to_string(&WireId(&doi)).unwrap();
    assert_eq!(doi_serialized, "\"DOI:10.18653/v1/N18-3011\"");
    let arxiv = PaperId::arxiv("2106.15928");
    let arxiv_serialized = serde_json::to_string(&WireId(&arxiv)).unwrap();
    assert_eq!(arxiv_serialized, "\"ARXIV:2106.15928\"");
    let mag = PaperId::mag(112218234);
    let mag_serialized = serde_json::to_string(&WireId(&mag)).unwrap();
    assert_eq!(mag_serialized, "\"MAG:112218234\"");
    let acl = PaperId::acl("W12-3903");
    let acl_serialized = serde_json::to_string(&WireId(&acl)).unwrap();
    assert_eq!(acl_serialized, "\"ACL:W12-3903\"");
    let pubmed = PaperId::pubmed(19872477);
    let pubmed_serialized = serde_json::to_string(&WireId(&pubmed)).unwrap();
    assert_eq!(pubmed_serialized, "\"PMID:19872477\"");
    let pubmed_central = PaperId::pubmed_central(2323736);
    let pubmed_central_serialized = serde_json::to_string(&WireId(&pubmed_central)).unwrap();
    assert_eq!(pubmed_central_serialized, "\"PMCID:2323736\"");
    let url = PaperId::url("https://arxiv.org/abs/2106.15928v1");
    let url_serialized = serde_json::to_string(&WireId(&url)).unwrap();
    assert_eq!(url_serialized, "\"URL:https://arxiv.org/abs/2106.15928v1\"");
    vec![id, corpus_id, doi, arxiv, mag, acl, pubmed, pubmed_central, url]
}

#[test]
fn models_test_id_serialization() {
    check_serialized_ids();
}

#[test]
fn graph_test_id_serialization() {
    let ids = PaperIds { ids: check_serialized_ids() };
    let ids_serialized = serde_json::to_string(&ids).unwrap();
    assert_eq!(
        ids_serialized,
        "{\"ids\":[\"649def34f8be52c8b66281af98ae884c09aef38b\",\"CorpusId:215416146\",\"DOI:10.18653/v1/N18-3011\",\"ARXIV:2106.15928\",\"MAG:112218234\",\"ACL:W12-3903\",\"PMID:19872477\",\"PMCID:2323736\",\"URL:https://arxiv.org/abs/2106.15928v1\"]}"
    );
}

#[test]
fn merge_keeps_first_occurrence_only() {
    let fields = vec![PaperField::Title, PaperField::Year, PaperField::Title, PaperField::OpenAccessPDF];
    assert_eq!(merge_paper_fields(&fields), "title,year,openAccessPdf");
    assert_eq!(merge_paper_fields(&Vec::new()), "");
}

#[test]
fn merge_fields_of_study_uses_display_names() {
    let fields = vec![FieldOfStudy::ComputerScience, FieldOfStudy::AgriculturalAndFoodSciences, FieldOfStudy::ComputerScience];
    assert_eq!(merge_fields_of_study(&fields), "Computer Science,Agricultural and Food Sciences");
}

#[test]
fn merge_publication_types_joins_names() {
    let types = vec![PublicationType::JournalArticle, PublicationType::Review, PublicationType::Review];
    assert_eq!(merge_publication_types(&types), "JournalArticle,Review");
}

#[test]
fn paper_id_copy_is_equal() {
    let id = PaperId::doi("10.1/x");
    assert_eq!(id.copied(), id);
    assert_eq!(PaperId::corpus(7), PaperId::CorpusId(7));
}

#[test]
fn error_messages_read_as_before() {
    assert_eq!(Error::InvalidParameter("x".to_owned()).message(), "Invalid parameter: x");
    assert_eq!(Error::RequestFailed("boom".to_owned()).message(), "boom");
}

#[test]
fn every_error_variant_reads() {
    assert_eq!(
        Error::APIKeyNotFound("environment variable not found".to_owned()).message(),
        "environment variable not found"
    );
    assert_eq!(Error::ReqwestError("timed out".to_owned()).message(), "timed out");
}
