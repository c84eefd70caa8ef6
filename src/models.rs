//! Values of the Semantic Scholar graph API: paper identifiers, the names
//! of paper fields, fields of study and publication types, and the records
//! that describe papers, authors and venues.
use vstd::prelude::*;
use crate::text::{QueryValue, decimal, decimal_string, merge_values, merged};

verus! {

/// Identifier of a paper, in one of the schemes the API accepts.
#[derive(Debug, Clone, PartialEq)]
pub enum PaperId {
    /// Semantic Scholar ID, e.g. `649def34f8be52c8b66281af98ae884c09aef38b`
    S2Id(String),
    /// a Semantic Scholar numerical ID, e.g. `CorpusId:215416146`
    CorpusId(u64),
    /// a Digital Object Identifier, e.g. `DOI:10.18653/v1/N18-3011`
    DOI(String),
    /// arXiv.org, e.g. `ARXIV:2106.15928`
    ArXiv(String),
    /// Microsoft Academic Graph, e.g. `MAG:112218234`
    MAG(u64),
    /// Association for Computational Linguistics, e.g. `ACL:W12-3903`
    ACL(String),
    /// PubMed/Medline, e.g. `PMID:19872477`
    PubMed(u64),
    /// PubMed Central, e.g. `PMCID:2323736`
    PubMedCentral(u64),
    /// URL from one of the sites the API knows, e.g. `URL:https://arxiv.org/abs/2106.15928v1`
    URL(String),
}

/// How the API writes a paper identifier: the scheme's prefix, then the value.
pub open spec fn paper_id_text(id: PaperId) -> Seq<char> {
    match id {
        PaperId::S2Id(s) => s@,
        PaperId::CorpusId(v) => "CorpusId:"@ + decimal(v as nat),
        PaperId::DOI(s) => "DOI:"@ + s@,
        PaperId::ArXiv(s) => "ARXIV:"@ + s@,
        PaperId::MAG(v) => "MAG:"@ + decimal(v as nat),
        PaperId::ACL(s) => "ACL:"@ + s@,
        PaperId::PubMed(v) => "PMID:"@ + decimal(v as nat),
        PaperId::PubMedCentral(v) => "PMCID:"@ + decimal(v as nat),
        PaperId::URL(s) => "URL:"@ + s@,
    }
}

impl PaperId {
    /// A Semantic Scholar ID.
    pub fn id(s: &str) -> (r: Self)
        ensures
            r matches PaperId::S2Id(v) && v@ == s@,
    {
        PaperId::S2Id(s.to_string())
    }

    /// A corpus ID.
    pub fn corpus(id: u64) -> (r: Self)
        ensures
            r == PaperId::CorpusId(id),
    {
        PaperId::CorpusId(id)
    }

    /// A DOI.
    pub fn doi(s: &str) -> (r: Self)
        ensures
            r matches PaperId::DOI(v) && v@ == s@,
    {
        PaperId::DOI(s.to_string())
    }

    /// An arXiv ID.
    pub fn arxiv(s: &str) -> (r: Self)
        ensures
            r matches PaperId::ArXiv(v) && v@ == s@,
    {
        PaperId::ArXiv(s.to_string())
    }

    /// An ACL ID.
    pub fn acl(s: &str) -> (r: Self)
        ensures
            r matches PaperId::ACL(v) && v@ == s@,
    {
        PaperId::ACL(s.to_string())
    }

    /// A URL.
    pub fn url(s: &str) -> (r: Self)
        ensures
            r matches PaperId::URL(v) && v@ == s@,
    {
        PaperId::URL(s.to_string())
    }

    /// A PubMed ID.
    pub fn pubmed(id: u64) -> (r: Self)
        ensures
            r == PaperId::PubMed(id),
    {
        PaperId::PubMed(id)
    }

    /// A PubMed Central ID.
    pub fn pubmed_central(id: u64) -> (r: Self)
        ensures
            r == PaperId::PubMedCentral(id),
    {
        PaperId::PubMedCentral(id)
    }

    /// A MAG ID.
    pub fn mag(id: u64) -> (r: Self)
        ensures
            r == PaperId::MAG(id),
    {
        PaperId::MAG(id)
    }

    /// A copy of this identifier.
    pub fn copied(&self) -> (r: PaperId)
        ensures
            r == *self,
    {
        match self {
            PaperId::S2Id(s) => PaperId::S2Id(s.clone()),
            PaperId::CorpusId(v) => PaperId::CorpusId(*v),
            PaperId::DOI(s) => PaperId::DOI(s.clone()),
            PaperId::ArXiv(s) => PaperId::ArXiv(s.clone()),
            PaperId::MAG(v) => PaperId::MAG(*v),
            PaperId::ACL(s) => PaperId::ACL(s.clone()),
            PaperId::PubMed(v) => PaperId::PubMed(*v),
            PaperId::PubMedCentral(v) => PaperId::PubMedCentral(*v),
            PaperId::URL(s) => PaperId::URL(s.clone()),
        }
    }

    /// The identifier as the API writes it (`CorpusId:215416146`).
    pub fn to_query_text(&self) -> (r: String)
        ensures
            r@ == paper_id_text(*self),
    {
        match self {
            PaperId::S2Id(s) => s.clone(),
            PaperId::CorpusId(v) => prefixed("CorpusId:", decimal_string(*v).as_str()),
            PaperId::DOI(s) => prefixed("DOI:", s.as_str()),
            PaperId::ArXiv(s) => prefixed("ARXIV:", s.as_str()),
            PaperId::MAG(v) => prefixed("MAG:", decimal_string(*v).as_str()),
            PaperId::ACL(s) => prefixed("ACL:", s.as_str()),
            PaperId::PubMed(v) => prefixed("PMID:", decimal_string(*v).as_str()),
            PaperId::PubMedCentral(v) => prefixed("PMCID:", decimal_string(*v).as_str()),
            PaperId::URL(s) => prefixed("URL:", s.as_str()),
        }
    }
}

fn prefixed(prefix: &str, value: &str) -> (r: String)
    ensures
        r@ == prefix@ + value@,
{
    let mut s = String::from_str(prefix);
    s.append(value);
    s
}

/// A field of a paper record that a query can ask for.
#[derive(Debug, Clone, Copy, PartialEq, Eq, Hash, Structural)]
pub enum PaperField {
    CorpusId,
    ExternalIds,
    URL,
    Title,
    Abstract,
    Venue,
    PublicationVenue,
    Year,
    ReferenceCount,
    CitationCount,
    InfluentialCitationCount,
    IsOpenAccess,
    OpenAccessPDF,
    FieldsOfStudy,
    S2FieldsOfStudy,
    PublicationTypes,
    PublicationDate,
    Journal,
    CitationStyles,
    Authors,
    Citations,
    References,
    Embedding,
    Tldr,
}

impl QueryValue for PaperField {
    open spec fn spec_name(self) -> Seq<char> {
        match self {
            PaperField::CorpusId => "corpusId"@,
            PaperField::ExternalIds => "externalIds"@,
            PaperField::URL => "url"@,
            PaperField::Title => "title"@,
            PaperField::Abstract => "abstract"@,
            PaperField::Venue => "venue"@,
            PaperField::PublicationVenue => "publicationVenue"@,
            PaperField::Year => "year"@,
            PaperField::ReferenceCount => "referenceCount"@,
            PaperField::CitationCount => "citationCount"@,
            PaperField::InfluentialCitationCount => "influentialCitationCount"@,
            PaperField::IsOpenAccess => "isOpenAccess"@,
            PaperField::OpenAccessPDF => "openAccessPdf"@,
            PaperField::FieldsOfStudy => "fieldsOfStudy"@,
            PaperField::S2FieldsOfStudy => "s2FieldsOfStudy"@,
            PaperField::PublicationTypes => "publicationTypes"@,
            PaperField::PublicationDate => "publicationDate"@,
            PaperField::Journal => "journal"@,
            PaperField::CitationStyles => "citationStyles"@,
            PaperField::Authors => "authors"@,
            PaperField::Citations => "citations"@,
            PaperField::References => "references"@,
            PaperField::Embedding => "embedding"@,
            PaperField::Tldr => "tldr"@,
        }
    }

    fn name(self) -> (r: &'static str) {
        match self {
            PaperField::CorpusId => "corpusId",
            PaperField::ExternalIds => "externalIds",
            PaperField::URL => "url",
            PaperField::Title => "title",
            PaperField::Abstract => "abstract",
            PaperField::Venue => "venue",
            PaperField::PublicationVenue => "publicationVenue",
            PaperField::Year => "year",
            PaperField::ReferenceCount => "referenceCount",
            PaperField::CitationCount => "citationCount",
            PaperField::InfluentialCitationCount => "influentialCitationCount",
            PaperField::IsOpenAccess => "isOpenAccess",
            PaperField::OpenAccessPDF => "openAccessPdf",
            PaperField::FieldsOfStudy => "fieldsOfStudy",
            PaperField::S2FieldsOfStudy => "s2FieldsOfStudy",
            PaperField::PublicationTypes => "publicationTypes",
            PaperField::PublicationDate => "publicationDate",
            PaperField::Journal => "journal",
            PaperField::CitationStyles => "citationStyles",
            PaperField::Authors => "authors",
            PaperField::Citations => "citations",
            PaperField::References => "references",
            PaperField::Embedding => "embedding",
            PaperField::Tldr => "tldr",
        }
    }

    fn same(self, other: PaperField) -> (r: bool) {
        self == other
    }
}

/// The names of paper fields, each once, separated by commas.
pub fn merge_paper_fields(values: &Vec<PaperField>) -> (r: String)
    ensures
        r@ == merged(values@),
{
    merge_values(values)
}

/// A high-level academic category.
#[derive(Debug, Clone, Copy, PartialEq, Eq, Hash, Structural)]
pub enum FieldOfStudy {
    ComputerScience,
    Medicine,
    Chemistry,
    Biology,
    MaterialsScience,
    Physics,
    Geology,
    Psychology,
    Art,
    History,
    Geography,
    Sociology,
    Business,
    PoliticalScience,
    Economics,
    Philosophy,
    Mathematics,
    Engineering,
    EnvironmentalScience,
    AgriculturalAndFoodSciences,
    Education,
    Law,
    Linguistics,
}

impl QueryValue for FieldOfStudy {
    open spec fn spec_name(self) -> Seq<char> {
        match self {
            FieldOfStudy::ComputerScience => "Computer Science"@,
            FieldOfStudy::Medicine => "Medicine"@,
            FieldOfStudy::Chemistry => "Chemistry"@,
            FieldOfStudy::Biology => "Biology"@,
            FieldOfStudy::MaterialsScience => "Materials Science"@,
            FieldOfStudy::Physics => "Physics"@,
            FieldOfStudy::Geology => "Geology"@,
            FieldOfStudy::Psychology => "Psychology"@,
            FieldOfStudy::Art => "Art"@,
            FieldOfStudy::History => "History"@,
            FieldOfStudy::Geography => "Geography"@,
            FieldOfStudy::Sociology => "Sociology"@,
            FieldOfStudy::Business => "Business"@,
            FieldOfStudy::PoliticalScience => "Political Science"@,
            FieldOfStudy::Economics => "Economics"@,
            FieldOfStudy::Philosophy => "Philosophy"@,
            FieldOfStudy::Mathematics => "Mathematics"@,
            FieldOfStudy::Engineering => "Engineering"@,
            FieldOfStudy::EnvironmentalScience => "Environmental Science"@,
            FieldOfStudy::AgriculturalAndFoodSciences => "Agricultural and Food Sciences"@,
            FieldOfStudy::Education => "Education"@,
            FieldOfStudy::Law => "Law"@,
            FieldOfStudy::Linguistics => "Linguistics"@,
        }
    }

    fn name(self) -> (r: &'static str) {
        match self {
            FieldOfStudy::ComputerScience => "Computer Science",
            FieldOfStudy::Medicine => "Medicine",
            FieldOfStudy::Chemistry => "Chemistry",
            FieldOfStudy::Biology => "Biology",
            FieldOfStudy::MaterialsScience => "Materials Science",
            FieldOfStudy::Physics => "Physics",
            FieldOfStudy::Geology => "Geology",
            FieldOfStudy::Psychology => "Psychology",
            FieldOfStudy::Art => "Art",
            FieldOfStudy::History => "History",
            FieldOfStudy::Geography => "Geography",
            FieldOfStudy::Sociology => "Sociology",
            FieldOfStudy::Business => "Business",
            FieldOfStudy::PoliticalScience => "Political Science",
            FieldOfStudy::Economics => "Economics",
            FieldOfStudy::Philosophy => "Philosophy",
            FieldOfStudy::Mathematics => "Mathematics",
            FieldOfStudy::Engineering => "Engineering",
            FieldOfStudy::EnvironmentalScience => "Environmental Science",
            FieldOfStudy::AgriculturalAndFoodSciences => "Agricultural and Food Sciences",
            FieldOfStudy::Education => "Education",
            FieldOfStudy::Law => "Law",
            FieldOfStudy::Linguistics => "Linguistics",
        }
    }

    fn same(self, other: FieldOfStudy) -> (r: bool) {
        self == other
    }
}

/// The names of fields of study, each once, separated by commas.
pub fn merge_fields_of_study(values: &Vec<FieldOfStudy>) -> (r: String)
    ensures
        r@ == merged(values@),
{
    merge_values(values)
}

/// The kind of a publication.
#[derive(Debug, Clone, Copy, PartialEq, Eq, Hash, Structural)]
pub enum PublicationType {
    Review,
    JournalArticle,
    CaseReport,
    ClinicalTrial,
    Conference,
    Dataset,
    Editorial,
    LettersAndComments,
    MetaAnalysis,
    News,
    Study,
    Book,
    BookSection,
}

impl QueryValue for PublicationType {
    open spec fn spec_name(self) -> Seq<char> {
        match self {
            PublicationType::Review => "Review"@,
            PublicationType::JournalArticle => "JournalArticle"@,
            PublicationType::CaseReport => "CaseReport"@,
            PublicationType::ClinicalTrial => "ClinicalTrial"@,
            PublicationType::Conference => "Conference"@,
            PublicationType::Dataset => "Dataset"@,
            PublicationType::Editorial => "Editorial"@,
            PublicationType::LettersAndComments => "LettersAndComments"@,
            PublicationType::MetaAnalysis => "MetaAnalysis"@,
            PublicationType::News => "News"@,
            PublicationType::Study => "Study"@,
            PublicationType::Book => "Book"@,
            PublicationType::BookSection => "BookSection"@,
        }
    }

    fn name(self) -> (r: &'static str) {
        match self {
            PublicationType::Review => "Review",
            PublicationType::JournalArticle => "JournalArticle",
            PublicationType::CaseReport => "CaseReport",
            PublicationType::ClinicalTrial => "ClinicalTrial",
            PublicationType::Conference => "Conference",
            PublicationType::Dataset => "Dataset",
            PublicationType::Editorial => "Editorial",
            PublicationType::LettersAndComments => "LettersAndComments",
            PublicationType::MetaAnalysis => "MetaAnalysis",
            PublicationType::News => "News",
            PublicationType::Study => "Study",
            PublicationType::Book => "Book",
            PublicationType::BookSection => "BookSection",
        }
    }

    fn same(self, other: PublicationType) -> (r: bool) {
        self == other
    }
}

/// The names of publication types, each once, separated by commas.
pub fn merge_publication_types(values: &Vec<PublicationType>) -> (r: String)
    ensures
        r@ == merged(values@),
{
    merge_values(values)
}

/// Short machine-written summary of a paper.
#[derive(Debug, Clone, PartialEq)]
pub struct Tldr {
    /// The model that wrote the summary.
    pub model: Option<String>,
    /// The summary.
    pub text: Option<String>,
}

/// Bibliographic citation of a paper.
#[derive(Debug, Clone, PartialEq)]
pub struct CitationStyles {
    pub bibtex: Option<String>,
}

/// A paper that cites, or is cited by, another paper.
#[derive(Debug, Clone, PartialEq)]
pub struct AssociatedPaper {
    pub paper_id: String,
    pub corpus_id: Option<u64>,
    pub external_ids: Option<ExternalIds>,
    pub url: Option<String>,
    pub title: Option<String>,
    pub abstract_: Option<String>,
    pub venue: Option<String>,
    pub publication_venue: Option<PublicationVenue>,
    pub year: Option<u32>,
    pub reference_count: Option<u32>,
    pub citation_count: Option<u32>,
    pub influential_citation_count: Option<u32>,
    pub is_open_access: Option<bool>,
    pub open_access_pdf: Option<OpenAccessPdf>,
    pub fields_of_study: Option<Vec<FieldOfStudy>>,
    pub s2_fields_of_study: Option<Vec<S2FieldsOfStudy>>,
    pub publication_types: Option<Vec<PublicationType>>,
    pub publication_date: Option<String>,
    pub journal: Option<Journal>,
    pub citation_styles: Option<CitationStyles>,
    pub authors: Option<Vec<Author>>,
}

/// An author of a paper.
#[derive(Debug, Clone, PartialEq)]
pub struct Author {
    pub author_id: Option<String>,
    pub external_ids: Option<AuthorExternalIds>,
    pub url: Option<String>,
    pub name: Option<String>,
    pub affiliations: Option<Vec<String>>,
    pub homepage: Option<String>,
    pub paper_count: Option<String>,
    pub citation_count: Option<String>,
    pub h_index: Option<String>,
}

/// Identifiers of an author in other sources.
#[derive(Debug, Clone, PartialEq)]
pub struct AuthorExternalIds {
    pub orcid: Option<String>,
    pub dblp: Option<String>,
}

/// The journal a paper appeared in.
#[derive(Debug, Clone, PartialEq)]
pub struct Journal {
    pub name: Option<String>,
    pub volume: Option<String>,
    pub pages: Option<String>,
}

/// A field of study with the source that assigned it.
#[derive(Debug, Clone, PartialEq)]
pub struct S2FieldsOfStudy {
    pub category: Option<String>,
    pub source: Option<String>,
}

/// Where an open-access copy of a paper is, and under what terms.
#[derive(Debug, Clone, PartialEq)]
pub struct OpenAccessPdf {
    pub url: Option<String>,
    pub status: Option<String>,
    pub license: Option<String>,
    pub legal_disclaimer: Option<String>,
}

/// The journal or conference where a paper was published.
#[derive(Debug, Clone, PartialEq)]
pub struct PublicationVenue {
    pub id: Option<String>,
    pub name: Option<String>,
    pub type_: Option<String>,
    pub alternate_names: Option<Vec<String>>,
    pub url: Option<String>,
}

/// Identifiers of a paper in other sources.
#[derive(Debug, Clone, PartialEq)]
pub struct ExternalIds {
    pub corpus_id: Option<u64>,
    pub arxiv: Option<String>,
    pub mag: Option<String>,
    pub acl: Option<String>,
    pub pubmed: Option<String>,
    pub pubmed_central: Option<String>,
    pub dblp: Option<String>,
    pub doi: Option<String>,
    pub medline: Option<String>,
}

} // verus!
