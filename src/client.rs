//! The Connected Papers service: addresses of its endpoints and the plain
//! records of its graph answers.
use vstd::prelude::*;

verus! {

/// Address of the Connected Papers API.
pub open spec fn connected_papers_base() -> Seq<char> {
    "https://rest.prod.connectedpapers.com/papers-api"@
}

/// Name of the header that carries the API key.
pub open spec fn api_key_header_name() -> Seq<char> {
    "X-Api-Key"@
}

fn endpoint(path: &str) -> (r: String)
    ensures
        r@ == connected_papers_base() + path@,
{
    let mut u = String::from_str("https://rest.prod.connectedpapers.com/papers-api");
    u.append(path);
    u
}

/// Address of the graph of paper `id`; `fresh_only` asks for a rebuild that
/// ignores cached graphs.
pub fn graph_url(id: &str, fresh_only: bool) -> (r: String)
    ensures
        r@ == connected_papers_base() + (if fresh_only {
            "/graph/1/"@
        } else {
            "/graph/0/"@
        }) + id@,
{
    let mut u = if fresh_only {
        endpoint("/graph/1/")
    } else {
        endpoint("/graph/0/")
    };
    u.append(id);
    u
}

/// Address of the count of requests left to the API key.
pub fn remaining_usages_url() -> (r: String)
    ensures
        r@ == connected_papers_base() + "/remaining-usages"@,
{
    endpoint("/remaining-usages")
}

/// Address of the list of papers whose graphs need no API key.
pub fn free_access_papers_url() -> (r: String)
    ensures
        r@ == connected_papers_base() + "/free-access-papers"@,
{
    endpoint("/free-access-papers")
}

/// Name of the header that carries the API key.
pub fn api_key_header() -> (r: &'static str)
    ensures
        r@ == api_key_header_name(),
{
    "X-Api-Key"
}

/// The settings a graph was built with.
#[derive(Debug, Clone, PartialEq)]
pub struct Parameter {
    pub paper_id: String,
    pub total_nodes: u32,
    pub num_commons: u32,
    pub max_load: u32,
    pub num_neighbors: u32,
    pub spring_iterations: u32,
    pub params_version: u32,
}

/// An author of a paper of a graph.
#[derive(Debug, Clone, PartialEq)]
pub struct Author {
    pub ids: Option<Vec<Option<String>>>,
    pub name: Option<String>,
}

/// An author who recurs across the papers of a graph.
#[derive(Debug, Clone, PartialEq)]
pub struct AuthorDetail {
    pub id: Option<String>,
    pub name: Option<String>,
    pub mentions: Option<Vec<String>>,
    pub mention_indexes: Option<Vec<u32>>,
    pub url: Option<String>,
}

/// Request of the tool that fetches a paper's graph.
#[derive(Debug, Clone, PartialEq)]
pub struct GetGraphRequest {
    /// The Semantic Scholar primary ID of the paper.
    pub id: String,
    /// Ask for a fresh rebuild, ignoring cached graphs.
    pub fresh_only: bool,
}

/// Request of the tool that describes a paper from its graph.
#[derive(Debug, Clone, PartialEq)]
pub struct GetPaperInfoRequest {
    /// The Semantic Scholar primary ID of the paper.
    pub id: String,
    /// Ask for a fresh rebuild, ignoring cached graphs.
    pub fresh_only: bool,
}

} // verus!
