//! Details about one paper.
//!
//! `GET /paper/{paperId}?fields=...`
use vstd::prelude::*;
use crate::models::{PaperField, PaperId, paper_id_text};
use crate::query::{append_list_part, graph_api_base, graph_api_url, list_part, opt_seq, push_value, pushed};

verus! {

/// What a paper details request asks for.
pub struct PaperIdSearchView {
    pub id: PaperId,
    pub fields: Option<Seq<PaperField>>,
}

/// Parameters of a paper details request.
#[derive(Debug, Clone)]
pub struct PaperIdSearchParam {
    /// The paper.
    id: PaperId,
    /// Fields of the paper to return.
    fields: Option<Vec<PaperField>>,
}

impl View for PaperIdSearchParam {
    type V = PaperIdSearchView;

    closed spec fn view(&self) -> PaperIdSearchView {
        PaperIdSearchView { id: self.id, fields: opt_seq(self.fields) }
    }
}

/// The path and query of a paper details request, after `/paper/`.
pub open spec fn paper_id_query_text(v: PaperIdSearchView) -> Seq<char> {
    paper_id_text(v.id) + list_part("?fields="@, v.fields)
}

impl PaperIdSearchParam {
    /// Details of the paper `id`, with the default fields.
    pub fn new(id: &PaperId) -> (r: Self)
        ensures
            r@ == (PaperIdSearchView { id: *id, fields: None }),
    {
        PaperIdSearchParam { id: id.copied(), fields: None }
    }

    /// Ask for one more field of the paper.
    pub fn add_field(&mut self, field: PaperField) -> (r: &mut Self)
        ensures
            (*r)@ == (PaperIdSearchView { fields: pushed(old(self)@.fields, field), ..old(self)@ }),
            *final(self) == *final(r),
    {
        push_value(&mut self.fields, field);
        self
    }

    /// The path and query after `/paper/`: the identifier, then the fields.
    pub fn query_string(&self) -> (r: String)
        ensures
            r@ == paper_id_query_text(self@),
    {
        let mut q = self.id.to_query_text();
        append_list_part(&mut q, "?fields=", &self.fields);
        q
    }

    /// Address of this request.
    pub fn url(&self) -> (r: String)
        ensures
            r@ == graph_api_base() + "/paper/"@ + paper_id_query_text(self@),
    {
        let mut u = graph_api_url("/paper/");
        let q = self.query_string();
        u.append(q.as_str());
        u
    }
}

} // verus!
