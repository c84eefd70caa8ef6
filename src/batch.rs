//! Details of many papers at once (up to 500 identifiers).
//!
//! `POST /paper/batch?fields=...`
use vstd::prelude::*;
use crate::error::{Error, Result};
use crate::models::{PaperField, PaperId, paper_id_text};
use crate::query::{
    append_list_part, copy_values, graph_api_base, graph_api_url, list_part, opt_seq, push_value, pushed,
};

verus! {

/// What a batch request asks for.
pub struct PaperBatchView {
    pub ids: Seq<PaperId>,
    pub fields: Option<Seq<PaperField>>,
}

/// Parameters of a batch request.
#[derive(Debug, Clone)]
pub struct PaperBatchParam {
    /// The papers.
    pub ids: Vec<PaperId>,
    /// Fields of each paper to return.
    pub fields: Option<Vec<PaperField>>,
}

impl View for PaperBatchParam {
    type V = PaperBatchView;

    open spec fn view(&self) -> PaperBatchView {
        PaperBatchView { ids: self.ids@, fields: opt_seq(self.fields) }
    }
}

/// A copy of the identifiers `ids`.
pub fn copy_ids(ids: &Vec<PaperId>) -> (r: Vec<PaperId>)
    ensures
        r@ == ids@,
{
    let mut out: Vec<PaperId> = Vec::new();
    let mut i: usize = 0;
    while i < ids.len()
        invariant
            i <= ids.len(),
            out@ == ids@.take(i as int),
        decreases ids.len() - i,
    {
        out.push(ids[i].copied());
        proof {
            assert(ids@.take(i as int + 1) =~= ids@.take(i as int).push(ids@[i as int]));
        }
        i = i + 1;
    }
    assert(ids@.take(ids.len() as int) =~= ids@);
    out
}

impl PaperBatchParam {
    /// Address of this request; the identifiers go in its body.
    pub fn url(&self) -> (r: String)
        ensures
            r@ == graph_api_base() + "/paper/batch"@ + list_part("?fields="@, self@.fields),
    {
        let mut u = graph_api_url("/paper/batch");
        append_list_part(&mut u, "?fields=", &self.fields);
        u
    }

    /// The identifiers as the API writes them, in order.
    pub fn id_texts(&self) -> (r: Vec<String>)
        ensures
            r@.len() == self.ids@.len(),
            forall|i: int| 0 <= i < r@.len() ==> #[trigger] r@[i]@ == paper_id_text(self.ids@[i]),
    {
        let mut out: Vec<String> = Vec::new();
        let mut i: usize = 0;
        while i < self.ids.len()
            invariant
                i <= self.ids.len(),
                out@.len() == i,
                forall|k: int| 0 <= k < i ==> #[trigger] out@[k]@ == paper_id_text(self.ids@[k]),
            decreases self.ids.len() - i,
        {
            out.push(self.ids[i].to_query_text());
            i = i + 1;
        }
        out
    }
}

/// Builds a [`PaperBatchParam`] step by step.
#[derive(Debug, Clone)]
pub struct PaperBatchParamBuilder {
    ids: Vec<PaperId>,
    fields: Option<Vec<PaperField>>,
}

impl View for PaperBatchParamBuilder {
    type V = PaperBatchView;

    closed spec fn view(&self) -> PaperBatchView {
        PaperBatchView { ids: self.ids@, fields: opt_seq(self.fields) }
    }
}

impl Default for PaperBatchParamBuilder {
    /// A builder with no paper and the default fields.
    fn default() -> (r: Self)
        ensures
            r@ == (PaperBatchView { ids: Seq::empty(), fields: None }),
    {
        PaperBatchParamBuilder { ids: Vec::new(), fields: None }
    }
}

/// Message of the error for a batch without papers.
pub open spec fn empty_batch_message() -> Seq<char> {
    "ids is empty"@
}

impl PaperBatchParamBuilder {
    /// Ask for one more paper.
    pub fn id(&mut self, id: PaperId) -> (r: &mut Self)
        ensures
            (*r)@ == (PaperBatchView { ids: old(self)@.ids.push(id), ..old(self)@ }),
            *final(self) == *final(r),
    {
        self.ids.push(id);
        self
    }

    /// Ask for one more field of each paper.
    pub fn field(&mut self, field: PaperField) -> (r: &mut Self)
        ensures
            (*r)@ == (PaperBatchView { fields: pushed(old(self)@.fields, field), ..old(self)@ }),
            *final(self) == *final(r),
    {
        push_value(&mut self.fields, field);
        self
    }

    /// The parameters, unless no paper was given.
    pub fn build(&self) -> (r: Result<PaperBatchParam>)
        ensures
            self@.ids.len() == 0 ==> (r matches Err(Error::InvalidParameter(m)) && m@ == empty_batch_message()),
            self@.ids.len() > 0 ==> (r matches Ok(p) && p@ == self@),
    {
        if self.ids.len() == 0 {
            Err(Error::InvalidParameter("ids is empty".to_string()))
        } else {
            Ok(PaperBatchParam { ids: copy_ids(&self.ids), fields: copy_values(&self.fields) })
        }
    }
}

} // verus!
