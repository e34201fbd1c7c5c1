//! Queries: the top-level constructs that can be sent to the database.

pub mod write;

use vstd::prelude::*;
use vstd::std_specs::convert::FromSpecImpl;
use crate::expr::{expr_text, Expr, ExprView};
use crate::query::write::create_index::{params_expr, CreateIndex, IndexParamsView};

verus! {

/// A query: an envelope with one field, whose name is the verb of the query
/// and whose value is the parameters of the verb.
#[derive(Debug, Clone)]
pub enum Query {
    CreateIndex(CreateIndex),
}

/// The value of a `Query`.
pub ghost enum QueryView {
    CreateIndex(IndexParamsView),
}

impl QueryView {
    /// The verb of the query.
    pub open spec fn verb(self) -> Seq<char> {
        match self {
            QueryView::CreateIndex(_) => "create_index"@,
        }
    }

    /// The parameters of the verb.
    pub open spec fn params(self) -> ExprView {
        match self {
            QueryView::CreateIndex(params) => params_expr(params),
        }
    }
}

impl View for Query {
    type V = QueryView;

    open spec fn view(&self) -> QueryView {
        match self {
            Query::CreateIndex(query) => QueryView::CreateIndex(query@),
        }
    }
}

/// The expression that a query is written as: the call of its verb on its
/// parameters.
pub open spec fn query_expr(query: QueryView) -> ExprView {
    ExprView::Call(query.verb(), Box::new(query.params()))
}

impl From<CreateIndex> for Query {
    fn from(query: CreateIndex) -> (r: Query) {
        Query::CreateIndex(query)
    }
}

impl FromSpecImpl<CreateIndex> for Query {
    open spec fn obeys_from_spec() -> bool {
        true
    }

    open spec fn from_spec(query: CreateIndex) -> Query {
        Query::CreateIndex(query)
    }
}

impl Query {
    /// The query as an expression.
    pub fn to_expr(&self) -> (e: Expr)
        ensures
            e@ == query_expr(self@),
    {
        match self {
            Query::CreateIndex(query) => query.to_expr(),
        }
    }

    /// Writes the query as JSON text. The text is determined by the value
    /// of the query: two queries of one value are written alike.
    pub fn to_json(&self) -> (out: String)
        ensures
            out@ == expr_text(query_expr(self@)),
    {
        self.to_expr().to_json()
    }
}

} // verus!
