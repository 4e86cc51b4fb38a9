//! The vertex and edge operations of one transaction bound to one account.

use vstd::prelude::*;
use vstd::string::*;
use chrono::NaiveDateTime;
use uuid::Uuid;
use crate::error::{BackendError, BackendErrorView, Error, ErrorView};
use crate::model::{weight_out_of_range, Edge, EdgeView, Vertex, VertexView, Weight};
use crate::outcome::{fails_with, first_row, or_unexpected, touched_row};
use crate::outside::fresh_id;
use crate::query::{Param, ParamView, Query, QueryView, Statement};

verus! {

/// The account a transaction acts for. Every statement that changes or
/// removes a vertex or an edge names this account as the required owner.
#[derive(Debug, PartialEq)]
pub struct PostgresTransaction {
    pub account_id: Uuid,
}

impl PostgresTransaction {
    /// A transaction bound to `account_id`.
    pub fn new(account_id: Uuid) -> (trans: PostgresTransaction)
        ensures
            trans.account_id == account_id,
    {
        PostgresTransaction { account_id }
    }

    /// The statement that reads the type of vertex `id`. Ownership plays no
    /// part in a read.
    pub fn get_vertex_request(&self, id: Uuid) -> (q: Query)
        ensures
            q@ == (QueryView { statement: Statement::SelectVertex, params: seq![ParamView::Id(id)] }),
            q@.well_formed(),
    {
        let q = Query { statement: Statement::SelectVertex, params: vec![Param::Id(id)] };
        assert(q@.params =~= seq![ParamView::Id(id)]);
        q
    }

    /// The vertex `id` with the type of the first row answered;
    /// `VertexDoesNotExist` where no row was.
    pub fn get_vertex_response(&self, id: Uuid, reply: Result<Vec<String>, BackendError>) -> (r: Result<Vertex, Error>)
        requires
            !(reply matches Err(e) && e is Conversion),
        ensures
            match reply {
                Ok(rows) => if rows@.len() > 0 {
                    r matches Ok(v) && v@ == (VertexView { id, t: rows@[0]@ })
                } else {
                    fails_with(r, ErrorView::VertexDoesNotExist)
                },
                Err(e) => fails_with(r, ErrorView::Unexpected(e@.description())),
            },
    {
        match first_row(reply, Error::VertexDoesNotExist) {
            Ok(t) => Ok(Vertex::new(id, t)),
            Err(e) => Err(e),
        }
    }

    /// The statement that inserts vertex `id` of type `t`, owned by the
    /// bound account.
    pub fn insert_vertex_query(&self, id: Uuid, t: String) -> (q: Query)
        ensures
            q@ == (QueryView {
                statement: Statement::InsertVertex,
                params: seq![ParamView::Id(id), ParamView::Text(t@), ParamView::Id(self.account_id)],
            }),
            q@.well_formed(),
    {
        let ghost text = t@;
        let q = Query {
            statement: Statement::InsertVertex,
            params: vec![Param::Id(id), Param::Text(t), Param::Id(self.account_id)],
        };
        assert(q@.params =~= seq![ParamView::Id(id), ParamView::Text(text), ParamView::Id(self.account_id)]);
        q
    }

    /// Allocates a fresh identifier and gives it with the statement that
    /// inserts a vertex of type `t` under it, owned by the bound account.
    pub fn create_vertex_request(&self, t: String) -> (r: (Uuid, Query))
        ensures
            r.1@ == (QueryView {
                statement: Statement::InsertVertex,
                params: seq![ParamView::Id(r.0), ParamView::Text(t@), ParamView::Id(self.account_id)],
            }),
            r.1@.well_formed(),
    {
        let id = fresh_id();
        let q = self.insert_vertex_query(id, t);
        (id, q)
    }

    /// The new vertex's identifier once the insert went through, however
    /// many rows the backend counted; `Unexpected` where it failed.
    pub fn create_vertex_response(&self, id: Uuid, reply: Result<usize, BackendError>) -> (r: Result<Uuid, Error>)
        requires
            !(reply matches Err(e) && e is Conversion),
        ensures
            match reply {
                Ok(_) => r == Ok::<Uuid, Error>(id),
                Err(e) => fails_with(r, ErrorView::Unexpected(e@.description())),
            },
    {
        match or_unexpected(reply) {
            Ok(_) => Ok(id),
            Err(e) => Err(e),
        }
    }

    /// The statement that sets the type of `v`, provided the bound account
    /// owns it.
    pub fn set_vertex_request(&self, v: Vertex) -> (q: Query)
        ensures
            q@ == set_vertex_view(self.account_id, v@),
            q@.well_formed(),
    {
        let ghost text = v.t@;
        let id = v.id;
        let q = Query {
            statement: Statement::UpdateVertex,
            params: vec![Param::Text(v.t), Param::Id(id), Param::Id(self.account_id)],
        };
        assert(q@.params =~= seq![ParamView::Text(text), ParamView::Id(id), ParamView::Id(self.account_id)]);
        q
    }

    /// The statement that deletes vertex `id`, provided the bound account
    /// owns it.
    pub fn delete_vertex_request(&self, id: Uuid) -> (q: Query)
        ensures
            q@ == delete_vertex_view(self.account_id, id),
            q@.well_formed(),
    {
        let q = Query {
            statement: Statement::DeleteVertex,
            params: vec![Param::Id(id), Param::Id(self.account_id)],
        };
        assert(q@.params =~= seq![ParamView::Id(id), ParamView::Id(self.account_id)]);
        q
    }

    /// The result of setting or deleting a vertex: success where a row was
    /// touched; `VertexDoesNotExist` where none was, be the vertex absent or
    /// another account's.
    pub fn vertex_update_response(&self, reply: Result<usize, BackendError>) -> (r: Result<(), Error>)
        requires
            !(reply matches Err(e) && e is Conversion),
        ensures
            match reply {
                Ok(count) => if count > 0 {
                    r is Ok
                } else {
                    fails_with(r, ErrorView::VertexDoesNotExist)
                },
                Err(e) => fails_with(r, ErrorView::Unexpected(e@.description())),
            },
    {
        touched_row(reply, Error::VertexDoesNotExist)
    }

    /// The statement that reads the weight of the edge with the given key.
    pub fn get_edge_request(&self, outbound_id: Uuid, t: &str, inbound_id: Uuid) -> (q: Query)
        ensures
            q@ == (QueryView {
                statement: Statement::SelectEdge,
                params: seq![ParamView::Id(outbound_id), ParamView::Text(t@), ParamView::Id(inbound_id)],
            }),
            q@.well_formed(),
    {
        let q = Query {
            statement: Statement::SelectEdge,
            params: vec![Param::Id(outbound_id), Param::Text(String::from_str(t)), Param::Id(inbound_id)],
        };
        assert(q@.params =~= seq![ParamView::Id(outbound_id), ParamView::Text(t@), ParamView::Id(inbound_id)]);
        q
    }

    /// The edge with the given key and the weight of the first row
    /// answered; `EdgeDoesNotExist` where no row was.
    pub fn get_edge_response(
        &self,
        outbound_id: Uuid,
        t: String,
        inbound_id: Uuid,
        reply: Result<Vec<Weight>, BackendError>,
    ) -> (r: Result<Edge, Error>)
        requires
            !(reply matches Err(e) && e is Conversion),
        ensures
            match reply {
                Ok(rows) => if rows@.len() > 0 {
                    r matches Ok(edge) && edge@ == (EdgeView { outbound_id, t: t@, inbound_id, weight: rows@[0] })
                } else {
                    fails_with(r, ErrorView::EdgeDoesNotExist)
                },
                Err(e) => fails_with(r, ErrorView::Unexpected(e@.description())),
            },
    {
        match first_row(reply, Error::EdgeDoesNotExist) {
            Ok(weight) => Ok(Edge::new(outbound_id, t, inbound_id, weight)),
            Err(e) => Err(e),
        }
    }

    /// The upsert of edge `e` under the row identifier `row_id`, should the
    /// edge be new. A weight outside [-1.0, 1.0] is refused with
    /// `WeightOutOfRange` and no statement is given, so nothing reaches the
    /// backend.
    pub fn upsert_edge_query(&self, row_id: Uuid, e: &Edge) -> (r: Result<Query, Error>)
        ensures
            weight_out_of_range(e.weight.bits) ==> fails_with(r, ErrorView::WeightOutOfRange),
            !weight_out_of_range(e.weight.bits) ==> gives_query(
                r,
                upsert_edge_view(self.account_id, row_id, e@),
            ),
            r matches Ok(q) ==> q@.well_formed(),
    {
        if e.weight.is_out_of_range() {
            return Err(Error::WeightOutOfRange);
        }
        let q = Query {
            statement: Statement::UpsertEdge,
            params: vec![
                Param::Id(row_id),
                Param::Id(e.outbound_id),
                Param::Id(self.account_id),
                Param::Text(e.t.clone()),
                Param::Id(e.inbound_id),
                Param::Weight(e.weight),
            ],
        };
        assert(q@.params =~= upsert_edge_view(self.account_id, row_id, e@).params);
        Ok(q)
    }

    /// Validates the weight of `e`, then allocates a row identifier and
    /// gives the upsert. A weight outside [-1.0, 1.0] is refused with
    /// `WeightOutOfRange` and no statement is given.
    pub fn set_edge_request(&self, e: &Edge) -> (r: Result<Query, Error>)
        ensures
            weight_out_of_range(e.weight.bits) ==> fails_with(r, ErrorView::WeightOutOfRange),
            !weight_out_of_range(e.weight.bits) ==> exists|row_id: Uuid|
                gives_query(r, #[trigger] upsert_edge_view(self.account_id, row_id, e@)),
            r matches Ok(q) ==> q@.well_formed(),
    {
        if e.weight.is_out_of_range() {
            return Err(Error::WeightOutOfRange);
        }
        let row_id = fresh_id();
        self.upsert_edge_query(row_id, e)
    }

    /// The result of an edge upsert and what to do with the savepoint it ran
    /// in. The upsert succeeded where a row was touched. It found no vertex
    /// to attach to (`VertexDoesNotExist`) where none was, or where the
    /// backend raised a not-null or foreign-key violation. Any other failure
    /// is `Unexpected`. The savepoint is committed on success and rolled
    /// back on every failure, so the enclosing transaction stays usable.
    pub fn set_edge_response(&self, reply: Result<usize, BackendError>) -> (r: (Result<(), Error>, SavepointAction))
        requires
            !(reply matches Err(e) && e is Conversion),
        ensures
            r.1 == savepoint_action(r.0 is Ok),
            match reply {
                Ok(count) => if count > 0 {
                    r.0 is Ok
                } else {
                    fails_with(r.0, ErrorView::VertexDoesNotExist)
                },
                Err(e) => fails_with(r.0, upsert_failure(e@)),
            },
    {
        match reply {
            Ok(count) => {
                if count > 0 {
                    (Ok(()), SavepointAction::Commit)
                } else {
                    (Err(Error::VertexDoesNotExist), SavepointAction::Rollback)
                }
            },
            Err(BackendError::Db { code, message, .. }) => {
                let not_null = String::from_str("23502");
                let foreign_key = String::from_str("23503");
                if code == not_null || code == foreign_key {
                    (Err(Error::VertexDoesNotExist), SavepointAction::Rollback)
                } else {
                    let text = String::from_str("Unknown database error: ").concat(message.as_str());
                    (Err(Error::Unexpected(text)), SavepointAction::Rollback)
                }
            },
            Err(_) => (
                Err(Error::Unexpected(String::from_str("Database I/O error"))),
                SavepointAction::Rollback,
            ),
        }
    }

    /// The statement that deletes the edge with the given key, provided the
    /// bound account owns its outbound vertex.
    pub fn delete_edge_request(&self, outbound_id: Uuid, t: &str, inbound_id: Uuid) -> (q: Query)
        ensures
            q@ == delete_edge_view(self.account_id, outbound_id, t@, inbound_id),
            q@.well_formed(),
    {
        let q = Query {
            statement: Statement::DeleteEdge,
            params: vec![
                Param::Id(outbound_id),
                Param::Id(self.account_id),
                Param::Text(String::from_str(t)),
                Param::Id(inbound_id),
            ],
        };
        assert(q@.params =~= seq![
            ParamView::Id(outbound_id),
            ParamView::Id(self.account_id),
            ParamView::Text(t@),
            ParamView::Id(inbound_id),
        ]);
        q
    }

    /// The result of deleting an edge: success where a row was touched;
    /// `EdgeDoesNotExist` where none was.
    pub fn delete_edge_response(&self, reply: Result<usize, BackendError>) -> (r: Result<(), Error>)
        requires
            !(reply matches Err(e) && e is Conversion),
        ensures
            match reply {
                Ok(count) => if count > 0 {
                    r is Ok
                } else {
                    fails_with(r, ErrorView::EdgeDoesNotExist)
                },
                Err(e) => fails_with(r, ErrorView::Unexpected(e@.description())),
            },
    {
        touched_row(reply, Error::EdgeDoesNotExist)
    }

    /// The statement that counts the edges of type `t` leaving
    /// `outbound_id`.
    pub fn get_edge_count_request(&self, outbound_id: Uuid, t: &str) -> (q: Query)
        ensures
            q@ == (QueryView {
                statement: Statement::CountEdges,
                params: seq![ParamView::Id(outbound_id), ParamView::Text(t@)],
            }),
            q@.well_formed(),
    {
        let q = Query {
            statement: Statement::CountEdges,
            params: vec![Param::Id(outbound_id), Param::Text(String::from_str(t))],
        };
        assert(q@.params =~= seq![ParamView::Id(outbound_id), ParamView::Text(t@)]);
        q
    }

    /// The count in the first row answered. A count statement always
    /// answers with one row, so an empty answer is left out.
    pub fn get_edge_count_response(&self, reply: Result<Vec<i64>, BackendError>) -> (r: Result<i64, Error>)
        requires
            !(reply matches Err(e) && e is Conversion),
            reply matches Ok(rows) ==> rows@.len() > 0,
        ensures
            match reply {
                Ok(rows) => r == Ok::<i64, Error>(rows@[0]),
                Err(e) => fails_with(r, ErrorView::Unexpected(e@.description())),
            },
    {
        match or_unexpected(reply) {
            Ok(rows) => Ok(rows[0]),
            Err(e) => Err(e),
        }
    }

    /// The statement that reads one page of the edges of type `t` leaving
    /// `outbound_id`, most recently updated first. A negative offset is
    /// refused with `OffsetOutOfRange`; otherwise a negative limit with
    /// `LimitOutOfRange`. Either way no statement is given.
    pub fn get_edge_range_request(&self, outbound_id: Uuid, t: &str, offset: i64, limit: i32) -> (r: Result<Query, Error>)
        ensures
            offset < 0 ==> fails_with(r, ErrorView::OffsetOutOfRange),
            offset >= 0 && limit < 0 ==> fails_with(r, ErrorView::LimitOutOfRange),
            offset >= 0 && limit >= 0 ==> gives_query(
                r,
                QueryView {
                    statement: Statement::EdgeRange,
                    params: seq![
                        ParamView::Id(outbound_id),
                        ParamView::Text(t@),
                        ParamView::Int(offset),
                        ParamView::Int(limit as i64),
                    ],
                },
            ),
            r matches Ok(q) ==> q@.well_formed(),
    {
        if offset < 0 {
            return Err(Error::OffsetOutOfRange);
        } else if limit < 0 {
            return Err(Error::LimitOutOfRange);
        }
        let q = Query {
            statement: Statement::EdgeRange,
            params: vec![
                Param::Id(outbound_id),
                Param::Text(String::from_str(t)),
                Param::Int(offset),
                Param::Int(limit as i64),
            ],
        };
        assert(q@.params =~= seq![
            ParamView::Id(outbound_id),
            ParamView::Text(t@),
            ParamView::Int(offset),
            ParamView::Int(limit as i64),
        ]);
        Ok(q)
    }

    /// The statement that reads the edges of type `t` leaving `outbound_id`
    /// whose update date lies within the bounds that are given, most
    /// recently updated first, `limit` at most. A negative limit is refused
    /// with `LimitOutOfRange` and no statement is given.
    pub fn get_edge_time_range_request(
        &self,
        outbound_id: Uuid,
        t: &str,
        high: Option<NaiveDateTime>,
        low: Option<NaiveDateTime>,
        limit: i32,
    ) -> (r: Result<Query, Error>)
        ensures
            limit < 0 ==> fails_with(r, ErrorView::LimitOutOfRange),
            limit >= 0 ==> gives_query(r, time_range_view(outbound_id, t@, high, low, limit)),
            r matches Ok(q) ==> q@.well_formed(),
    {
        if limit < 0 {
            return Err(Error::LimitOutOfRange);
        }
        let ghost want = time_range_view(outbound_id, t@, high, low, limit);
        let first = Param::Id(outbound_id);
        let second = Param::Text(String::from_str(t));
        let last = Param::Int(limit as i64);
        let q = match (high, low) {
            (Some(h), Some(l)) => Query {
                statement: Statement::EdgesBetween,
                params: vec![first, second, Param::Time(h), Param::Time(l), last],
            },
            (Some(h), None) => Query {
                statement: Statement::EdgesUntil,
                params: vec![first, second, Param::Time(h), last],
            },
            (None, Some(l)) => Query {
                statement: Statement::EdgesSince,
                params: vec![first, second, Param::Time(l), last],
            },
            (None, None) => Query { statement: Statement::EdgesAnyTime, params: vec![first, second, last] },
        };
        assert(q@.params =~= want.params);
        Ok(q)
    }

    /// One edge per row, in the order of the rows: from `outbound_id`, of
    /// type `t`, to the row's inbound vertex, with the row's weight.
    pub fn fill_edges(&self, rows: Vec<(Uuid, Weight)>, outbound_id: Uuid, t: String) -> (r: Result<Vec<Edge>, Error>)
        ensures
            r matches Ok(edges) && edges_of_rows(edges@, outbound_id, t@, rows@),
    {
        let mut edges: Vec<Edge> = Vec::new();
        let mut i: usize = 0;
        while i < rows.len()
            invariant
                i <= rows@.len(),
                edges@.len() == i,
                forall|k: int| 0 <= k < i ==> (#[trigger] edges@[k])@ == edge_of_row(outbound_id, t@, rows@[k]),
            decreases rows@.len() - i,
        {
            let inbound_id = rows[i].0;
            let weight = rows[i].1;
            edges.push(Edge::new(outbound_id, t.clone(), inbound_id, weight));
            i = i + 1;
        }
        Ok(edges)
    }

    /// The edges that a range statement answered with, in its order;
    /// `Unexpected` where the backend failed. An empty answer is an empty
    /// list, no error.
    pub fn edges_response(
        &self,
        outbound_id: Uuid,
        t: String,
        reply: Result<Vec<(Uuid, Weight)>, BackendError>,
    ) -> (r: Result<Vec<Edge>, Error>)
        requires
            !(reply matches Err(e) && e is Conversion),
        ensures
            match reply {
                Ok(rows) => r matches Ok(edges) && edges_of_rows(edges@, outbound_id, t@, rows@),
                Err(e) => fails_with(r, ErrorView::Unexpected(e@.description())),
            },
    {
        match or_unexpected(reply) {
            Ok(rows) => self.fill_edges(rows, outbound_id, t),
            Err(e) => Err(e),
        }
    }
}

/// `r` is the statement whose value is `q`.
pub open spec fn gives_query(r: Result<Query, Error>, q: QueryView) -> bool {
    r matches Ok(x) && x@ == q
}

/// What becomes of the savepoint that an edge upsert ran in.
#[derive(Clone, Copy, Debug, PartialEq, Eq)]
pub enum SavepointAction {
    Commit,
    Rollback,
}

/// Commit after success, roll back after failure.
pub open spec fn savepoint_action(succeeded: bool) -> SavepointAction {
    if succeeded {
        SavepointAction::Commit
    } else {
        SavepointAction::Rollback
    }
}

/// The error of an edge upsert that the backend refused. Of a conversion
/// failure nothing is said: it never becomes the result of an operation.
pub open spec fn upsert_failure(e: BackendErrorView) -> ErrorView
    recommends
        !(e is Conversion),
{
    match e {
        BackendErrorView::Db { message, .. } => if e.is_missing_vertex() {
            ErrorView::VertexDoesNotExist
        } else {
            ErrorView::Unexpected("Unknown database error: "@ + message)
        },
        BackendErrorView::Io => ErrorView::Unexpected("Database I/O error"@),
        BackendErrorView::Conversion => arbitrary(),
    }
}

/// The update of vertex `v` for `account_id`: the new type, the vertex and
/// the account that must own it.
pub open spec fn set_vertex_view(account_id: Uuid, v: VertexView) -> QueryView {
    QueryView {
        statement: Statement::UpdateVertex,
        params: seq![ParamView::Text(v.t), ParamView::Id(v.id), ParamView::Id(account_id)],
    }
}

/// The deletion of vertex `id` for `account_id`: the vertex and the account
/// that must own it.
pub open spec fn delete_vertex_view(account_id: Uuid, id: Uuid) -> QueryView {
    QueryView { statement: Statement::DeleteVertex, params: seq![ParamView::Id(id), ParamView::Id(account_id)] }
}

/// The deletion of an edge for `account_id`: the outbound vertex with the
/// account that must own it, the type and the inbound vertex.
pub open spec fn delete_edge_view(account_id: Uuid, outbound_id: Uuid, t: Seq<char>, inbound_id: Uuid) -> QueryView {
    QueryView {
        statement: Statement::DeleteEdge,
        params: seq![
            ParamView::Id(outbound_id),
            ParamView::Id(account_id),
            ParamView::Text(t),
            ParamView::Id(inbound_id),
        ],
    }
}

/// Ownership gating: whatever a transaction changes or removes, be it a
/// vertex or an edge, its statement requires the transaction's own account
/// as the owner. The statements of two transactions bound to different
/// accounts therefore never touch the same vertex, nor edges that leave the
/// same vertex.
pub proof fn lemma_mutations_require_the_bound_account(
    account_id: Uuid,
    v: VertexView,
    e: EdgeView,
    row_id: Uuid,
)
    ensures
        set_vertex_view(account_id, v).required_owner() == Some(ParamView::Id(account_id)),
        delete_vertex_view(account_id, v.id).required_owner() == Some(ParamView::Id(account_id)),
        upsert_edge_view(account_id, row_id, e).required_owner() == Some(ParamView::Id(account_id)),
        delete_edge_view(account_id, e.outbound_id, e.t, e.inbound_id).required_owner() == Some(
            ParamView::Id(account_id),
        ),
{
}

/// Reads are open to every account: the statements that read a vertex, an
/// edge, a count or a range require no owner.
pub proof fn lemma_reads_require_no_owner(
    outbound_id: Uuid,
    t: Seq<char>,
    high: Option<NaiveDateTime>,
    low: Option<NaiveDateTime>,
    limit: i32,
)
    ensures
        Statement::SelectVertex.owner_position() is None,
        Statement::SelectEdge.owner_position() is None,
        Statement::CountEdges.owner_position() is None,
        Statement::EdgeRange.owner_position() is None,
        time_range_view(outbound_id, t, high, low, limit).required_owner() is None,
{
}

/// The upsert of edge `e` for `account_id`: the new row's identifier, the
/// outbound vertex with the account that must own it, the type, the inbound
/// vertex and the weight.
pub open spec fn upsert_edge_view(account_id: Uuid, row_id: Uuid, e: EdgeView) -> QueryView {
    QueryView {
        statement: Statement::UpsertEdge,
        params: seq![
            ParamView::Id(row_id),
            ParamView::Id(e.outbound_id),
            ParamView::Id(account_id),
            ParamView::Text(e.t),
            ParamView::Id(e.inbound_id),
            ParamView::Weight(e.weight),
        ],
    }
}

/// Two upserts of one edge for one account differ in nothing but the
/// identifier offered for a new row: they run the same statement on the
/// same key and weight, so the backend's conflict rule makes the second an
/// update of the row that the first one wrote.
pub proof fn lemma_upserts_of_one_edge_differ_in_row_id_only(account_id: Uuid, first: Uuid, second: Uuid, e: EdgeView)
    ensures
        upsert_edge_view(account_id, first, e).statement == upsert_edge_view(account_id, second, e).statement,
        upsert_edge_view(account_id, first, e).params.skip(1) == upsert_edge_view(account_id, second, e).params.skip(1),
        upsert_edge_view(account_id, first, e).well_formed(),
{
    assert(upsert_edge_view(account_id, first, e).params.skip(1) =~= upsert_edge_view(
        account_id,
        second,
        e,
    ).params.skip(1));
}

/// Whatever bounds are given, a time-range statement binds exactly the
/// parameters it names, the limit last.
pub proof fn lemma_time_range_is_well_formed(
    outbound_id: Uuid,
    t: Seq<char>,
    high: Option<NaiveDateTime>,
    low: Option<NaiveDateTime>,
    limit: i32,
)
    ensures
        time_range_view(outbound_id, t, high, low, limit).well_formed(),
        time_range_view(outbound_id, t, high, low, limit).params.last() == ParamView::Int(limit as i64),
{
}

/// The time-range statement for the bounds that are given: one of four,
/// each binding only the bounds it filters by.
pub open spec fn time_range_view(
    outbound_id: Uuid,
    t: Seq<char>,
    high: Option<NaiveDateTime>,
    low: Option<NaiveDateTime>,
    limit: i32,
) -> QueryView {
    let first = ParamView::Id(outbound_id);
    let second = ParamView::Text(t);
    let last = ParamView::Int(limit as i64);
    match (high, low) {
        (Some(h), Some(l)) => QueryView {
            statement: Statement::EdgesBetween,
            params: seq![first, second, ParamView::Time(h), ParamView::Time(l), last],
        },
        (Some(h), None) => QueryView {
            statement: Statement::EdgesUntil,
            params: seq![first, second, ParamView::Time(h), last],
        },
        (None, Some(l)) => QueryView {
            statement: Statement::EdgesSince,
            params: seq![first, second, ParamView::Time(l), last],
        },
        (None, None) => QueryView { statement: Statement::EdgesAnyTime, params: seq![first, second, last] },
    }
}

/// The edge that a row of a range answer stands for.
pub open spec fn edge_of_row(outbound_id: Uuid, t: Seq<char>, row: (Uuid, Weight)) -> EdgeView {
    EdgeView { outbound_id, t, inbound_id: row.0, weight: row.1 }
}

/// `edges` holds one edge per row, in the order of the rows.
pub open spec fn edges_of_rows(edges: Seq<Edge>, outbound_id: Uuid, t: Seq<char>, rows: Seq<(Uuid, Weight)>) -> bool {
    &&& edges.len() == rows.len()
    &&& forall|k: int| 0 <= k < rows.len() ==> (#[trigger] edges[k])@ == edge_of_row(outbound_id, t, rows[k])
}

} // verus!
