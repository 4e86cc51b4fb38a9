//! Statements of the relational backend and the parameters bound to them.

use vstd::prelude::*;
use chrono::NaiveDateTime;
use serde_json::Value;
use uuid::Uuid;
use crate::model::Weight;

verus! {

/// One of the four independent metadata namespaces.
#[derive(Clone, Copy, Debug, PartialEq, Eq)]
pub enum Scope {
    Global,
    Account,
    Vertex,
    Edge,
}

/// Every statement the store sends to the backend.
#[derive(Clone, Copy, Debug, PartialEq, Eq)]
pub enum Statement {
    AccountExists,
    InsertAccount,
    DeleteAccount,
    SelectSalt,
    CheckSecret,
    SelectVertex,
    InsertVertex,
    UpdateVertex,
    DeleteVertex,
    SelectEdge,
    UpsertEdge,
    DeleteEdge,
    CountEdges,
    EdgeRange,
    /// Edges updated no later than a high bound and no earlier than a low one.
    EdgesBetween,
    /// Edges updated no later than a bound.
    EdgesUntil,
    /// Edges updated no earlier than a bound.
    EdgesSince,
    /// Edges whatever their update date.
    EdgesAnyTime,
    SelectMetadata(Scope),
    UpsertMetadata(Scope),
    DeleteMetadata(Scope),
}

impl Statement {
    /// The SQL text of the statement, with `$1`, `$2`, ... for its
    /// parameters in the order in which a [`Query`] lists them.
    pub open spec fn sql_text(self) -> Seq<char> {
        match self {
            Statement::AccountExists => "SELECT 1 FROM accounts WHERE id=$1"@,
            Statement::InsertAccount => "INSERT INTO accounts(id, email, salt, api_secret_hash) VALUES ($1, $2, $3, $4)"@,
            Statement::DeleteAccount => "DELETE FROM accounts WHERE id=$1 RETURNING 1"@,
            Statement::SelectSalt => "SELECT salt FROM accounts WHERE id=$1"@,
            Statement::CheckSecret => "SELECT 1 FROM accounts WHERE id=$1 AND api_secret_hash=$2"@,
            Statement::SelectVertex => "SELECT type FROM vertices WHERE id=$1 LIMIT 1"@,
            Statement::InsertVertex => "INSERT INTO vertices (id, type, owner_id) VALUES ($1, $2, $3)"@,
            Statement::UpdateVertex => "UPDATE vertices SET type=$1 WHERE id=$2 AND owner_id=$3 RETURNING 1"@,
            Statement::DeleteVertex => "DELETE FROM vertices WHERE id=$1 AND owner_id=$2 RETURNING 1"@,
            Statement::SelectEdge => "SELECT weight FROM edges WHERE outbound_id=$1 AND type=$2 AND inbound_id=$3 LIMIT 1"@,
            Statement::UpsertEdge => "INSERT INTO edges (id, outbound_id, type, inbound_id, weight, update_date) VALUES ($1, (SELECT id FROM vertices WHERE id=$2 AND owner_id=$3), $4, $5, $6, NOW()) ON CONFLICT ON CONSTRAINT edges_outbound_id_type_inbound_id_ukey DO UPDATE SET weight=$6, update_date=NOW() RETURNING 1"@,
            Statement::DeleteEdge => "DELETE FROM edges WHERE outbound_id=(SELECT id FROM vertices WHERE id=$1 AND owner_id=$2) AND type=$3 AND inbound_id=$4 RETURNING 1"@,
            Statement::CountEdges => "SELECT COUNT(outbound_id) FROM edges WHERE outbound_id=$1 AND type=$2"@,
            Statement::EdgeRange => "SELECT inbound_id, weight FROM edges WHERE outbound_id=$1 AND type=$2 ORDER BY update_date DESC OFFSET $3 LIMIT $4"@,
            Statement::EdgesBetween => "SELECT inbound_id, weight FROM edges WHERE outbound_id=$1 AND type=$2 AND update_date <= $3 AND update_date >= $4 ORDER BY update_date DESC LIMIT $5"@,
            Statement::EdgesUntil => "SELECT inbound_id, weight FROM edges WHERE outbound_id=$1 AND type=$2 AND update_date <= $3 ORDER BY update_date DESC LIMIT $4"@,
            Statement::EdgesSince => "SELECT inbound_id, weight FROM edges WHERE outbound_id=$1 AND type=$2 AND update_date >= $3 ORDER BY update_date DESC LIMIT $4"@,
            Statement::EdgesAnyTime => "SELECT inbound_id, weight FROM edges WHERE outbound_id=$1 AND type=$2 ORDER BY update_date DESC LIMIT $3"@,
            Statement::SelectMetadata(Scope::Global) => "SELECT value FROM global_metadata WHERE key=$1"@,
            Statement::SelectMetadata(Scope::Account) => "SELECT value FROM account_metadata WHERE owner_id=$1 AND key=$2"@,
            Statement::SelectMetadata(Scope::Vertex) => "SELECT value FROM vertex_metadata WHERE owner_id=$1 AND key=$2"@,
            Statement::SelectMetadata(Scope::Edge) => "SELECT value FROM edge_metadata WHERE owner_id=(SELECT id FROM edges WHERE outbound_id=$1 AND type=$2 AND inbound_id=$3) AND key=$4"@,
            Statement::UpsertMetadata(Scope::Global) => "INSERT INTO global_metadata (key, value) VALUES ($1, $2) ON CONFLICT ON CONSTRAINT global_metadata_pkey DO UPDATE SET value=$2 RETURNING 1"@,
            Statement::UpsertMetadata(Scope::Account) => "INSERT INTO account_metadata (owner_id, key, value) VALUES ($1, $2, $3) ON CONFLICT ON CONSTRAINT account_metadata_pkey DO UPDATE SET value=$3 RETURNING 1"@,
            Statement::UpsertMetadata(Scope::Vertex) => "INSERT INTO vertex_metadata (owner_id, key, value) VALUES ($1, $2, $3) ON CONFLICT ON CONSTRAINT vertex_metadata_pkey DO UPDATE SET value=$3 RETURNING 1"@,
            Statement::UpsertMetadata(Scope::Edge) => "INSERT INTO edge_metadata (owner_id, key, value) VALUES ((SELECT id FROM edges WHERE outbound_id=$1 AND type=$2 AND inbound_id=$3), $4, $5) ON CONFLICT ON CONSTRAINT edge_metadata_pkey DO UPDATE SET value=$5 RETURNING 1"@,
            Statement::DeleteMetadata(Scope::Global) => "DELETE FROM global_metadata WHERE key=$1 RETURNING 1"@,
            Statement::DeleteMetadata(Scope::Account) => "DELETE FROM account_metadata WHERE owner_id=$1 AND key=$2 RETURNING 1"@,
            Statement::DeleteMetadata(Scope::Vertex) => "DELETE FROM vertex_metadata WHERE owner_id=$1 AND key=$2 RETURNING 1"@,
            Statement::DeleteMetadata(Scope::Edge) => "DELETE FROM edge_metadata WHERE owner_id=(SELECT id FROM edges WHERE outbound_id=$1 AND type=$2 AND inbound_id=$3) AND key=$4 RETURNING 1"@,
        }
    }

    /// How many parameters the statement binds.
    pub open spec fn arity(self) -> nat {
        match self {
            Statement::AccountExists => 1,
            Statement::InsertAccount => 4,
            Statement::DeleteAccount => 1,
            Statement::SelectSalt => 1,
            Statement::CheckSecret => 2,
            Statement::SelectVertex => 1,
            Statement::InsertVertex => 3,
            Statement::UpdateVertex => 3,
            Statement::DeleteVertex => 2,
            Statement::SelectEdge => 3,
            Statement::UpsertEdge => 6,
            Statement::DeleteEdge => 4,
            Statement::CountEdges => 2,
            Statement::EdgeRange => 4,
            Statement::EdgesBetween => 5,
            Statement::EdgesUntil => 4,
            Statement::EdgesSince => 4,
            Statement::EdgesAnyTime => 3,
            Statement::SelectMetadata(scope) => scope_key_width(scope) + 1,
            Statement::UpsertMetadata(scope) => scope_key_width(scope) + 2,
            Statement::DeleteMetadata(scope) => scope_key_width(scope) + 1,
        }
    }

    /// The position of the parameter that names the account which must own
    /// the vertex (for an edge, its outbound vertex) for the statement to
    /// touch a row. Only statements that change or remove a vertex or an
    /// edge have one: reads are open to every account.
    pub open spec fn owner_position(self) -> Option<int> {
        match self {
            Statement::UpdateVertex => Some(2),
            Statement::DeleteVertex => Some(1),
            Statement::UpsertEdge => Some(2),
            Statement::DeleteEdge => Some(1),
            _ => None,
        }
    }

    /// The SQL text of the statement.
    pub fn sql(&self) -> (text: &'static str)
        ensures
            text@ == self.sql_text(),
    {
        match self {
            Statement::AccountExists => "SELECT 1 FROM accounts WHERE id=$1",
            Statement::InsertAccount => "INSERT INTO accounts(id, email, salt, api_secret_hash) VALUES ($1, $2, $3, $4)",
            Statement::DeleteAccount => "DELETE FROM accounts WHERE id=$1 RETURNING 1",
            Statement::SelectSalt => "SELECT salt FROM accounts WHERE id=$1",
            Statement::CheckSecret => "SELECT 1 FROM accounts WHERE id=$1 AND api_secret_hash=$2",
            Statement::SelectVertex => "SELECT type FROM vertices WHERE id=$1 LIMIT 1",
            Statement::InsertVertex => "INSERT INTO vertices (id, type, owner_id) VALUES ($1, $2, $3)",
            Statement::UpdateVertex => "UPDATE vertices SET type=$1 WHERE id=$2 AND owner_id=$3 RETURNING 1",
            Statement::DeleteVertex => "DELETE FROM vertices WHERE id=$1 AND owner_id=$2 RETURNING 1",
            Statement::SelectEdge => "SELECT weight FROM edges WHERE outbound_id=$1 AND type=$2 AND inbound_id=$3 LIMIT 1",
            Statement::UpsertEdge => "INSERT INTO edges (id, outbound_id, type, inbound_id, weight, update_date) VALUES ($1, (SELECT id FROM vertices WHERE id=$2 AND owner_id=$3), $4, $5, $6, NOW()) ON CONFLICT ON CONSTRAINT edges_outbound_id_type_inbound_id_ukey DO UPDATE SET weight=$6, update_date=NOW() RETURNING 1",
            Statement::DeleteEdge => "DELETE FROM edges WHERE outbound_id=(SELECT id FROM vertices WHERE id=$1 AND owner_id=$2) AND type=$3 AND inbound_id=$4 RETURNING 1",
            Statement::CountEdges => "SELECT COUNT(outbound_id) FROM edges WHERE outbound_id=$1 AND type=$2",
            Statement::EdgeRange => "SELECT inbound_id, weight FROM edges WHERE outbound_id=$1 AND type=$2 ORDER BY update_date DESC OFFSET $3 LIMIT $4",
            Statement::EdgesBetween => "SELECT inbound_id, weight FROM edges WHERE outbound_id=$1 AND type=$2 AND update_date <= $3 AND update_date >= $4 ORDER BY update_date DESC LIMIT $5",
            Statement::EdgesUntil => "SELECT inbound_id, weight FROM edges WHERE outbound_id=$1 AND type=$2 AND update_date <= $3 ORDER BY update_date DESC LIMIT $4",
            Statement::EdgesSince => "SELECT inbound_id, weight FROM edges WHERE outbound_id=$1 AND type=$2 AND update_date >= $3 ORDER BY update_date DESC LIMIT $4",
            Statement::EdgesAnyTime => "SELECT inbound_id, weight FROM edges WHERE outbound_id=$1 AND type=$2 ORDER BY update_date DESC LIMIT $3",
            Statement::SelectMetadata(Scope::Global) => "SELECT value FROM global_metadata WHERE key=$1",
            Statement::SelectMetadata(Scope::Account) => "SELECT value FROM account_metadata WHERE owner_id=$1 AND key=$2",
            Statement::SelectMetadata(Scope::Vertex) => "SELECT value FROM vertex_metadata WHERE owner_id=$1 AND key=$2",
            Statement::SelectMetadata(Scope::Edge) => "SELECT value FROM edge_metadata WHERE owner_id=(SELECT id FROM edges WHERE outbound_id=$1 AND type=$2 AND inbound_id=$3) AND key=$4",
            Statement::UpsertMetadata(Scope::Global) => "INSERT INTO global_metadata (key, value) VALUES ($1, $2) ON CONFLICT ON CONSTRAINT global_metadata_pkey DO UPDATE SET value=$2 RETURNING 1",
            Statement::UpsertMetadata(Scope::Account) => "INSERT INTO account_metadata (owner_id, key, value) VALUES ($1, $2, $3) ON CONFLICT ON CONSTRAINT account_metadata_pkey DO UPDATE SET value=$3 RETURNING 1",
            Statement::UpsertMetadata(Scope::Vertex) => "INSERT INTO vertex_metadata (owner_id, key, value) VALUES ($1, $2, $3) ON CONFLICT ON CONSTRAINT vertex_metadata_pkey DO UPDATE SET value=$3 RETURNING 1",
            Statement::UpsertMetadata(Scope::Edge) => "INSERT INTO edge_metadata (owner_id, key, value) VALUES ((SELECT id FROM edges WHERE outbound_id=$1 AND type=$2 AND inbound_id=$3), $4, $5) ON CONFLICT ON CONSTRAINT edge_metadata_pkey DO UPDATE SET value=$5 RETURNING 1",
            Statement::DeleteMetadata(Scope::Global) => "DELETE FROM global_metadata WHERE key=$1 RETURNING 1",
            Statement::DeleteMetadata(Scope::Account) => "DELETE FROM account_metadata WHERE owner_id=$1 AND key=$2 RETURNING 1",
            Statement::DeleteMetadata(Scope::Vertex) => "DELETE FROM vertex_metadata WHERE owner_id=$1 AND key=$2 RETURNING 1",
            Statement::DeleteMetadata(Scope::Edge) => "DELETE FROM edge_metadata WHERE owner_id=(SELECT id FROM edges WHERE outbound_id=$1 AND type=$2 AND inbound_id=$3) AND key=$4 RETURNING 1",
        }
    }
}

/// How many parameters name the owner of a metadata record in a scope:
/// none for the global scope, the owner's identifier for accounts and
/// vertices, the (outbound, type, inbound) triple for edges.
pub open spec fn scope_key_width(scope: Scope) -> nat {
    match scope {
        Scope::Global => 0,
        Scope::Account => 1,
        Scope::Vertex => 1,
        Scope::Edge => 3,
    }
}

/// A value bound to a statement's parameter.
#[derive(Debug, PartialEq)]
pub enum Param {
    Id(Uuid),
    Text(String),
    Int(i64),
    Weight(Weight),
    Time(NaiveDateTime),
    Json(Value),
}

/// The mathematical value of a [`Param`].
pub enum ParamView {
    Id(Uuid),
    Text(Seq<char>),
    Int(i64),
    Weight(Weight),
    Time(NaiveDateTime),
    Json(Value),
}

impl View for Param {
    type V = ParamView;

    open spec fn view(&self) -> ParamView {
        match self {
            Param::Id(id) => ParamView::Id(*id),
            Param::Text(text) => ParamView::Text(text@),
            Param::Int(n) => ParamView::Int(*n),
            Param::Weight(w) => ParamView::Weight(*w),
            Param::Time(at) => ParamView::Time(*at),
            Param::Json(doc) => ParamView::Json(*doc),
        }
    }
}

/// A statement together with the values of its parameters, `$1` first.
#[derive(Debug, PartialEq)]
pub struct Query {
    pub statement: Statement,
    pub params: Vec<Param>,
}

/// The mathematical value of a [`Query`].
pub struct QueryView {
    pub statement: Statement,
    pub params: Seq<ParamView>,
}

impl View for Query {
    type V = QueryView;

    open spec fn view(&self) -> QueryView {
        QueryView {
            statement: self.statement,
            params: self.params@.map_values(|p: Param| p@),
        }
    }
}

impl QueryView {
    /// A query binds exactly as many parameters as its statement names.
    pub open spec fn well_formed(self) -> bool {
        self.params.len() == self.statement.arity()
    }

    /// The account that the query requires as owner before it touches a
    /// row; none where the statement is open to every account.
    pub open spec fn required_owner(self) -> Option<ParamView> {
        match self.statement.owner_position() {
            Some(i) => Some(self.params[i]),
            None => None,
        }
    }
}

} // verus!
