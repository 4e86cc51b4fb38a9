//! The metadata store of a transaction: one contract over four independent
//! key-value namespaces, told apart by who owns a record.

use vstd::prelude::*;
use vstd::string::*;
use serde_json::Value;
use uuid::Uuid;
use crate::error::{BackendError, Error, ErrorView};
use crate::outcome::{fails_with, first_row, touched_row};
use crate::query::{scope_key_width, Param, ParamView, Query, QueryView, Scope, Statement};
use crate::transaction::PostgresTransaction;

verus! {

/// Whose metadata a record is: nobody's in the global scope, an account's,
/// a vertex's, or that of the edge with the given key. An edge has no
/// identifier that callers see, so its record is found through the key.
#[derive(Debug, PartialEq)]
pub enum MetadataOwner {
    Global,
    Account(Uuid),
    Vertex(Uuid),
    Edge { outbound_id: Uuid, t: String, inbound_id: Uuid },
}

impl MetadataOwner {
    /// The namespace of the owner's records.
    pub open spec fn scope(&self) -> Scope {
        match self {
            MetadataOwner::Global => Scope::Global,
            MetadataOwner::Account(_) => Scope::Account,
            MetadataOwner::Vertex(_) => Scope::Vertex,
            MetadataOwner::Edge { .. } => Scope::Edge,
        }
    }

    /// The parameters that name the owner in a metadata statement.
    pub open spec fn key_params(&self) -> Seq<ParamView> {
        match self {
            MetadataOwner::Global => seq![],
            MetadataOwner::Account(id) => seq![ParamView::Id(*id)],
            MetadataOwner::Vertex(id) => seq![ParamView::Id(*id)],
            MetadataOwner::Edge { outbound_id, t, inbound_id } => seq![
                ParamView::Id(*outbound_id),
                ParamView::Text(t@),
                ParamView::Id(*inbound_id),
            ],
        }
    }

    /// The namespace of the owner's records.
    pub fn scope_of(&self) -> (scope: Scope)
        ensures
            scope == self.scope(),
    {
        match self {
            MetadataOwner::Global => Scope::Global,
            MetadataOwner::Account(_) => Scope::Account,
            MetadataOwner::Vertex(_) => Scope::Vertex,
            MetadataOwner::Edge { .. } => Scope::Edge,
        }
    }

    /// The parameters that name the owner in a metadata statement.
    pub fn params(&self) -> (params: Vec<Param>)
        ensures
            params@.map_values(|p: Param| p@) == self.key_params(),
            params@.len() == scope_key_width(self.scope()),
    {
        let params = match self {
            MetadataOwner::Global => Vec::new(),
            MetadataOwner::Account(id) => vec![Param::Id(*id)],
            MetadataOwner::Vertex(id) => vec![Param::Id(*id)],
            MetadataOwner::Edge { outbound_id, t, inbound_id } => vec![
                Param::Id(*outbound_id),
                Param::Text(t.clone()),
                Param::Id(*inbound_id),
            ],
        };
        assert(params@.map_values(|p: Param| p@) =~= self.key_params());
        params
    }
}

impl PostgresTransaction {
    /// The statement that reads the metadata value under `key` of `owner`.
    pub fn get_metadata_request(&self, owner: &MetadataOwner, key: &str) -> (q: Query)
        ensures
            q@ == (QueryView {
                statement: Statement::SelectMetadata(owner.scope()),
                params: owner.key_params().push(ParamView::Text(key@)),
            }),
            q@.well_formed(),
    {
        let mut params = owner.params();
        params.push(Param::Text(String::from_str(key)));
        let q = Query { statement: Statement::SelectMetadata(owner.scope_of()), params };
        assert(q@.params =~= owner.key_params().push(ParamView::Text(key@)));
        q
    }

    /// The statement that stores `value` under `key` of `owner`, replacing
    /// whatever was there.
    pub fn set_metadata_request(&self, owner: &MetadataOwner, key: &str, value: Value) -> (q: Query)
        ensures
            q@ == (QueryView {
                statement: Statement::UpsertMetadata(owner.scope()),
                params: owner.key_params().push(ParamView::Text(key@)).push(ParamView::Json(value)),
            }),
            q@.well_formed(),
    {
        let mut params = owner.params();
        params.push(Param::Text(String::from_str(key)));
        params.push(Param::Json(value));
        let q = Query { statement: Statement::UpsertMetadata(owner.scope_of()), params };
        assert(q@.params =~= owner.key_params().push(ParamView::Text(key@)).push(ParamView::Json(value)));
        q
    }

    /// The statement that removes the metadata value under `key` of
    /// `owner`.
    pub fn delete_metadata_request(&self, owner: &MetadataOwner, key: &str) -> (q: Query)
        ensures
            q@ == (QueryView {
                statement: Statement::DeleteMetadata(owner.scope()),
                params: owner.key_params().push(ParamView::Text(key@)),
            }),
            q@.well_formed(),
    {
        let mut params = owner.params();
        params.push(Param::Text(String::from_str(key)));
        let q = Query { statement: Statement::DeleteMetadata(owner.scope_of()), params };
        assert(q@.params =~= owner.key_params().push(ParamView::Text(key@)));
        q
    }

    /// The value in the first row answered; `MetadataDoesNotExist` where no
    /// row was.
    pub fn handle_get_metadata_results(&self, reply: Result<Vec<Value>, BackendError>) -> (r: Result<Value, Error>)
        requires
            !(reply matches Err(e) && e is Conversion),
        ensures
            match reply {
                Ok(rows) => if rows@.len() > 0 {
                    r == Ok::<Value, Error>(rows@[0])
                } else {
                    fails_with(r, ErrorView::MetadataDoesNotExist)
                },
                Err(e) => fails_with(r, ErrorView::Unexpected(e@.description())),
            },
    {
        first_row(reply, Error::MetadataDoesNotExist)
    }

    /// The result of storing or removing a metadata value: success where a
    /// row was touched; `MetadataDoesNotExist` where none was.
    pub fn handle_update_metadata_results(&self, reply: Result<usize, BackendError>) -> (r: Result<(), Error>)
        requires
            !(reply matches Err(e) && e is Conversion),
        ensures
            match reply {
                Ok(count) => if count > 0 {
                    r is Ok
                } else {
                    fails_with(r, ErrorView::MetadataDoesNotExist)
                },
                Err(e) => fails_with(r, ErrorView::Unexpected(e@.description())),
            },
    {
        touched_row(reply, Error::MetadataDoesNotExist)
    }
}

} // verus!
