//! The datastore: its configuration and the account directory.

use vstd::prelude::*;
use vstd::string::*;
use uuid::Uuid;
use crate::error::{BackendError, Error, ErrorView};
use crate::outcome::{fails_with, or_unexpected, touched_row};
use crate::outside::{available_cpus, fresh_id};
use crate::query::{Param, ParamView, Query, QueryView, Statement};
use crate::transaction::PostgresTransaction;

verus! {

/// The largest pool that is sized from the machine.
pub const MAX_DEFAULT_POOL_SIZE: u32 = 1024;

/// The pool size for a machine with `cpus` processing units: two
/// connections per unit, 1024 at most.
pub open spec fn default_pool_size(cpus: usize) -> u32 {
    if cpus > 512 {
        MAX_DEFAULT_POOL_SIZE
    } else {
        (cpus * 2) as u32
    }
}

/// The pool size to use: the one asked for, else the default for `cpus`.
pub open spec fn resolved_pool_size(requested: Option<u32>, cpus: usize) -> u32 {
    match requested {
        Some(size) => size,
        None => default_pool_size(cpus),
    }
}

/// The pool size to use: the one asked for, else two connections per
/// processing unit, 1024 at most.
pub fn resolve_pool_size(requested: Option<u32>, cpus: usize) -> (size: u32)
    ensures
        size == resolved_pool_size(requested, cpus),
        requested is None ==> size <= MAX_DEFAULT_POOL_SIZE,
{
    match requested {
        Some(size) => size,
        None => {
            if cpus > 512 {
                MAX_DEFAULT_POOL_SIZE
            } else {
                (cpus as u32) * 2
            }
        },
    }
}

/// A count of processing units, with a count of none read as one.
pub fn at_least_one(cpus: usize) -> (units: usize)
    ensures
        units == (if cpus == 0 { 1 } else { cpus }),
{
    if cpus == 0 {
        1
    } else {
        cpus
    }
}

/// What a datastore is configured with: the size of its connection pool,
/// where the backend is, and the server-wide secret that is mixed into
/// every credential hash.
#[derive(Clone, Debug, PartialEq)]
pub struct PostgresDatastore {
    pub pool_size: u32,
    pub connection_string: String,
    pub secret: String,
}

/// The salt that an authentication hashes with: that of the first row which
/// the salt lookup answered, and a fixed one where it answered none. With
/// the fixed salt an unknown account is taken through the same hash and the
/// same check statement as a known one, so that the two cannot be told apart
/// by the work done.
pub open spec fn auth_salt(rows: Seq<String>) -> Seq<char> {
    if rows.len() > 0 {
        rows[0]@
    } else {
        "00000000000000000000000000000000"@
    }
}

impl PostgresDatastore {
    /// A datastore for the backend at `connection_string`. Without a pool
    /// size, the pool is sized from the processing units that the machine
    /// reports, taken as one where it reports none: a default pool holds at
    /// least two connections.
    pub fn new(pool_size: Option<u32>, connection_string: String, secret: String) -> (store: PostgresDatastore)
        ensures
            store.connection_string == connection_string,
            store.secret == secret,
            exists|cpus: usize| cpus >= 1 && store.pool_size == #[trigger] resolved_pool_size(pool_size, cpus),
            pool_size matches Some(size) ==> store.pool_size == size,
            pool_size is None ==> 2 <= store.pool_size <= MAX_DEFAULT_POOL_SIZE,
    {
        let cpus: usize = match pool_size {
            Some(_) => 1,
            None => at_least_one(available_cpus()),
        };
        let size = resolve_pool_size(pool_size, cpus);
        PostgresDatastore { pool_size: size, connection_string, secret }
    }

    /// The transaction core for a connection that was lent for
    /// `account_id`.
    pub fn transaction(&self, account_id: Uuid) -> (trans: PostgresTransaction)
        ensures
            trans.account_id == account_id,
    {
        PostgresTransaction::new(account_id)
    }

    /// The statement that asks whether an account exists.
    pub fn has_account_request(&self, account_id: Uuid) -> (q: Query)
        ensures
            q@ == (QueryView { statement: Statement::AccountExists, params: seq![ParamView::Id(account_id)] }),
            q@.well_formed(),
    {
        let q = Query { statement: Statement::AccountExists, params: vec![Param::Id(account_id)] };
        assert(q@.params =~= seq![ParamView::Id(account_id)]);
        q
    }

    /// Whether the account exists: whether a row was answered.
    pub fn has_account_response(&self, reply: Result<usize, BackendError>) -> (r: Result<bool, Error>)
        requires
            !(reply matches Err(e) && e is Conversion),
        ensures
            match reply {
                Ok(count) => r == Ok::<bool, Error>(count > 0),
                Err(e) => fails_with(r, ErrorView::Unexpected(e@.description())),
            },
    {
        match or_unexpected(reply) {
            Ok(count) => Ok(count > 0),
            Err(e) => Err(e),
        }
    }

    /// The statement that stores account `id` with its salt and the hash of
    /// its secret. The secret itself is no parameter: it is never stored.
    pub fn insert_account_query(&self, id: Uuid, email: String, salt: String, hash: String) -> (q: Query)
        ensures
            q@ == (QueryView {
                statement: Statement::InsertAccount,
                params: seq![
                    ParamView::Id(id),
                    ParamView::Text(email@),
                    ParamView::Text(salt@),
                    ParamView::Text(hash@),
                ],
            }),
            q@.well_formed(),
    {
        let ghost want = seq![
            ParamView::Id(id),
            ParamView::Text(email@),
            ParamView::Text(salt@),
            ParamView::Text(hash@),
        ];
        let q = Query {
            statement: Statement::InsertAccount,
            params: vec![Param::Id(id), Param::Text(email), Param::Text(salt), Param::Text(hash)],
        };
        assert(q@.params =~= want);
        q
    }

    /// Allocates a fresh identifier and gives it with the statement that
    /// stores the account under it.
    pub fn create_account_request(&self, email: String, salt: String, hash: String) -> (r: (Uuid, Query))
        ensures
            r.1@ == (QueryView {
                statement: Statement::InsertAccount,
                params: seq![
                    ParamView::Id(r.0),
                    ParamView::Text(email@),
                    ParamView::Text(salt@),
                    ParamView::Text(hash@),
                ],
            }),
            r.1@.well_formed(),
    {
        let id = fresh_id();
        let q = self.insert_account_query(id, email, salt, hash);
        (id, q)
    }

    /// The new account's identifier and its secret in the clear, once the
    /// insert went through; `Unexpected` where the backend failed.
    pub fn create_account_response(&self, id: Uuid, secret: String, reply: Result<usize, BackendError>) -> (r: Result<(Uuid, String), Error>)
        requires
            !(reply matches Err(e) && e is Conversion),
        ensures
            match reply {
                Ok(_) => r == Ok::<(Uuid, String), Error>((id, secret)),
                Err(e) => fails_with(r, ErrorView::Unexpected(e@.description())),
            },
    {
        match or_unexpected(reply) {
            Ok(_) => Ok((id, secret)),
            Err(e) => Err(e),
        }
    }

    /// The statement that deletes an account.
    pub fn delete_account_request(&self, account_id: Uuid) -> (q: Query)
        ensures
            q@ == (QueryView { statement: Statement::DeleteAccount, params: seq![ParamView::Id(account_id)] }),
            q@.well_formed(),
    {
        let q = Query { statement: Statement::DeleteAccount, params: vec![Param::Id(account_id)] };
        assert(q@.params =~= seq![ParamView::Id(account_id)]);
        q
    }

    /// The result of deleting an account: success where a row was touched,
    /// `AccountNotFound` where none was.
    pub fn delete_account_response(&self, reply: Result<usize, BackendError>) -> (r: Result<(), Error>)
        requires
            !(reply matches Err(e) && e is Conversion),
        ensures
            match reply {
                Ok(count) => if count > 0 {
                    r is Ok
                } else {
                    fails_with(r, ErrorView::AccountNotFound)
                },
                Err(e) => fails_with(r, ErrorView::Unexpected(e@.description())),
            },
    {
        touched_row(reply, Error::AccountNotFound)
    }

    /// The first statement of an authentication: it reads the account's
    /// salt.
    pub fn auth_salt_request(&self, account_id: Uuid) -> (q: Query)
        ensures
            q@ == (QueryView { statement: Statement::SelectSalt, params: seq![ParamView::Id(account_id)] }),
            q@.well_formed(),
    {
        let q = Query { statement: Statement::SelectSalt, params: vec![Param::Id(account_id)] };
        assert(q@.params =~= seq![ParamView::Id(account_id)]);
        q
    }

    /// The salt to hash the given secret with. Whatever the lookup answered,
    /// the authentication goes on to the hash and the check statement: for
    /// an unknown account with a fixed salt, and the check then answers no
    /// row. An unknown account is no error, and takes no shorter path than a
    /// wrong secret does.
    pub fn auth_salt_response(&self, reply: Result<Vec<String>, BackendError>) -> (r: Result<String, Error>)
        requires
            !(reply matches Err(e) && e is Conversion),
        ensures
            match reply {
                Ok(rows) => r matches Ok(salt) && salt@ == auth_salt(rows@),
                Err(e) => fails_with(r, ErrorView::Unexpected(e@.description())),
            },
    {
        match or_unexpected(reply) {
            Ok(rows) => {
                let mut rows = rows;
                if rows.len() > 0 {
                    Ok(rows.swap_remove(0))
                } else {
                    Ok(String::from_str("00000000000000000000000000000000"))
                }
            },
            Err(e) => Err(e),
        }
    }

    /// The second statement of an authentication: it asks whether the
    /// account's stored hash is `expected_hash`.
    pub fn auth_check_request(&self, account_id: Uuid, expected_hash: String) -> (q: Query)
        ensures
            q@ == (QueryView {
                statement: Statement::CheckSecret,
                params: seq![ParamView::Id(account_id), ParamView::Text(expected_hash@)],
            }),
            q@.well_formed(),
    {
        let ghost want = seq![ParamView::Id(account_id), ParamView::Text(expected_hash@)];
        let q = Query {
            statement: Statement::CheckSecret,
            params: vec![Param::Id(account_id), Param::Text(expected_hash)],
        };
        assert(q@.params =~= want);
        q
    }

    /// Whether the secret was the account's: whether a row was answered.
    pub fn auth_check_response(&self, reply: Result<usize, BackendError>) -> (r: Result<bool, Error>)
        requires
            !(reply matches Err(e) && e is Conversion),
        ensures
            match reply {
                Ok(count) => r == Ok::<bool, Error>(count > 0),
                Err(e) => fails_with(r, ErrorView::Unexpected(e@.description())),
            },
    {
        self.has_account_response(reply)
    }
}

} // verus!
