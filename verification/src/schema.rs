//! The directory service facade: the query and mutation groups a transport
//! layer dispatches into, plus the per-account relation reads.  Every
//! operation takes the store and plain values; transport, scheduling and
//! request decoding stay outside.

use crate::access::Access;
use crate::account::{projected_account_view, Account};
use crate::credential::{email_ok, lower_of, norm_of, norm_ok, CredentialError};
use crate::db::{
    created_account, grants_for, has_account_id_spec, has_username_spec, rekeyed_account,
    summaries_for, AuthDB, CreateError, StorageError,
};
use crate::planner::views_of;
use crate::realmcharacters::RealmCharacter;
use vstd::prelude::*;

verus! {

/// The read-side operations of the directory service.
pub struct QueryRoot;

impl QueryRoot {
    /// All accounts, projected to the fields the caller asked to receive.
    pub fn accounts(&self, db: &AuthDB, fields: &Vec<String>) -> (r: Vec<Account>)
        ensures
            r@.len() == db.accounts_view().len(),
            forall|i: int|
                0 <= i < r@.len() ==> (#[trigger] r@[i])@ == projected_account_view(
                    db.accounts_view()[i],
                    views_of(fields@),
                ),
    {
        db.get_accounts_with_fields(fields)
    }

    /// One account by id, projected; a miss is the typed not-found error.
    pub fn account(&self, db: &AuthDB, id: u64, fields: &Vec<String>) -> (r: Result<
        Account,
        StorageError,
    >)
        requires
            db.wf(),
        ensures
            r is Ok <==> has_account_id_spec(db.accounts_view(), id),
            r matches Ok(a) ==> exists|i: int|
                0 <= i < db.accounts_view().len() && (#[trigger] db.accounts_view()[i]).id == id
                    && a@ == projected_account_view(db.accounts_view()[i], views_of(fields@)),
            r matches Err(e) ==> e == StorageError::NotFound,
    {
        db.get_account_by_id(id, fields)
    }

    /// Whether the username is taken, compared the way usernames are stored.
    pub fn check_username(&self, db: &AuthDB, username: String) -> (r: Result<bool, StorageError>)
        ensures
            r is Ok,
            r matches Ok(b) ==> b == (norm_ok(username@) && has_username_spec(
                db.accounts_view(),
                norm_of(username@),
            )),
    {
        db.has_account_username(username.as_str())
    }

    /// Rotate the credential pair for a username; reports whether a stored
    /// row was affected.  The derived pair is persisted through
    /// `AuthDB::install_credentials`, whose contract pins the stored bytes
    /// to the derived ones.
    pub fn account_set_password(
        &self,
        db: &mut AuthDB,
        username: String,
        password: String,
    ) -> (r: Result<bool, CredentialError>)
        requires
            old(db).wf(),
        ensures
            final(db).wf(),
            !(norm_ok(username@) && norm_ok(password@)) ==> r is Err && *final(db) == *old(db),
            norm_ok(username@) && norm_ok(password@) && !has_username_spec(
                old(db).accounts_view(),
                norm_of(username@),
            ) ==> r == Ok::<bool, CredentialError>(false) && *final(db) == *old(db),
            norm_ok(username@) && norm_ok(password@) && has_username_spec(
                old(db).accounts_view(),
                norm_of(username@),
            ) ==> r == Ok::<bool, CredentialError>(true) && final(db).accounts_view().len() == old(
                db,
            ).accounts_view().len() && exists|i: int|
                0 <= i < old(db).accounts_view().len() && (
                #[trigger] old(db).accounts_view()[i]).username == norm_of(username@)
                    && rekeyed_account(old(db).accounts_view()[i], final(db).accounts_view()[i])
                    && (forall|j: int|
                    0 <= j < old(db).accounts_view().len() && j != i
                        ==> final(db).accounts_view()[j] == (#[trigger] old(db).accounts_view()[j])),
    {
        db.set_username_password(username, password)
    }
}

/// The write-side operations of the directory service.
pub struct MutationRoot;

impl MutationRoot {
    /// Create an account from a username, password and email; the password
    /// is consumed here and only the derived credential pair is stored.
    pub fn create_account(
        &self,
        db: &mut AuthDB,
        username: String,
        password: String,
        email: String,
    ) -> (r: Result<u64, CreateError>)
        requires
            old(db).wf(),
        ensures
            final(db).wf(),
            !(norm_ok(username@) && norm_ok(password@) && email_ok(email@)) ==> r == Err::<
                u64,
                CreateError,
            >(CreateError::InvalidInput) && *final(db) == *old(db),
            norm_ok(username@) && norm_ok(password@) && email_ok(email@) && has_username_spec(
                old(db).accounts_view(),
                norm_of(username@),
            ) ==> r == Err::<u64, CreateError>(CreateError::AlreadyExists) && *final(db) == *old(
                db,
            ),
            norm_ok(username@) && norm_ok(password@) && email_ok(email@) && !has_username_spec(
                old(db).accounts_view(),
                norm_of(username@),
            ) && old(db).next_id_spec() == u64::MAX ==> r == Err::<u64, CreateError>(
                CreateError::Failed,
            ) && *final(db) == *old(db),
            norm_ok(username@) && norm_ok(password@) && email_ok(email@) && !has_username_spec(
                old(db).accounts_view(),
                norm_of(username@),
            ) && old(db).next_id_spec() < u64::MAX ==> r == Ok::<u64, CreateError>(
                old(db).next_id_spec(),
            ) && created_account(
                *old(db),
                *final(db),
                norm_of(username@),
                lower_of(email@),
            ),
    {
        db.create_account(username.as_str(), password.as_str(), email.as_str())
    }

    /// Delete an account by id; a missing id reports `false` and is no
    /// error.
    pub fn delete_account(&self, db: &mut AuthDB, id: u64) -> (r: Result<bool, StorageError>)
        requires
            old(db).wf(),
        ensures
            final(db).wf(),
            r is Ok,
            r matches Ok(b) ==> b == has_account_id_spec(old(db).accounts_view(), id),
            r == Ok::<bool, StorageError>(false) ==> *final(db) == *old(db),
            r == Ok::<bool, StorageError>(true) ==> !has_account_id_spec(
                final(db).accounts_view(),
                id,
            ) && exists|i: int|
                0 <= i < old(db).accounts_view().len() && (
                #[trigger] old(db).accounts_view()[i]).id == id && final(db).accounts_view() == old(
                    db,
                ).accounts_view().remove(i),
            final(db).access_view() == old(db).access_view(),
            final(db).realms_view() == old(db).realms_view(),
            final(db).realmchars_view() == old(db).realmchars_view(),
            final(db).next_id_spec() == old(db).next_id_spec(),
    {
        Ok(db.delete_account(id))
    }
}

/// The subscription group of the service.
pub struct SubscriptionRoot;

impl SubscriptionRoot {
    /// The one value the demonstration subscription stream emits; streaming
    /// it is the transport layer's concern.
    pub fn values(&self) -> (r: i32)
        ensures
            r == 10,
    {
        10
    }
}

impl Account {
    /// The grants of this account, projected to the requested fields.
    pub fn access(&self, db: &AuthDB, fields: &Vec<String>) -> (r: Result<Vec<Access>, StorageError>)
        ensures
            r is Ok,
            r matches Ok(v) ==> v@.map_values(|g: Access| g@) == grants_for(
                db.access_view(),
                self@.id,
                views_of(fields@),
            ),
    {
        db.access_by_user_id(self.id, fields)
    }

    /// The character summaries of this account, always full rows.
    pub fn realmcharacters(&self, db: &AuthDB) -> (r: Result<Vec<RealmCharacter>, StorageError>)
        ensures
            r is Ok,
            r matches Ok(v) ==> v@.map_values(|c: RealmCharacter| c@) == summaries_for(
                db.realmchars_view(),
                self@.id,
            ),
    {
        db.realmcharacters_by_user_id(self.id)
    }
}

} // verus!
