//! The directory store: sole owner of the account, grant, realm and
//! character-summary tables.
//!
//! Every read that accepts a caller-influenced field list runs it through the
//! projection planner before any column name is used; every failure a caller
//! can see is expressed in the domain taxonomy (invalid input, not found,
//! already exists, failed) rather than raw storage detail.

use crate::access::{
    access_field_names, access_fields, lemma_project_access_by_plan, projected_access_view, Access,
    AccessView,
};
use crate::account::{
    account_field_names, account_fields, lemma_project_account_by_plan, projected_account_view,
    Account, AccountView,
};
use crate::credential::{derive_credential, email_ok, lower_of, norm_of, norm_ok, normalize, normalize_email};
use crate::planner::{includes_column, keeps_column, plan_projection, views_of};
use crate::realmcharacters::{RealmCharacter, RealmCharacterView};
use vstd::pervasive::VecAdditionalExecFns;
use vstd::prelude::*;
use vstd::string::*;

verus! {

/// A realm known to the directory: id and display name.
pub struct Realm {
    pub id: u64,
    pub name: String,
}

/// The mathematical value of a realm row.
pub struct RealmView {
    pub id: u64,
    pub name: Seq<char>,
}

impl View for Realm {
    type V = RealmView;

    open spec fn view(&self) -> RealmView {
        RealmView { id: self.id, name: self.name@ }
    }
}

/// A failure to create an account.
#[derive(Clone, Copy, Debug, PartialEq, Eq, Structural)]
pub enum CreateError {
    /// The username, password or email was rejected by normalization.
    InvalidInput,
    /// The username is already taken; the existing row is untouched.
    AlreadyExists,
    /// Any other storage failure.
    Failed,
}

/// An explicit storage failure surfaced to a caller.
#[derive(Clone, Copy, Debug, PartialEq, Eq, Structural)]
pub enum StorageError {
    /// The requested account does not exist.
    NotFound,
    /// The backing store could not answer.
    Unavailable,
}

/// There is a stored account with this id.
pub open spec fn has_account_id_spec(accs: Seq<AccountView>, id: u64) -> bool {
    exists|i: int| 0 <= i < accs.len() && (#[trigger] accs[i]).id == id
}

/// There is a stored account with this (already normalized) username.
pub open spec fn has_username_spec(accs: Seq<AccountView>, username: Seq<char>) -> bool {
    exists|i: int| 0 <= i < accs.len() && (#[trigger] accs[i]).username == username
}

/// There is a realm row with this id.
pub open spec fn has_realm_id_spec(realms: Seq<RealmView>, id: u64) -> bool {
    exists|i: int| 0 <= i < realms.len() && (#[trigger] realms[i]).id == id
}

/// The summary rows provisioned for one account: one zeroed row per realm,
/// in realm order.
pub open spec fn provisioned_rows(realms: Seq<RealmView>, acct: u64) -> Seq<RealmCharacterView> {
    realms.map_values(
        |r: RealmView|
            (RealmCharacterView { realmid: r.id, acctid: acct, numchars: 0, realmname: r.name }),
    )
}

/// The grants stored for one account, projected by the request, in storage
/// order.
pub open spec fn grants_for(
    grants: Seq<AccessView>,
    user_id: u64,
    requested: Seq<Seq<char>>,
) -> Seq<AccessView>
    decreases grants.len(),
{
    if grants.len() == 0 {
        Seq::empty()
    } else {
        let prev = grants_for(grants.drop_last(), user_id, requested);
        if grants.last().id == user_id {
            prev.push(projected_access_view(grants.last(), requested))
        } else {
            prev
        }
    }
}

/// The character-summary rows stored for one account, in storage order.
pub open spec fn summaries_for(rows: Seq<RealmCharacterView>, user_id: u64) -> Seq<
    RealmCharacterView,
>
    decreases rows.len(),
{
    if rows.len() == 0 {
        Seq::empty()
    } else {
        let prev = summaries_for(rows.drop_last(), user_id);
        if rows.last().acctid == user_id {
            prev.push(rows.last())
        } else {
            prev
        }
    }
}

/// An account whose credential pair was rotated: a fresh 32-byte salt and
/// verifier, every other attribute untouched.  Which pair was stored is not
/// said here -- a rotation's pair is a fresh random draw -- and is pinned
/// instead by `AuthDB::install_credentials`, whose contract equates the
/// stored bytes with its arguments.
pub open spec fn rekeyed_account(a: AccountView, b: AccountView) -> bool {
    &&& b.salt.len() == 32
    &&& b.verifier.len() == 32
    &&& b == (AccountView { salt: b.salt, verifier: b.verifier, ..a })
}

/// The in-memory directory store.
pub struct AuthDB {
    accounts: Vec<Account>,
    access: Vec<Access>,
    realms: Vec<Realm>,
    realmcharacters: Vec<RealmCharacter>,
    next_id: u64,
}

impl AuthDB {
    /// The stored account rows.
    pub closed spec fn accounts_view(&self) -> Seq<AccountView> {
        self.accounts@.map_values(|a: Account| a@)
    }

    /// The stored privilege grants.
    pub closed spec fn access_view(&self) -> Seq<AccessView> {
        self.access@.map_values(|a: Access| a@)
    }

    /// The known realms.
    pub closed spec fn realms_view(&self) -> Seq<RealmView> {
        self.realms@.map_values(|r: Realm| r@)
    }

    /// The stored character-summary rows.
    pub closed spec fn realmchars_view(&self) -> Seq<RealmCharacterView> {
        self.realmcharacters@.map_values(|r: RealmCharacter| r@)
    }

    /// The next id the store will issue.
    pub closed spec fn next_id_spec(&self) -> u64 {
        self.next_id
    }

    /// The store's invariant: account ids are unique, positive and below the
    /// next fresh id; usernames are unique; every persisted account carries a
    /// complete credential pair (salt and verifier are set together, never
    /// singly); realm ids are unique; and no summary row names an id the
    /// store has not issued yet.
    pub open spec fn wf(&self) -> bool {
        &&& forall|i: int, j: int|
            0 <= i < j < self.accounts_view().len() ==> (#[trigger] self.accounts_view()[i]).id
                != (#[trigger] self.accounts_view()[j]).id
        &&& forall|i: int, j: int|
            0 <= i < j < self.accounts_view().len() ==> (#[trigger] self.accounts_view()[i]).username
                != (#[trigger] self.accounts_view()[j]).username
        &&& forall|i: int|
            0 <= i < self.accounts_view().len() ==> 1 <= (#[trigger] self.accounts_view()[i]).id
                < self.next_id_spec()
        &&& forall|i: int|
            0 <= i < self.accounts_view().len() ==> (#[trigger] self.accounts_view()[i]).salt.len()
                == 32 && (#[trigger] self.accounts_view()[i]).verifier.len() == 32
        &&& 1 <= self.next_id_spec()
        &&& forall|i: int, j: int|
            0 <= i < j < self.realms_view().len() ==> (#[trigger] self.realms_view()[i]).id
                != (#[trigger] self.realms_view()[j]).id
        &&& forall|i: int|
            0 <= i < self.realmchars_view().len() ==> (#[trigger] self.realmchars_view()[i]).acctid
                < self.next_id_spec()
    }

    /// A fresh, empty directory.
    pub fn new_sync() -> (r: AuthDB)
        ensures
            r.wf(),
            r.accounts_view().len() == 0,
            r.access_view().len() == 0,
            r.realms_view().len() == 0,
            r.realmchars_view().len() == 0,
            r.next_id_spec() == 1,
    {
        AuthDB {
            accounts: Vec::new(),
            access: Vec::new(),
            realms: Vec::new(),
            realmcharacters: Vec::new(),
            next_id: 1,
        }
    }

    /// Record a realm (storage-side provisioning; the core itself never
    /// creates realms).  Refused when the realm id is already known.
    #[verifier::loop_isolation(false)]
    pub fn add_realm(&mut self, id: u64, name: String) -> (r: bool)
        requires
            old(self).wf(),
        ensures
            final(self).wf(),
            r == !has_realm_id_spec(old(self).realms_view(), id),
            r ==> final(self).realms_view() == old(self).realms_view().push(
                (RealmView { id, name: name@ }),
            ),
            !r ==> *final(self) == *old(self),
            final(self).accounts_view() == old(self).accounts_view(),
            final(self).access_view() == old(self).access_view(),
            final(self).realmchars_view() == old(self).realmchars_view(),
            final(self).next_id_spec() == old(self).next_id_spec(),
    {
        let mut i: usize = 0;
        while i < self.realms.len()
            invariant
                *self == *old(self),
                0 <= i <= self.realms@.len(),
                forall|k: int| 0 <= k < i ==> (#[trigger] self.realms_view()[k]).id != id,
            decreases self.realms@.len() - i,
        {
            if self.realms[i].id == id {
                assert(self.realms_view()[i as int].id == id);
                return false;
            }
            i = i + 1;
        }
        self.realms.push(Realm { id, name });
        proof {
            assert(self.realms_view() =~= old(self).realms_view().push(
                RealmView { id, name: name@ },
            ));
            assert(self.accounts_view() =~= old(self).accounts_view());
            assert(self.access_view() =~= old(self).access_view());
            assert(self.realmchars_view() =~= old(self).realmchars_view());
        }
        true
    }

    /// Record a privilege grant (storage-side provisioning; the core only
    /// reads grants).
    pub fn add_access(&mut self, grant: Access)
        requires
            old(self).wf(),
        ensures
            final(self).wf(),
            final(self).access_view() == old(self).access_view().push(grant@),
            final(self).accounts_view() == old(self).accounts_view(),
            final(self).realms_view() == old(self).realms_view(),
            final(self).realmchars_view() == old(self).realmchars_view(),
            final(self).next_id_spec() == old(self).next_id_spec(),
    {
        self.access.push(grant);
        proof {
            assert(self.access_view() =~= old(self).access_view().push(grant@));
            assert(self.accounts_view() =~= old(self).accounts_view());
            assert(self.realms_view() =~= old(self).realms_view());
            assert(self.realmchars_view() =~= old(self).realmchars_view());
        }
    }

    /// All accounts, full rows, as independent copies.
    #[verifier::loop_isolation(false)]
    pub fn get_accounts(&self) -> (r: Vec<Account>)
        ensures
            r@.len() == self.accounts_view().len(),
            forall|i: int| 0 <= i < r@.len() ==> (#[trigger] r@[i])@ == self.accounts_view()[i],
    {
        let mut out: Vec<Account> = Vec::new();
        let mut i: usize = 0;
        while i < self.accounts.len()
            invariant
                0 <= i <= self.accounts@.len(),
                out@.len() == i,
                forall|k: int| 0 <= k < i ==> (#[trigger] out@[k])@ == self.accounts_view()[k],
            decreases self.accounts@.len() - i,
        {
            out.push(self.accounts[i].duplicate());
            i = i + 1;
        }
        out
    }

    /// All accounts, projected to the columns the request resolves to.
    #[verifier::loop_isolation(false)]
    pub fn get_accounts_with_fields(&self, fields: &Vec<String>) -> (r: Vec<Account>)
        ensures
            r@.len() == self.accounts_view().len(),
            forall|i: int|
                0 <= i < r@.len() ==> (#[trigger] r@[i])@ == projected_account_view(
                    self.accounts_view()[i],
                    views_of(fields@),
                ),
    {
        let known = account_fields();
        let plan = plan_projection(&known, fields);
        let mut out: Vec<Account> = Vec::new();
        let mut i: usize = 0;
        while i < self.accounts.len()
            invariant
                0 <= i <= self.accounts@.len(),
                out@.len() == i,
                forall|name: Seq<char>| #[trigger] includes_column(&plan, name) == keeps_column(
                    account_field_names(),
                    views_of(fields@),
                    name,
                ),
                forall|k: int|
                    0 <= k < i ==> (#[trigger] out@[k])@ == projected_account_view(
                        self.accounts_view()[k],
                        views_of(fields@),
                    ),
            decreases self.accounts@.len() - i,
        {
            let row = self.accounts[i].project(&plan);
            proof {
                lemma_project_account_by_plan(
                    self.accounts_view()[i as int],
                    &plan,
                    views_of(fields@),
                );
            }
            out.push(row);
            i = i + 1;
        }
        out
    }

    /// One account, projected; a miss collapses to the not-found error.
    #[verifier::loop_isolation(false)]
    pub fn get_account_by_id(&self, id: u64, fields: &Vec<String>) -> (r: Result<
        Account,
        StorageError,
    >)
        requires
            self.wf(),
        ensures
            r is Ok <==> has_account_id_spec(self.accounts_view(), id),
            r matches Ok(a) ==> exists|i: int|
                0 <= i < self.accounts_view().len() && (#[trigger] self.accounts_view()[i]).id
                    == id && a@ == projected_account_view(
                    self.accounts_view()[i],
                    views_of(fields@),
                ),
            r matches Err(e) ==> e == StorageError::NotFound,
    {
        let known = account_fields();
        let plan = plan_projection(&known, fields);
        let mut i: usize = 0;
        while i < self.accounts.len()
            invariant
                0 <= i <= self.accounts@.len(),
                forall|name: Seq<char>| #[trigger] includes_column(&plan, name) == keeps_column(
                    account_field_names(),
                    views_of(fields@),
                    name,
                ),
                forall|k: int| 0 <= k < i ==> (#[trigger] self.accounts_view()[k]).id != id,
            decreases self.accounts@.len() - i,
        {
            if self.accounts[i].id == id {
                let row = self.accounts[i].project(&plan);
                proof {
                    lemma_project_account_by_plan(
                        self.accounts_view()[i as int],
                        &plan,
                        views_of(fields@),
                    );
                    assert(self.accounts_view()[i as int].id == id);
                }
                return Ok(row);
            }
            i = i + 1;
        }
        Err(StorageError::NotFound)
    }

    /// Whether an account with this id exists.
    #[verifier::loop_isolation(false)]
    pub fn has_account_id(&self, id: u64) -> (r: bool)
        ensures
            r == has_account_id_spec(self.accounts_view(), id),
    {
        let mut i: usize = 0;
        while i < self.accounts.len()
            invariant
                0 <= i <= self.accounts@.len(),
                forall|k: int| 0 <= k < i ==> (#[trigger] self.accounts_view()[k]).id != id,
            decreases self.accounts@.len() - i,
        {
            if self.accounts[i].id == id {
                assert(self.accounts_view()[i as int].id == id);
                return true;
            }
            i = i + 1;
        }
        false
    }

    /// Whether an account with this username exists.  The probe is normalized
    /// the way stored usernames are, so the check is case-insensitive; a
    /// username normalization rejects cannot be stored and reports `false`.
    #[verifier::loop_isolation(false)]
    pub fn has_account_username(&self, username: &str) -> (r: Result<bool, StorageError>)
        ensures
            r is Ok,
            r matches Ok(b) ==> b == (norm_ok(username@) && has_username_spec(
                self.accounts_view(),
                norm_of(username@),
            )),
    {
        let probe = match normalize(username) {
            Ok(p) => p,
            Err(_) => {
                return Ok(false);
            },
        };
        let mut i: usize = 0;
        while i < self.accounts.len()
            invariant
                0 <= i <= self.accounts@.len(),
                probe@ == norm_of(username@),
                forall|k: int|
                    0 <= k < i ==> (#[trigger] self.accounts_view()[k]).username != probe@,
            decreases self.accounts@.len() - i,
        {
            if self.accounts[i].username == probe {
                assert(self.accounts_view()[i as int].username == norm_of(username@));
                return Ok(true);
            }
            i = i + 1;
        }
        Ok(false)
    }

    /// Create an account: derive the credential pair, insert the row with the
    /// default expansion tier, then provision one zeroed character-summary
    /// row per known realm.  A taken username is reported as `AlreadyExists`
    /// and leaves every stored row untouched.
    pub fn create_account(&mut self, username: &str, password: &str, email: &str) -> (r: Result<
        u64,
        CreateError,
    >)
        requires
            old(self).wf(),
        ensures
            final(self).wf(),
            !(norm_ok(username@) && norm_ok(password@) && email_ok(email@)) ==> r == Err::<
                u64,
                CreateError,
            >(CreateError::InvalidInput) && *final(self) == *old(self),
            norm_ok(username@) && norm_ok(password@) && email_ok(email@) && has_username_spec(
                old(self).accounts_view(),
                norm_of(username@),
            ) ==> r == Err::<u64, CreateError>(CreateError::AlreadyExists) && *final(self) == *old(self),
            norm_ok(username@) && norm_ok(password@) && email_ok(email@) && !has_username_spec(
                old(self).accounts_view(),
                norm_of(username@),
            ) && old(self).next_id_spec() == u64::MAX ==> r == Err::<u64, CreateError>(
                CreateError::Failed,
            ) && *final(self) == *old(self),
            norm_ok(username@) && norm_ok(password@) && email_ok(email@) && !has_username_spec(
                old(self).accounts_view(),
                norm_of(username@),
            ) && old(self).next_id_spec() < u64::MAX ==> r == Ok::<u64, CreateError>(
                old(self).next_id_spec(),
            ) && created_account(
                *old(self),
                *final(self),
                norm_of(username@),
                lower_of(email@),
            ),
    {
        let derived = match derive_credential(username, password) {
            Ok(t) => t,
            Err(_) => {
                return Err(CreateError::InvalidInput);
            },
        };
        let (uname, salt, verifier) = derived;
        let mail = match normalize_email(email) {
            Ok(m) => m,
            Err(_) => {
                return Err(CreateError::InvalidInput);
            },
        };
        let ghost salt_view = salt@;
        let ghost verifier_view = verifier@;
        let r = self.insert_account(uname, salt, verifier, mail);
        proof {
            if r is Ok {
                assert(created_account_with(
                    *old(self),
                    *self,
                    norm_of(username@),
                    salt_view,
                    verifier_view,
                    lower_of(email@),
                ));
            }
        }
        r
    }

    /// Insert a prepared account row: an already-normalized username, an
    /// already-derived 32-byte credential pair and an already-normalized
    /// email.  This is the step that persists a creation: the stored salt
    /// and verifier equal the arguments, byte for byte.  The row gets the
    /// next fresh id, the default expansion tier and otherwise default
    /// attributes, and one zeroed character-summary row per known realm is
    /// provisioned with it.
    #[verifier::loop_isolation(false)]
    pub fn insert_account(
        &mut self,
        username: String,
        salt: Vec<u8>,
        verifier: Vec<u8>,
        email: String,
    ) -> (r: Result<u64, CreateError>)
        requires
            old(self).wf(),
            salt@.len() == 32,
            verifier@.len() == 32,
        ensures
            final(self).wf(),
            has_username_spec(old(self).accounts_view(), username@) ==> r == Err::<
                u64,
                CreateError,
            >(CreateError::AlreadyExists) && *final(self) == *old(self),
            !has_username_spec(old(self).accounts_view(), username@) && old(self).next_id_spec()
                == u64::MAX ==> r == Err::<u64, CreateError>(CreateError::Failed) && *final(self)
                == *old(self),
            !has_username_spec(old(self).accounts_view(), username@) && old(self).next_id_spec()
                < u64::MAX ==> r == Ok::<u64, CreateError>(old(self).next_id_spec())
                && created_account_with(
                *old(self),
                *final(self),
                username@,
                salt@,
                verifier@,
                email@,
            ),
    {
        let ghost uname_view = username@;
        let mut i: usize = 0;
        while i < self.accounts.len()
            invariant
                *self == *old(self),
                0 <= i <= self.accounts@.len(),
                forall|k: int|
                    0 <= k < i ==> (#[trigger] self.accounts_view()[k]).username != uname_view,
            decreases self.accounts@.len() - i,
        {
            if self.accounts[i].username == username {
                assert(self.accounts_view()[i as int].username == uname_view);
                return Err(CreateError::AlreadyExists);
            }
            i = i + 1;
        }
        if self.next_id == u64::MAX {
            return Err(CreateError::Failed);
        }
        let id = self.next_id;
        let account = Account {
            id,
            username,
            salt,
            verifier,
            session_key: Option::None,
            totp_secret: Option::None,
            email,
            reg_mail: String::new(),
            joindate: 0,
            last_ip: String::new(),
            last_attempt_ip: String::new(),
            failed_logins: 0,
            locked: 0,
            lock_country: String::new(),
            last_login: Option::None,
            online: 0,
            expansion: 2,
            mutetime: 0,
            mutereason: String::new(),
            muteby: String::new(),
            locale: 0,
            os: String::new(),
            recruiter: 0,
            totaltime: 0,
        };
        self.accounts.push(account);
        self.next_id = id + 1;
        proof {
            assert(self.accounts_view() =~= old(self).accounts_view().push(
                self.accounts_view().last(),
            ));
            assert(self.accounts_view().take(old(self).accounts_view().len() as int) =~= old(self).accounts_view());
        }
        let ghost mid = *self;
        let mut k: usize = 0;
        while k < self.realms.len()
            invariant
                0 <= k <= self.realms@.len(),
                self.accounts@ == mid.accounts@,
                self.access@ == mid.access@,
                self.realms@ == mid.realms@,
                self.next_id == mid.next_id,
                self.realmchars_view() =~= mid.realmchars_view() + provisioned_rows(
                    mid.realms_view().take(k as int),
                    id,
                ),
            decreases self.realms@.len() - k,
        {
            let ghost prev_view = self.realmchars_view();
            let row = RealmCharacter::new(self.realms[k].id, id, 0, self.realms[k].name.clone());
            proof {
                assert(provisioned_rows(mid.realms_view().take(k + 1), id) =~= provisioned_rows(
                    mid.realms_view().take(k as int),
                    id,
                ).push(row@));
            }
            self.realmcharacters.push(row);
            proof {
                assert(self.realmchars_view() =~= prev_view.push(row@));
                assert(self.realmchars_view() =~= mid.realmchars_view() + provisioned_rows(
                    mid.realms_view().take(k + 1),
                    id,
                ));
            }
            k = k + 1;
        }
        proof {
            assert(mid.realms_view().take(mid.realms_view().len() as int) =~= mid.realms_view());
            assert(self.realmchars_view() =~= mid.realmchars_view() + provisioned_rows(
                old(self).realms_view(),
                id,
            ));
            let pre = old(self).accounts_view();
            let post = self.accounts_view();
            let n = pre.len() as int;
            assert(post.len() == n + 1);
            assert(forall|k: int| 0 <= k < n ==> #[trigger] post[k] == pre[k]);
            assert(post[n].id == id);
            assert(post[n].username == uname_view);
            assert forall|a: int, b: int| 0 <= a < b < post.len() implies (#[trigger] post[a]).id
                != (#[trigger] post[b]).id by {
                if b == n {
                    assert(post[a] == pre[a]);
                    assert(pre[a].id < id);
                }
            }
            assert forall|a: int, b: int|
                0 <= a < b < post.len() implies (#[trigger] post[a]).username != (
            #[trigger] post[b]).username by {
                if b == n {
                    assert(post[a] == pre[a]);
                }
            }
            assert forall|a: int| 0 <= a < post.len() implies 1 <= (#[trigger] post[a]).id
                < self.next_id_spec() by {
                if a < n {
                    assert(post[a] == pre[a]);
                }
            }
            assert forall|a: int| 0 <= a < post.len() implies (#[trigger] post[a]).salt.len() == 32
                && (#[trigger] post[a]).verifier.len() == 32 by {
                if a < n {
                    assert(post[a] == pre[a]);
                }
            }
            let chars = self.realmchars_view();
            let pre_chars = old(self).realmchars_view();
            assert forall|a: int| 0 <= a < chars.len() implies (#[trigger] chars[a]).acctid
                < self.next_id_spec() by {
                if a < pre_chars.len() {
                    assert(chars[a] == pre_chars[a]);
                } else {
                    assert(chars[a] == provisioned_rows(old(self).realms_view(), id)[a
                        - pre_chars.len()]);
                }
            }
            assert(self.realms_view() =~= old(self).realms_view());
            assert(self.access_view() =~= old(self).access_view());
        }
        Ok(id)
    }

    /// Delete at most one account row; reports whether a row was removed.  A
    /// missing id is no error, and grants and summaries are left in place.
    #[verifier::loop_isolation(false)]
    pub fn delete_account(&mut self, id: u64) -> (r: bool)
        requires
            old(self).wf(),
        ensures
            final(self).wf(),
            r == has_account_id_spec(old(self).accounts_view(), id),
            !r ==> *final(self) == *old(self),
            r ==> exists|i: int|
                0 <= i < old(self).accounts_view().len() && (
                #[trigger] old(self).accounts_view()[i]).id == id && final(self).accounts_view()
                    == old(self).accounts_view().remove(i),
            r ==> !has_account_id_spec(final(self).accounts_view(), id),
            final(self).access_view() == old(self).access_view(),
            final(self).realms_view() == old(self).realms_view(),
            final(self).realmchars_view() == old(self).realmchars_view(),
            final(self).next_id_spec() == old(self).next_id_spec(),
    {
        let mut i: usize = 0;
        while i < self.accounts.len()
            invariant
                *self == *old(self),
                0 <= i <= self.accounts@.len(),
                forall|k: int| 0 <= k < i ==> (#[trigger] self.accounts_view()[k]).id != id,
            decreases self.accounts@.len() - i,
        {
            if self.accounts[i].id == id {
                assert(self.accounts_view()[i as int].id == id);
                self.accounts.remove(i);
                proof {
                    let pre = old(self).accounts_view();
                    let post = self.accounts_view();
                    assert(post =~= pre.remove(i as int));
                    assert(forall|j: int|
                        0 <= j < post.len() ==> #[trigger] post[j] == (if j < i {
                            pre[j]
                        } else {
                            pre[j + 1]
                        }));
                    assert forall|j: int| 0 <= j < post.len() implies (#[trigger] post[j]).id
                        != id by {
                        if j < i {
                            assert(post[j] == pre[j]);
                        } else {
                            assert(post[j] == pre[j + 1]);
                        }
                    }
                    assert forall|a: int, b: int| 0 <= a < b < post.len() implies (
                    #[trigger] post[a]).id != (#[trigger] post[b]).id && post[a].username
                        != post[b].username by {
                        if b < i {
                        } else if a < i {
                            assert(post[a] == pre[a]);
                            assert(post[b] == pre[b + 1]);
                        } else {
                            assert(post[a] == pre[a + 1]);
                            assert(post[b] == pre[b + 1]);
                        }
                    }
                    assert forall|a: int| 0 <= a < post.len() implies 1 <= (
                    #[trigger] post[a]).id < self.next_id_spec() by {
                        if a < i {
                            assert(post[a] == pre[a]);
                        } else {
                            assert(post[a] == pre[a + 1]);
                        }
                    }
                    assert forall|a: int| 0 <= a < post.len() implies (
                    #[trigger] post[a]).salt.len() == 32 && (#[trigger] post[a]).verifier.len()
                        == 32 by {
                        if a < i {
                            assert(post[a] == pre[a]);
                        } else {
                            assert(post[a] == pre[a + 1]);
                        }
                    }
                    assert forall|a: int, b: int| 0 <= a < b < self.realms_view().len() implies (
                    #[trigger] self.realms_view()[a]).id != (#[trigger] self.realms_view()[b]).id by {
                        assert(self.realms_view()[a] == old(self).realms_view()[a]);
                        assert(self.realms_view()[b] == old(self).realms_view()[b]);
                    }
                    assert forall|a: int|
                        0 <= a < self.realmchars_view().len() implies (
                    #[trigger] self.realmchars_view()[a]).acctid < self.next_id_spec() by {
                        assert(self.realmchars_view()[a] == old(self).realmchars_view()[a]);
                    }
                }
                return true;
            }
            i = i + 1;
        }
        false
    }

    /// Install an already-derived credential pair on the account stored
    /// under exactly this username; reports whether a row was affected.
    /// This is the step that persists a rotation: the stored salt and
    /// verifier afterwards equal the arguments, byte for byte, and nothing
    /// else changes.
    #[verifier::loop_isolation(false)]
    pub fn install_credentials(&mut self, username: &str, salt: Vec<u8>, verifier: Vec<u8>) -> (r:
        bool)
        requires
            old(self).wf(),
            salt@.len() == 32,
            verifier@.len() == 32,
        ensures
            final(self).wf(),
            r == has_username_spec(old(self).accounts_view(), username@),
            !r ==> *final(self) == *old(self),
            r ==> final(self).accounts_view().len() == old(self).accounts_view().len() && exists|i: int|
                0 <= i < old(self).accounts_view().len() && (
                #[trigger] old(self).accounts_view()[i]).username == username@ && final(self).accounts_view()[i]
                    == (AccountView {
                    salt: salt@,
                    verifier: verifier@,
                    ..old(self).accounts_view()[i]
                }) && (forall|j: int|
                    0 <= j < old(self).accounts_view().len() && j != i ==> final(self).accounts_view()[j] == (#[trigger] old(self).accounts_view()[j])),
            final(self).access_view() == old(self).access_view(),
            final(self).realms_view() == old(self).realms_view(),
            final(self).realmchars_view() == old(self).realmchars_view(),
            final(self).next_id_spec() == old(self).next_id_spec(),
    {
        let ghost uname_view = username@;
        let ghost salt_view = salt@;
        let ghost verifier_view = verifier@;
        let probe: String = username.to_owned();
        let mut i: usize = 0;
        while i < self.accounts.len()
            invariant
                *self == *old(self),
                0 <= i <= self.accounts@.len(),
                probe@ == uname_view,
                forall|k: int|
                    0 <= k < i ==> (#[trigger] self.accounts_view()[k]).username != uname_view,
            decreases self.accounts@.len() - i,
        {
            if self.accounts[i].username == probe {
                assert(self.accounts_view()[i as int].username == uname_view);
                let mut updated = self.accounts[i].duplicate();
                updated.salt = salt;
                updated.verifier = verifier;
                assert(updated@ == (AccountView {
                    salt: salt_view,
                    verifier: verifier_view,
                    ..self.accounts_view()[i as int]
                }));
                self.accounts.set(i, updated);
                proof {
                    let pre = old(self).accounts_view();
                    let post = self.accounts_view();
                    assert(post =~= pre.update(i as int, updated@));
                    assert(updated@.id == pre[i as int].id);
                    assert(updated@.username == pre[i as int].username);
                    assert(forall|j: int|
                        0 <= j < post.len() && j != i ==> #[trigger] post[j] == pre[j]);
                    assert forall|a: int, b: int| 0 <= a < b < post.len() implies (
                    #[trigger] post[a]).id != (#[trigger] post[b]).id && post[a].username
                        != post[b].username by {
                        assert(post[a].id == pre[a].id && post[a].username == pre[a].username);
                        assert(post[b].id == pre[b].id && post[b].username == pre[b].username);
                    }
                    assert forall|a: int| 0 <= a < post.len() implies 1 <= (
                    #[trigger] post[a]).id < self.next_id_spec() by {
                        assert(post[a].id == pre[a].id);
                    }
                    assert forall|a: int| 0 <= a < post.len() implies (
                    #[trigger] post[a]).salt.len() == 32 && (#[trigger] post[a]).verifier.len()
                        == 32 by {
                        if a != i {
                            assert(post[a] == pre[a]);
                        }
                    }
                    assert forall|a: int, b: int| 0 <= a < b < self.realms_view().len() implies (
                    #[trigger] self.realms_view()[a]).id != (#[trigger] self.realms_view()[b]).id by {
                        assert(self.realms_view()[a] == old(self).realms_view()[a]);
                        assert(self.realms_view()[b] == old(self).realms_view()[b]);
                    }
                    assert forall|a: int|
                        0 <= a < self.realmchars_view().len() implies (
                    #[trigger] self.realmchars_view()[a]).acctid < self.next_id_spec() by {
                        assert(self.realmchars_view()[a] == old(self).realmchars_view()[a]);
                    }
                }
                return true;
            }
            i = i + 1;
        }
        false
    }

    /// Re-derive the credential pair for this username and persist it via
    /// `install_credentials`; reports whether a stored row was affected.
    pub fn set_username_password(&mut self, username: String, password: String) -> (r: Result<
        bool,
        crate::credential::CredentialError,
    >)
        requires
            old(self).wf(),
        ensures
            final(self).wf(),
            !(norm_ok(username@) && norm_ok(password@)) ==> r is Err && *final(self) == *old(self),
            norm_ok(username@) && norm_ok(password@) && !has_username_spec(
                old(self).accounts_view(),
                norm_of(username@),
            ) ==> r == Ok::<bool, crate::credential::CredentialError>(false) && *final(self)
                == *old(self),
            norm_ok(username@) && norm_ok(password@) && has_username_spec(
                old(self).accounts_view(),
                norm_of(username@),
            ) ==> r == Ok::<bool, crate::credential::CredentialError>(true) && final(self).accounts_view().len() == old(self).accounts_view().len() && exists|i: int|
                0 <= i < old(self).accounts_view().len() && (
                #[trigger] old(self).accounts_view()[i]).username == norm_of(username@)
                    && rekeyed_account(
                    old(self).accounts_view()[i],
                    final(self).accounts_view()[i],
                ) && (forall|j: int|
                    0 <= j < old(self).accounts_view().len() && j != i ==> final(self).accounts_view()[j] == (#[trigger] old(self).accounts_view()[j])),
            final(self).access_view() == old(self).access_view(),
            final(self).realms_view() == old(self).realms_view(),
            final(self).realmchars_view() == old(self).realmchars_view(),
            final(self).next_id_spec() == old(self).next_id_spec(),
    {
        let derived = match derive_credential(username.as_str(), password.as_str()) {
            Ok(t) => t,
            Err(e) => {
                return Err(e);
            },
        };
        let (uname, salt, verifier) = derived;
        let ghost salt_view = salt@;
        let ghost verifier_view = verifier@;
        let r = self.install_credentials(uname.as_str(), salt, verifier);
        proof {
            if r {
                let pre = old(self).accounts_view();
                let post = self.accounts_view();
                let i = choose|i: int|
                    0 <= i < pre.len() && (#[trigger] pre[i]).username == norm_of(username@)
                        && post[i] == (AccountView {
                        salt: salt_view,
                        verifier: verifier_view,
                        ..pre[i]
                    }) && (forall|j: int|
                        0 <= j < pre.len() && j != i ==> post[j] == (#[trigger] pre[j]));
                assert(rekeyed_account(pre[i], post[i]));
            }
        }
        Ok(r)
    }

    /// The grants stored for one account, projected to the resolved columns.
    #[verifier::loop_isolation(false)]
    pub fn access_by_user_id(&self, user_id: u64, fields: &Vec<String>) -> (r: Result<
        Vec<Access>,
        StorageError,
    >)
        ensures
            r is Ok,
            r matches Ok(v) ==> v@.map_values(|g: Access| g@) == grants_for(
                self.access_view(),
                user_id,
                views_of(fields@),
            ),
    {
        let known = access_fields();
        let plan = plan_projection(&known, fields);
        let mut out: Vec<Access> = Vec::new();
        let mut i: usize = 0;
        while i < self.access.len()
            invariant
                0 <= i <= self.access@.len(),
                forall|name: Seq<char>| #[trigger] includes_column(&plan, name) == keeps_column(
                    access_field_names(),
                    views_of(fields@),
                    name,
                ),
                out@.map_values(|g: Access| g@) =~= grants_for(
                    self.access_view().take(i as int),
                    user_id,
                    views_of(fields@),
                ),
            decreases self.access@.len() - i,
        {
            proof {
                assert(self.access_view().take(i + 1).drop_last() =~= self.access_view().take(
                    i as int,
                ));
                assert(self.access_view().take(i + 1).last() == self.access_view()[i as int]);
            }
            if self.access[i].id() == user_id {
                let row = self.access[i].project(&plan);
                proof {
                    lemma_project_access_by_plan(
                        self.access_view()[i as int],
                        &plan,
                        views_of(fields@),
                    );
                }
                out.push(row);
            }
            i = i + 1;
        }
        proof {
            assert(self.access_view().take(self.access_view().len() as int) =~= self.access_view());
        }
        Ok(out)
    }

    /// The character-summary rows stored for one account, always full rows.
    #[verifier::loop_isolation(false)]
    pub fn realmcharacters_by_user_id(&self, user_id: u64) -> (r: Result<
        Vec<RealmCharacter>,
        StorageError,
    >)
        ensures
            r is Ok,
            r matches Ok(v) ==> v@.map_values(|c: RealmCharacter| c@) == summaries_for(
                self.realmchars_view(),
                user_id,
            ),
    {
        let mut out: Vec<RealmCharacter> = Vec::new();
        let mut i: usize = 0;
        while i < self.realmcharacters.len()
            invariant
                0 <= i <= self.realmcharacters@.len(),
                out@.map_values(|c: RealmCharacter| c@) =~= summaries_for(
                    self.realmchars_view().take(i as int),
                    user_id,
                ),
            decreases self.realmcharacters@.len() - i,
        {
            proof {
                assert(self.realmchars_view().take(i + 1).drop_last()
                    =~= self.realmchars_view().take(i as int));
                assert(self.realmchars_view().take(i + 1).last() == self.realmchars_view()[i as int]);
            }
            if self.realmcharacters[i].acctid() == user_id {
                out.push(self.realmcharacters[i].duplicate());
            }
            i = i + 1;
        }
        proof {
            assert(self.realmchars_view().take(self.realmchars_view().len() as int)
                =~= self.realmchars_view());
        }
        Ok(out)
    }
}

/// What inserting a prepared account row leaves behind: one new row carrying
/// exactly this username, this credential pair and this email, the default
/// expansion tier and otherwise default attributes; one zeroed
/// character-summary row per known realm; and every previously stored row
/// untouched.
pub open spec fn created_account_with(
    pre: AuthDB,
    post: AuthDB,
    username: Seq<char>,
    salt: Seq<u8>,
    verifier: Seq<u8>,
    email: Seq<char>,
) -> bool {
    let id = pre.next_id_spec();
    let a = post.accounts_view().last();
    &&& post.next_id_spec() == id + 1
    &&& post.accounts_view().len() == pre.accounts_view().len() + 1
    &&& post.accounts_view().take(pre.accounts_view().len() as int) == pre.accounts_view()
    &&& a.id == id
    &&& a.username == username
    &&& a.email == email
    &&& a.salt == salt
    &&& a.verifier == verifier
    &&& salt.len() == 32
    &&& verifier.len() == 32
    &&& a.session_key == Option::<Seq<u8>>::None
    &&& a.totp_secret == Option::<Seq<u8>>::None
    &&& a.reg_mail == Seq::<char>::empty()
    &&& a.joindate == 0
    &&& a.last_ip == Seq::<char>::empty()
    &&& a.last_attempt_ip == Seq::<char>::empty()
    &&& a.failed_logins == 0
    &&& a.locked == 0
    &&& a.lock_country == Seq::<char>::empty()
    &&& a.last_login == Option::<i64>::None
    &&& a.online == 0
    &&& a.expansion == 2
    &&& a.mutetime == 0
    &&& a.mutereason == Seq::<char>::empty()
    &&& a.muteby == Seq::<char>::empty()
    &&& a.locale == 0
    &&& a.os == Seq::<char>::empty()
    &&& a.recruiter == 0
    &&& a.totaltime == 0
    &&& post.access_view() == pre.access_view()
    &&& post.realms_view() == pre.realms_view()
    &&& post.realmchars_view() == pre.realmchars_view() + provisioned_rows(pre.realms_view(), id)
}

/// What a successful creation leaves behind: as `created_account_with`, for
/// some 32-byte credential pair.  The pair of a particular call is random,
/// so creation itself can say no more of it; `AuthDB::insert_account` is the
/// step whose contract pins the stored pair to the one it was handed.
pub open spec fn created_account(
    pre: AuthDB,
    post: AuthDB,
    username: Seq<char>,
    email: Seq<char>,
) -> bool {
    exists|salt: Seq<u8>, verifier: Seq<u8>|
        created_account_with(pre, post, username, salt, verifier, email)
}

impl Default for AuthDB {
    /// A fresh, empty directory.
    fn default() -> (r: AuthDB)
        ensures
            r.wf(),
            r.accounts_view().len() == 0,
            r.access_view().len() == 0,
            r.realms_view().len() == 0,
            r.realmchars_view().len() == 0,
            r.next_id_spec() == 1,
    {
        AuthDB::new_sync()
    }
}

} // verus!
