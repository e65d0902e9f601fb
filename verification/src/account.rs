//! The account entity: identity, credential material and status bookkeeping
//! for one player account.  Timestamps are held as plain signed second counts
//! so that every attribute is a value the contracts can speak about.

use crate::planner::{includes_column, keeps_column, projection_includes, views_of, Projection};
use vstd::prelude::*;
use vstd::string::*;

verus! {

/// The value of an `Option<Vec<u8>>`, as an optional byte sequence.
pub open spec fn opt_bytes_view(o: Option<Vec<u8>>) -> Option<Seq<u8>> {
    match o {
        Option::Some(b) => Option::Some(b@),
        Option::None => Option::None,
    }
}

/// Copy a byte vector.
pub fn clone_bytes(v: &Vec<u8>) -> (r: Vec<u8>)
    ensures
        r@ == v@,
{
    let r = v.clone();
    assert(r@ =~= v@);
    r
}

/// Copy an optional byte vector.
pub fn clone_opt_bytes(o: &Option<Vec<u8>>) -> (r: Option<Vec<u8>>)
    ensures
        opt_bytes_view(r) == opt_bytes_view(*o),
{
    match o {
        Option::Some(b) => Option::Some(clone_bytes(b)),
        Option::None => Option::None,
    }
}

/// An account record: identity, credential pair, contact addresses and
/// status bookkeeping.
pub struct Account {
    pub id: u64,
    pub username: String,
    pub salt: Vec<u8>,
    pub verifier: Vec<u8>,
    pub session_key: Option<Vec<u8>>,
    pub totp_secret: Option<Vec<u8>>,
    pub email: String,
    pub reg_mail: String,
    pub joindate: i64,
    pub last_ip: String,
    pub last_attempt_ip: String,
    pub failed_logins: u32,
    pub locked: u8,
    pub lock_country: String,
    pub last_login: Option<i64>,
    pub online: u8,
    pub expansion: u8,
    pub mutetime: i64,
    pub mutereason: String,
    pub muteby: String,
    pub locale: u8,
    pub os: String,
    pub recruiter: u32,
    pub totaltime: u32,
}

/// The mathematical value of an account record.
pub struct AccountView {
    pub id: u64,
    pub username: Seq<char>,
    pub salt: Seq<u8>,
    pub verifier: Seq<u8>,
    pub session_key: Option<Seq<u8>>,
    pub totp_secret: Option<Seq<u8>>,
    pub email: Seq<char>,
    pub reg_mail: Seq<char>,
    pub joindate: i64,
    pub last_ip: Seq<char>,
    pub last_attempt_ip: Seq<char>,
    pub failed_logins: u32,
    pub locked: u8,
    pub lock_country: Seq<char>,
    pub last_login: Option<i64>,
    pub online: u8,
    pub expansion: u8,
    pub mutetime: i64,
    pub mutereason: Seq<char>,
    pub muteby: Seq<char>,
    pub locale: u8,
    pub os: Seq<char>,
    pub recruiter: u32,
    pub totaltime: u32,
}

impl View for Account {
    type V = AccountView;

    open spec fn view(&self) -> AccountView {
        AccountView {
            id: self.id,
            username: self.username@,
            salt: self.salt@,
            verifier: self.verifier@,
            session_key: opt_bytes_view(self.session_key),
            totp_secret: opt_bytes_view(self.totp_secret),
            email: self.email@,
            reg_mail: self.reg_mail@,
            joindate: self.joindate,
            last_ip: self.last_ip@,
            last_attempt_ip: self.last_attempt_ip@,
            failed_logins: self.failed_logins,
            locked: self.locked,
            lock_country: self.lock_country@,
            last_login: self.last_login,
            online: self.online,
            expansion: self.expansion,
            mutetime: self.mutetime,
            mutereason: self.mutereason@,
            muteby: self.muteby@,
            locale: self.locale,
            os: self.os@,
            recruiter: self.recruiter,
            totaltime: self.totaltime,
        }
    }
}

/// The account whose every attribute holds its default value.
pub open spec fn default_account_view() -> AccountView {
    AccountView {
        id: 0,
        username: Seq::empty(),
        salt: Seq::empty(),
        verifier: Seq::empty(),
        session_key: Option::None,
        totp_secret: Option::None,
        email: Seq::empty(),
        reg_mail: Seq::empty(),
        joindate: 0,
        last_ip: Seq::empty(),
        last_attempt_ip: Seq::empty(),
        failed_logins: 0,
        locked: 0,
        lock_country: Seq::empty(),
        last_login: Option::None,
        online: 0,
        expansion: 0,
        mutetime: 0,
        mutereason: Seq::empty(),
        muteby: Seq::empty(),
        locale: 0,
        os: Seq::empty(),
        recruiter: 0,
        totaltime: 0,
    }
}

/// The declared attribute names of an account, in canonical column order.
pub open spec fn account_field_names() -> Seq<Seq<char>> {
    seq!["id"@, "username"@, "salt"@, "verifier"@, "session_key"@, "totp_secret"@, "email"@, "reg_mail"@, "joindate"@, "last_ip"@, "last_attempt_ip"@, "failed_logins"@, "locked"@, "lock_country"@, "last_login"@, "online"@, "expansion"@, "mutetime"@, "mutereason"@, "muteby"@, "locale"@, "os"@, "recruiter"@, "totaltime"@]
}

/// The canonical column list for accounts, as strings.
pub fn account_fields() -> (r: Vec<String>)
    ensures
        views_of(r@) == account_field_names(),
{
    let mut v: Vec<String> = Vec::new();
    v.push("id".to_owned());
    v.push("username".to_owned());
    v.push("salt".to_owned());
    v.push("verifier".to_owned());
    v.push("session_key".to_owned());
    v.push("totp_secret".to_owned());
    v.push("email".to_owned());
    v.push("reg_mail".to_owned());
    v.push("joindate".to_owned());
    v.push("last_ip".to_owned());
    v.push("last_attempt_ip".to_owned());
    v.push("failed_logins".to_owned());
    v.push("locked".to_owned());
    v.push("lock_country".to_owned());
    v.push("last_login".to_owned());
    v.push("online".to_owned());
    v.push("expansion".to_owned());
    v.push("mutetime".to_owned());
    v.push("mutereason".to_owned());
    v.push("muteby".to_owned());
    v.push("locale".to_owned());
    v.push("os".to_owned());
    v.push("recruiter".to_owned());
    v.push("totaltime".to_owned());
    proof {
        assert(views_of(v@) =~= account_field_names());
    }
    v
}

/// An account projected to the columns a plan keeps: a kept attribute
/// holds the record's value, a dropped one its default.
pub open spec fn project_account_view(a: AccountView, p: &Projection) -> AccountView {
    AccountView {
        id: if includes_column(p, "id"@) {
            a.id
        } else {
            0
        },
        username: if includes_column(p, "username"@) {
            a.username
        } else {
            Seq::empty()
        },
        salt: if includes_column(p, "salt"@) {
            a.salt
        } else {
            Seq::empty()
        },
        verifier: if includes_column(p, "verifier"@) {
            a.verifier
        } else {
            Seq::empty()
        },
        session_key: if includes_column(p, "session_key"@) {
            a.session_key
        } else {
            Option::None
        },
        totp_secret: if includes_column(p, "totp_secret"@) {
            a.totp_secret
        } else {
            Option::None
        },
        email: if includes_column(p, "email"@) {
            a.email
        } else {
            Seq::empty()
        },
        reg_mail: if includes_column(p, "reg_mail"@) {
            a.reg_mail
        } else {
            Seq::empty()
        },
        joindate: if includes_column(p, "joindate"@) {
            a.joindate
        } else {
            0
        },
        last_ip: if includes_column(p, "last_ip"@) {
            a.last_ip
        } else {
            Seq::empty()
        },
        last_attempt_ip: if includes_column(p, "last_attempt_ip"@) {
            a.last_attempt_ip
        } else {
            Seq::empty()
        },
        failed_logins: if includes_column(p, "failed_logins"@) {
            a.failed_logins
        } else {
            0
        },
        locked: if includes_column(p, "locked"@) {
            a.locked
        } else {
            0
        },
        lock_country: if includes_column(p, "lock_country"@) {
            a.lock_country
        } else {
            Seq::empty()
        },
        last_login: if includes_column(p, "last_login"@) {
            a.last_login
        } else {
            Option::None
        },
        online: if includes_column(p, "online"@) {
            a.online
        } else {
            0
        },
        expansion: if includes_column(p, "expansion"@) {
            a.expansion
        } else {
            0
        },
        mutetime: if includes_column(p, "mutetime"@) {
            a.mutetime
        } else {
            0
        },
        mutereason: if includes_column(p, "mutereason"@) {
            a.mutereason
        } else {
            Seq::empty()
        },
        muteby: if includes_column(p, "muteby"@) {
            a.muteby
        } else {
            Seq::empty()
        },
        locale: if includes_column(p, "locale"@) {
            a.locale
        } else {
            0
        },
        os: if includes_column(p, "os"@) {
            a.os
        } else {
            Seq::empty()
        },
        recruiter: if includes_column(p, "recruiter"@) {
            a.recruiter
        } else {
            0
        },
        totaltime: if includes_column(p, "totaltime"@) {
            a.totaltime
        } else {
            0
        },
    }
}

/// An account projected by the plan that `requested` resolves to against
/// the canonical account columns.
pub open spec fn projected_account_view(a: AccountView, requested: Seq<Seq<char>>) -> AccountView {
    AccountView {
        id: if keeps_column(account_field_names(), requested, "id"@) {
            a.id
        } else {
            0
        },
        username: if keeps_column(account_field_names(), requested, "username"@) {
            a.username
        } else {
            Seq::empty()
        },
        salt: if keeps_column(account_field_names(), requested, "salt"@) {
            a.salt
        } else {
            Seq::empty()
        },
        verifier: if keeps_column(account_field_names(), requested, "verifier"@) {
            a.verifier
        } else {
            Seq::empty()
        },
        session_key: if keeps_column(account_field_names(), requested, "session_key"@) {
            a.session_key
        } else {
            Option::None
        },
        totp_secret: if keeps_column(account_field_names(), requested, "totp_secret"@) {
            a.totp_secret
        } else {
            Option::None
        },
        email: if keeps_column(account_field_names(), requested, "email"@) {
            a.email
        } else {
            Seq::empty()
        },
        reg_mail: if keeps_column(account_field_names(), requested, "reg_mail"@) {
            a.reg_mail
        } else {
            Seq::empty()
        },
        joindate: if keeps_column(account_field_names(), requested, "joindate"@) {
            a.joindate
        } else {
            0
        },
        last_ip: if keeps_column(account_field_names(), requested, "last_ip"@) {
            a.last_ip
        } else {
            Seq::empty()
        },
        last_attempt_ip: if keeps_column(account_field_names(), requested, "last_attempt_ip"@) {
            a.last_attempt_ip
        } else {
            Seq::empty()
        },
        failed_logins: if keeps_column(account_field_names(), requested, "failed_logins"@) {
            a.failed_logins
        } else {
            0
        },
        locked: if keeps_column(account_field_names(), requested, "locked"@) {
            a.locked
        } else {
            0
        },
        lock_country: if keeps_column(account_field_names(), requested, "lock_country"@) {
            a.lock_country
        } else {
            Seq::empty()
        },
        last_login: if keeps_column(account_field_names(), requested, "last_login"@) {
            a.last_login
        } else {
            Option::None
        },
        online: if keeps_column(account_field_names(), requested, "online"@) {
            a.online
        } else {
            0
        },
        expansion: if keeps_column(account_field_names(), requested, "expansion"@) {
            a.expansion
        } else {
            0
        },
        mutetime: if keeps_column(account_field_names(), requested, "mutetime"@) {
            a.mutetime
        } else {
            0
        },
        mutereason: if keeps_column(account_field_names(), requested, "mutereason"@) {
            a.mutereason
        } else {
            Seq::empty()
        },
        muteby: if keeps_column(account_field_names(), requested, "muteby"@) {
            a.muteby
        } else {
            Seq::empty()
        },
        locale: if keeps_column(account_field_names(), requested, "locale"@) {
            a.locale
        } else {
            0
        },
        os: if keeps_column(account_field_names(), requested, "os"@) {
            a.os
        } else {
            Seq::empty()
        },
        recruiter: if keeps_column(account_field_names(), requested, "recruiter"@) {
            a.recruiter
        } else {
            0
        },
        totaltime: if keeps_column(account_field_names(), requested, "totaltime"@) {
            a.totaltime
        } else {
            0
        },
    }
}

/// A plan that keeps exactly the columns `requested` resolves to projects
/// an account the same way the request itself does.
pub proof fn lemma_project_account_by_plan(a: AccountView, p: &Projection, requested: Seq<Seq<char>>)
    requires
        forall|name: Seq<char>| #[trigger] includes_column(p, name) == keeps_column(
            account_field_names(),
            requested,
            name,
        ),
    ensures
        project_account_view(a, p) == projected_account_view(a, requested),
{
    assert(includes_column(p, "id"@) == keeps_column(account_field_names(), requested, "id"@));
    assert(includes_column(p, "username"@) == keeps_column(account_field_names(), requested, "username"@));
    assert(includes_column(p, "salt"@) == keeps_column(account_field_names(), requested, "salt"@));
    assert(includes_column(p, "verifier"@) == keeps_column(account_field_names(), requested, "verifier"@));
    assert(includes_column(p, "session_key"@) == keeps_column(account_field_names(), requested, "session_key"@));
    assert(includes_column(p, "totp_secret"@) == keeps_column(account_field_names(), requested, "totp_secret"@));
    assert(includes_column(p, "email"@) == keeps_column(account_field_names(), requested, "email"@));
    assert(includes_column(p, "reg_mail"@) == keeps_column(account_field_names(), requested, "reg_mail"@));
    assert(includes_column(p, "joindate"@) == keeps_column(account_field_names(), requested, "joindate"@));
    assert(includes_column(p, "last_ip"@) == keeps_column(account_field_names(), requested, "last_ip"@));
    assert(includes_column(p, "last_attempt_ip"@) == keeps_column(account_field_names(), requested, "last_attempt_ip"@));
    assert(includes_column(p, "failed_logins"@) == keeps_column(account_field_names(), requested, "failed_logins"@));
    assert(includes_column(p, "locked"@) == keeps_column(account_field_names(), requested, "locked"@));
    assert(includes_column(p, "lock_country"@) == keeps_column(account_field_names(), requested, "lock_country"@));
    assert(includes_column(p, "last_login"@) == keeps_column(account_field_names(), requested, "last_login"@));
    assert(includes_column(p, "online"@) == keeps_column(account_field_names(), requested, "online"@));
    assert(includes_column(p, "expansion"@) == keeps_column(account_field_names(), requested, "expansion"@));
    assert(includes_column(p, "mutetime"@) == keeps_column(account_field_names(), requested, "mutetime"@));
    assert(includes_column(p, "mutereason"@) == keeps_column(account_field_names(), requested, "mutereason"@));
    assert(includes_column(p, "muteby"@) == keeps_column(account_field_names(), requested, "muteby"@));
    assert(includes_column(p, "locale"@) == keeps_column(account_field_names(), requested, "locale"@));
    assert(includes_column(p, "os"@) == keeps_column(account_field_names(), requested, "os"@));
    assert(includes_column(p, "recruiter"@) == keeps_column(account_field_names(), requested, "recruiter"@));
    assert(includes_column(p, "totaltime"@) == keeps_column(account_field_names(), requested, "totaltime"@));
}

impl Account {
    /// This account projected to the columns the plan keeps.
    pub fn project(&self, p: &Projection) -> (r: Account)
        ensures
            r@ == project_account_view(self@, p),
    {
        Account {
            id: if projection_includes(p, "id") {
                self.id
            } else {
                0
            },
            username: if projection_includes(p, "username") {
                self.username.clone()
            } else {
                String::new()
            },
            salt: if projection_includes(p, "salt") {
                clone_bytes(&self.salt)
            } else {
                Vec::new()
            },
            verifier: if projection_includes(p, "verifier") {
                clone_bytes(&self.verifier)
            } else {
                Vec::new()
            },
            session_key: if projection_includes(p, "session_key") {
                clone_opt_bytes(&self.session_key)
            } else {
                Option::None
            },
            totp_secret: if projection_includes(p, "totp_secret") {
                clone_opt_bytes(&self.totp_secret)
            } else {
                Option::None
            },
            email: if projection_includes(p, "email") {
                self.email.clone()
            } else {
                String::new()
            },
            reg_mail: if projection_includes(p, "reg_mail") {
                self.reg_mail.clone()
            } else {
                String::new()
            },
            joindate: if projection_includes(p, "joindate") {
                self.joindate
            } else {
                0
            },
            last_ip: if projection_includes(p, "last_ip") {
                self.last_ip.clone()
            } else {
                String::new()
            },
            last_attempt_ip: if projection_includes(p, "last_attempt_ip") {
                self.last_attempt_ip.clone()
            } else {
                String::new()
            },
            failed_logins: if projection_includes(p, "failed_logins") {
                self.failed_logins
            } else {
                0
            },
            locked: if projection_includes(p, "locked") {
                self.locked
            } else {
                0
            },
            lock_country: if projection_includes(p, "lock_country") {
                self.lock_country.clone()
            } else {
                String::new()
            },
            last_login: if projection_includes(p, "last_login") {
                self.last_login
            } else {
                Option::None
            },
            online: if projection_includes(p, "online") {
                self.online
            } else {
                0
            },
            expansion: if projection_includes(p, "expansion") {
                self.expansion
            } else {
                0
            },
            mutetime: if projection_includes(p, "mutetime") {
                self.mutetime
            } else {
                0
            },
            mutereason: if projection_includes(p, "mutereason") {
                self.mutereason.clone()
            } else {
                String::new()
            },
            muteby: if projection_includes(p, "muteby") {
                self.muteby.clone()
            } else {
                String::new()
            },
            locale: if projection_includes(p, "locale") {
                self.locale
            } else {
                0
            },
            os: if projection_includes(p, "os") {
                self.os.clone()
            } else {
                String::new()
            },
            recruiter: if projection_includes(p, "recruiter") {
                self.recruiter
            } else {
                0
            },
            totaltime: if projection_includes(p, "totaltime") {
                self.totaltime
            } else {
                0
            },
        }
    }

    /// An identical copy of this record; the caller's copy is independent
    /// of stored state.
    pub fn duplicate(&self) -> (r: Account)
        ensures
            r@ == self@,
    {
        Account {
            id: self.id,
            username: self.username.clone(),
            salt: clone_bytes(&self.salt),
            verifier: clone_bytes(&self.verifier),
            session_key: clone_opt_bytes(&self.session_key),
            totp_secret: clone_opt_bytes(&self.totp_secret),
            email: self.email.clone(),
            reg_mail: self.reg_mail.clone(),
            joindate: self.joindate,
            last_ip: self.last_ip.clone(),
            last_attempt_ip: self.last_attempt_ip.clone(),
            failed_logins: self.failed_logins,
            locked: self.locked,
            lock_country: self.lock_country.clone(),
            last_login: self.last_login,
            online: self.online,
            expansion: self.expansion,
            mutetime: self.mutetime,
            mutereason: self.mutereason.clone(),
            muteby: self.muteby.clone(),
            locale: self.locale,
            os: self.os.clone(),
            recruiter: self.recruiter,
            totaltime: self.totaltime,
        }
    }
}

impl Default for Account {
    /// A not-yet-persisted in-memory account: every attribute at its
    /// default, salt and verifier both empty.
    fn default() -> (r: Account)
        ensures
            r@ == default_account_view(),
    {
        Account {
            id: 0,
            username: String::new(),
            salt: Vec::new(),
            verifier: Vec::new(),
            session_key: Option::None,
            totp_secret: Option::None,
            email: String::new(),
            reg_mail: String::new(),
            joindate: 0,
            last_ip: String::new(),
            last_attempt_ip: String::new(),
            failed_logins: 0,
            locked: 0,
            lock_country: String::new(),
            last_login: Option::None,
            online: 0,
            expansion: 0,
            mutetime: 0,
            mutereason: String::new(),
            muteby: String::new(),
            locale: 0,
            os: String::new(),
            recruiter: 0,
            totaltime: 0,
        }
    }
}

} // verus!
