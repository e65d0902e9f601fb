//! Privilege grants: a record asserting an elevated permission level for one
//! account, optionally scoped to one realm.

use crate::planner::{includes_column, keeps_column, projection_includes, views_of, Projection};
use vstd::prelude::*;
use vstd::string::*;

verus! {

/// The value of an `Option<String>`, as an optional character sequence.
pub open spec fn opt_str_view(o: Option<String>) -> Option<Seq<char>> {
    match o {
        Option::Some(s) => Option::Some(s@),
        Option::None => Option::None,
    }
}

/// Copy an optional string.
pub fn clone_opt_string(o: &Option<String>) -> (r: Option<String>)
    ensures
        opt_str_view(r) == opt_str_view(*o),
{
    match o {
        Option::Some(s) => Option::Some(s.clone()),
        Option::None => Option::None,
    }
}

/// A privilege grant.  `id` is the owning account's id; `gmlevel` is the
/// ordinal privilege level; `realmid` scopes the grant to one realm, with a
/// negative sentinel meaning every realm.
#[derive(Debug)]
pub struct Access {
    id: u64,
    gmlevel: u8,
    realmid: i32,
    comment: Option<String>,
}

/// The mathematical value of an `Access` record.
pub struct AccessView {
    pub id: u64,
    pub gmlevel: u8,
    pub realmid: i32,
    pub comment: Option<Seq<char>>,
}

impl View for Access {
    type V = AccessView;

    closed spec fn view(&self) -> AccessView {
        AccessView {
            id: self.id,
            gmlevel: self.gmlevel,
            realmid: self.realmid,
            comment: opt_str_view(self.comment),
        }
    }
}

/// The declared attribute names of a grant, in canonical column order.
pub open spec fn access_field_names() -> Seq<Seq<char>> {
    seq!["id"@, "gmlevel"@, "realmid"@, "comment"@]
}

/// The canonical column list for grants, as strings.
pub fn access_fields() -> (r: Vec<String>)
    ensures
        views_of(r@) == access_field_names(),
{
    let mut v: Vec<String> = Vec::new();
    v.push("id".to_owned());
    v.push("gmlevel".to_owned());
    v.push("realmid".to_owned());
    v.push("comment".to_owned());
    proof {
        assert(views_of(v@) =~= access_field_names());
    }
    v
}

/// A grant projected to the columns a plan keeps: a kept attribute holds the
/// record's value, a dropped one its default.
pub open spec fn project_access_view(a: AccessView, p: &Projection) -> AccessView {
    AccessView {
        id: if includes_column(p, "id"@) {
            a.id
        } else {
            0
        },
        gmlevel: if includes_column(p, "gmlevel"@) {
            a.gmlevel
        } else {
            0
        },
        realmid: if includes_column(p, "realmid"@) {
            a.realmid
        } else {
            0
        },
        comment: if includes_column(p, "comment"@) {
            a.comment
        } else {
            Option::None
        },
    }
}

/// A grant projected by the plan that `requested` resolves to against the
/// canonical grant columns.
pub open spec fn projected_access_view(a: AccessView, requested: Seq<Seq<char>>) -> AccessView {
    AccessView {
        id: if keeps_column(access_field_names(), requested, "id"@) {
            a.id
        } else {
            0
        },
        gmlevel: if keeps_column(access_field_names(), requested, "gmlevel"@) {
            a.gmlevel
        } else {
            0
        },
        realmid: if keeps_column(access_field_names(), requested, "realmid"@) {
            a.realmid
        } else {
            0
        },
        comment: if keeps_column(access_field_names(), requested, "comment"@) {
            a.comment
        } else {
            Option::None
        },
    }
}

/// A plan that keeps exactly the columns `requested` resolves to projects
/// a grant the same way the request itself does.
pub proof fn lemma_project_access_by_plan(a: AccessView, p: &Projection, requested: Seq<Seq<char>>)
    requires
        forall|name: Seq<char>| #[trigger] includes_column(p, name) == keeps_column(
            access_field_names(),
            requested,
            name,
        ),
    ensures
        project_access_view(a, p) == projected_access_view(a, requested),
{
    assert(includes_column(p, "id"@) == keeps_column(access_field_names(), requested, "id"@));
    assert(includes_column(p, "gmlevel"@) == keeps_column(access_field_names(), requested, "gmlevel"@));
    assert(includes_column(p, "realmid"@) == keeps_column(access_field_names(), requested, "realmid"@));
    assert(includes_column(p, "comment"@) == keeps_column(access_field_names(), requested, "comment"@));
}

impl Access {
    /// Assemble a grant record, as the storage layer would from a row.
    pub fn new(id: u64, gmlevel: u8, realmid: i32, comment: Option<String>) -> (r: Access)
        ensures
            r@ == (AccessView { id, gmlevel, realmid, comment: opt_str_view(comment) }),
    {
        Access { id, gmlevel, realmid, comment }
    }

    pub fn id(&self) -> (r: u64)
        ensures
            r == self@.id,
    {
        self.id
    }

    pub fn gmlevel(&self) -> (r: u8)
        ensures
            r == self@.gmlevel,
    {
        self.gmlevel
    }

    pub fn realmid(&self) -> (r: i32)
        ensures
            r == self@.realmid,
    {
        self.realmid
    }

    pub fn comment(&self) -> (r: Option<String>)
        ensures
            opt_str_view(r) == self@.comment,
    {
        clone_opt_string(&self.comment)
    }

    /// This grant projected to the columns the plan keeps.
    pub fn project(&self, p: &Projection) -> (r: Access)
        ensures
            r@ == project_access_view(self@, p),
    {
        Access {
            id: if projection_includes(p, "id") {
                self.id
            } else {
                0
            },
            gmlevel: if projection_includes(p, "gmlevel") {
                self.gmlevel
            } else {
                0
            },
            realmid: if projection_includes(p, "realmid") {
                self.realmid
            } else {
                0
            },
            comment: if projection_includes(p, "comment") {
                clone_opt_string(&self.comment)
            } else {
                Option::None
            },
        }
    }
}

} // verus!
