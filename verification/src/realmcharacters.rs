//! Per-realm character summaries: the denormalized join of a realm's display
//! name with an account's character count on that realm.

use vstd::prelude::*;
use vstd::string::*;

verus! {

/// One (realm, account) character-count row, with the realm's display name
/// resolved by join.
#[derive(Debug)]
pub struct RealmCharacter {
    realmid: u64,
    acctid: u64,
    numchars: u8,
    realmname: String,
}

/// The mathematical value of a `RealmCharacter` row.
pub struct RealmCharacterView {
    pub realmid: u64,
    pub acctid: u64,
    pub numchars: u8,
    pub realmname: Seq<char>,
}

impl View for RealmCharacter {
    type V = RealmCharacterView;

    closed spec fn view(&self) -> RealmCharacterView {
        RealmCharacterView {
            realmid: self.realmid,
            acctid: self.acctid,
            numchars: self.numchars,
            realmname: self.realmname@,
        }
    }
}

impl RealmCharacter {
    /// Assemble a summary row, as the storage layer would from a joined row.
    pub fn new(realmid: u64, acctid: u64, numchars: u8, realmname: String) -> (r: RealmCharacter)
        ensures
            r@ == (RealmCharacterView { realmid, acctid, numchars, realmname: realmname@ }),
    {
        RealmCharacter { realmid, acctid, numchars, realmname }
    }

    pub fn realmid(&self) -> (r: u64)
        ensures
            r == self@.realmid,
    {
        self.realmid
    }

    pub fn acctid(&self) -> (r: u64)
        ensures
            r == self@.acctid,
    {
        self.acctid
    }

    pub fn numchars(&self) -> (r: u8)
        ensures
            r == self@.numchars,
    {
        self.numchars
    }

    pub fn realmname(&self) -> (r: String)
        ensures
            r@ == self@.realmname,
    {
        self.realmname.clone()
    }

    /// An identical copy of this row.
    pub fn duplicate(&self) -> (r: RealmCharacter)
        ensures
            r@ == self@,
    {
        RealmCharacter {
            realmid: self.realmid,
            acctid: self.acctid,
            numchars: self.numchars,
            realmname: self.realmname.clone(),
        }
    }
}

} // verus!
