//! The identity table: zone identifier to identity record.
//!
//! The table is read by every worker start and written by the discovery
//! side. Readers share it through `&IdentityTable` and the single writer
//! needs `&mut IdentityTable`, so the borrow discipline itself keeps
//! concurrent readers safe from a torn record: callers that span threads
//! put the table behind a reader-writer lock and hand out those borrows.

use vstd::prelude::*;

use std::collections::HashMap;

verus! {

broadcast use vstd::std_specs::hash::group_hash_axioms;

/// The identifier of a monitored zone.
pub type Zonedid = u32;

/// The identity metadata of one zone: the stable instance id, the owning
/// tenant (which determines the log path), and the optional display alias.
pub struct IdentityRecord {
    pub uuid: String,
    pub owner_uuid: String,
    pub alias: Option<String>,
}

/// The alias characters a record yields: the alias when set, empty when not.
pub open spec fn alias_chars(alias: Option<String>) -> Seq<char> {
    match alias {
        Some(a) => a@,
        None => Seq::empty(),
    }
}

impl IdentityRecord {
    /// The alias to log for this record: the display alias when one is
    /// set, the empty string when none is.
    pub fn alias_or_empty(&self) -> (r: String)
        ensures
            r@ == alias_chars(self.alias),
    {
        match &self.alias {
            Some(a) => a.clone(),
            None => String::new(),
        }
    }
}

/// The mapping from zone identifier to identity record.
pub struct IdentityTable {
    map: HashMap<Zonedid, IdentityRecord>,
}

impl View for IdentityTable {
    type V = Map<Zonedid, IdentityRecord>;

    closed spec fn view(&self) -> Map<Zonedid, IdentityRecord> {
        self.map@
    }
}

impl IdentityTable {
    /// An empty table.
    pub fn new() -> (t: Self)
        ensures
            t@ == Map::<Zonedid, IdentityRecord>::empty(),
    {
        IdentityTable { map: HashMap::new() }
    }

    /// Publishes the record for a zone, replacing any earlier one. This is
    /// the discovery side's write: it takes the table exclusively, so no
    /// reader ever sees a partial record.
    pub fn update(&mut self, zonedid: Zonedid, record: IdentityRecord)
        ensures
            final(self)@ == old(self)@.insert(zonedid, record),
    {
        self.map.insert(zonedid, record);
    }

    /// Looks up the record for a zone: the full record when the zone is
    /// known, nothing when it is not.
    pub fn lookup(&self, zonedid: Zonedid) -> (r: Option<&IdentityRecord>)
        ensures
            match r {
                Some(record) => self@.contains_key(zonedid) && *record == self@[zonedid],
                None => !self@.contains_key(zonedid),
            },
    {
        self.map.get(&zonedid)
    }

    /// Whether the table has a record for the zone.
    pub fn contains(&self, zonedid: Zonedid) -> (r: bool)
        ensures
            r == self@.contains_key(zonedid),
    {
        self.map.contains_key(&zonedid)
    }
}

} // verus!
