//! The values the service stores, accepts and hands out.
use vstd::prelude::*;

verus! {

/// Text of an optional string, as seen by contracts.
pub open spec fn opt_text(o: Option<String>) -> Option<Seq<char>> {
    match o {
        Some(s) => Some(s@),
        None => None,
    }
}

/// Number of nanoseconds in one second.
pub const NANOS_PER_SEC: u32 = 1_000_000_000;

/// A point in time, as seconds since the Unix epoch and a sub-second part.
#[derive(Clone, Copy, Debug, PartialEq, Eq, Structural)]
pub struct Timestamp {
    pub secs: i64,
    pub nanos: u32,
}

impl Timestamp {
    pub open spec fn wf(&self) -> bool {
        self.nanos < NANOS_PER_SEC
    }

    /// Builds a timestamp; `None` when the sub-second part is a whole second
    /// or more.
    pub fn new(secs: i64, nanos: u32) -> (r: Option<Timestamp>)
        ensures
            nanos < NANOS_PER_SEC <==> r is Some,
            r is Some ==> r->Some_0 == (Timestamp { secs, nanos }) && r->Some_0.wf(),
    {
        if nanos < NANOS_PER_SEC {
            Some(Timestamp { secs, nanos })
        } else {
            None
        }
    }
}

/// A stored item: its id and creation time are given by the storage.
pub struct Item {
    pub id: i32,
    pub name: String,
    pub description: Option<String>,
    pub created_at: Timestamp,
}

impl Item {
    pub open spec fn wf(&self) -> bool {
        self.created_at.wf()
    }

    pub fn new(id: i32, name: String, description: Option<String>, created_at: Timestamp) -> (r:
        Item)
        requires
            created_at.wf(),
        ensures
            r == (Item { id, name, description, created_at }),
            r.wf(),
    {
        Item { id, name, description, created_at }
    }
}

/// The body of a request that creates an item.
pub struct PostItem {
    name: String,
    description: Option<String>,
}

impl PostItem {
    pub closed spec fn name(&self) -> Seq<char> {
        self.name@
    }

    pub closed spec fn description(&self) -> Option<Seq<char>> {
        opt_text(self.description)
    }

    pub fn new(name: String, description: Option<String>) -> (r: PostItem)
        ensures
            r.name() == name@,
            r.description() == opt_text(description),
    {
        PostItem { name, description }
    }

    pub fn get_name(&self) -> (r: &str)
        ensures
            r@ == self.name(),
    {
        self.name.as_str()
    }

    pub fn get_description(&self) -> (r: &Option<String>)
        ensures
            opt_text(*r) == self.description(),
    {
        &self.description
    }
}

/// The body of the reply to a successful insert: the generated id.
#[derive(Clone, Copy, Debug, PartialEq, Eq, Structural)]
pub struct InsertedItem {
    pub id: i32,
}

/// The payload of a signed token: a subject and an expiry in epoch seconds.
pub struct Claim {
    pub sub: String,
    pub exp: u64,
}

} // verus!
