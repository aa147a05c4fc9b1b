use vstd::prelude::*;
use vstd::string::*;
use crate::config::ConnectionConfig;
use crate::error::Error;

verus! {

/// One initiated connection: its configuration, the handle of its live
/// pool, and the schema used where a statement names none.
pub struct InitiatedConnection<H> {
    pub config: ConnectionConfig,
    pub pool: H,
    pub schema: String,
}

/// The initiated connections, one per identifier. `H` is the handle of a
/// live pool; the registry stores it and never looks inside.
pub struct ConnectionRegistry<H> {
    entries: Vec<InitiatedConnection<H>>,
}

/// The first position in a list of connections that holds an identifier.
pub open spec fn position<H>(entries: Seq<InitiatedConnection<H>>, id: Seq<char>) -> Option<int>
    decreases entries.len(),
{
    if entries.len() == 0 {
        None
    } else if entries[0].config.id@ == id {
        Some(0)
    } else {
        match position(entries.drop_first(), id) {
            Some(k) => Some(k + 1),
            None => None,
        }
    }
}

/// What `position` means: the place it names holds the identifier and no
/// earlier one does; where it names none, no place holds it.
pub proof fn position_properties<H>(entries: Seq<InitiatedConnection<H>>, id: Seq<char>)
    ensures
        match position(entries, id) {
            Some(k) => 0 <= k < entries.len() && entries[k].config.id@ == id && forall|j: int|
                0 <= j < k ==> entries[j].config.id@ != id,
            None => forall|j: int| 0 <= j < entries.len() ==> entries[j].config.id@ != id,
        },
    decreases entries.len(),
{
    if entries.len() > 0 && entries[0].config.id@ != id {
        let rest = entries.drop_first();
        position_properties(rest, id);
        match position(rest, id) {
            Some(k) => {
                assert forall|j: int| 0 <= j < k + 1 implies entries[j].config.id@ != id by {
                    if j > 0 {
                        assert(rest[j - 1] == entries[j]);
                    }
                }
                assert(rest[k] == entries[k + 1]);
            },
            None => {
                assert forall|j: int| 0 <= j < entries.len() implies entries[j].config.id@
                    != id by {
                    if j > 0 {
                        assert(rest[j - 1] == entries[j]);
                    }
                }
            },
        }
    }
}

/// Whether no identifier is held twice.
pub open spec fn unique_ids<H>(entries: Seq<InitiatedConnection<H>>) -> bool {
    forall|i: int, j: int|
        0 <= i < j < entries.len() ==> entries[i].config.id@ != entries[j].config.id@
}

impl<H> View for ConnectionRegistry<H> {
    type V = Seq<InitiatedConnection<H>>;

    closed spec fn view(&self) -> Seq<InitiatedConnection<H>> {
        self.entries@
    }
}

impl<H> ConnectionRegistry<H> {
    /// The registry's invariant: an identifier maps to at most one
    /// connection.
    pub open spec fn wf(&self) -> bool {
        unique_ids(self@)
    }

    /// Whether a connection is stored under an identifier.
    pub open spec fn holds(&self, id: Seq<char>) -> bool {
        position(self@, id) is Some
    }

    /// A registry without connections.
    pub fn new() -> (r: Self)
        ensures
            r@.len() == 0,
            r.wf(),
    {
        ConnectionRegistry { entries: Vec::new() }
    }

    /// The number of connections stored.
    pub fn len(&self) -> (n: usize)
        ensures
            n == self@.len(),
    {
        self.entries.len()
    }

    fn find(&self, id: &str) -> (found: Option<usize>)
        ensures
            match found {
                Some(k) => position(self@, id@) == Some(k as int),
                None => position(self@, id@) is None,
            },
    {
        let wanted = String::from_str(id);
        let mut i: usize = 0;
        while i < self.entries.len()
            invariant
                i <= self.entries@.len(),
                wanted@ == id@,
                forall|j: int| 0 <= j < i ==> self.entries@[j].config.id@ != id@,
            decreases self.entries@.len() - i,
        {
            if self.entries[i].config.id == wanted {
                proof {
                    position_properties(self@, id@);
                    assert(self@[i as int].config.id@ == id@);
                }
                return Some(i);
            }
            i = i + 1;
        }
        proof {
            position_properties(self@, id@);
        }
        None
    }

    /// Stores an initiated connection under its configuration's identifier
    /// and returns that identifier. A connection already stored under it is
    /// replaced, so that the identifier never maps to two pools.
    pub fn add(&mut self, conn: InitiatedConnection<H>) -> (id: String)
        requires
            old(self).wf(),
        ensures
            final(self).wf(),
            id@ == conn.config.id@,
            final(self).holds(conn.config.id@),
            final(self)@ == (match position(old(self)@, conn.config.id@) {
                Some(k) => old(self)@.update(k, conn),
                None => old(self)@.push(conn),
            }),
    {
        let id = conn.config.id.clone();
        let ghost before = self@;
        proof {
            position_properties(before, id@);
        }
        match self.find(id.as_str()) {
            Some(k) => {
                self.entries.set(k, conn);
            },
            None => {
                self.entries.push(conn);
            },
        }
        proof {
            position_properties(self@, id@);
            match position(before, id@) {
                Some(k) => {
                    assert(self@[k].config.id@ == id@);
                },
                None => {
                    assert(self@[before.len() as int].config.id@ == id@);
                },
            }
        }
        id
    }

    /// Looks up the connection stored under an identifier.
    pub fn get(&self, id: &str) -> (res: Result<&InitiatedConnection<H>, Error>)
        ensures
            match res {
                Ok(conn) => position(self@, id@) is Some && *conn == self@[position(
                    self@,
                    id@,
                )->0] && conn.config.id@ == id@,
                Err(e) => !self.holds(id@) && e == Error::ConnectionNotFound,
            },
    {
        proof {
            position_properties(self@, id@);
        }
        match self.find(id) {
            Some(k) => Ok(&self.entries[k]),
            None => Err(Error::ConnectionNotFound),
        }
    }

    /// Drops the connection stored under an identifier, if there is one,
    /// and hands it back; every other connection stays as it was.
    pub fn remove(&mut self, id: &str) -> (removed: Option<InitiatedConnection<H>>)
        requires
            old(self).wf(),
        ensures
            final(self).wf(),
            !final(self).holds(id@),
            match position(old(self)@, id@) {
                Some(k) => final(self)@ == old(self)@.remove(k) && removed == Some(old(self)@[k]),
                None => final(self)@ == old(self)@ && removed is None,
            },
    {
        let ghost before = self@;
        proof {
            position_properties(before, id@);
        }
        match self.find(id) {
            Some(k) => {
                let conn = self.entries.remove(k);
                proof {
                    position_properties(self@, id@);
                    assert forall|j: int| 0 <= j < self@.len() implies self@[j].config.id@
                        != id@ by {
                        if j < k {
                            assert(self@[j] == before[j]);
                        } else {
                            assert(self@[j] == before[j + 1]);
                        }
                    }
                }
                Some(conn)
            },
            None => None,
        }
    }

    /// The configurations of the stored connections, in the order in which
    /// their identifiers were first added. They hold credentials: callers
    /// treat them as sensitive.
    pub fn list(&self) -> (configs: Vec<ConnectionConfig>)
        ensures
            configs@.len() == self@.len(),
            forall|k: int| 0 <= k < configs@.len() ==> configs@[k].same_as(&self@[k].config),
    {
        let mut configs: Vec<ConnectionConfig> = Vec::new();
        let mut i: usize = 0;
        while i < self.entries.len()
            invariant
                i <= self.entries@.len(),
                configs@.len() == i,
                forall|k: int| 0 <= k < i ==> configs@[k].same_as(&self.entries@[k].config),
            decreases self.entries@.len() - i,
        {
            configs.push(self.entries[i].config.duplicate());
            i = i + 1;
        }
        configs
    }
}

/// Removing twice is removing once: a registry that does not hold an
/// identifier is left as it is by its removal.
pub proof fn removal_is_idempotent<H>(entries: Seq<InitiatedConnection<H>>, id: Seq<char>)
    requires
        unique_ids(entries),
    ensures
        match position(entries, id) {
            Some(k) => position(entries.remove(k), id) is None,
            None => true,
        },
{
    position_properties(entries, id);
    match position(entries, id) {
        Some(k) => {
            let after = entries.remove(k);
            position_properties(after, id);
            if position(after, id) is Some {
                let j = position(after, id)->0;
                if j < k {
                    assert(after[j] == entries[j]);
                } else {
                    assert(after[j] == entries[j + 1]);
                }
            }
        },
        None => {},
    }
}

} // verus!
