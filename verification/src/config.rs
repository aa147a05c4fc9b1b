use vstd::prelude::*;
use vstd::string::*;

verus! {

/// The database engines the client can talk to.
#[derive(Clone, Copy, Debug, PartialEq, Eq, Structural)]
pub enum Dialect {
    Mysql,
    Postgresql,
    Sqlite,
}

/// How a connection reaches its database.
#[derive(Clone, Copy, Debug, PartialEq, Eq, Structural)]
pub enum Mode {
    Network,
    Socket,
    File,
}

/// One credential: a key such as `host` or `ssl_mode`, and its value.
#[derive(Clone, Debug, PartialEq, Eq)]
pub struct Credential {
    pub key: String,
    pub value: String,
}

/// What the user entered for one connection. Where a key occurs more than
/// once among the credentials, the first occurrence counts.
#[derive(Clone, Debug, PartialEq, Eq)]
pub struct ConnectionConfig {
    pub id: String,
    pub dialect: Dialect,
    pub mode: Mode,
    pub credentials: Vec<Credential>,
}

/// The value stored under `key` in a list of credentials.
pub open spec fn lookup(creds: Seq<Credential>, key: Seq<char>) -> Option<Seq<char>>
    decreases creds.len(),
{
    if creds.len() == 0 {
        None
    } else if creds[0].key@ == key {
        Some(creds[0].value@)
    } else {
        lookup(creds.drop_first(), key)
    }
}

/// The text of an optional string.
pub open spec fn text_of(value: Option<String>) -> Option<Seq<char>> {
    match value {
        Some(s) => Some(s@),
        None => None,
    }
}

impl Dialect {
    /// The dialect's lower-case name, as the SQL parser knows it.
    pub open spec fn name_text(&self) -> Seq<char> {
        match self {
            Dialect::Mysql => "mysql"@,
            Dialect::Postgresql => "postgresql"@,
            Dialect::Sqlite => "sqlite"@,
        }
    }

    pub fn name(&self) -> (text: &'static str)
        ensures
            text@ == self.name_text(),
    {
        match self {
            Dialect::Mysql => "mysql",
            Dialect::Postgresql => "postgresql",
            Dialect::Sqlite => "sqlite",
        }
    }
}

impl Credential {
    pub fn new(key: &str, value: &str) -> (c: Credential)
        ensures
            c.key@ == key@,
            c.value@ == value@,
    {
        Credential { key: String::from_str(key), value: String::from_str(value) }
    }

    /// A copy with the same key and value.
    pub fn duplicate(&self) -> (c: Credential)
        ensures
            c.key@ == self.key@,
            c.value@ == self.value@,
    {
        Credential { key: self.key.clone(), value: self.value.clone() }
    }
}

impl ConnectionConfig {
    /// The value of a credential, by the model of `lookup`.
    pub open spec fn credential(&self, key: Seq<char>) -> Option<Seq<char>> {
        lookup(self.credentials@, key)
    }

    /// The value of a credential, empty where the key is absent.
    pub open spec fn credential_or_empty(&self, key: Seq<char>) -> Seq<char> {
        match self.credential(key) {
            Some(v) => v,
            None => Seq::<char>::empty(),
        }
    }

    /// A credential is set when it is present and not empty.
    pub open spec fn is_set(&self, key: Seq<char>) -> bool {
        self.credential_or_empty(key).len() > 0
    }

    /// Looks a credential up by its key.
    pub fn get(&self, key: &str) -> (value: Option<String>)
        ensures
            text_of(value) == self.credential(key@),
    {
        let wanted = String::from_str(key);
        let mut i: usize = 0;
        assert(self.credentials@.skip(0) =~= self.credentials@);
        while i < self.credentials.len()
            invariant
                i <= self.credentials.len(),
                wanted@ == key@,
                lookup(self.credentials@, key@) == lookup(self.credentials@.skip(i as int), key@),
            decreases self.credentials.len() - i,
        {
            let ghost rest = self.credentials@.skip(i as int);
            assert(rest[0] == self.credentials@[i as int]);
            assert(rest.drop_first() =~= self.credentials@.skip(i + 1));
            if self.credentials[i].key == wanted {
                return Some(self.credentials[i].value.clone());
            }
            i = i + 1;
        }
        None
    }

    /// Looks a credential up by its key; an absent one reads as empty.
    pub fn get_or_empty(&self, key: &str) -> (value: String)
        ensures
            value@ == self.credential_or_empty(key@),
    {
        match self.get(key) {
            Some(v) => v,
            None => String::new(),
        }
    }

    /// A copy with the same identifier, dialect, mode and credentials.
    pub fn duplicate(&self) -> (c: ConnectionConfig)
        ensures
            c.same_as(self),
    {
        let mut credentials: Vec<Credential> = Vec::new();
        let mut i: usize = 0;
        while i < self.credentials.len()
            invariant
                i <= self.credentials.len(),
                credentials@.len() == i,
                forall|k: int|
                    0 <= k < i ==> credentials@[k].key@ == self.credentials@[k].key@
                        && credentials@[k].value@ == self.credentials@[k].value@,
            decreases self.credentials.len() - i,
        {
            credentials.push(self.credentials[i].duplicate());
            i = i + 1;
        }
        ConnectionConfig {
            id: self.id.clone(),
            dialect: self.dialect,
            mode: self.mode,
            credentials,
        }
    }

    /// Two configurations that agree in every field, text by text.
    pub open spec fn same_as(&self, other: &ConnectionConfig) -> bool {
        &&& self.id@ == other.id@
        &&& self.dialect == other.dialect
        &&& self.mode == other.mode
        &&& self.credentials@.len() == other.credentials@.len()
        &&& forall|k: int|
            0 <= k < self.credentials@.len() ==> self.credentials@[k].key@
                == other.credentials@[k].key@ && self.credentials@[k].value@
                == other.credentials@[k].value@
    }
}

} // verus!
