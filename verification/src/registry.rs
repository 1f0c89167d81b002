//! The databases that are connected, and the one among them that queries
//! go to. The connections themselves are kept outside, under the same
//! names.

use crate::controller::{Catalog, CatalogModel};
use crate::names::{lemma_first_index, lemma_no_index, Name};
use crate::schema::{DatabaseInfo, TableInfo};
use crate::strings::same_text;
use vstd::prelude::*;
use vstd::string::*;

verus! {

/// Why the registry turns a request down.
#[derive(Debug, Clone, PartialEq, Eq)]
pub enum RegistryError {
    /// No database of this name is connected.
    NotFound(String),
    /// A database of this name is connected already.
    AlreadyConnected(String),
}

/// The registry of connected databases.
#[derive(Debug, Clone)]
pub struct DatabaseRegistry {
    pub databases: Vec<DatabaseInfo>,
    pub current_database: Option<String>,
}

/// The names of the databases, in order.
pub open spec fn database_names(databases: Seq<DatabaseInfo>) -> Seq<Name> {
    databases.map_values(|d: DatabaseInfo| d.name@)
}

/// The names of the tables, in order.
pub open spec fn table_names(tables: Seq<TableInfo>) -> Seq<Name> {
    tables.map_values(|t: TableInfo| t.name@)
}

/// The test that a database has another name than `name`.
pub open spec fn is_not_named(name: Name) -> spec_fn(DatabaseInfo) -> bool {
    |d: DatabaseInfo| d.name@ != name
}

/// The name of a database that is made without being given one: a fixed
/// beginning and the second in which it is made.
pub open spec fn database_name_at(timestamp: int) -> Seq<char> {
    "new_db_"@ + crate::strings::signed_decimal(timestamp)
}

/// The name of a database that is made without being given one, in the
/// second `timestamp` of the calendar.
pub fn database_name_for(timestamp: i64) -> (name: String)
    ensures
        name@ == database_name_at(timestamp as int),
{
    let mut name = "new_db_".to_owned();
    name.append(crate::strings::signed_decimal_text(timestamp).as_str());
    name
}

/// `chrono::Utc::now` and `DateTime::timestamp`: the present second of
/// the calendar, counted from the beginning of 1970. The number depends on
/// the clock, so nothing is claimed of it. `chrono` gives up where the
/// clock of the machine stands before 1970.
#[verifier::external_body]
pub(crate) fn present_second() -> (second: i64) {
    chrono::Utc::now().timestamp()
}

/// The name of a database that is made now without being given one. Which
/// second the name holds is the clock's to say.
pub fn fresh_database_name() -> (name: String)
    ensures
        exists|second: int|
            i64::MIN <= second <= i64::MAX && name@ == #[trigger] database_name_at(second),
{
    database_name_for(present_second())
}

impl RegistryError {
    /// The error as a sentence.
    pub fn message(&self) -> (text: String)
        ensures
            text@ == match self {
                RegistryError::NotFound(name) => "Database "@ + name@ + " not found"@,
                RegistryError::AlreadyConnected(name) => "Database "@ + name@
                    + " already connected"@,
            },
    {
        let mut text = "Database ".to_owned();
        match self {
            RegistryError::NotFound(name) => {
                text.append(name.as_str());
                text.append(" not found");
            },
            RegistryError::AlreadyConnected(name) => {
                text.append(name.as_str());
                text.append(" already connected");
            },
        }
        text
    }
}

impl DatabaseRegistry {
    /// The name of the current database as contracts see it.
    pub open spec fn current(&self) -> Option<Name> {
        self.current_database.deep_view()
    }

    /// Whether a database of this name is connected.
    pub open spec fn has(&self, name: Name) -> bool {
        database_names(self.databases@).contains(name)
    }

    /// The tables of the current database, those of the first database of
    /// its name; none where no database is current or the current one is
    /// not connected.
    pub open spec fn current_tables(&self) -> Seq<TableInfo> {
        match self.current() {
            Some(name) => match database_names(self.databases@).index_of_first(name) {
                Some(i) => self.databases@[i].tables@,
                None => Seq::empty(),
            },
            None => Seq::empty(),
        }
    }

    /// A registry without databases.
    pub fn new() -> (registry: Self)
        ensures
            registry.databases@.len() == 0,
            registry.current_database is None,
    {
        Self { databases: Vec::new(), current_database: None }
    }

    /// The place of the first database of this name.
    pub fn position(&self, name: &str) -> (found: Option<usize>)
        ensures
            match found {
                Some(i) => i < self.databases@.len() && database_names(
                    self.databases@,
                ).index_of_first(name@) == Some(i as int),
                None => database_names(self.databases@).index_of_first(name@) is None,
            },
            found is Some == self.has(name@),
    {
        proof {
            database_names(self.databases@).index_of_first_ensures(name@);
        }
        let mut i: usize = 0;
        while i < self.databases.len()
            invariant
                i <= self.databases.len(),
                forall|j: int| 0 <= j < i ==> database_names(self.databases@)[j] != name@,
            decreases self.databases.len() - i,
        {
            if same_text(self.databases[i].name.as_str(), name) {
                proof {
                    assert(database_names(self.databases@)[i as int] == name@);
                    lemma_first_index(database_names(self.databases@), name@, i as int);
                }
                return Some(i);
            }
            i += 1;
        }
        proof {
            lemma_no_index(database_names(self.databases@), name@);
        }
        None
    }

    /// Takes a database in, behind those that are connected.
    pub fn add_database(&mut self, info: DatabaseInfo)
        ensures
            final(self).databases@ == old(self).databases@.push(info),
            final(self).current_database == old(self).current_database,
    {
        self.databases.push(info);
    }

    /// Takes the databases of this name out. The current database is
    /// forgotten where it is one of them.
    pub fn remove_database(&mut self, name: &str) -> (done: Result<(), RegistryError>)
        ensures
            match done {
                Ok(_) => old(self).has(name@) && final(self).databases@ == old(
                    self
                ).databases@.filter(is_not_named(name@)) && final(self).current() == if old(
                    self
                ).current() == Some(name@) {
                    None
                } else {
                    old(self).current()
                },
                Err(RegistryError::NotFound(missing)) => !old(self).has(name@) && missing@
                    == name@ && *final(self) == *old(self),
                Err(RegistryError::AlreadyConnected(_)) => false,
            },
    {
        if self.position(name).is_none() {
            return Err(RegistryError::NotFound(name.to_owned()));
        }
        let ghost before = self.databases@;
        let ghost keep = is_not_named(name@);
        let mut i: usize = 0;
        let ghost mut j: int = 0;
        proof {
            reveal(Seq::filter);
            assert(before.take(0).filter(keep) =~= Seq::<DatabaseInfo>::empty());
        }
        while i < self.databases.len()
            invariant
                0 <= i <= self.databases.len(),
                i <= j <= before.len(),
                self.databases.len() - i == before.len() - j,
                self.databases@.take(i as int) == before.take(j).filter(keep),
                self.databases@.skip(i as int) == before.skip(j),
                keep == is_not_named(name@),
                self.current_database == old(self).current_database,
            decreases self.databases.len() - i,
        {
            let ghost current = self.databases@;
            proof {
                assert(current[i as int] == current.skip(i as int)[0]);
                assert(before[j] == before.skip(j)[0]);
                assert(before.take(j + 1) =~= before.take(j).push(before[j]));
                before.take(j).lemma_filter_push(before[j], keep);
            }
            if same_text(self.databases[i].name.as_str(), name) {
                self.databases.remove(i);
                proof {
                    assert(self.databases@.take(i as int) =~= current.take(i as int));
                    assert(self.databases@.skip(i as int) =~= current.skip(i as int).skip(1));
                    assert(before.skip(j + 1) =~= before.skip(j).skip(1));
                }
            } else {
                proof {
                    assert(current.take(i + 1) =~= current.take(i as int).push(current[i as int]));
                    assert(current.skip(i + 1) =~= current.skip(i as int).skip(1));
                    assert(before.skip(j + 1) =~= before.skip(j).skip(1));
                }
                i += 1;
            }
            proof {
                j = j + 1;
            }
        }
        proof {
            assert(self.databases@.take(i as int) =~= self.databases@);
            assert(before.take(j) =~= before);
        }
        let was_current = match &self.current_database {
            Some(current) => same_text(current.as_str(), name),
            None => false,
        };
        if was_current {
            self.current_database = None;
        }
        Ok(())
    }

    /// Makes the database of this name the current one, if it is
    /// connected.
    pub fn set_current_database(&mut self, name: &str) -> (done: Result<(), RegistryError>)
        ensures
            final(self).databases == old(self).databases,
            match done {
                Ok(_) => old(self).has(name@) && final(self).current() == Some(name@),
                Err(RegistryError::NotFound(missing)) => !old(self).has(name@) && missing@
                    == name@ && final(self).current_database == old(self).current_database,
                Err(RegistryError::AlreadyConnected(_)) => false,
            },
    {
        if self.position(name).is_some() {
            self.current_database = Some(name.to_owned());
            Ok(())
        } else {
            Err(RegistryError::NotFound(name.to_owned()))
        }
    }

    /// The databases, in the order in which they were connected.
    pub fn get_databases(&self) -> (databases: &Vec<DatabaseInfo>)
        ensures
            databases == self.databases,
    {
        &self.databases
    }

    /// The name of the current database.
    pub fn get_current_database(&self) -> (name: Option<&String>)
        ensures
            name.deep_view() == self.current(),
    {
        match &self.current_database {
            Some(name) => Some(name),
            None => None,
        }
    }

    /// The first database of this name.
    pub fn get_database_info(&self, name: &str) -> (info: Option<&DatabaseInfo>)
        ensures
            match info {
                Some(found) => database_names(self.databases@).index_of_first(name@) is Some
                    && *found == self.databases@[database_names(self.databases@).index_of_first(
                    name@,
                )->0],
                None => !self.has(name@),
            },
    {
        match self.position(name) {
            Some(i) => Some(&self.databases[i]),
            None => None,
        }
    }

    /// Replaces the tables of the first database of this name.
    pub fn set_tables(&mut self, name: &str, tables: Vec<TableInfo>) -> (done: Result<
        (),
        RegistryError,
    >)
        ensures
            final(self).current_database == old(self).current_database,
            match done {
                Ok(_) => {
                    let at = database_names(old(self).databases@).index_of_first(name@);
                    &&& at is Some
                    &&& final(self).databases@.len() == old(self).databases@.len()
                    &&& final(self).databases@[at->0].tables == tables
                    &&& final(self).databases@[at->0].name == old(self).databases@[at->0].name
                    &&& final(self).databases@[at->0].path == old(self).databases@[at->0].path
                    &&& final(self).databases@[at->0].is_memory == old(
                        self
                    ).databases@[at->0].is_memory
                    &&& forall|k: int|
                        0 <= k < old(self).databases@.len() && k != at->0 ==> final(
                            self
                        ).databases@[k] == old(self).databases@[k]
                },
                Err(RegistryError::NotFound(missing)) => !old(self).has(name@) && missing@
                    == name@ && final(self).databases == old(self).databases,
                Err(RegistryError::AlreadyConnected(_)) => false,
            },
    {
        match self.position(name) {
            Some(i) => {
                let mut info = self.databases.remove(i);
                info.tables = tables;
                self.databases.insert(i, info);
                Ok(())
            },
            None => Err(RegistryError::NotFound(name.to_owned())),
        }
    }

    /// The name under which a file is connected: the name of the file,
    /// or "unknown" where the path has none that is valid text. A name
    /// that is connected already is turned down.
    pub fn name_for_file(&self, file_name: Option<String>) -> (name: Result<String, RegistryError>)
        ensures
            ({
                let wanted = match file_name {
                    Some(text) => text@,
                    None => "unknown"@,
                };
                match name {
                    Ok(free) => free@ == wanted && !self.has(wanted),
                    Err(RegistryError::AlreadyConnected(taken)) => taken@ == wanted && self.has(
                        wanted,
                    ),
                    Err(RegistryError::NotFound(_)) => false,
                }
            }),
    {
        let wanted = match file_name {
            Some(text) => text,
            None => "unknown".to_owned(),
        };
        if self.position(wanted.as_str()).is_some() {
            Err(RegistryError::AlreadyConnected(wanted))
        } else {
            Ok(wanted)
        }
    }

    /// What the controller is told of the databases at hand, given
    /// whether a connection to the current one is open.
    pub fn catalog(&self, connected: bool) -> (catalog: Catalog)
        ensures
            catalog.deep_view() == (CatalogModel {
                databases: database_names(self.databases@),
                current_database: self.current(),
                connected,
                tables: table_names(self.current_tables()),
            }),
    {
        let mut databases: Vec<String> = Vec::new();
        let mut i: usize = 0;
        while i < self.databases.len()
            invariant
                i <= self.databases.len(),
                databases.len() == i,
                forall|k: int| 0 <= k < i ==> databases[k]@ == self.databases@[k].name@,
            decreases self.databases.len() - i,
        {
            databases.push(self.databases[i].name.clone());
            i += 1;
        }
        assert(databases.deep_view() =~= database_names(self.databases@));
        let mut tables: Vec<String> = Vec::new();
        let ghost listed = self.current_tables();
        let current = match &self.current_database {
            Some(name) => self.get_database_info(name.as_str()),
            None => None,
        };
        proof {
            if let Some(name) = self.current() {
                database_names(self.databases@).index_of_first_ensures(name);
            }
        }
        if let Some(info) = current {
            let mut t: usize = 0;
            while t < info.tables.len()
                invariant
                    t <= info.tables.len(),
                    tables.len() == t,
                    forall|k: int| 0 <= k < t ==> tables[k]@ == info.tables@[k].name@,
                decreases info.tables.len() - t,
            {
                tables.push(info.tables[t].name.clone());
                t += 1;
            }
            assert(tables.deep_view() =~= table_names(info.tables@));
            assert(info.tables@ == listed);
        } else {
            assert(listed =~= Seq::<TableInfo>::empty());
            assert(tables.deep_view() =~= table_names(listed));
        }
        let current_database = match &self.current_database {
            Some(name) => Some(name.clone()),
            None => None,
        };
        Catalog { databases, current_database, connected, tables }
    }
}

} // verus!
