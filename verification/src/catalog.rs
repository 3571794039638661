//! The registry of the databases of the catalog.

use crate::database::{Database, DatabaseView};
use crate::error::{MetadataError, MetadataErrorView};
use crate::name_map::{lists_names, NameMap};
use vstd::prelude::*;

verus! {

/// The databases of the catalog, by name.
pub struct UserCatalog {
    databases: NameMap<Database>,
}

impl View for UserCatalog {
    type V = Map<Seq<char>, DatabaseView>;

    closed spec fn view(&self) -> Map<Seq<char>, DatabaseView> {
        self.databases@
    }
}

impl UserCatalog {
    /// A registry without databases.
    pub fn new() -> (c: Self)
        ensures
            c@ == Map::<Seq<char>, DatabaseView>::empty(),
    {
        UserCatalog { databases: NameMap::new() }
    }

    /// Registers `database` under `name`, unless a database is registered
    /// under that name already.
    pub fn register_database(&mut self, name: &str, database: Database) -> (r: Result<
        (),
        MetadataError,
    >)
        ensures
            match r {
                Ok(()) => !old(self)@.dom().contains(name@) && final(self)@ == old(self)@.insert(
                    name@,
                    database@,
                ),
                Err(e) => old(self)@.dom().contains(name@) && e@ == (
                MetadataErrorView::DatabaseAlreadyExists { database_name: name@ }) && final(self)@
                    == old(self)@,
            },
    {
        if self.databases.contains(name) {
            Err(MetadataError::DatabaseAlreadyExists { database_name: name.to_owned() })
        } else {
            self.databases.insert(name.to_owned(), database);
            Ok(())
        }
    }

    /// Removes the database `name` with all its tables and returns it.
    pub fn deregister_database(&mut self, name: &str) -> (r: Result<Database, MetadataError>)
        ensures
            match r {
                Ok(database) => old(self)@.dom().contains(name@) && database@ == old(self)@[name@]
                    && final(self)@ == old(self)@.remove(name@),
                Err(e) => !old(self)@.dom().contains(name@) && e@ == (
                MetadataErrorView::DatabaseNotExists { database_name: name@ }) && final(self)@
                    == old(self)@,
            },
    {
        match self.databases.remove(name) {
            Some(database) => Ok(database),
            None => {
                assert(self.databases@ =~= old(self).databases@);
                Err(MetadataError::DatabaseNotExists { database_name: name.to_owned() })
            },
        }
    }

    /// The database registered under `name`, if there is one.
    pub fn get_database(&self, name: &str) -> (r: Option<&Database>)
        ensures
            match r {
                Some(database) => self@.dom().contains(name@) && database@ == self@[name@],
                None => !self@.dom().contains(name@),
            },
    {
        self.databases.get(name)
    }

    /// The names of the registered databases, each once, in no particular
    /// order.
    pub fn database_names(&self) -> (names: Vec<String>)
        ensures
            lists_names(names@, self@.dom()),
    {
        self.databases.names()
    }

    /// Stores `database` under `name`, in place of the database that was
    /// registered under it, if there was one.
    pub(crate) fn put_database(&mut self, name: &str, database: Database)
        ensures
            final(self)@ == old(self)@.insert(name@, database@),
    {
        self.databases.insert(name.to_owned(), database);
    }
}

} // verus!
