//! The settings that the service starts with.

use crate::handler::{database_url, DatabaseHandler};
use vstd::prelude::*;

verus! {

/// Why the settings could not be had.
#[derive(Clone, Copy, Debug, PartialEq, Eq, Structural)]
pub enum ConfigurationError {
    FileNotFound,
    CouldNotRead,
    CouldNotParse,
}

impl ConfigurationError {
    /// The words in which the error is reported.
    pub open spec fn text(self) -> Seq<char> {
        match self {
            ConfigurationError::FileNotFound => "Could not find configuration file"@,
            ConfigurationError::CouldNotRead => "Could not read contents of configuration file"@,
            ConfigurationError::CouldNotParse => "Could not parse configuration into json"@,
        }
    }

    /// The words in which the error is reported.
    pub fn message(&self) -> (r: String)
        ensures
            r@ == self.text(),
    {
        let words = match self {
            ConfigurationError::FileNotFound => "Could not find configuration file",
            ConfigurationError::CouldNotRead => "Could not read contents of configuration file",
            ConfigurationError::CouldNotParse => "Could not parse configuration into json",
        };
        words.to_owned()
    }
}

/// Where the database is and who may use it.
#[derive(Debug, PartialEq, Eq)]
pub struct MongoConfig {
    pub host: String,
    pub port: u32,
    pub username: String,
    pub password: String,
    pub auth_db: String,
}

/// The settings of the service.
#[derive(Debug, PartialEq, Eq)]
pub struct Configuration {
    pub mongo: MongoConfig,
}

impl Configuration {
    /// A repository for the database that the settings name, not yet
    /// connected, with `key` as the pepper and `salt` as the salt of every
    /// password hash.
    pub fn handler(&self, key: &str, salt: &str) -> (r: DatabaseHandler)
        ensures
            r.url@ == database_url(self.mongo.host@, self.mongo.port, self.mongo.auth_db@),
            r.user@ == self.mongo.username@,
            r.password@ == self.mongo.password@,
            r.database is None,
            r.key@ == key@,
            r.salt@ == salt@,
    {
        DatabaseHandler::new(
            self.mongo.username.as_str(),
            self.mongo.password.as_str(),
            self.mongo.host.as_str(),
            self.mongo.port,
            self.mongo.auth_db.as_str(),
            key,
            salt,
        )
    }
}

} // verus!
