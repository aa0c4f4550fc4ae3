//! The configuration of the server

use crate::text::{push_char, push_str};
use vstd::prelude::*;

verus! {

/// The configuration needed to make a connection to a mysql server
pub struct MysqlConfig {
    /// The password for the mysql login
    pub password: String,
    /// The username to login to the mysql server with
    pub username: String,
    /// The name of the database to use
    pub dbname: String,
    /// The url of where the mysql server is located
    pub url: String,
}

/// The main server configuration
pub struct ServerConfiguration {
    /// Should new accounts be automatically created if they don't exist?
    pub automatic_account_creation: bool,
    /// The salt for account creation
    pub account_creation_salt: String,
}

/// The main configuration of the application
pub struct MainConfiguration {
    /// The database configuration
    pub db: MysqlConfig,
    /// The main server configuration
    pub config: ServerConfiguration,
}

impl ServerConfiguration {
    /// The news of the server, given the text of the news file if it could be read: a file
    /// that cannot be read means no news
    pub fn news_from(read: Option<String>) -> (n: String)
        ensures
            match read {
                Some(s) => n@ == s@,
                None => n@.len() == 0,
            },
    {
        match read {
            Some(s) => s,
            None => String::new(),
        }
    }
}

/// The address of the database: `"mysql://" username ":" password "@" url "/" dbname`
pub open spec fn mysql_address(db: MysqlConfig) -> Seq<char> {
    "mysql://"@ + db.username@ + seq![':'] + db.password@ + seq!['@'] + db.url@ + seq!['/']
        + db.dbname@
}

impl MainConfiguration {
    /// The address of the database
    pub fn mysql_url(&self) -> (u: String)
        ensures
            u@ == mysql_address(self.db),
    {
        let mut u = String::new();
        push_str(&mut u, "mysql://");
        push_str(&mut u, self.db.username.as_str());
        push_char(&mut u, ':');
        push_str(&mut u, self.db.password.as_str());
        push_char(&mut u, '@');
        push_str(&mut u, self.db.url.as_str());
        push_char(&mut u, '/');
        push_str(&mut u, self.db.dbname.as_str());
        assert(u@ =~= mysql_address(self.db));
        u
    }
}

} // verus!
