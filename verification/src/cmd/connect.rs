//! What a connection is opened with.

use vstd::prelude::*;

verus! {

/// The port a server listens on unless told otherwise.
pub const DEFAULT_PORT: u16 = 28015;

/// Where to connect, and as whom.
#[derive(Debug, Clone, PartialEq, Eq)]
pub struct Options {
    /// The server's host name.
    pub host: String,
    /// The server's port.
    pub port: u16,
    /// The database that unqualified tables are looked up in.
    pub db: String,
    /// The user to log in as.
    pub user: String,
    /// The user's password.
    pub password: String,
    /// How many milliseconds the handshake may take; `None` for no limit.
    pub timeout: Option<u64>,
}

/// The mathematical value of [`Options`].
pub ghost struct OptionsView {
    pub host: Seq<char>,
    pub port: u16,
    pub db: Seq<char>,
    pub user: Seq<char>,
    pub password: Seq<char>,
    pub timeout: Option<u64>,
}

impl View for Options {
    type V = OptionsView;

    open spec fn view(&self) -> OptionsView {
        OptionsView {
            host: self.host@,
            port: self.port,
            db: self.db@,
            user: self.user@,
            password: self.password@,
            timeout: self.timeout,
        }
    }
}

impl OptionsView {
    /// The options of a connection about which nothing was said: the local
    /// server's default port, database `test`, user `admin` without a
    /// password, no time limit.
    pub open spec fn standard() -> OptionsView {
        OptionsView {
            host: "localhost"@,
            port: DEFAULT_PORT,
            db: "test"@,
            user: "admin"@,
            password: ""@,
            timeout: None,
        }
    }
}

impl Options {
    /// The options of a connection about which nothing was said.
    pub fn new() -> (o: Options)
        ensures
            o@ == OptionsView::standard(),
    {
        Options {
            host: "localhost".to_owned(),
            port: DEFAULT_PORT,
            db: "test".to_owned(),
            user: "admin".to_owned(),
            password: "".to_owned(),
            timeout: None,
        }
    }

    /// The same options with another host.
    pub fn host(self, host: &str) -> (o: Options)
        ensures
            o@ == (OptionsView { host: host@, ..self@ }),
    {
        Options { host: host.to_owned(), ..self }
    }

    /// The same options with another port.
    pub fn port(self, port: u16) -> (o: Options)
        ensures
            o@ == (OptionsView { port, ..self@ }),
    {
        Options { port, ..self }
    }

    /// The same options with another default database.
    pub fn db(self, db: &str) -> (o: Options)
        ensures
            o@ == (OptionsView { db: db@, ..self@ }),
    {
        Options { db: db.to_owned(), ..self }
    }

    /// The same options with another user.
    pub fn user(self, user: &str) -> (o: Options)
        ensures
            o@ == (OptionsView { user: user@, ..self@ }),
    {
        Options { user: user.to_owned(), ..self }
    }

    /// The same options with another password.
    pub fn password(self, password: &str) -> (o: Options)
        ensures
            o@ == (OptionsView { password: password@, ..self@ }),
    {
        Options { password: password.to_owned(), ..self }
    }

    /// The same options with a limit on the handshake's time, in
    /// milliseconds.
    pub fn timeout(self, millis: u64) -> (o: Options)
        ensures
            o@ == (OptionsView { timeout: Some(millis), ..self@ }),
    {
        Options { timeout: Some(millis), ..self }
    }
}

impl Default for Options {
    fn default() -> (o: Options)
        ensures
            o@ == OptionsView::standard(),
    {
        Options::new()
    }
}

/// What `connect` accepts in place of options.
pub trait Arg: Sized {
    /// The options this value stands for.
    spec fn connect_opts(self) -> OptionsView;

    /// Turns this value into options.
    fn into_connect_opts(self) -> (o: Options)
        ensures
            o@ == self.connect_opts(),
    ;
}

impl Arg for Options {
    open spec fn connect_opts(self) -> OptionsView {
        self@
    }

    fn into_connect_opts(self) -> (o: Options) {
        self
    }
}

impl Arg for () {
    open spec fn connect_opts(self) -> OptionsView {
        OptionsView::standard()
    }

    fn into_connect_opts(self) -> (o: Options) {
        Options::new()
    }
}

} // verus!
