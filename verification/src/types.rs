//! What the server says of itself.

use vstd::prelude::*;
use crate::datum::{json_seq, Datum, Json};
use crate::err::{Driver, ErrorKind, Fault, ReqlError};
use crate::session::Inbound;

verus! {

/// Who the server at the other end is.
#[derive(Debug, Clone, PartialEq, Eq)]
pub struct ServerInfo {
    /// The server's identifier.
    pub id: String,
    /// The server's name; a proxy has none.
    pub name: Option<String>,
    /// Whether the server is a proxy.
    pub proxy: bool,
}

/// The mathematical value of a [`ServerInfo`].
pub ghost struct ServerInfoView {
    pub id: Seq<char>,
    pub name: Option<Seq<char>>,
    pub proxy: bool,
}

impl View for ServerInfo {
    type V = ServerInfoView;

    open spec fn view(&self) -> ServerInfoView {
        ServerInfoView {
            id: self.id@,
            name: match self.name {
                Some(n) => Some(n@),
                None => None,
            },
            proxy: self.proxy,
        }
    }
}

/// What a document says of the server: it must hold a string under `"id"`
/// and a truth value under `"proxy"`; a string under `"name"` is the name.
pub open spec fn server_info(j: Json) -> Option<ServerInfoView> {
    match (j.get("id"@), j.get("proxy"@)) {
        (Some(Json::String(id)), Some(Json::Bool(proxy))) => Some(
            ServerInfoView {
                id,
                name: match j.get("name"@) {
                    Some(Json::String(name)) => Some(name),
                    _ => None,
                },
                proxy,
            },
        ),
        _ => None,
    }
}

/// The fault of an answer that holds no result.
pub open spec fn nothing_sent() -> Fault {
    Fault::new(ErrorKind::Other, "server info is empty"@)
}

/// The fault of an answer whose result does not describe a server.
pub open spec fn not_a_server() -> Fault {
    Fault::new(ErrorKind::Json, "malformed server info"@)
}

impl ServerInfo {
    /// Reads what a document says of the server.
    pub fn from_datum(d: &Datum) -> (r: Option<ServerInfo>)
        ensures
            match r {
                Some(info) => server_info(d@) == Some(info@),
                None => server_info(d@) is None,
            },
    {
        let id = match d.get("id") {
            Some(Datum::String(id)) => id.clone(),
            _ => {
                return None;
            },
        };
        let proxy = match d.get("proxy") {
            Some(Datum::Bool(proxy)) => *proxy,
            _ => {
                return None;
            },
        };
        let name = match d.get("name") {
            Some(Datum::String(name)) => Some(name.clone()),
            _ => None,
        };
        Some(ServerInfo { id, name, proxy })
    }

    /// Reads the answer to a `SERVER_INFO`: the last of its results says
    /// who the server is.
    ///
    /// An error that arrived is handed on; a response that reports an error
    /// gives that error; one without results, or whose result does not
    /// describe a server, is refused.
    pub fn from_response(inbound: Inbound) -> (r: Result<ServerInfo, ReqlError>)
        ensures
            match inbound {
                Err(e) => r == Err::<ServerInfo, ReqlError>(e),
                Ok(response) => {
                    let results = json_seq(response.results@);
                    if response.fault() is Some {
                        r matches Err(e) && Some(e@) == response.fault()
                    } else if results.len() == 0 {
                        r matches Err(e) && e@ == nothing_sent()
                    } else {
                        match server_info(results.last()) {
                            Some(info) => r matches Ok(i) && i@ == info,
                            None => r matches Err(e) && e@ == not_a_server(),
                        }
                    }
                },
            },
    {
        let response = match inbound {
            Err(e) => {
                return Err(e);
            },
            Ok(response) => response,
        };
        match response.error() {
            Some(e) => {
                return Err(e);
            },
            None => {},
        }
        let n = response.results.len();
        if n == 0 {
            return Err(ReqlError::Driver(Driver::Other("server info is empty".to_owned())));
        }
        match ServerInfo::from_datum(&response.results[n - 1]) {
            Some(info) => Ok(info),
            None => Err(ReqlError::Driver(Driver::Json("malformed server info".to_owned()))),
        }
    }
}

} // verus!
