//! Server settings: where to listen and what each host may serve.
use vstd::prelude::*;

use crate::map::StrMap;

verus! {

/// What one virtual host serves: a root folder and the file extensions that
/// may be read under it (lower case, without `.`).
#[derive(Debug, Clone)]
pub struct DomainPath {
    pub path: String,
    pub allow: Vec<String>,
}

impl View for DomainPath {
    type V = (Seq<char>, Seq<Seq<char>>);

    open spec fn view(&self) -> (Seq<char>, Seq<Seq<char>>) {
        (self.path@, self.allow@.map_values(|s: String| s@))
    }
}

/// The address and port to listen on, and the hosts that are served.
#[derive(Debug, Clone)]
pub struct ServerSetting {
    pub address: String,
    pub port: u16,
    pub paths: StrMap<DomainPath>,
}

} // verus!
