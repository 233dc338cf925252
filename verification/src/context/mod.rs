//! The contexts of a CGI request: the server, the client and the request itself.
pub mod client;
pub mod request;
pub mod server;

use crate::strings::push_char;
use vstd::prelude::*;

verus! {

/// What a server that runs a single CGI script knows of itself: the script as it was named
/// and its canonical file path, its address, the search path for programs, and the text it
/// identifies itself with.
pub struct ServerContext {
    script: String,
    script_path: String,
    ip_address: String,
    port: String,
    path: String,
    software: String,
}

impl ServerContext {
    /// The script as it was named.
    pub closed spec fn spec_script_name(&self) -> Seq<char> {
        self.script@
    }

    /// The canonical file path of the script.
    pub closed spec fn spec_script_filename(&self) -> Seq<char> {
        self.script_path@
    }

    pub closed spec fn spec_ip_address(&self) -> Seq<char> {
        self.ip_address@
    }

    pub closed spec fn spec_port(&self) -> Seq<char> {
        self.port@
    }

    pub closed spec fn spec_path(&self) -> Seq<char> {
        self.path@
    }

    pub closed spec fn spec_software(&self) -> Seq<char> {
        self.software@
    }

    /// A server at the given IP address and port that runs the script `script`, whose
    /// canonical file path is `script_path`; its script searches `path` for programs, and it
    /// identifies itself as `program/version`.
    pub fn new(
        ip_address: String,
        port: String,
        path: String,
        program: &str,
        version: &str,
        script: String,
        script_path: String,
    ) -> (r: Self)
        ensures
            r.spec_ip_address() == ip_address@,
            r.spec_port() == port@,
            r.spec_path() == path@,
            r.spec_software() == program@ + seq!['/'] + version@,
            r.spec_script_name() == script@,
            r.spec_script_filename() == script_path@,
    {
        let mut software = program.to_owned();
        push_char(&mut software, '/');
        software.append(version);
        Self { script, script_path, ip_address, port, path, software }
    }

    pub fn path(&self) -> (r: &str)
        ensures
            r@ == self.spec_path(),
    {
        self.path.as_str()
    }

    pub fn software(&self) -> (r: &str)
        ensures
            r@ == self.spec_software(),
    {
        self.software.as_str()
    }

    /// The canonical file path of the script.
    pub fn script_filename(&self) -> (r: &str)
        ensures
            r@ == self.spec_script_filename(),
    {
        self.script_path.as_str()
    }

    /// The script as it was named.
    pub fn script_name(&self) -> (r: &str)
        ensures
            r@ == self.spec_script_name(),
    {
        self.script.as_str()
    }

    pub fn ip_address(&self) -> (r: &str)
        ensures
            r@ == self.spec_ip_address(),
    {
        self.ip_address.as_str()
    }

    pub fn port(&self) -> (r: &str)
        ensures
            r@ == self.spec_port(),
    {
        self.port.as_str()
    }
}

} // verus!
