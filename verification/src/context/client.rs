//! What a CGI web server knows of the client of a request.
use vstd::prelude::*;

verus! {

/// The address of the client of a request, as text.
pub struct ClientContext {
    remote_ip_address: String,
    remote_port: String,
}

impl View for ClientContext {
    type V = (Seq<char>, Seq<char>);

    closed spec fn view(&self) -> (Seq<char>, Seq<char>) {
        (self.remote_ip_address@, self.remote_port@)
    }
}

impl ClientContext {
    /// The client at the given IP address and port.
    pub fn new(remote_ip_address: String, remote_port: String) -> (r: Self)
        ensures
            r@ == (remote_ip_address@, remote_port@),
    {
        Self { remote_ip_address, remote_port }
    }

    pub fn remote_ip_address(&self) -> (r: &str)
        ensures
            r@ == self@.0,
    {
        self.remote_ip_address.as_str()
    }

    pub fn remote_port(&self) -> (r: &str)
        ensures
            r@ == self@.1,
    {
        self.remote_port.as_str()
    }
}

} // verus!
