//! The address the client was served from, and the endpoints of the services
//! that sit beside it (Tendermint RPC, gRPC-web, the faucet).
use vstd::prelude::*;
use vstd::string::*;

verus! {

/// What a `Host` holds: the page's protocol (with its `:`), host name and port.
pub struct HostView {
    pub protocol: Seq<char>,
    pub host_addr: Seq<char>,
    pub port: Seq<char>,
}

impl HostView {
    /// `protocol//` + `service` + `host:port`: the address of a service whose
    /// host name is the page's host name behind the prefix `service`.
    pub open spec fn service_endpoint(self, service: Seq<char>) -> Seq<char> {
        self.protocol + "//"@ + service + self.host_addr + ":"@ + self.port
    }

    /// `protocol//host:port`, the address the page itself was served from.
    pub open spec fn endpoint(self) -> Seq<char> {
        self.service_endpoint(Seq::empty())
    }

    pub open spec fn tendermint_endpoint(self) -> Seq<char> {
        self.service_endpoint("tendermint."@)
    }

    pub open spec fn grpc_endpoint(self) -> Seq<char> {
        self.service_endpoint("grpc."@)
    }

    pub open spec fn faucet_endpoint(self) -> Seq<char> {
        self.service_endpoint("faucet."@)
    }
}

#[derive(Clone)]
pub struct Host {
    protocol: String,
    host_addr: String,
    port: String,
}

impl View for Host {
    type V = HostView;

    closed spec fn view(&self) -> HostView {
        HostView { protocol: self.protocol@, host_addr: self.host_addr@, port: self.port@ }
    }
}

impl Host {
    pub fn new(protocol: String, host_addr: String, port: String) -> (h: Host)
        ensures
            h@ == (HostView { protocol: protocol@, host_addr: host_addr@, port: port@ }),
    {
        Host { protocol, host_addr, port }
    }

    fn service(&self, service: &str) -> (r: String)
        ensures
            r@ == self@.service_endpoint(service@),
    {
        let mut out = String::new();
        out.append(self.protocol.as_str());
        out.append("//");
        out.append(service);
        out.append(self.host_addr.as_str());
        out.append(":");
        out.append(self.port.as_str());
        assert(out@ =~= self@.service_endpoint(service@));
        out
    }

    pub fn endpoint(&self) -> (r: String)
        ensures
            r@ == self@.endpoint(),
    {
        let r = self.service("");
        proof {
            reveal_strlit("");
        }
        assert(""@ =~= Seq::<char>::empty());
        r
    }

    pub fn tendermint_endpoint(&self) -> (r: String)
        ensures
            r@ == self@.tendermint_endpoint(),
    {
        self.service("tendermint.")
    }

    pub fn grpc_endpoint(&self) -> (r: String)
        ensures
            r@ == self@.grpc_endpoint(),
    {
        self.service("grpc.")
    }

    pub fn faucet_endpoint(&self) -> (r: String)
        ensures
            r@ == self@.faucet_endpoint(),
    {
        self.service("faucet.")
    }
}

/// Every service endpoint is the page endpoint of the same protocol and port
/// on the host name behind the service's prefix: the Tendermint, gRPC and
/// faucet services of `example.com` are `tendermint.example.com`,
/// `grpc.example.com` and `faucet.example.com` on the page's port.
pub proof fn law_service_endpoint_is_prefixed_host(h: HostView, service: Seq<char>)
    ensures
        h.service_endpoint(service) == (HostView {
            protocol: h.protocol,
            host_addr: service + h.host_addr,
            port: h.port,
        }).endpoint(),
{
    let shifted = HostView { protocol: h.protocol, host_addr: service + h.host_addr, port: h.port };
    assert(h.service_endpoint(service) =~= shifted.endpoint());
}

} // verus!
