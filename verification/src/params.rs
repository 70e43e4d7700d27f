use crate::request::{HttpRequestDecorator, HttpRequestDecoratorSeq};
use vstd::prelude::*;

verus! {

/// Which trust store a handshake is checked against.
#[derive(Clone, Copy, Debug, PartialEq, Eq, Structural)]
pub enum RootCertificates {
    /// The service's own root certificate.
    Signal,
    /// The roots that the platform trusts.
    Native,
}

/// One route to the service: the name presented in the handshake, the host
/// to resolve and to name in requests, the port, the decorators applied to
/// every request on this route, and the trusted roots.
#[derive(Clone, Debug)]
pub struct ConnectionParams {
    pub sni: String,
    pub host: String,
    pub port: u16,
    pub http_request_decorator: HttpRequestDecoratorSeq,
    pub certs: RootCertificates,
}

impl ConnectionParams {
    pub fn new(
        sni: &str,
        host: &str,
        port: u16,
        http_request_decorator: HttpRequestDecoratorSeq,
        certs: RootCertificates,
    ) -> (p: Self)
        ensures
            p.sni@ == sni@,
            p.host@ == host@,
            p.port == port,
            p.http_request_decorator == http_request_decorator,
            p.certs == certs,
    {
        ConnectionParams {
            sni: sni.to_owned(),
            host: host.to_owned(),
            port,
            http_request_decorator,
            certs,
        }
    }

    /// The same route with `decorator` added behind its decorators.
    pub fn with_decorator(self, decorator: HttpRequestDecorator) -> (p: Self)
        ensures
            p.http_request_decorator@ == self.http_request_decorator@.push(decorator@),
            p.sni == self.sni,
            p.host == self.host,
            p.port == self.port,
            p.certs == self.certs,
    {
        let mut p = self;
        p.http_request_decorator.push(decorator);
        p
    }

    /// The same route with `certs` as its trusted roots.
    pub fn with_certs(self, certs: RootCertificates) -> (p: Self)
        ensures
            p.certs == certs,
            p.sni == self.sni,
            p.host == self.host,
            p.port == self.port,
            p.http_request_decorator == self.http_request_decorator,
    {
        let mut p = self;
        p.certs = certs;
        p
    }
}

} // verus!
