//! The framed unit exchanged with the server, and its constructors.

use vstd::prelude::*;
use vstd::string::StrSliceExecFns;
use vstd::utf8::encode_utf8;
use crate::command::Cmd;
use crate::types::Credentials;

verus! {

/// A package: a command opcode, a 128-bit correlation identifier that
/// uniquely names a request/response pair, optional credentials, and a
/// payload byte sequence.
pub struct Pkg {
    pub cmd: Cmd,
    pub correlation: u128,
    pub creds_opt: Option<Credentials>,
    pub payload: Vec<u8>,
}

/// Relies on `uuid::Uuid::new_v4`, for a freshly drawn version-4
/// identifier, taken as its 128-bit value.  The value is random, so
/// nothing is assumed of it.
#[verifier::external_body]
pub(crate) fn fresh_id() -> u128 {
    uuid::Uuid::new_v4().as_u128()
}

/// Equivalence of credentials up to the characters they hold.
pub open spec fn creds_eqv(a: Option<Credentials>, b: Option<Credentials>) -> bool {
    match (a, b) {
        (Some(x), Some(y)) => x.login@ == y.login@ && x.password@ == y.password@,
        (None, None) => true,
        _ => false,
    }
}

/// Equivalence of packages: same opcode byte, same correlation, same
/// credentials and same payload bytes.
pub open spec fn pkg_eqv(a: Pkg, b: Pkg) -> bool {
    &&& a.cmd.spec_to_u8() == b.cmd.spec_to_u8()
    &&& a.correlation == b.correlation
    &&& creds_eqv(a.creds_opt, b.creds_opt)
    &&& a.payload@ == b.payload@
}

/// The payload carried by an `IdentifyClient` package: the configured
/// connection name encoded as UTF-8, or nothing.
pub open spec fn name_payload(name: Option<String>) -> Seq<u8> {
    match name {
        Some(n) => encode_utf8(n@),
        None => Seq::<u8>::empty(),
    }
}

fn clone_creds_opt(creds: &Option<Credentials>) -> (r: Option<Credentials>)
    ensures
        creds_eqv(r, *creds),
        r is Some <==> *creds is Some,
{
    match creds {
        Some(c) => Some(c.clone()),
        None => None,
    }
}

impl Pkg {
    /// A package with the given opcode and correlation, no credentials
    /// and an empty payload.
    pub fn new(cmd: Cmd, correlation: u128) -> (r: Pkg)
        ensures
            r.cmd == cmd,
            r.correlation == correlation,
            r.creds_opt is None,
            r.payload@ == Seq::<u8>::empty(),
    {
        let r = Pkg { cmd, correlation, creds_opt: None, payload: Vec::new() };
        proof {
            assert(r.payload@ =~= Seq::<u8>::empty());
        }
        r
    }

    /// A heartbeat probe under a freshly drawn correlation.
    pub fn heartbeat_request() -> (r: Pkg)
        ensures
            r.cmd == Cmd::HeartbeatRequest,
            r.creds_opt is None,
            r.payload@ == Seq::<u8>::empty(),
    {
        Pkg::new(Cmd::HeartbeatRequest, fresh_id())
    }

    /// An `Authenticate` package carrying the given credentials under a
    /// freshly drawn correlation.
    pub fn authenticate(creds: Credentials) -> (r: Pkg)
        ensures
            r.cmd == Cmd::Authenticate,
            r.creds_opt == Some(creds),
            r.payload@ == Seq::<u8>::empty(),
    {
        let r = Pkg {
            cmd: Cmd::Authenticate,
            correlation: fresh_id(),
            creds_opt: Some(creds),
            payload: Vec::new(),
        };
        proof {
            assert(r.payload@ =~= Seq::<u8>::empty());
        }
        r
    }

    /// An `IdentifyClient` package whose payload carries the connection
    /// name, under a freshly drawn correlation.
    pub fn identify_client(name: &Option<String>) -> (r: Pkg)
        ensures
            r.cmd == Cmd::IdentifyClient,
            r.creds_opt is None,
            r.payload@ == name_payload(*name),
    {
        let payload = match name {
            Some(n) => n.as_str().as_bytes_vec(),
            None => Vec::new(),
        };
        proof {
            assert(payload@ =~= name_payload(*name));
        }
        Pkg { cmd: Cmd::IdentifyClient, correlation: fresh_id(), creds_opt: None, payload }
    }

    /// The header fields of a package — opcode and correlation — with an
    /// empty payload and no credentials.
    pub fn copy_headers_only(&self) -> (r: Pkg)
        ensures
            r.cmd == self.cmd,
            r.correlation == self.correlation,
            r.creds_opt is None,
            r.payload@ == Seq::<u8>::empty(),
    {
        Pkg::new(self.cmd, self.correlation)
    }
}

impl Clone for Pkg {
    /// A clone is equivalent to the original package.
    fn clone(&self) -> (r: Pkg)
        ensures
            pkg_eqv(r, *self),
    {
        let payload = clone_bytes(&self.payload);
        Pkg {
            cmd: self.cmd,
            correlation: self.correlation,
            creds_opt: clone_creds_opt(&self.creds_opt),
            payload,
        }
    }
}

fn clone_bytes(v: &Vec<u8>) -> (r: Vec<u8>)
    ensures
        r@ == v@,
{
    let mut r: Vec<u8> = Vec::new();
    let mut i: usize = 0;
    while i < v.len()
        invariant
            i <= v.len(),
            r@ == v@.take(i as int),
        decreases v.len() - i,
    {
        r.push(v[i]);
        i = i + 1;
        proof {
            assert(r@ =~= v@.take(i as int));
        }
    }
    proof {
        assert(v@.take(v@.len() as int) =~= v@);
    }
    r
}

} // verus!
