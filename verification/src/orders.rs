use vstd::prelude::*;
use crate::config::{HostPort, ProxyProtocol};

verus! {

/// The variant of a proxy order, as far as this tool distinguishes them.
/// `Other` stands for every order kind the dispatcher does not recognize.
#[derive(Clone, Copy, Debug, PartialEq, Eq, Structural)]
pub enum OrderKind {
    AddApplication,
    RemoveApplication,
    AddCertificate,
    RemoveCertificate,
    ReplaceCertificate,
    AddHttpFront,
    RemoveHttpFront,
    AddHttpsFront,
    RemoveHttpsFront,
    Other,
}

/// The content of a proxy order, as this library models it.
///
/// The four `Add*` variants describe exactly the orders the translator
/// synthesizes. Every other order the proxy protocol knows is abstracted as
/// `Foreign`, carrying an opaque descriptor; distinct orders have distinct
/// descriptors, so the model loses no information.
pub enum OrderView {
    AddApplication {
        app_id: Seq<char>,
        sticky_session: bool,
        https_redirect: bool,
        proxy_protocol: Option<ProxyProtocol>,
    },
    AddHttpFront {
        app_id: Seq<char>,
        address: HostPort,
        hostname: Seq<char>,
        path_begin: Seq<char>,
    },
    AddCertificate {
        front: HostPort,
        certificate: Seq<char>,
        certificate_chain: Seq<Seq<char>>,
        key: Seq<char>,
        names: Seq<Seq<char>>,
    },
    AddHttpsFront {
        app_id: Seq<char>,
        address: HostPort,
        hostname: Seq<char>,
        path_begin: Seq<char>,
        fingerprint: Seq<u8>,
    },
    Foreign {
        descriptor: Seq<char>,
    },
}

} // verus!
