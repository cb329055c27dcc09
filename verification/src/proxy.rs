//! The trusted boundary to `sozu-command-lib`, `rand` and `serde_json`.
//!
//! The proxy's configuration store and its orders are outside types; this
//! module declares them, gives their content names (`state_model`,
//! `order_model`, `kind_model`), and wraps the few calls the library's
//! logic makes. Everything else in the crate is verified against these
//! contracts.

use vstd::prelude::*;
use vstd::multiset::Multiset;
use crate::authority::alphanumeric_char;
use crate::config::{HostPort, ProxyProtocol};
use crate::orders::{OrderKind, OrderView};
use sozu_command_lib::state::ConfigState;
use sozu_command_lib::messages::{
    AddCertificate,
    Application,
    CertFingerprint,
    CertificateAndKey,
    HttpFront,
    HttpsFront,
    Order,
};
use sozu_command_lib::certificate::{calculate_fingerprint, split_certificate_chain};

verus! {

/// Declares `state::ConfigState`, the proxy's configuration store, as an
/// opaque outside type.
#[verifier::external_type_specification]
#[verifier::external_body]
pub struct ExConfigState(ConfigState);

/// Declares `messages::Order`, one atomic proxy mutation, as an opaque
/// outside type.
#[verifier::external_type_specification]
#[verifier::external_body]
pub struct ExOrder(Order);

/// The content of a proxy configuration store, abstractly: a map from item
/// keys to item descriptions. Two stores have equal content exactly when
/// this map is equal; nothing else is assumed of its shape.
pub uninterp spec fn state_model(s: ConfigState) -> Map<Seq<char>, Seq<char>>;

/// The content of one order, as `OrderView` renders it. Orders shaped like
/// the ones this library synthesizes map to the matching `Add*` view;
/// every other order maps to a `Foreign` view of its own.
pub uninterp spec fn order_model(o: Order) -> OrderView;

/// Which variant an order is, collapsed to the kinds the dispatcher
/// distinguishes.
pub uninterp spec fn kind_model(o: Order) -> OrderKind;

/// What `ConfigState::handle_order` leaves in a store: a function of the
/// store's previous content and of the order's content.
pub uninterp spec fn apply_of(m: Map<Seq<char>, Seq<char>>, o: OrderView) -> Map<
    Seq<char>,
    Seq<char>,
>;

/// What `certificate::calculate_fingerprint` returns for PEM text.
pub uninterp spec fn fingerprint_of(certificate: Seq<char>) -> Option<Seq<u8>>;

/// What `certificate::split_certificate_chain` returns for a PEM bundle.
pub uninterp spec fn chain_parts_of(chain: Seq<char>) -> Seq<Seq<char>>;

/// The store content a dump-state answer's message text carries, if it
/// parses.
pub uninterp spec fn dump_state_of(message: Seq<char>) -> Option<Map<Seq<char>, Seq<char>>>;

/// What `ConfigState::diff` returns for two store contents, as the
/// multiset of the orders' contents. The multiset is a function of the two
/// contents; the sequence is not, because the tables behind it are walked
/// in hash order, so no name is given to the order the orders come out in.
pub uninterp spec fn diff_of(
    current: Map<Seq<char>, Seq<char>>,
    desired: Map<Seq<char>, Seq<char>>,
) -> Multiset<OrderView>;

/// The content of a store with nothing in it.
pub open spec fn empty_content() -> Map<Seq<char>, Seq<char>> {
    Map::empty()
}

/// Relies on `ConfigState::new`: the store starts empty.
#[verifier::external_body]
pub(crate) fn new_config_state() -> (s: ConfigState)
    ensures
        state_model(s) == empty_content(),
{
    ConfigState::new()
}

/// Relies on `ConfigState::handle_order`: its effect on the store's
/// content is a function of that content and of the order alone. The one
/// kind it can panic on — replacing a certificate at a front the store
/// does not know — is kept out.
#[verifier::external_body]
pub(crate) fn apply_order(s: &mut ConfigState, o: &Order) -> (changed: bool)
    requires
        kind_model(*o) != OrderKind::ReplaceCertificate,
    ensures
        state_model(*final(s)) == apply_of(state_model(*old(s)), order_model(*o)),
{
    s.handle_order(o)
}

/// Relies on `ConfigState::diff`: it emits one order per difference
/// between the two stores' tables — which orders depends on the two
/// contents alone, so equal content yields none — in an unspecified order.
#[verifier::external_body]
pub(crate) fn diff_states(current: &ConfigState, desired: &ConfigState) -> (orders: Vec<Order>)
    ensures
        state_model(*current) == state_model(*desired) ==> orders@.len() == 0,
        orders@.map_values(|o: Order| order_model(o)).to_multiset() == diff_of(
            state_model(*current),
            state_model(*desired),
        ),
{
    current.diff(desired)
}

/// Relies on the `Order` enum: reads which variant an order is.
#[verifier::external_body]
pub fn order_kind(o: &Order) -> (k: OrderKind)
    ensures
        k == kind_model(*o),
{
    match o {
        Order::AddApplication(_) => OrderKind::AddApplication,
        Order::RemoveApplication(_) => OrderKind::RemoveApplication,
        Order::AddCertificate(_) => OrderKind::AddCertificate,
        Order::RemoveCertificate(_) => OrderKind::RemoveCertificate,
        Order::ReplaceCertificate(_) => OrderKind::ReplaceCertificate,
        Order::AddHttpFront(_) => OrderKind::AddHttpFront,
        Order::RemoveHttpFront(_) => OrderKind::RemoveHttpFront,
        Order::AddHttpsFront(_) => OrderKind::AddHttpsFront,
        Order::RemoveHttpsFront(_) => OrderKind::RemoveHttpsFront,
        _ => OrderKind::Other,
    }
}

/// Relies on constructing `messages::Application`: the fields are carried
/// through; the load-balancing policy is the crate's default.
#[verifier::external_body]
pub(crate) fn make_add_application(
    app_id: &String,
    sticky_session: bool,
    https_redirect: bool,
    proxy_protocol: Option<ProxyProtocol>,
) -> (o: Order)
    ensures
        order_model(o) == (OrderView::AddApplication {
            app_id: app_id@,
            sticky_session,
            https_redirect,
            proxy_protocol,
        }),
        kind_model(o) == OrderKind::AddApplication,
{
    Order::AddApplication(Application {
        app_id: app_id.clone(),
        sticky_session,
        https_redirect,
        proxy_protocol: proxy_protocol.map(|p| match p {
            ProxyProtocol::ExpectHeader => sozu_command_lib::config::ProxyProtocolConfig::ExpectHeader,
            ProxyProtocol::SendHeader => sozu_command_lib::config::ProxyProtocolConfig::SendHeader,
            ProxyProtocol::RelayHeader => sozu_command_lib::config::ProxyProtocolConfig::RelayHeader,
        }),
        load_balancing_policy: Default::default(),
    })
}

/// Relies on constructing `messages::HttpFront`: the fields are carried
/// through; the address octets and port become the front's socket address.
#[verifier::external_body]
pub(crate) fn make_add_http_front(
    app_id: &String,
    address: HostPort,
    hostname: &String,
    path_begin: &String,
) -> (o: Order)
    ensures
        order_model(o) == (OrderView::AddHttpFront {
            app_id: app_id@,
            address,
            hostname: hostname@,
            path_begin: path_begin@,
        }),
        kind_model(o) == OrderKind::AddHttpFront,
{
    Order::AddHttpFront(HttpFront {
        app_id: app_id.clone(),
        address: ([address.a, address.b, address.c, address.d], address.port).into(),
        hostname: hostname.clone(),
        path_begin: path_begin.clone(),
    })
}

/// Relies on constructing `messages::AddCertificate`: the certificate
/// material is carried through, named for the one hostname.
#[verifier::external_body]
pub(crate) fn make_add_certificate(
    front: HostPort,
    certificate: &String,
    certificate_chain: &Vec<String>,
    key: &String,
    hostname: &String,
) -> (o: Order)
    ensures
        order_model(o) == (OrderView::AddCertificate {
            front,
            certificate: certificate@,
            certificate_chain: certificate_chain.deep_view(),
            key: key@,
            names: seq![hostname@],
        }),
        kind_model(o) == OrderKind::AddCertificate,
{
    Order::AddCertificate(AddCertificate {
        front: ([front.a, front.b, front.c, front.d], front.port).into(),
        certificate: CertificateAndKey {
            certificate: certificate.clone(),
            certificate_chain: certificate_chain.clone(),
            key: key.clone(),
        },
        names: vec![hostname.clone()],
    })
}

/// Relies on constructing `messages::HttpsFront`: the fields are carried
/// through; the digest bytes become the front's fingerprint.
#[verifier::external_body]
pub(crate) fn make_add_https_front(
    app_id: &String,
    address: HostPort,
    hostname: &String,
    path_begin: &String,
    fingerprint: &Vec<u8>,
) -> (o: Order)
    ensures
        order_model(o) == (OrderView::AddHttpsFront {
            app_id: app_id@,
            address,
            hostname: hostname@,
            path_begin: path_begin@,
            fingerprint: fingerprint@,
        }),
        kind_model(o) == OrderKind::AddHttpsFront,
{
    Order::AddHttpsFront(HttpsFront {
        app_id: app_id.clone(),
        address: ([address.a, address.b, address.c, address.d], address.port).into(),
        hostname: hostname.clone(),
        path_begin: path_begin.clone(),
        fingerprint: CertFingerprint(fingerprint.clone()),
    })
}

/// Relies on `certificate::calculate_fingerprint`: the digest of PEM text
/// depends on that text alone, and fails exactly when the text is not PEM.
#[verifier::external_body]
pub(crate) fn compute_fingerprint(certificate: &String) -> (r: Option<Vec<u8>>)
    ensures
        match r {
            Some(f) => fingerprint_of(certificate@) == Some(f@),
            None => fingerprint_of(certificate@) is None,
        },
{
    calculate_fingerprint(certificate.as_bytes())
}

/// Relies on `certificate::split_certificate_chain`: the parts depend on
/// the bundle text alone.
#[verifier::external_body]
pub(crate) fn split_chain(chain: String) -> (r: Vec<String>)
    ensures
        r.deep_view() == chain_parts_of(chain@),
{
    split_certificate_chain(chain)
}

/// Relies on `serde_json::from_str`, `Value::get` and
/// `serde_json::from_value`: reads the `state` field of a dump-state
/// answer; what it holds depends on the message text alone.
#[verifier::external_body]
pub(crate) fn parse_dump_answer(message: &String) -> (r: Option<ConfigState>)
    ensures
        match r {
            Some(s) => dump_state_of(message@) == Some(state_model(s)),
            None => dump_state_of(message@) is None,
        },
{
    serde_json::from_str::<serde_json::Value>(message)
        .ok()
        .and_then(|v| v.get("state").cloned())
        .and_then(|v| serde_json::from_value::<ConfigState>(v).ok())
}

/// Relies on rand's `Alphanumeric` distribution: a sample of `len` bytes
/// is `len` ASCII alphanumeric characters; nothing else is assumed of a
/// random draw.
#[verifier::external_body]
pub(crate) fn random_token(len: usize) -> (r: String)
    ensures
        r@.len() == len,
        forall|i: int| 0 <= i < r@.len() ==> alphanumeric_char(#[trigger] r@[i]),
{
    rand::distr::SampleString::sample_string(&rand::distr::Alphanumeric, &mut rand::rng(), len)
}

} // verus!
