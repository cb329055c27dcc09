//! The library's laws: properties that hold of every input, stated over
//! the translator's specification and proved here.

use vstd::prelude::*;
use crate::config::{AppRoutes, FileStore, ListenContext, RoutingConfigView};
use crate::errors::{ParseErrorView, TranslateErrorView};
use crate::orders::OrderView;
use crate::proxy::diff_states;
use crate::translate::{doc_views, https_views, route_views, routes_views, translate, translation_spec};
use sozu_command_lib::messages::Order;

verus! {

/// Translation is idempotent: translating the same document twice yields
/// stores whose diff is empty. When translation fails there are no stores
/// to compare.
pub fn diff_after_retranslation(doc: &Vec<AppRoutes>, ctx: &ListenContext, files: &FileStore)
    -> (r: Option<Vec<Order>>)
    ensures
        match r {
            Some(orders) => translation_spec(doc.deep_view(), *ctx, files@) is Ok
                && orders@.len() == 0,
            None => translation_spec(doc.deep_view(), *ctx, files@) is Err,
        },
{
    let first = match translate(doc, ctx, files) {
        Ok(s) => s,
        Err(_) => {
            return None;
        },
    };
    let second = match translate(doc, ctx, files) {
        Ok(s) => s,
        Err(_) => {
            return None;
        },
    };
    let orders = diff_states(&first, &second);
    Some(orders)
}

/// Ordering: among the orders one route emits, the application
/// registration comes first and is the only one, and every HTTPS front is
/// immediately preceded by the certificate it references.
pub proof fn lemma_order_precedence(
    app_id: Seq<char>,
    rc: RoutingConfigView,
    ctx: ListenContext,
    files: Map<Seq<char>, Seq<char>>,
)
    requires
        route_views(app_id, rc, ctx, files) is Ok,
    ensures
        ({
            let vs = route_views(app_id, rc, ctx, files)->Ok_0;
            &&& vs.len() >= 1
            &&& vs[0] is AddApplication
            &&& forall|i: int| 1 <= i < vs.len() ==> !(vs[i] is AddApplication)
            &&& forall|i: int|
                0 <= i < vs.len() && #[trigger] vs[i] is AddHttpsFront ==> 1 <= i && vs[i - 1]
                    is AddCertificate
        }),
{
    let vs = route_views(app_id, rc, ctx, files)->Ok_0;
    if rc.frontends.https {
        let hs = https_views(app_id, rc, ctx.https, files)->Ok_0;
        assert(hs.len() == 2);
        assert(hs[0] is AddCertificate);
        assert(hs[1] is AddHttpsFront);
        if rc.frontends.http {
            assert(vs.len() == 4);
            assert(vs[0] is AddApplication);
            assert(vs[1] is AddHttpFront);
            assert(vs[2] == hs[0]);
            assert(vs[3] == hs[1]);
        } else {
            assert(vs.len() == 3);
            assert(vs[0] is AddApplication);
            assert(vs[1] == hs[0]);
            assert(vs[2] == hs[1]);
        }
    } else {
        if rc.frontends.http {
            assert(vs.len() == 2);
            assert(vs[0] is AddApplication);
            assert(vs[1] is AddHttpFront);
        } else {
            assert(vs.len() == 1);
            assert(vs[0] is AddApplication);
        }
    }
}

/// The application an order registers or routes to; orders this tool does
/// not synthesize name none.
pub open spec fn order_app(v: OrderView) -> Option<Seq<char>> {
    match v {
        OrderView::AddApplication { app_id, .. } => Some(app_id),
        OrderView::AddHttpFront { app_id, .. } => Some(app_id),
        OrderView::AddHttpsFront { app_id, .. } => Some(app_id),
        _ => None,
    }
}

pub open spec fn is_front(v: OrderView) -> bool {
    v is AddHttpFront || v is AddHttpsFront
}

/// Every front order comes after a registration of its application.
pub open spec fn fronts_registered(vs: Seq<OrderView>) -> bool {
    forall|j: int|
        0 <= j < vs.len() && is_front(#[trigger] vs[j]) ==> exists|i: int|
            0 <= i < j && #[trigger] vs[i] is AddApplication && order_app(vs[i]) == order_app(
                vs[j],
            )
}

/// Every HTTPS front comes immediately after a certificate.
pub open spec fn certificates_precede(vs: Seq<OrderView>) -> bool {
    forall|j: int|
        0 <= j < vs.len() && #[trigger] vs[j] is AddHttpsFront ==> 1 <= j && vs[j - 1]
            is AddCertificate
}

proof fn lemma_ordering_concat(s1: Seq<OrderView>, s2: Seq<OrderView>)
    requires
        fronts_registered(s1),
        fronts_registered(s2),
        certificates_precede(s1),
        certificates_precede(s2),
    ensures
        fronts_registered(s1 + s2),
        certificates_precede(s1 + s2),
{
    let vs = s1 + s2;
    assert forall|j: int| 0 <= j < vs.len() && is_front(#[trigger] vs[j]) implies exists|i: int|
        0 <= i < j && #[trigger] vs[i] is AddApplication && order_app(vs[i]) == order_app(
            vs[j],
        ) by {
        if j < s1.len() {
            assert(vs[j] == s1[j]);
            let i = choose|i: int|
                0 <= i < j && #[trigger] s1[i] is AddApplication && order_app(s1[i]) == order_app(
                    s1[j],
                );
            assert(vs[i] == s1[i]);
        } else {
            let l = j - s1.len();
            assert(vs[j] == s2[l]);
            let i2 = choose|i2: int|
                0 <= i2 < l && #[trigger] s2[i2] is AddApplication && order_app(s2[i2])
                    == order_app(s2[l]);
            let i = i2 + s1.len();
            assert(vs[i] == s2[i2]);
        }
    }
    assert forall|j: int| 0 <= j < vs.len() && #[trigger] vs[j] is AddHttpsFront implies 1 <= j
        && vs[j - 1] is AddCertificate by {
        if j < s1.len() {
            assert(vs[j] == s1[j]);
            assert(vs[j - 1] == s1[j - 1]);
        } else {
            let l = j - s1.len();
            assert(vs[j] == s2[l]);
            assert(1 <= l);
            assert(vs[j - 1] == s2[l - 1]);
        }
    }
}

proof fn lemma_route_ordering(
    app_id: Seq<char>,
    rc: RoutingConfigView,
    ctx: ListenContext,
    files: Map<Seq<char>, Seq<char>>,
)
    requires
        route_views(app_id, rc, ctx, files) is Ok,
    ensures
        fronts_registered(route_views(app_id, rc, ctx, files)->Ok_0),
        certificates_precede(route_views(app_id, rc, ctx, files)->Ok_0),
{
    let vs = route_views(app_id, rc, ctx, files)->Ok_0;
    lemma_order_precedence(app_id, rc, ctx, files);
    assert(vs[0] is AddApplication);
    assert(order_app(vs[0]) == Some(app_id));
    if rc.frontends.https {
        let hs = https_views(app_id, rc, ctx.https, files)->Ok_0;
        if rc.frontends.http {
            assert(vs.len() == 4);
            assert(order_app(vs[1]) == Some(app_id));
            assert(vs[3] == hs[1]);
            assert(order_app(vs[3]) == Some(app_id));
        } else {
            assert(vs.len() == 3);
            assert(vs[2] == hs[1]);
            assert(order_app(vs[2]) == Some(app_id));
        }
    } else {
        if rc.frontends.http {
            assert(vs.len() == 2);
            assert(order_app(vs[1]) == Some(app_id));
        }
    }
    assert forall|j: int| 0 <= j < vs.len() && is_front(#[trigger] vs[j]) implies exists|i: int|
        0 <= i < j && #[trigger] vs[i] is AddApplication && order_app(vs[i]) == order_app(
            vs[j],
        ) by {
        assert(vs[0] is AddApplication && order_app(vs[0]) == order_app(vs[j]));
    }
}

proof fn lemma_routes_ordering(
    app_id: Seq<char>,
    routes: Seq<RoutingConfigView>,
    ctx: ListenContext,
    files: Map<Seq<char>, Seq<char>>,
)
    requires
        routes_views(app_id, routes, ctx, files) is Ok,
    ensures
        fronts_registered(routes_views(app_id, routes, ctx, files)->Ok_0),
        certificates_precede(routes_views(app_id, routes, ctx, files)->Ok_0),
    decreases routes.len(),
{
    if routes.len() == 0 {
    } else {
        lemma_routes_ordering(app_id, routes.drop_last(), ctx, files);
        lemma_route_ordering(app_id, routes.last(), ctx, files);
        lemma_ordering_concat(
            routes_views(app_id, routes.drop_last(), ctx, files)->Ok_0,
            route_views(app_id, routes.last(), ctx, files)->Ok_0,
        );
    }
}

/// Ordering across a whole document: in the emitted order sequence, every
/// front order follows a registration of its application, and every HTTPS
/// front immediately follows the certificate it references.
pub proof fn lemma_document_ordering(
    apps: Seq<crate::config::AppRoutesView>,
    ctx: ListenContext,
    files: Map<Seq<char>, Seq<char>>,
)
    requires
        doc_views(apps, ctx, files) is Ok,
    ensures
        fronts_registered(doc_views(apps, ctx, files)->Ok_0),
        certificates_precede(doc_views(apps, ctx, files)->Ok_0),
    decreases apps.len(),
{
    if apps.len() == 0 {
    } else {
        lemma_document_ordering(apps.drop_last(), ctx, files);
        lemma_routes_ordering(apps.last().app_id, apps.last().routes, ctx, files);
        lemma_ordering_concat(
            doc_views(apps.drop_last(), ctx, files)->Ok_0,
            routes_views(apps.last().app_id, apps.last().routes, ctx, files)->Ok_0,
        );
    }
}

/// Default substitution: a route that omits its path prefix yields fronts
/// on the root path, and omitted sticky-session and redirect flags read as
/// false in the application registration.
pub proof fn lemma_default_substitution(
    app_id: Seq<char>,
    rc: RoutingConfigView,
    ctx: ListenContext,
    files: Map<Seq<char>, Seq<char>>,
)
    requires
        route_views(app_id, rc, ctx, files) is Ok,
        rc.path_begin is None,
        rc.sticky_session is None,
        rc.https_redirect is None,
    ensures
        ({
            let vs = route_views(app_id, rc, ctx, files)->Ok_0;
            &&& vs[0] == (OrderView::AddApplication {
                app_id: app_id,
                sticky_session: false,
                https_redirect: false,
                proxy_protocol: rc.proxy_protocol,
            })
            &&& forall|i: int|
                0 <= i < vs.len() ==> (match #[trigger] vs[i] {
                    OrderView::AddHttpFront { path_begin, .. } => path_begin == "/"@,
                    OrderView::AddHttpsFront { path_begin, .. } => path_begin == "/"@,
                    _ => true,
                })
        }),
{
    let vs = route_views(app_id, rc, ctx, files)->Ok_0;
    if rc.frontends.https {
        let hs = https_views(app_id, rc, ctx.https, files)->Ok_0;
        assert(hs.len() == 2);
        if rc.frontends.http {
            assert(vs.len() == 4);
            assert(vs[2] == hs[0]);
            assert(vs[3] == hs[1]);
        } else {
            assert(vs.len() == 3);
            assert(vs[1] == hs[0]);
            assert(vs[2] == hs[1]);
        }
    }
}

/// An HTTPS route without a certificate field fails translation with a
/// missing-item error naming the certificate; no orders are emitted for
/// the route, so no state is returned for the document.
pub proof fn lemma_missing_certificate(
    app_id: Seq<char>,
    rc: RoutingConfigView,
    ctx: ListenContext,
    files: Map<Seq<char>, Seq<char>>,
)
    requires
        rc.frontends.https,
        rc.certificate is None,
    ensures
        route_views(app_id, rc, ctx, files) == Result::<Seq<OrderView>, _>::Err(
            TranslateErrorView::Parse(ParseErrorView::MissingItem("Certificate"@)),
        ),
{
}

} // verus!

