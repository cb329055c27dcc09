//! The configuration translator: turns a declarative document into an
//! ordered sequence of proxy orders and folds each order into a fresh
//! configuration store the moment it is emitted, exactly as
//! `translation_spec` describes.

use vstd::prelude::*;
use crate::config::{AppRoutes, AppRoutesView, FileStore, ListenContext, RoutingConfigView, RoutingConfig};
use crate::errors::{OperationError, ParseError, TranslateError, TranslateErrorView};
use crate::orders::OrderView;
use crate::proxy::{
    apply_of,
    apply_order,
    chain_parts_of,
    compute_fingerprint,
    empty_content,
    fingerprint_of,
    make_add_application,
    make_add_certificate,
    make_add_http_front,
    make_add_https_front,
    new_config_state,
    order_model,
    split_chain,
    state_model,
};
use sozu_command_lib::state::ConfigState;

verus! {

/// A route's path prefix; omitting it means the root path.
pub open spec fn effective_path(p: Option<Seq<char>>) -> Seq<char> {
    match p {
        Some(s) => s,
        None => "/"@,
    }
}

/// A route's boolean flags; omitting one means false.
pub open spec fn effective_flag(b: Option<bool>) -> bool {
    match b {
        Some(v) => v,
        None => false,
    }
}

/// The chain a route supplies: the parts of the referenced bundle, or no
/// parts when the field is absent. A supplied bundle whose file was not
/// read never reaches this point: `https_views` rejects it first.
pub open spec fn chain_of(chain_path: Option<Seq<char>>, files: Map<Seq<char>, Seq<char>>) -> Seq<
    Seq<char>,
> {
    match chain_path {
        None => Seq::empty(),
        Some(p) => chain_parts_of(files[p]),
    }
}

/// The certificate and HTTPS-front orders once every referenced file is at
/// hand: fails only when no fingerprint can be computed from the
/// certificate text.
pub open spec fn https_front_views(
    app_id: Seq<char>,
    rc: RoutingConfigView,
    https_addr: crate::config::HostPort,
    files: Map<Seq<char>, Seq<char>>,
    cert_path: Seq<char>,
    key_path: Seq<char>,
) -> Result<Seq<OrderView>, TranslateErrorView> {
    match fingerprint_of(files[cert_path]) {
        None => Err(TranslateErrorView::Fingerprint),
        Some(fp) => Ok(
            seq![
                OrderView::AddCertificate {
                    front: https_addr,
                    certificate: files[cert_path],
                    certificate_chain: chain_of(rc.certificate_chain, files),
                    key: files[key_path],
                    names: seq![rc.hostname],
                },
                OrderView::AddHttpsFront {
                    app_id: app_id,
                    address: https_addr,
                    hostname: rc.hostname,
                    path_begin: effective_path(rc.path_begin),
                    fingerprint: fp,
                },
            ],
        ),
    }
}

/// The orders an HTTPS front adds for one route: the certificate first,
/// then the front that references its fingerprint. Fails when the
/// certificate or key field is absent, when any referenced file — the
/// chain's included — was not read, or when no fingerprint can be
/// computed.
pub open spec fn https_views(
    app_id: Seq<char>,
    rc: RoutingConfigView,
    https_addr: crate::config::HostPort,
    files: Map<Seq<char>, Seq<char>>,
) -> Result<Seq<OrderView>, TranslateErrorView> {
    match rc.certificate {
        None => Err(
            TranslateErrorView::Parse(crate::errors::ParseErrorView::MissingItem("Certificate"@)),
        ),
        Some(cert_path) => if !files.contains_key(cert_path) {
            Err(TranslateErrorView::Operation(crate::errors::OperationErrorView::FileLoad(cert_path)))
        } else {
            match rc.key {
                None => Err(
                    TranslateErrorView::Parse(crate::errors::ParseErrorView::MissingItem("Key"@)),
                ),
                Some(key_path) => if !files.contains_key(key_path) {
                    Err(
                        TranslateErrorView::Operation(
                            crate::errors::OperationErrorView::FileLoad(key_path),
                        ),
                    )
                } else {
                    match rc.certificate_chain {
                        Some(chain_path) => if !files.contains_key(chain_path) {
                            Err(
                                TranslateErrorView::Operation(
                                    crate::errors::OperationErrorView::FileLoad(chain_path),
                                ),
                            )
                        } else {
                            https_front_views(app_id, rc, https_addr, files, cert_path, key_path)
                        },
                        None => https_front_views(
                            app_id,
                            rc,
                            https_addr,
                            files,
                            cert_path,
                            key_path,
                        ),
                    }
                },
            }
        },
    }
}

/// The orders one route emits, in order: its application registration,
/// then its HTTP front if declared, then its certificate and HTTPS front
/// if declared.
pub open spec fn route_views(
    app_id: Seq<char>,
    rc: RoutingConfigView,
    ctx: ListenContext,
    files: Map<Seq<char>, Seq<char>>,
) -> Result<Seq<OrderView>, TranslateErrorView> {
    let base = seq![
        OrderView::AddApplication {
            app_id: app_id,
            sticky_session: effective_flag(rc.sticky_session),
            https_redirect: effective_flag(rc.https_redirect),
            proxy_protocol: rc.proxy_protocol,
        },
    ];
    let with_http = if rc.frontends.http {
        base.push(
            OrderView::AddHttpFront {
                app_id: app_id,
                address: ctx.http,
                hostname: rc.hostname,
                path_begin: effective_path(rc.path_begin),
            },
        )
    } else {
        base
    };
    if rc.frontends.https {
        match https_views(app_id, rc, ctx.https, files) {
            Err(e) => Err(e),
            Ok(hs) => Ok(with_http + hs),
        }
    } else {
        Ok(with_http)
    }
}

/// The orders one application's route list emits; the first failing route
/// aborts the list.
pub open spec fn routes_views(
    app_id: Seq<char>,
    routes: Seq<RoutingConfigView>,
    ctx: ListenContext,
    files: Map<Seq<char>, Seq<char>>,
) -> Result<Seq<OrderView>, TranslateErrorView>
    decreases routes.len(),
{
    if routes.len() == 0 {
        Ok(Seq::empty())
    } else {
        match routes_views(app_id, routes.drop_last(), ctx, files) {
            Err(e) => Err(e),
            Ok(front) => match route_views(app_id, routes.last(), ctx, files) {
                Err(e) => Err(e),
                Ok(tail) => Ok(front + tail),
            },
        }
    }
}

/// The orders the whole document emits; the first failing entry aborts the
/// document.
pub open spec fn doc_views(
    apps: Seq<AppRoutesView>,
    ctx: ListenContext,
    files: Map<Seq<char>, Seq<char>>,
) -> Result<Seq<OrderView>, TranslateErrorView>
    decreases apps.len(),
{
    if apps.len() == 0 {
        Ok(Seq::empty())
    } else {
        match doc_views(apps.drop_last(), ctx, files) {
            Err(e) => Err(e),
            Ok(front) => match routes_views(
                apps.last().app_id,
                apps.last().routes,
                ctx,
                files,
            ) {
                Err(e) => Err(e),
                Ok(tail) => Ok(front + tail),
            },
        }
    }
}

/// The store content an order sequence leaves when folded left to right
/// over a starting content.
pub open spec fn fold_apply(m: Map<Seq<char>, Seq<char>>, orders: Seq<OrderView>) -> Map<
    Seq<char>,
    Seq<char>,
>
    decreases orders.len(),
{
    if orders.len() == 0 {
        m
    } else {
        apply_of(fold_apply(m, orders.drop_last()), orders.last())
    }
}

/// What translating a document yields: the content of a fresh store with
/// the document's orders folded in, or the first error.
pub open spec fn translation_spec(
    apps: Seq<AppRoutesView>,
    ctx: ListenContext,
    files: Map<Seq<char>, Seq<char>>,
) -> Result<Map<Seq<char>, Seq<char>>, TranslateErrorView> {
    match doc_views(apps, ctx, files) {
        Err(e) => Err(e),
        Ok(vs) => Ok(fold_apply(empty_content(), vs)),
    }
}

pub proof fn lemma_fold_push(m: Map<Seq<char>, Seq<char>>, s: Seq<OrderView>, v: OrderView)
    ensures
        fold_apply(m, s.push(v)) == apply_of(fold_apply(m, s), v),
{
    assert(s.push(v).drop_last() =~= s);
    assert(s.push(v).last() == v);
}

pub proof fn lemma_fold_concat(m: Map<Seq<char>, Seq<char>>, s1: Seq<OrderView>, s2: Seq<OrderView>)
    ensures
        fold_apply(m, s1 + s2) == fold_apply(fold_apply(m, s1), s2),
    decreases s2.len(),
{
    if s2.len() == 0 {
        assert(s1 + s2 =~= s1);
    } else {
        assert((s1 + s2).drop_last() =~= s1 + s2.drop_last());
        assert((s1 + s2).last() == s2.last());
        lemma_fold_concat(m, s1, s2.drop_last());
    }
}

/// Applies one route's orders to the store, per `route_views`.
fn apply_route(
    state: &mut ConfigState,
    app_id: &String,
    rc: &RoutingConfig,
    ctx: &ListenContext,
    files: &FileStore,
) -> (r: Result<(), TranslateError>)
    ensures
        match (r, route_views(app_id@, rc@, *ctx, files@)) {
            (Ok(_), Ok(vs)) => state_model(*final(state)) == fold_apply(
                state_model(*old(state)),
                vs,
            ),
            (Err(e), Err(ev)) => e@ == ev,
            _ => false,
        },
{
    let ghost m0 = state_model(*state);
    let path_begin: String = match &rc.path_begin {
        Some(p) => p.clone(),
        None => "/".to_owned(),
    };
    let sticky_session = match rc.sticky_session {
        Some(b) => b,
        None => false,
    };
    let https_redirect = match rc.https_redirect {
        Some(b) => b,
        None => false,
    };

    let o1 = make_add_application(app_id, sticky_session, https_redirect, rc.proxy_protocol);
    apply_order(state, &o1);
    let ghost v1 = OrderView::AddApplication {
        app_id: app_id@,
        sticky_session: effective_flag(rc@.sticky_session),
        https_redirect: effective_flag(rc@.https_redirect),
        proxy_protocol: rc@.proxy_protocol,
    };
    let ghost mut emitted: Seq<OrderView> = seq![v1];
    proof {
        assert(order_model(o1) == v1);
        assert(fold_apply(m0, Seq::<OrderView>::empty()) == m0);
        assert(emitted.drop_last() =~= Seq::<OrderView>::empty());
        assert(emitted.last() == v1);
        assert(fold_apply(m0, emitted) == apply_of(m0, v1));
        assert(state_model(*state) == fold_apply(m0, emitted));
    }

    if rc.frontends.http {
        let o2 = make_add_http_front(app_id, ctx.http, &rc.hostname, &path_begin);
        apply_order(state, &o2);
        let ghost v2 = OrderView::AddHttpFront {
            app_id: app_id@,
            address: ctx.http,
            hostname: rc@.hostname,
            path_begin: effective_path(rc@.path_begin),
        };
        proof {
            lemma_fold_push(m0, emitted, v2);
            emitted = emitted.push(v2);
        }
    }

    if rc.frontends.https {
        let cert_path = match &rc.certificate {
            Some(p) => p,
            None => {
                return Err(TranslateError::Parse(ParseError::MissingItem("Certificate".to_owned())));
            },
        };
        let certificate = match files.get(cert_path) {
            Some(c) => c.clone(),
            None => {
                return Err(TranslateError::Operation(OperationError::FileLoad(cert_path.clone())));
            },
        };
        let key_path = match &rc.key {
            Some(p) => p,
            None => {
                return Err(TranslateError::Parse(ParseError::MissingItem("Key".to_owned())));
            },
        };
        let key = match files.get(key_path) {
            Some(c) => c.clone(),
            None => {
                return Err(TranslateError::Operation(OperationError::FileLoad(key_path.clone())));
            },
        };
        let chain: Vec<String> = match &rc.certificate_chain {
            Some(p) => match files.get(p) {
                Some(c) => split_chain(c.clone()),
                None => {
                    return Err(TranslateError::Operation(OperationError::FileLoad(p.clone())));
                },
            },
            None => Vec::new(),
        };
        proof {
            assert(chain.deep_view() =~= chain_of(rc@.certificate_chain, files@));
        }
        let fingerprint = match compute_fingerprint(&certificate) {
            Some(f) => f,
            None => {
                return Err(TranslateError::Fingerprint);
            },
        };

        let o3 = make_add_certificate(ctx.https, &certificate, &chain, &key, &rc.hostname);
        apply_order(state, &o3);
        let ghost v3 = OrderView::AddCertificate {
            front: ctx.https,
            certificate: files@[cert_path@],
            certificate_chain: chain_of(rc@.certificate_chain, files@),
            key: files@[key_path@],
            names: seq![rc@.hostname],
        };
        proof {
            lemma_fold_push(m0, emitted, v3);
            emitted = emitted.push(v3);
        }

        let o4 = make_add_https_front(app_id, ctx.https, &rc.hostname, &path_begin, &fingerprint);
        apply_order(state, &o4);
        let ghost v4 = OrderView::AddHttpsFront {
            app_id: app_id@,
            address: ctx.https,
            hostname: rc@.hostname,
            path_begin: effective_path(rc@.path_begin),
            fingerprint: fingerprint@,
        };
        proof {
            lemma_fold_push(m0, emitted, v4);
            emitted = emitted.push(v4);
        }

        proof {
            let vs = route_views(app_id@, rc@, *ctx, files@)->Ok_0;
            assert(vs =~= emitted);
            assert(state_model(*state) == fold_apply(m0, emitted));
        }
        return Ok(());
    }

    proof {
        let vs = route_views(app_id@, rc@, *ctx, files@)->Ok_0;
        assert(vs =~= emitted);
    }
    Ok(())
}

/// If the earlier routes succeed and route `j` fails, the list fails with
/// route `j`'s error.
proof fn lemma_routes_views_err(
    app_id: Seq<char>,
    routes: Seq<RoutingConfigView>,
    j: int,
    ctx: ListenContext,
    files: Map<Seq<char>, Seq<char>>,
)
    requires
        0 <= j < routes.len(),
        routes_views(app_id, routes.take(j), ctx, files) is Ok,
        route_views(app_id, routes[j], ctx, files) is Err,
    ensures
        routes_views(app_id, routes, ctx, files) == Result::<Seq<OrderView>, _>::Err(
            route_views(app_id, routes[j], ctx, files)->Err_0,
        ),
    decreases routes.len(),
{
    if j == routes.len() - 1 {
        assert(routes.take(j) =~= routes.drop_last());
    } else {
        assert(routes.drop_last().take(j) =~= routes.take(j));
        assert(routes.drop_last()[j] == routes[j]);
        lemma_routes_views_err(app_id, routes.drop_last(), j, ctx, files);
    }
}

/// If the earlier entries succeed and entry `i` fails, the document fails
/// with entry `i`'s error.
proof fn lemma_doc_views_err(
    apps: Seq<AppRoutesView>,
    i: int,
    ctx: ListenContext,
    files: Map<Seq<char>, Seq<char>>,
)
    requires
        0 <= i < apps.len(),
        doc_views(apps.take(i), ctx, files) is Ok,
        routes_views(apps[i].app_id, apps[i].routes, ctx, files) is Err,
    ensures
        doc_views(apps, ctx, files) == Result::<Seq<OrderView>, _>::Err(
            routes_views(apps[i].app_id, apps[i].routes, ctx, files)->Err_0,
        ),
    decreases apps.len(),
{
    if i == apps.len() - 1 {
        assert(apps.take(i) =~= apps.drop_last());
    } else {
        assert(apps.drop_last().take(i) =~= apps.take(i));
        assert(apps.drop_last()[i] == apps[i]);
        lemma_doc_views_err(apps.drop_last(), i, ctx, files);
    }
}

/// Translates a declarative document into a fresh configuration store by
/// synthesizing and applying its orders in document order. Aborts at the
/// first error; no partial store is returned.
pub fn translate(doc: &Vec<AppRoutes>, ctx: &ListenContext, files: &FileStore) -> (r: Result<
    ConfigState,
    TranslateError,
>)
    ensures
        match (r, translation_spec(doc.deep_view(), *ctx, files@)) {
            (Ok(state), Ok(m)) => state_model(state) == m,
            (Err(e), Err(ev)) => e@ == ev,
            _ => false,
        },
{
    let mut state = new_config_state();
    let ghost mut acc: Seq<OrderView> = Seq::empty();
    let napps = doc.len();
    let mut i: usize = 0;
    proof {
        assert(doc.deep_view().take(0) =~= Seq::<AppRoutesView>::empty());
    }
    while i < napps
        invariant
            0 <= i <= napps,
            napps == doc.len(),
            doc_views(doc.deep_view().take(i as int), *ctx, files@) == Result::<_,
                TranslateErrorView,
            >::Ok(acc),
            state_model(state) == fold_apply(empty_content(), acc),
        decreases napps - i,
    {
        let ghost doc_prefix = doc.deep_view().take(i as int);
        let app = &doc[i];
        let nroutes = app.routes.len();
        let mut j: usize = 0;
        let ghost mut racc: Seq<OrderView> = Seq::empty();
        proof {
            assert(doc.deep_view()[i as int] == doc[i as int]@);
            assert(app.routes.deep_view().take(0) =~= Seq::<RoutingConfigView>::empty());
        }
        while j < nroutes
            invariant
                0 <= j <= nroutes,
                0 <= i < napps,
                napps == doc.len(),
                nroutes == app.routes.len(),
                *app == doc[i as int],
                doc.deep_view()[i as int] == doc[i as int]@,
                doc_prefix == doc.deep_view().take(i as int),
                doc_views(doc_prefix, *ctx, files@) == Result::<_, TranslateErrorView>::Ok(acc),
                routes_views(app@.app_id, app.routes.deep_view().take(j as int), *ctx, files@)
                    == Result::<_, TranslateErrorView>::Ok(racc),
                state_model(state) == fold_apply(empty_content(), acc + racc),
            decreases nroutes - j,
        {
            let ghost route_prefix = app.routes.deep_view().take(j as int);
            proof {
                assert(app.routes.deep_view()[j as int] == app.routes[j as int]@);
            }
            match apply_route(&mut state, &app.app_id, &app.routes[j], ctx, files) {
                Ok(_) => {
                    let ghost vs = route_views(app@.app_id, app.routes[j as int]@, *ctx, files@)
                        ->Ok_0;
                    proof {
                        assert(app.routes.deep_view().take(j + 1).drop_last() =~= route_prefix);
                        assert(app.routes.deep_view().take(j + 1).last()
                            == app.routes.deep_view()[j as int]);
                        lemma_fold_concat(empty_content(), acc + racc, vs);
                        assert((acc + racc) + vs =~= acc + (racc + vs));
                        lemma_fold_concat(empty_content(), acc, racc);
                        lemma_fold_concat(empty_content(), acc, racc + vs);
                        racc = racc + vs;
                    }
                },
                Err(e) => {
                    proof {
                        lemma_routes_views_err(
                            app@.app_id,
                            app.routes.deep_view(),
                            j as int,
                            *ctx,
                            files@,
                        );
                        lemma_doc_views_err(doc.deep_view(), i as int, *ctx, files@);
                        assert(doc.deep_view().take(napps as int) =~= doc.deep_view());
                    }
                    return Err(e);
                },
            }
            j = j + 1;
        }
        proof {
            assert(app.routes.deep_view().take(nroutes as int) =~= app.routes.deep_view());
            assert(doc.deep_view().take(i + 1).drop_last() =~= doc_prefix);
            assert(doc.deep_view().take(i + 1).last() == doc.deep_view()[i as int]);
            lemma_fold_concat(empty_content(), acc, racc);
            acc = acc + racc;
        }
        i = i + 1;
    }
    proof {
        assert(doc.deep_view().take(napps as int) =~= doc.deep_view());
    }
    Ok(state)
}

} // verus!
