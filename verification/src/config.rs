use vstd::prelude::*;

verus! {

/// Proxy-protocol behaviour requested for an application, passed through
/// to the proxy unchanged.
#[derive(Clone, Copy, Debug, PartialEq, Eq, Structural)]
pub enum ProxyProtocol {
    ExpectHeader,
    SendHeader,
    RelayHeader,
}

/// An IPv4 listen endpoint: four address octets and a port.
#[derive(Clone, Copy, Debug, PartialEq, Eq, Structural)]
pub struct HostPort {
    pub a: u8,
    pub b: u8,
    pub c: u8,
    pub d: u8,
    pub port: u16,
}

/// Which front kinds a route declares.
#[derive(Clone, Copy, Debug, PartialEq, Eq, Structural)]
pub struct Frontends {
    pub http: bool,
    pub https: bool,
}

/// One declarative route entry for an application: a hostname, an optional
/// path prefix, the fronts to create, optional certificate material paths,
/// backend authorities, and per-application flags.
#[derive(Clone, Debug)]
pub struct RoutingConfig {
    pub hostname: String,
    pub path_begin: Option<String>,
    pub certificate: Option<String>,
    pub key: Option<String>,
    pub certificate_chain: Option<String>,
    pub frontends: Frontends,
    pub backends: Vec<String>,
    pub sticky_session: Option<bool>,
    pub https_redirect: Option<bool>,
    pub proxy_protocol: Option<ProxyProtocol>,
}

pub struct RoutingConfigView {
    pub hostname: Seq<char>,
    pub path_begin: Option<Seq<char>>,
    pub certificate: Option<Seq<char>>,
    pub key: Option<Seq<char>>,
    pub certificate_chain: Option<Seq<char>>,
    pub frontends: Frontends,
    pub backends: Seq<Seq<char>>,
    pub sticky_session: Option<bool>,
    pub https_redirect: Option<bool>,
    pub proxy_protocol: Option<ProxyProtocol>,
}

impl View for RoutingConfig {
    type V = RoutingConfigView;

    open spec fn view(&self) -> RoutingConfigView {
        RoutingConfigView {
            hostname: self.hostname@,
            path_begin: self.path_begin.deep_view(),
            certificate: self.certificate.deep_view(),
            key: self.key.deep_view(),
            certificate_chain: self.certificate_chain.deep_view(),
            frontends: self.frontends,
            backends: self.backends.deep_view(),
            sticky_session: self.sticky_session,
            https_redirect: self.https_redirect,
            proxy_protocol: self.proxy_protocol,
        }
    }
}

impl DeepView for RoutingConfig {
    type V = RoutingConfigView;

    open spec fn deep_view(&self) -> RoutingConfigView {
        self.view()
    }
}

/// The routes declared for one application id. The same id may appear in
/// several groups; the proxy sees the union.
#[derive(Clone, Debug)]
pub struct AppRoutes {
    pub app_id: String,
    pub routes: Vec<RoutingConfig>,
}

pub struct AppRoutesView {
    pub app_id: Seq<char>,
    pub routes: Seq<RoutingConfigView>,
}

impl View for AppRoutes {
    type V = AppRoutesView;

    open spec fn view(&self) -> AppRoutesView {
        AppRoutesView { app_id: self.app_id@, routes: self.routes.deep_view() }
    }
}

impl DeepView for AppRoutes {
    type V = AppRoutesView;

    open spec fn deep_view(&self) -> AppRoutesView {
        self.view()
    }
}

/// The addresses the proxy's HTTP and HTTPS listeners are bound to; every
/// front and certificate order is attached to one of them.
#[derive(Clone, Copy, Debug, PartialEq, Eq, Structural)]
pub struct ListenContext {
    pub http: HostPort,
    pub https: HostPort,
}

/// A snapshot of loaded files: pairs of a path and the text read from it.
/// A later entry for the same path replaces an earlier one.
pub struct FileStore {
    entries: Vec<(String, String)>,
}

pub open spec fn assoc_map(s: Seq<(Seq<char>, Seq<char>)>) -> Map<Seq<char>, Seq<char>>
    decreases s.len(),
{
    if s.len() == 0 {
        Map::empty()
    } else {
        assoc_map(s.drop_last()).insert(s.last().0, s.last().1)
    }
}

impl View for FileStore {
    type V = Map<Seq<char>, Seq<char>>;

    closed spec fn view(&self) -> Map<Seq<char>, Seq<char>> {
        assoc_map(self.entries.deep_view())
    }
}

impl FileStore {
    pub fn new() -> (r: FileStore)
        ensures
            r@ == Map::<Seq<char>, Seq<char>>::empty(),
    {
        let r = FileStore { entries: Vec::new() };
        proof {
            assert(r.entries.deep_view() =~= Seq::<(Seq<char>, Seq<char>)>::empty());
        }
        r
    }

    /// Records the text read from a path, replacing any earlier entry.
    pub fn add(&mut self, path: String, content: String)
        ensures
            final(self)@ == old(self)@.insert(path@, content@),
    {
        let ghost before = self.entries.deep_view();
        let ghost p = path@;
        let ghost c = content@;
        self.entries.push((path, content));
        proof {
            let after = self.entries.deep_view();
            assert(after =~= before.push((p, c)));
            assert(after.drop_last() =~= before);
        }
    }

    /// Looks the path up in the snapshot.
    pub fn get(&self, path: &String) -> (r: Option<&String>)
        ensures
            match r {
                Some(content) => self@.contains_key(path@) && content@ == self@[path@],
                None => !self@.contains_key(path@),
            },
    {
        let n = self.entries.len();
        let mut i: usize = n;
        while i > 0
            invariant
                i <= n,
                n == self.entries.len(),
                forall|l: int|
                    i <= l < n ==> #[trigger] self.entries.deep_view()[l].0 != path@,
            decreases i,
        {
            i = i - 1;
            if self.entries[i].0.eq(path) {
                proof {
                    assert(self.entries.deep_view()[i as int].0 == self.entries[i as int].0@);
                    lemma_assoc_map_suffix_found(self.entries.deep_view(), i as int, path@);
                }
                return Some(&self.entries[i].1);
            }
            proof {
                assert(self.entries.deep_view()[i as int].0 == self.entries[i as int].0@);
            }
        }
        proof {
            lemma_assoc_map_absent(self.entries.deep_view(), path@);
        }
        None
    }
}

/// If entry `j` holds the key and no later entry does, the map's value for
/// the key is entry `j`'s.
proof fn lemma_assoc_map_suffix_found(s: Seq<(Seq<char>, Seq<char>)>, j: int, k: Seq<char>)
    requires
        0 <= j < s.len(),
        s[j].0 == k,
        forall|l: int| j < l < s.len() ==> #[trigger] s[l].0 != k,
    ensures
        assoc_map(s).contains_key(k),
        assoc_map(s)[k] == s[j].1,
    decreases s.len(),
{
    if j == s.len() - 1 {
    } else {
        assert(s.drop_last()[j] == s[j]);
        lemma_assoc_map_suffix_found(s.drop_last(), j, k);
    }
}

/// A key held by no entry is not in the map.
proof fn lemma_assoc_map_absent(s: Seq<(Seq<char>, Seq<char>)>, k: Seq<char>)
    requires
        forall|l: int| 0 <= l < s.len() ==> #[trigger] s[l].0 != k,
    ensures
        !assoc_map(s).contains_key(k),
    decreases s.len(),
{
    if s.len() > 0 {
        assert(forall|l: int|
            0 <= l < s.drop_last().len() ==> #[trigger] s.drop_last()[l].0 == s[l].0);
        lemma_assoc_map_absent(s.drop_last(), k);
    }
}

} // verus!
