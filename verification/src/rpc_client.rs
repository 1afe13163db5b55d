//! Settings of the JSON-RPC client, the choice of transport, the health probe
//! sequence, and the address of a nucleus's own RPC endpoint.

use crate::config::{DEFAULT_MAX_BODY_SIZE, DEFAULT_RPC_URL, DEFAULT_TIMEOUT_SECS};
use crate::text::push_char;
use vstd::prelude::*;

verus! {

/// How the JSON-RPC client is set up.
#[derive(Debug, Clone)]
pub struct RpcClientConfig {
    pub url: String,
    pub timeout: u64,
    pub max_request_size: u32,
    pub max_response_size: u32,
    pub use_websocket: bool,
}

impl RpcClientConfig {
    /// The settings used when nothing is configured: the default endpoint over HTTP,
    /// a 30 second timeout and 10 MiB bodies.
    pub open spec fn is_default(&self) -> bool {
        &&& self.url@ == DEFAULT_RPC_URL@
        &&& self.timeout == DEFAULT_TIMEOUT_SECS
        &&& self.max_request_size == DEFAULT_MAX_BODY_SIZE
        &&& self.max_response_size == DEFAULT_MAX_BODY_SIZE
        &&& !self.use_websocket
    }

    /// The transport these settings ask for.
    pub fn transport(&self) -> (t: Transport)
        ensures
            t == (if self.use_websocket {
                Transport::WebSocket
            } else {
                Transport::Http
            }),
    {
        if self.use_websocket {
            Transport::WebSocket
        } else {
            Transport::Http
        }
    }
}

impl Default for RpcClientConfig {
    fn default() -> (c: Self)
        ensures
            c.is_default(),
            c.url@ == DEFAULT_RPC_URL@,
            c.timeout == 30,
            c.max_request_size == 10 * 1024 * 1024,
            c.max_response_size == 10 * 1024 * 1024,
            !c.use_websocket,
    {
        RpcClientConfig {
            url: String::from_str(DEFAULT_RPC_URL),
            timeout: DEFAULT_TIMEOUT_SECS,
            max_request_size: DEFAULT_MAX_BODY_SIZE,
            max_response_size: DEFAULT_MAX_BODY_SIZE,
            use_websocket: false,
        }
    }
}

/// The connection a JSON-RPC client uses.
#[derive(Debug, Clone, Copy, PartialEq, Eq)]
pub enum Transport {
    Http,
    WebSocket,
}

/// Gathers the settings of a JSON-RPC client one at a time, starting from the defaults.
#[derive(Debug)]
pub struct RpcClientBuilder {
    pub config: RpcClientConfig,
}

impl Default for RpcClientBuilder {
    fn default() -> (b: Self)
        ensures
            b.config.is_default(),
    {
        RpcClientBuilder { config: RpcClientConfig::default() }
    }
}

impl RpcClientBuilder {
    /// A builder holding the default settings.
    pub fn new() -> (b: Self)
        ensures
            b.config.is_default(),
            b.config.url@ == DEFAULT_RPC_URL@,
            b.config.timeout == 30,
            b.config.max_request_size == 10 * 1024 * 1024,
            b.config.max_response_size == 10 * 1024 * 1024,
            !b.config.use_websocket,
    {
        RpcClientBuilder { config: RpcClientConfig::default() }
    }

    /// Sets the endpoint; the other settings stay as they were.
    pub fn url(self, url: &str) -> (b: Self)
        ensures
            b.config.url@ == url@,
            b.config.timeout == self.config.timeout,
            b.config.max_request_size == self.config.max_request_size,
            b.config.max_response_size == self.config.max_response_size,
            b.config.use_websocket == self.config.use_websocket,
    {
        let mut b = self;
        b.config.url = String::from_str(url);
        b
    }

    /// Sets the request timeout in seconds; the other settings stay as they were.
    pub fn timeout(self, timeout: u64) -> (b: Self)
        ensures
            b.config.url@ == self.config.url@,
            b.config.timeout == timeout,
            b.config.max_request_size == self.config.max_request_size,
            b.config.max_response_size == self.config.max_response_size,
            b.config.use_websocket == self.config.use_websocket,
    {
        let mut b = self;
        b.config.timeout = timeout;
        b
    }

    /// Sets the largest request body; the other settings stay as they were.
    pub fn max_request_size(self, size: u32) -> (b: Self)
        ensures
            b.config.url@ == self.config.url@,
            b.config.timeout == self.config.timeout,
            b.config.max_request_size == size,
            b.config.max_response_size == self.config.max_response_size,
            b.config.use_websocket == self.config.use_websocket,
    {
        let mut b = self;
        b.config.max_request_size = size;
        b
    }

    /// Sets the largest response body; the other settings stay as they were.
    pub fn max_response_size(self, size: u32) -> (b: Self)
        ensures
            b.config.url@ == self.config.url@,
            b.config.timeout == self.config.timeout,
            b.config.max_request_size == self.config.max_request_size,
            b.config.max_response_size == size,
            b.config.use_websocket == self.config.use_websocket,
    {
        let mut b = self;
        b.config.max_response_size = size;
        b
    }

    /// Chooses WebSocket (`true`) or HTTP (`false`); the other settings stay as they were.
    pub fn use_websocket(self, use_ws: bool) -> (b: Self)
        ensures
            b.config.url@ == self.config.url@,
            b.config.timeout == self.config.timeout,
            b.config.max_request_size == self.config.max_request_size,
            b.config.max_response_size == self.config.max_response_size,
            b.config.use_websocket == use_ws,
    {
        let mut b = self;
        b.config.use_websocket = use_ws;
        b
    }
}

/// An RPC method whose answer shows that a node is serving.
#[derive(Debug, Clone, Copy, PartialEq, Eq)]
pub enum HealthProbe {
    RpcMethods,
    NetVersion,
}

/// The method name sent for a probe.
pub open spec fn probe_method(p: HealthProbe) -> Seq<char> {
    match p {
        HealthProbe::RpcMethods => "rpc_methods"@,
        HealthProbe::NetVersion => "net_version"@,
    }
}

impl HealthProbe {
    /// The method name sent for this probe.
    pub fn method(&self) -> (m: &'static str)
        ensures
            m@ == probe_method(*self),
            *self == HealthProbe::RpcMethods ==> m@ == "rpc_methods"@,
            *self == HealthProbe::NetVersion ==> m@ == "net_version"@,
    {
        match self {
            HealthProbe::RpcMethods => "rpc_methods",
            HealthProbe::NetVersion => "net_version",
        }
    }
}

/// What the health check asks its caller to do next.
#[derive(Debug, Clone, Copy, PartialEq, Eq)]
pub enum HealthAction {
    /// Call this method without parameters and report whether it succeeded.
    Call(HealthProbe),
    /// The check is over; the node is healthy when the value is `true`.
    Report(bool),
}

/// The step of a health check waiting on `pending`, on the outcome `succeeded`: the
/// action it asks for and the probe it then waits on.
pub open spec fn health_step(pending: HealthProbe, succeeded: bool) -> (HealthAction, Option<
    HealthProbe,
>) {
    if succeeded {
        (HealthAction::Report(true), None)
    } else {
        match pending {
            HealthProbe::RpcMethods => (
                HealthAction::Call(HealthProbe::NetVersion),
                Some(HealthProbe::NetVersion),
            ),
            HealthProbe::NetVersion => (HealthAction::Report(false), None),
        }
    }
}

/// The verdict of a health check whose first probe ends with `first_ok` and whose
/// fallback probe, if one is sent, ends with `second_ok`.
pub open spec fn health_verdict(first_ok: bool, second_ok: bool) -> Option<bool> {
    let (a1, p1) = health_step(HealthProbe::RpcMethods, first_ok);
    match a1 {
        HealthAction::Report(v) => Some(v),
        HealthAction::Call(_) => match p1 {
            Some(p) => match health_step(p, second_ok).0 {
                HealthAction::Report(v) => Some(v),
                HealthAction::Call(_) => None,
            },
            None => None,
        },
    }
}

/// Decides whether a node is serving: it asks for `rpc_methods`, falls back to
/// `net_version` when that fails, and reports success when either answers.
pub struct HealthCheck {
    pending: Option<HealthProbe>,
}

impl View for HealthCheck {
    type V = Option<HealthProbe>;

    closed spec fn view(&self) -> Option<HealthProbe> {
        self.pending
    }
}

impl HealthCheck {
    /// Starts a check: the first action is a call of `rpc_methods`.
    pub fn start() -> (r: (HealthCheck, HealthAction))
        ensures
            r.0@ == Some(HealthProbe::RpcMethods),
            r.1 == HealthAction::Call(HealthProbe::RpcMethods),
    {
        (HealthCheck { pending: Some(HealthProbe::RpcMethods) }, HealthAction::Call(HealthProbe::RpcMethods))
    }

    /// Takes the outcome of the pending call and says what to do next.
    pub fn on_outcome(&mut self, succeeded: bool) -> (a: HealthAction)
        requires
            old(self)@ is Some,
        ensures
            (a, final(self)@) == health_step(old(self)@->0, succeeded),
            succeeded ==> a == HealthAction::Report(true) && final(self)@ is None,
            !succeeded && old(self)@ == Some(HealthProbe::RpcMethods) ==> a == HealthAction::Call(
                HealthProbe::NetVersion,
            ) && final(self)@ == Some(HealthProbe::NetVersion),
            !succeeded && old(self)@ == Some(HealthProbe::NetVersion) ==> a
                == HealthAction::Report(false) && final(self)@ is None,
    {
        let pending = match self.pending {
            Some(p) => p,
            None => HealthProbe::NetVersion,
        };
        if succeeded {
            self.pending = None;
            HealthAction::Report(true)
        } else {
            match pending {
                HealthProbe::RpcMethods => {
                    self.pending = Some(HealthProbe::NetVersion);
                    HealthAction::Call(HealthProbe::NetVersion)
                },
                HealthProbe::NetVersion => {
                    self.pending = None;
                    HealthAction::Report(false)
                },
            }
        }
    }
}

/// Law: a health check ends after at most two probes and reports a healthy node
/// exactly when one of its probes succeeded; the fallback is sent only after the
/// first probe failed.
pub proof fn lemma_health_verdict(first_ok: bool, second_ok: bool)
    ensures
        health_verdict(first_ok, second_ok) == Some(first_ok || second_ok),
        first_ok ==> health_step(HealthProbe::RpcMethods, first_ok).1 is None,
        !first_ok ==> health_step(HealthProbe::RpcMethods, first_ok).0 == HealthAction::Call(
            HealthProbe::NetVersion,
        ),
        health_step(HealthProbe::NetVersion, second_ok).1 is None,
{
}

/// Whether `s` holds `://` at position `i`.
pub open spec fn scheme_sep_at(s: Seq<char>, i: int) -> bool {
    &&& 0 <= i
    &&& i + 3 <= s.len()
    &&& s[i] == ':'
    &&& s[i + 1] == '/'
    &&& s[i + 2] == '/'
}

/// The first position at or after `i` where `s` holds `://`, or -1.
pub open spec fn scheme_sep_from(s: Seq<char>, i: int) -> int
    decreases s.len() - i,
{
    if i < 0 || i + 3 > s.len() {
        -1
    } else if scheme_sep_at(s, i) {
        i
    } else {
        scheme_sep_from(s, i + 1)
    }
}

/// The first position at or after `i` where `s` holds `:`, or the length of `s`.
pub open spec fn colon_from(s: Seq<char>, i: int) -> int
    decreases s.len() - i,
{
    if i < 0 || i >= s.len() {
        s.len() as int
    } else if s[i] == ':' {
        i
    } else {
        colon_from(s, i + 1)
    }
}

/// Whether the URL `s` names a scheme, as in `wss://...`.
pub open spec fn has_scheme(s: Seq<char>) -> bool {
    scheme_sep_from(s, 0) >= 0
}

/// The host of the URL `s`: what follows the first `://`, up to the next `:`.
pub open spec fn url_host(s: Seq<char>) -> Seq<char> {
    let start = scheme_sep_from(s, 0) + 3;
    s.subrange(start, colon_from(s, start))
}

/// The RPC address of the nucleus `id`, served on port 9955 of the chain node's host.
pub open spec fn abi_url(rpc_url: Seq<char>, id: Seq<char>) -> Seq<char> {
    "http://"@ + url_host(rpc_url) + ":9955/"@ + id
}

proof fn lemma_scheme_sep_from_range(s: Seq<char>, i: int)
    requires
        0 <= i,
    ensures
        scheme_sep_from(s, i) == -1 || (i <= scheme_sep_from(s, i) && scheme_sep_at(
            s,
            scheme_sep_from(s, i),
        )),
        forall|j: int| i <= j < scheme_sep_from(s, i) ==> !scheme_sep_at(s, j),
        scheme_sep_from(s, i) == -1 ==> forall|j: int| i <= j ==> !scheme_sep_at(s, j),
    decreases s.len() - i,
{
    if !(i + 3 > s.len()) && !scheme_sep_at(s, i) {
        lemma_scheme_sep_from_range(s, i + 1);
    }
}

proof fn lemma_colon_from_range(s: Seq<char>, i: int)
    requires
        0 <= i <= s.len(),
    ensures
        i <= colon_from(s, i) <= s.len(),
        colon_from(s, i) == s.len() || s[colon_from(s, i)] == ':',
        forall|j: int| i <= j < colon_from(s, i) ==> s[j] != ':',
    decreases s.len() - i,
{
    if i < s.len() && s[i] != ':' {
        lemma_colon_from_range(s, i + 1);
    }
}

/// Law: the host of a URL is what follows its first `://`: a run of characters with
/// no `:` in it, which ends the URL or stops right before a `:`.
pub proof fn lemma_url_host(s: Seq<char>)
    requires
        has_scheme(s),
    ensures
        ({
            let k = scheme_sep_from(s, 0);
            let host = url_host(s);
            let e = k + 3 + host.len();
            &&& 0 <= k
            &&& s[k] == ':' && s[k + 1] == '/' && s[k + 2] == '/'
            &&& forall|j: int|
                #![trigger s[j]]
                0 <= j < k ==> !(s[j] == ':' && s[j + 1] == '/' && s[j + 2] == '/')
            &&& e <= s.len()
            &&& host == s.subrange(k + 3, e)
            &&& (e == s.len() || s[e] == ':')
            &&& forall|i: int| 0 <= i < host.len() ==> host[i] != ':'
        }),
{
    lemma_scheme_sep_from_range(s, 0);
    let k = scheme_sep_from(s, 0);
    lemma_colon_from_range(s, k + 3);
    let host = url_host(s);
    assert forall|j: int| #![trigger s[j]] 0 <= j < k implies !(s[j] == ':' && s[j + 1] == '/'
        && s[j + 2] == '/') by {
        assert(!scheme_sep_at(s, j));
    }
    assert forall|i: int| 0 <= i < host.len() implies host[i] != ':' by {
        assert(host[i] == s[k + 3 + i]);
    }
}

/// Law: the address of a nucleus's RPC endpoint is `http://`, the host, `:9955/` and
/// then the whole id, unchanged and at the end.
pub proof fn lemma_abi_url_shape(rpc_url: Seq<char>, id: Seq<char>)
    ensures
        ({
            let r = abi_url(rpc_url, id);
            let h = url_host(rpc_url);
            &&& r.len() == 13 + h.len() + id.len()
            &&& r.subrange(0, 7) == seq!['h', 't', 't', 'p', ':', '/', '/']
            &&& r.subrange(7, 7 + h.len() as int) == h
            &&& r.subrange(7 + h.len() as int, 13 + h.len() as int) == seq![':', '9', '9', '5', '5', '/']
            &&& r.subrange(r.len() - id.len(), r.len() as int) == id
        }),
{
    reveal_strlit("http://");
    reveal_strlit(":9955/");
    let r = abi_url(rpc_url, id);
    let h = url_host(rpc_url);
    assert(r.subrange(0, 7) =~= seq!['h', 't', 't', 'p', ':', '/', '/']);
    assert(r.subrange(7, 7 + h.len() as int) =~= h);
    assert(r.subrange(7 + h.len() as int, 13 + h.len() as int) =~= seq![':', '9', '9', '5', '5', '/']);
    assert(r.subrange(r.len() - id.len(), r.len() as int) =~= id);
}

/// The characters of `s`, in order.
fn chars_of(s: &str) -> (v: Vec<char>)
    ensures
        v@ == s@,
{
    broadcast use vstd::string::group_string_axioms;
    let mut v: Vec<char> = Vec::new();
    for c in it: s.chars()
        invariant
            v@.len() == it.index(),
            forall|k: int| 0 <= k < v@.len() ==> v@[k] == it.seq()[k],
    {
        v.push(c);
    }
    assert(v@ =~= s@);
    v
}

/// The RPC address of the nucleus `id` on the host of the chain endpoint `rpc_url`.
pub fn abi_endpoint(rpc_url: &str, id: &str) -> (r: String)
    requires
        has_scheme(rpc_url@),
    ensures
        r@ == abi_url(rpc_url@, id@),
        r@.len() == 13 + url_host(rpc_url@).len() + id@.len(),
        r@.subrange(7, 7 + url_host(rpc_url@).len() as int) == url_host(rpc_url@),
        r@.subrange(r@.len() - id@.len(), r@.len() as int) == id@,
{
    let cs = chars_of(rpc_url);
    let n = cs.len();
    let ghost s = rpc_url@;
    let mut i: usize = 0;
    while i + 3 <= n && !(cs[i] == ':' && cs[i + 1] == '/' && cs[i + 2] == '/')
        invariant
            cs@ == s,
            n == s.len(),
            i <= n,
            scheme_sep_from(s, i as int) == scheme_sep_from(s, 0),
            scheme_sep_from(s, 0) >= 0,
        decreases n - i,
    {
        i = i + 1;
    }
    proof {
        lemma_scheme_sep_from_range(s, i as int);
    }
    let start = i + 3;
    let mut j = start;
    while j < n && cs[j] != ':'
        invariant
            cs@ == s,
            n == s.len(),
            start <= j <= n,
            colon_from(s, j as int) == colon_from(s, start as int),
        decreases n - j,
    {
        j = j + 1;
    }
    let mut r = String::from_str("http://");
    let ghost prefix = r@;
    let mut k = start;
    while k < j
        invariant
            cs@ == s,
            n == s.len(),
            start <= k <= j <= n,
            r@ == prefix + s.subrange(start as int, k as int),
        decreases j - k,
    {
        push_char(&mut r, cs[k]);
        proof {
            assert(s.subrange(start as int, k + 1) =~= s.subrange(start as int, k as int).push(s[k as int]));
        }
        k = k + 1;
    }
    r.append(":9955/");
    r.append(id);
    proof {
        lemma_abi_url_shape(rpc_url@, id@);
    }
    r
}

} // verus!
