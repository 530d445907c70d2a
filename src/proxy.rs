use crate::address::SocketAddress;
use crate::configuration::{
    contains_hostname, lemma_lookup_registered, lookup, ConfigurationView, CurrentConfiguration,
};
use vstd::prelude::*;

verus! {

/// The hostname under which the daemon's own web interface answers.
pub const WEB_HOSTNAME: &'static str = "cabin.jensmeindertsma.com";

/// Why a request could not be forwarded to its backend, by the step that
/// failed; the text is for the daemon's log.
#[derive(Debug)]
pub enum FetchError {
    /// Opening a connection to the backend failed.
    Connection(String),
    /// The HTTP handshake with the backend failed.
    Handshake(String),
    /// Sending the request or receiving the response failed.
    Send(String),
}

/// Why the proxy served a request itself instead of its backend.
#[derive(Debug)]
pub enum ProxyError {
    FetchError(FetchError),
}

/// A page that the daemon produces itself.
#[derive(Debug)]
pub enum LocalPage {
    /// The request has no usable `Host` header.
    MissingHost,
    /// No application is registered under `host`.
    UnknownHost { host: String },
    /// The backend could not be reached.
    Failed { error: ProxyError },
    /// The request is for the daemon's web interface.
    WebInterface,
}

/// A complete response made by the daemon: a status code and an HTML body.
#[derive(Debug)]
pub struct LocalResponse {
    pub status: u16,
    pub body: String,
}

/// The response that ends a request: the backend's own, unchanged, or one
/// made locally.
#[derive(Debug)]
pub enum Served<R> {
    Backend(R),
    Local(LocalResponse),
}

/// Where one request stands. `Routing` leads to `Forwarding` or
/// `ServingLocal`; a failed forward leads to `ServingLocal`; both end in
/// `Done`.
#[derive(Debug)]
pub enum ProxyState<R> {
    Routing,
    Forwarding { address: SocketAddress },
    ServingLocal { page: LocalPage },
    Done { response: Served<R> },
}

/// What a [`FetchError`] is, as a mathematical value.
pub ghost enum FetchErrorView {
    Connection(Seq<char>),
    Handshake(Seq<char>),
    Send(Seq<char>),
}

/// What a [`LocalPage`] is, as a mathematical value.
pub ghost enum PageView {
    MissingHost,
    UnknownHost(Seq<char>),
    Failed(FetchErrorView),
    WebInterface,
}

/// What a [`Served`] response is: the backend's, or a status and a body.
pub ghost enum ServedView<R> {
    Backend(R),
    Local(u16, Seq<char>),
}

/// What a [`ProxyState`] is, as a mathematical value.
pub ghost enum StateView<R> {
    Routing,
    Forwarding(SocketAddress),
    ServingLocal(PageView),
    Done(ServedView<R>),
}

impl View for FetchError {
    type V = FetchErrorView;

    open spec fn view(&self) -> FetchErrorView {
        match self {
            FetchError::Connection(t) => FetchErrorView::Connection(t@),
            FetchError::Handshake(t) => FetchErrorView::Handshake(t@),
            FetchError::Send(t) => FetchErrorView::Send(t@),
        }
    }
}

impl View for LocalPage {
    type V = PageView;

    open spec fn view(&self) -> PageView {
        match self {
            LocalPage::MissingHost => PageView::MissingHost,
            LocalPage::UnknownHost { host } => PageView::UnknownHost(host@),
            LocalPage::Failed { error: ProxyError::FetchError(e) } => PageView::Failed(e@),
            LocalPage::WebInterface => PageView::WebInterface,
        }
    }
}

impl<R> View for ProxyState<R> {
    type V = StateView<R>;

    open spec fn view(&self) -> StateView<R> {
        match self {
            ProxyState::Routing => StateView::Routing,
            ProxyState::Forwarding { address } => StateView::Forwarding(*address),
            ProxyState::ServingLocal { page } => StateView::ServingLocal(page@),
            ProxyState::Done { response: Served::Backend(r) } => StateView::Done(
                ServedView::Backend(*r),
            ),
            ProxyState::Done { response: Served::Local(l) } => StateView::Done(
                ServedView::Local(l.status, l.body@),
            ),
        }
    }
}

/// Where a request for `host` goes on the snapshot `c`.
pub open spec fn route_of<R>(host: Option<Seq<char>>, c: ConfigurationView) -> StateView<R> {
    match host {
        None => StateView::ServingLocal(PageView::MissingHost),
        Some(h) => if h == WEB_HOSTNAME@ {
            StateView::ServingLocal(PageView::WebInterface)
        } else {
            match lookup(c.applications, h) {
                Some(address) => StateView::Forwarding(address),
                None => StateView::ServingLocal(PageView::UnknownHost(h)),
            }
        },
    }
}

/// The name of the step that failed, which is all that a client is shown.
pub open spec fn kind_name(e: FetchErrorView) -> Seq<char> {
    match e {
        FetchErrorView::Connection(_) => "Connection"@,
        FetchErrorView::Handshake(_) => "Handshake"@,
        FetchErrorView::Send(_) => "Send"@,
    }
}

/// The status code and body of a local page.
pub open spec fn rendering(page: PageView) -> (u16, Seq<char>) {
    match page {
        PageView::MissingHost => (404, "<h1>[sailor] no host header?</h1>\n"@),
        PageView::UnknownHost(h) => (
            404,
            "<h1>[sailor] unknown host "@ + h + "</h1>\n"@,
        ),
        PageView::Failed(e) => (
            500,
            "<h1>[sailor] failed to connect to target address</h1><pre><code>"@ + kind_name(e)
                + "</code></pre>\n"@,
        ),
        PageView::WebInterface => (200, "<h1>Hello, World! Welcome to the interface!</h1>\n"@),
    }
}

/// The state after routing a request whose `Host` is `host`.
pub open spec fn routed<R>(
    s: StateView<R>,
    host: Option<Seq<char>>,
    c: ConfigurationView,
) -> StateView<R> {
    match s {
        StateView::Routing => route_of(host, c),
        _ => s,
    }
}

/// The state after the forward finished with `outcome`.
pub open spec fn fetched<R>(s: StateView<R>, outcome: Result<R, FetchErrorView>) -> StateView<R> {
    match s {
        StateView::Forwarding(_) => match outcome {
            Ok(r) => StateView::Done(ServedView::Backend(r)),
            Err(e) => StateView::ServingLocal(PageView::Failed(e)),
        },
        _ => s,
    }
}

/// The state after a local page was made.
pub open spec fn rendered<R>(s: StateView<R>) -> StateView<R> {
    match s {
        StateView::ServingLocal(page) => StateView::Done(
            ServedView::Local(rendering(page).0, rendering(page).1),
        ),
        _ => s,
    }
}

/// The view of a forward's outcome.
pub open spec fn outcome_view<R>(outcome: Result<R, FetchError>) -> Result<R, FetchErrorView> {
    match outcome {
        Ok(r) => Ok(r),
        Err(e) => Err(e@),
    }
}

/// The view of a `Host` value, if any.
pub open spec fn host_view(host: Option<String>) -> Option<Seq<char>> {
    match host {
        Some(h) => Some(h@),
        None => None,
    }
}

impl FetchError {
    /// The name of the step that failed.
    pub fn kind(&self) -> (r: &'static str)
        ensures
            r@ == kind_name(self@),
    {
        match self {
            FetchError::Connection(_) => "Connection",
            FetchError::Handshake(_) => "Handshake",
            FetchError::Send(_) => "Send",
        }
    }
}

impl LocalPage {
    /// The response that shows this page.
    pub fn render(&self) -> (r: LocalResponse)
        ensures
            (r.status, r.body@) == rendering(self@),
    {
        match self {
            LocalPage::MissingHost => LocalResponse {
                status: 404,
                body: String::from_str("<h1>[sailor] no host header?</h1>\n"),
            },
            LocalPage::UnknownHost { host } => {
                let mut body = String::from_str("<h1>[sailor] unknown host ");
                body.append(host.as_str());
                body.append("</h1>\n");
                LocalResponse { status: 404, body }
            },
            LocalPage::Failed { error: ProxyError::FetchError(e) } => {
                let mut body = String::from_str(
                    "<h1>[sailor] failed to connect to target address</h1><pre><code>",
                );
                body.append(e.kind());
                body.append("</code></pre>\n");
                LocalResponse { status: 500, body }
            },
            LocalPage::WebInterface => LocalResponse {
                status: 200,
                body: String::from_str("<h1>Hello, World! Welcome to the interface!</h1>\n"),
            },
        }
    }
}

impl<R> ProxyState<R> {
    /// The state of a request that has just arrived.
    pub fn new() -> (r: ProxyState<R>)
        ensures
            r@ == StateView::<R>::Routing,
    {
        ProxyState::Routing
    }

    /// Routes a request whose `Host` header is `host` (`None` when it is
    /// absent or unreadable) on the snapshot `config`: the web interface's
    /// hostname is served locally, a registered hostname is forwarded to its
    /// application's address, any other host gets the unknown-host page.
    /// A state other than `Routing` is returned unchanged.
    pub fn route(self, host: Option<String>, config: &CurrentConfiguration) -> (r: ProxyState<R>)
        ensures
            r@ == routed(self@, host_view(host), config@),
    {
        match self {
            ProxyState::Routing => match host {
                None => ProxyState::ServingLocal { page: LocalPage::MissingHost },
                Some(host) => {
                    if host == String::from_str(WEB_HOSTNAME) {
                        ProxyState::ServingLocal { page: LocalPage::WebInterface }
                    } else {
                        match config.find(&host) {
                            Some(address) => ProxyState::Forwarding { address },
                            None => ProxyState::ServingLocal {
                                page: LocalPage::UnknownHost { host },
                            },
                        }
                    }
                },
            },
            other => other,
        }
    }

    /// Takes the result of forwarding: the backend's response ends the
    /// request as it is, a failure leads to the error page that names the
    /// failed step. A state other than `Forwarding` is returned unchanged.
    pub fn fetched(self, outcome: Result<R, FetchError>) -> (r: ProxyState<R>)
        ensures
            r@ == fetched(self@, outcome_view(outcome)),
    {
        match self {
            ProxyState::Forwarding { .. } => match outcome {
                Ok(response) => ProxyState::Done { response: Served::Backend(response) },
                Err(error) => ProxyState::ServingLocal {
                    page: LocalPage::Failed { error: ProxyError::FetchError(error) },
                },
            },
            other => other,
        }
    }

    /// Makes the local page and ends the request with it. A state other
    /// than `ServingLocal` is returned unchanged.
    pub fn rendered(self) -> (r: ProxyState<R>)
        ensures
            r@ == rendered(self@),
    {
        match self {
            ProxyState::ServingLocal { page } => ProxyState::Done {
                response: Served::Local(page.render()),
            },
            other => other,
        }
    }
}

/// A request for a host that is neither the web interface's nor registered
/// goes to the unknown-host page, which names that host, and never to a
/// backend.
pub proof fn lemma_unknown_host_served_locally<R>(c: ConfigurationView, host: Seq<char>)
    requires
        host != WEB_HOSTNAME@,
        !contains_hostname(c.applications, host),
    ensures
        routed(StateView::<R>::Routing, Some(host), c) == StateView::<R>::ServingLocal(
            PageView::UnknownHost(host),
        ),
        rendered(routed(StateView::<R>::Routing, Some(host), c)) == StateView::<R>::Done(
            ServedView::Local(404, "<h1>[sailor] unknown host "@ + host + "</h1>\n"@),
        ),
{
    lemma_lookup_registered(c.applications, host);
}

/// A request for a registered host whose backend cannot be connected to
/// ends with the local error page that names the `Connection` step.
pub proof fn lemma_unreachable_backend_served_locally<R>(
    c: ConfigurationView,
    host: Seq<char>,
    text: Seq<char>,
)
    requires
        host != WEB_HOSTNAME@,
        contains_hostname(c.applications, host),
    ensures
        routed(StateView::<R>::Routing, Some(host), c) is Forwarding,
        fetched(
            routed(StateView::<R>::Routing, Some(host), c),
            Err(FetchErrorView::Connection(text)),
        ) == StateView::<R>::ServingLocal(PageView::Failed(FetchErrorView::Connection(text))),
        rendered(
            fetched(
                routed(StateView::<R>::Routing, Some(host), c),
                Err(FetchErrorView::Connection(text)),
            ),
        ) == StateView::<R>::Done(
            ServedView::Local(
                500,
                "<h1>[sailor] failed to connect to target address</h1><pre><code>"@
                    + "Connection"@ + "</code></pre>\n"@,
            ),
        ),
{
    lemma_lookup_registered(c.applications, host);
}

/// A request for a registered host is forwarded to the address registered
/// under it, and the backend's response ends the request unchanged.
pub proof fn lemma_backend_response_passed_through<R>(
    c: ConfigurationView,
    host: Seq<char>,
    response: R,
)
    requires
        host != WEB_HOSTNAME@,
        contains_hostname(c.applications, host),
    ensures
        exists|i: int|
            0 <= i < c.applications.len() && (#[trigger] c.applications[i]).hostname == host
                && routed(StateView::<R>::Routing, Some(host), c) == StateView::<R>::Forwarding(
                c.applications[i].address,
            ),
        fetched(routed(StateView::<R>::Routing, Some(host), c), Ok(response)) == StateView::<
            R,
        >::Done(ServedView::Backend(response)),
{
    lemma_lookup_registered(c.applications, host);
}

/// Whatever the host and whatever the forward's outcome, routing, taking
/// the outcome and making the local page leaves every request `Done`: the
/// client always gets a complete response.
pub proof fn lemma_every_request_ends_done<R>(
    c: ConfigurationView,
    host: Option<Seq<char>>,
    outcome: Result<R, FetchErrorView>,
)
    ensures
        rendered(fetched(routed(StateView::<R>::Routing, host, c), outcome)) is Done,
{
}

} // verus!
