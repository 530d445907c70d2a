use crate::application::{views, Application, ApplicationView};
use crate::configuration::{ConfigurationView, CurrentConfiguration};
use vstd::prelude::*;

verus! {

/// What the operator asks of the daemon.
#[derive(Clone, Debug)]
pub enum Request {
    CreateApplication { application: Application },
    DeleteApplication { hostname: String },
    GetApplications,
    Status,
}

/// What the daemon answers.
#[derive(Clone, Debug)]
pub enum Response {
    Error { message: String },
    Success,
    Status { port: u16, applications: Vec<Application> },
    Applications { applications: Vec<Application> },
}

/// One line from the operator: a request and the id that its reply will
/// carry back.
#[derive(Clone, Debug)]
pub struct Message {
    pub id: u16,
    pub request: Request,
}

/// One line to the operator: a response and the id of the message it
/// answers.
#[derive(Clone, Debug)]
pub struct Reply {
    pub regarding: u16,
    pub response: Response,
}

/// What a [`Request`] is, as a mathematical value.
pub ghost enum RequestView {
    CreateApplication(ApplicationView),
    DeleteApplication(Seq<char>),
    GetApplications,
    Status,
}

/// What a [`Response`] is, as a mathematical value.
pub ghost enum ResponseView {
    Error(Seq<char>),
    Success,
    Status(u16, Seq<ApplicationView>),
    Applications(Seq<ApplicationView>),
}

/// What a [`Message`] is, as a mathematical value.
pub ghost struct MessageView {
    pub id: u16,
    pub request: RequestView,
}

/// What a [`Reply`] is, as a mathematical value.
pub ghost struct ReplyView {
    pub regarding: u16,
    pub response: ResponseView,
}

impl View for Request {
    type V = RequestView;

    open spec fn view(&self) -> RequestView {
        match self {
            Request::CreateApplication { application } => RequestView::CreateApplication(
                application@,
            ),
            Request::DeleteApplication { hostname } => RequestView::DeleteApplication(hostname@),
            Request::GetApplications => RequestView::GetApplications,
            Request::Status => RequestView::Status,
        }
    }
}

impl View for Response {
    type V = ResponseView;

    open spec fn view(&self) -> ResponseView {
        match self {
            Response::Error { message } => ResponseView::Error(message@),
            Response::Success => ResponseView::Success,
            Response::Status { port, applications } => ResponseView::Status(
                *port,
                views(applications@),
            ),
            Response::Applications { applications } => ResponseView::Applications(
                views(applications@),
            ),
        }
    }
}

impl View for Message {
    type V = MessageView;

    open spec fn view(&self) -> MessageView {
        MessageView { id: self.id, request: self.request@ }
    }
}

impl View for Reply {
    type V = ReplyView;

    open spec fn view(&self) -> ReplyView {
        ReplyView { regarding: self.regarding, response: self.response@ }
    }
}

fn same_applications(a: &Vec<Application>, b: &Vec<Application>) -> (r: bool)
    ensures
        r == (views(a@) == views(b@)),
{
    if a.len() != b.len() {
        assert(views(a@).len() != views(b@).len());
        return false;
    }
    let mut i: usize = 0;
    while i < a.len()
        invariant
            a@.len() == b@.len(),
            i <= a@.len(),
            forall|k: int| 0 <= k < i ==> views(a@)[k] == views(b@)[k],
        decreases a.len() - i,
    {
        if a[i] != b[i] {
            assert(views(a@)[i as int] != views(b@)[i as int]);
            return false;
        }
        i = i + 1;
    }
    assert(views(a@) =~= views(b@));
    true
}

impl PartialEq for Request {
    fn eq(&self, other: &Request) -> (r: bool) {
        match self {
            Request::CreateApplication { application: a } => match other {
                Request::CreateApplication { application: b } => a.eq(b),
                _ => false,
            },
            Request::DeleteApplication { hostname: a } => match other {
                Request::DeleteApplication { hostname: b } => a.eq(b),
                _ => false,
            },
            Request::GetApplications => matches!(other, Request::GetApplications),
            Request::Status => matches!(other, Request::Status),
        }
    }
}

impl vstd::std_specs::cmp::PartialEqSpecImpl for Request {
    open spec fn obeys_eq_spec() -> bool {
        true
    }

    open spec fn eq_spec(&self, other: &Request) -> bool {
        self@ == other@
    }
}

impl PartialEq for Response {
    fn eq(&self, other: &Response) -> (r: bool) {
        match self {
            Response::Error { message: a } => match other {
                Response::Error { message: b } => a.eq(b),
                _ => false,
            },
            Response::Success => matches!(other, Response::Success),
            Response::Status { port: p, applications: a } => match other {
                Response::Status { port: q, applications: b } => *p == *q && same_applications(a, b),
                _ => false,
            },
            Response::Applications { applications: a } => match other {
                Response::Applications { applications: b } => same_applications(a, b),
                _ => false,
            },
        }
    }
}

impl vstd::std_specs::cmp::PartialEqSpecImpl for Response {
    open spec fn obeys_eq_spec() -> bool {
        true
    }

    open spec fn eq_spec(&self, other: &Response) -> bool {
        self@ == other@
    }
}

impl PartialEq for Message {
    fn eq(&self, other: &Message) -> (r: bool) {
        self.id == other.id && self.request == other.request
    }
}

impl vstd::std_specs::cmp::PartialEqSpecImpl for Message {
    open spec fn obeys_eq_spec() -> bool {
        true
    }

    open spec fn eq_spec(&self, other: &Message) -> bool {
        self@ == other@
    }
}

impl PartialEq for Reply {
    fn eq(&self, other: &Reply) -> (r: bool) {
        self.regarding == other.regarding && self.response == other.response
    }
}

impl vstd::std_specs::cmp::PartialEqSpecImpl for Reply {
    open spec fn obeys_eq_spec() -> bool {
        true
    }

    open spec fn eq_spec(&self, other: &Reply) -> bool {
        self@ == other@
    }
}

/// The error text for a hostname that is already registered.
pub open spec fn conflict_message() -> Seq<char> {
    "application with this hostname already exists!"@
}

/// The error text for a hostname that is not registered.
pub open spec fn missing_message(hostname: Seq<char>) -> Seq<char> {
    "no app with hostname `"@ + hostname + "` exists"@
}

/// The response to `request` on the snapshot `c`, and the snapshot to
/// publish before that response is sent, if the request changes the table.
pub open spec fn answer(c: ConfigurationView, request: RequestView) -> (
    ResponseView,
    Option<ConfigurationView>,
) {
    match request {
        RequestView::CreateApplication(a) => match c.created(a) {
            Ok(next) => (ResponseView::Success, Some(next)),
            Err(_) => (ResponseView::Error(conflict_message()), None),
        },
        RequestView::DeleteApplication(h) => match c.deleted(h) {
            Ok(next) => (ResponseView::Success, Some(next)),
            Err(_) => (ResponseView::Error(missing_message(h)), None),
        },
        RequestView::GetApplications => (ResponseView::Applications(c.applications), None),
        RequestView::Status => (ResponseView::Status(c.port, c.applications), None),
    }
}

/// The reply to `message` on the snapshot `c`.
pub open spec fn reply_to(c: ConfigurationView, message: MessageView) -> ReplyView {
    ReplyView { regarding: message.id, response: answer(c, message.request).0 }
}

/// The view of a snapshot to publish, if any.
pub open spec fn snapshot_view(s: Option<CurrentConfiguration>) -> Option<ConfigurationView> {
    match s {
        Some(c) => Some(c@),
        None => None,
    }
}

fn error_response(text: String) -> (r: Response)
    ensures
        r@ == ResponseView::Error(text@),
{
    Response::Error { message: text }
}

fn copy_applications(applications: &Vec<Application>) -> (r: Vec<Application>)
    ensures
        views(r@) == views(applications@),
{
    let r = applications.clone();
    assert(r@ =~= applications@);
    r
}

/// Carries out `message` on the snapshot `config`: returns the reply, which
/// answers `message.id`, and the next snapshot when the request changed the
/// table. The caller publishes that snapshot before it sends the reply.
pub fn handle_message(config: &CurrentConfiguration, message: Message) -> (r: (
    Reply,
    Option<CurrentConfiguration>,
))
    ensures
        r.0@ == reply_to(config@, message@),
        snapshot_view(r.1) == answer(config@, message@.request).1,
{
    let id = message.id;
    let (response, next) = match message.request {
        Request::CreateApplication { application } => match config.create(application) {
            Ok(next) => (Response::Success, Some(next)),
            Err(_) => {
                let text = String::from_str("application with this hostname already exists!");
                (error_response(text), None)
            },
        },
        Request::DeleteApplication { hostname } => match config.delete(&hostname) {
            Ok(next) => (Response::Success, Some(next)),
            Err(_) => {
                let mut text = String::from_str("no app with hostname `");
                text.append(hostname.as_str());
                text.append("` exists");
                (error_response(text), None)
            },
        },
        Request::GetApplications => (
            Response::Applications { applications: copy_applications(&config.applications) },
            None,
        ),
        Request::Status => (
            Response::Status {
                port: config.core.port,
                applications: copy_applications(&config.applications),
            },
            None,
        ),
    };
    (Reply { regarding: id, response }, next)
}

/// What happened on a control connection since the last decision.
#[derive(Debug)]
pub enum ConnectionEvent {
    /// A line arrived and decoded to a message.
    Received(Message),
    /// A line arrived that does not decode to a message.
    Malformed,
    /// The peer closed the connection.
    EndOfStream,
    /// Reading from the connection failed.
    ReadFailed,
    /// Writing a reply to the connection failed.
    WriteFailed,
}

/// What to do next on a control connection.
#[derive(Debug)]
pub enum ConnectionAction {
    /// Publish `publish`, if any, then write `reply` and read the next line.
    Answer { reply: Reply, publish: Option<CurrentConfiguration> },
    /// Drop the line and read the next one.
    Continue,
    /// Stop serving this connection.
    Close,
}

/// The control connection's policy: a message is answered, a malformed line
/// is dropped without closing the connection, and the end of the stream or a
/// read or write failure ends the connection.
pub fn on_connection_event(config: &CurrentConfiguration, event: ConnectionEvent) -> (r:
    ConnectionAction)
    ensures
        match event {
            ConnectionEvent::Received(m) => r matches ConnectionAction::Answer { reply, publish }
                && reply@ == reply_to(config@, m@) && snapshot_view(publish) == answer(
                config@,
                m@.request,
            ).1,
            ConnectionEvent::Malformed => r is Continue,
            _ => r is Close,
        },
{
    match event {
        ConnectionEvent::Received(message) => {
            let (reply, publish) = handle_message(config, message);
            ConnectionAction::Answer { reply, publish }
        },
        ConnectionEvent::Malformed => ConnectionAction::Continue,
        _ => ConnectionAction::Close,
    }
}

/// Every reply carries the id of the message it answers, whatever snapshot
/// each message met: requests on other connections may change the table
/// between any two messages of this one.
pub proof fn lemma_replies_answer_their_messages(
    snapshots: Seq<ConfigurationView>,
    messages: Seq<MessageView>,
)
    requires
        snapshots.len() == messages.len(),
    ensures
        forall|i: int|
            0 <= i < messages.len() ==> (#[trigger] reply_to(snapshots[i], messages[i])).regarding
                == messages[i].id,
{
}

} // verus!
