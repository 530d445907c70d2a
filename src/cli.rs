use crate::control::{Message, Reply, Request, Response};
use vstd::prelude::*;

verus! {

/// Declares std::io::ErrorKind, which a connection failure carries; nothing
/// is assumed of its values.
#[verifier::external_type_specification]
#[verifier::external_body]
pub struct ExErrorKind(std::io::ErrorKind);

/// Relies on rand::random: a value drawn from the thread-local generator.
/// Nothing is known of it.
pub assume_specification<T>[ rand::random::<T> ]() -> (r: T)
    where
        rand::distributions::Standard: rand::distributions::Distribution<T>,
;

/// The top-level commands of the operator tool.
#[derive(Clone, Copy, Debug, PartialEq, Eq, Structural)]
pub enum Command {
    Help,
    Status,
    Application,
}

/// Why the control connection could not be used.
#[derive(Debug)]
pub enum Error {
    ConnectionFailure(std::io::ErrorKind),
}

/// Why the operator tool gave up.
#[derive(Debug)]
pub enum Failure {
    ControllerError(Error),
    MissingCommand,
    UnknownCommand(String),
}

/// What the operator asked the tool to do.
#[derive(Debug)]
pub enum Invocation {
    Help,
    Status,
    CreateApplication { hostname: String, address: String },
    DeleteApplication { hostname: String },
    ListApplications,
}

/// What an [`Invocation`] is, as a mathematical value.
pub ghost enum InvocationView {
    Help,
    Status,
    CreateApplication(Seq<char>, Seq<char>),
    DeleteApplication(Seq<char>),
    ListApplications,
}

/// What a [`Failure`] is, as a mathematical value; the connection error it
/// may carry is left out.
pub ghost enum FailureView {
    ControllerError,
    MissingCommand,
    UnknownCommand(Seq<char>),
}

/// The command named `s`, if there is one.
pub open spec fn command_named(s: Seq<char>) -> Option<Command> {
    if s == "app"@ {
        Some(Command::Application)
    } else if s == "help"@ {
        Some(Command::Help)
    } else if s == "status"@ {
        Some(Command::Status)
    } else {
        None
    }
}

/// What the arguments after `app` ask for.
pub open spec fn application_plan(args: Seq<Seq<char>>) -> Result<InvocationView, FailureView> {
    if args.len() == 0 {
        Err(FailureView::MissingCommand)
    } else if args[0] == "create"@ {
        if args.len() < 3 {
            Err(FailureView::MissingCommand)
        } else {
            Ok(InvocationView::CreateApplication(args[1], args[2]))
        }
    } else if args[0] == "delete"@ {
        if args.len() < 2 {
            Err(FailureView::MissingCommand)
        } else {
            Ok(InvocationView::DeleteApplication(args[1]))
        }
    } else if args[0] == "list"@ {
        Ok(InvocationView::ListApplications)
    } else {
        Err(FailureView::UnknownCommand(args[0]))
    }
}

/// What the operator tool's arguments ask for; arguments beyond those that
/// a command reads are ignored.
pub open spec fn plan(args: Seq<Seq<char>>) -> Result<InvocationView, FailureView> {
    if args.len() == 0 {
        Err(FailureView::MissingCommand)
    } else {
        match command_named(args[0]) {
            None => Err(FailureView::UnknownCommand(args[0])),
            Some(Command::Help) => Ok(InvocationView::Help),
            Some(Command::Status) => Ok(InvocationView::Status),
            Some(Command::Application) => application_plan(args.drop_first()),
        }
    }
}

impl View for Invocation {
    type V = InvocationView;

    open spec fn view(&self) -> InvocationView {
        match self {
            Invocation::Help => InvocationView::Help,
            Invocation::Status => InvocationView::Status,
            Invocation::CreateApplication { hostname, address } => InvocationView::CreateApplication(
                hostname@,
                address@,
            ),
            Invocation::DeleteApplication { hostname } => InvocationView::DeleteApplication(
                hostname@,
            ),
            Invocation::ListApplications => InvocationView::ListApplications,
        }
    }
}

impl View for Failure {
    type V = FailureView;

    open spec fn view(&self) -> FailureView {
        match self {
            Failure::ControllerError(_) => FailureView::ControllerError,
            Failure::MissingCommand => FailureView::MissingCommand,
            Failure::UnknownCommand(s) => FailureView::UnknownCommand(s@),
        }
    }
}

/// The views of `run`'s result.
pub open spec fn run_view(r: Result<Invocation, Failure>) -> Result<InvocationView, FailureView> {
    match r {
        Ok(i) => Ok(i@),
        Err(f) => Err(f@),
    }
}

/// The texts of the arguments.
pub open spec fn texts(args: Seq<String>) -> Seq<Seq<char>> {
    args.map_values(|s: String| s@)
}

fn same_text(a: &String, b: &str) -> (r: bool)
    ensures
        r == (a@ == b@),
{
    *a == String::from_str(b)
}

impl Command {
    /// The command named `s`; any other text is handed back as the error.
    pub fn parse(s: &str) -> (r: Result<Command, String>)
        ensures
            match command_named(s@) {
                Some(c) => r == Ok::<Command, String>(c),
                None => r matches Err(t) && t@ == s@,
            },
    {
        let owned = String::from_str(s);
        if same_text(&owned, "app") {
            Ok(Command::Application)
        } else if same_text(&owned, "help") {
            Ok(Command::Help)
        } else if same_text(&owned, "status") {
            Ok(Command::Status)
        } else {
            Err(owned)
        }
    }
}

impl std::str::FromStr for Command {
    type Err = String;

    fn from_str(s: &str) -> Result<Command, String> {
        Command::parse(s)
    }
}

fn take(args: &mut Vec<String>, i: usize) -> (r: Option<String>)
    ensures
        i < old(args)@.len() ==> (r matches Some(s) && s@ == old(args)@[i as int]@),
        i >= old(args)@.len() ==> r is None,
        final(args)@.len() == old(args)@.len(),
        forall|k: int|
            0 <= k < old(args)@.len() && k != i ==> #[trigger] final(args)@[k] == old(args)@[k],
{
    if i < args.len() {
        let mut s = String::new();
        std::mem::swap(&mut args[i], &mut s);
        Some(s)
    } else {
        None
    }
}

/// Reads the operator tool's arguments, the program name left out: the
/// command first, then, after `app`, one of `create <hostname> <address>`,
/// `delete <hostname>` or `list`.
pub fn run(arguments: Vec<String>) -> (r: Result<Invocation, Failure>)
    ensures
        run_view(r) == plan(texts(arguments@)),
{
    let ghost args = texts(arguments@);
    let mut arguments = arguments;
    let command = match take(&mut arguments, 0) {
        None => return Err(Failure::MissingCommand),
        Some(first) => match Command::parse(first.as_str()) {
            Ok(c) => c,
            Err(t) => return Err(Failure::UnknownCommand(t)),
        },
    };
    match command {
        Command::Help => Ok(Invocation::Help),
        Command::Status => Ok(Invocation::Status),
        Command::Application => {
            let ghost rest = args.drop_first();
            assert(forall|k: int| 0 <= k < rest.len() ==> rest[k] == args[k + 1]);
            let subcommand = match take(&mut arguments, 1) {
                None => return Err(Failure::MissingCommand),
                Some(s) => s,
            };
            if same_text(&subcommand, "create") {
                let hostname = match take(&mut arguments, 2) {
                    None => return Err(Failure::MissingCommand),
                    Some(s) => s,
                };
                let address = match take(&mut arguments, 3) {
                    None => return Err(Failure::MissingCommand),
                    Some(s) => s,
                };
                Ok(Invocation::CreateApplication { hostname, address })
            } else if same_text(&subcommand, "delete") {
                let hostname = match take(&mut arguments, 2) {
                    None => return Err(Failure::MissingCommand),
                    Some(s) => s,
                };
                Ok(Invocation::DeleteApplication { hostname })
            } else if same_text(&subcommand, "list") {
                Ok(Invocation::ListApplications)
            } else {
                Err(Failure::UnknownCommand(subcommand))
            }
        },
    }
}

/// A message that carries `request` under a freshly drawn id.
pub fn new_message(request: Request) -> (m: Message)
    ensures
        m.request == request,
{
    Message { id: rand::random::<u16>(), request }
}

/// The response in `reply` when it answers the message `id`; `None` when
/// the reply belongs to another message.
pub fn check_reply(id: u16, reply: Reply) -> (r: Option<Response>)
    ensures
        reply.regarding == id ==> r == Some(reply.response),
        reply.regarding != id ==> r is None,
{
    if reply.regarding == id {
        Some(reply.response)
    } else {
        None
    }
}

} // verus!
