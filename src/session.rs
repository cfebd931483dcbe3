//! The exchange between the tunnel logic and the outside world.
//!
//! An operation never does outside work itself. Given the replies received so
//! far, it either asks for one more piece of outside work (create a directory,
//! resolve an address, run a command and wait for it) or finishes with a
//! result. The caller performs each request, appends the reply and asks again,
//! until the operation finishes. An operation reads the replies from a start
//! position on, and says where the replies it used end, so that operations can
//! run one after another over one list of replies.
use vstd::prelude::*;

use crate::error::{result_view, Error, ErrorView};

verus! {

/// An external program and its arguments.
#[derive(Debug, Clone, PartialEq, Eq)]
pub struct CommandLine {
    pub program: String,
    pub args: Vec<String>,
}

pub struct CommandView {
    pub program: Seq<char>,
    pub args: Seq<Seq<char>>,
}

/// The text of each string of a sequence.
pub open spec fn texts(v: Seq<String>) -> Seq<Seq<char>> {
    v.map_values(|s: String| s@)
}

impl View for CommandLine {
    type V = CommandView;

    open spec fn view(&self) -> CommandView {
        CommandView { program: self.program@, args: texts(self.args@) }
    }
}

/// A piece of outside work.
#[derive(Debug, Clone, PartialEq, Eq)]
pub enum Request {
    /// Create the directory at `path`, with its parents, unless it exists.
    CreateDirectory { path: String },
    /// Resolve `address` (`host:port`) to socket addresses.
    Resolve { address: String },
    /// Run `command` with no input and no output, and wait for it to end.
    Run { command: CommandLine },
}

pub enum RequestView {
    CreateDirectory { path: Seq<char> },
    Resolve { address: Seq<char> },
    Run { command: CommandView },
}

impl View for Request {
    type V = RequestView;

    open spec fn view(&self) -> RequestView {
        match self {
            Request::CreateDirectory { path } => RequestView::CreateDirectory { path: path@ },
            Request::Resolve { address } => RequestView::Resolve { address: address@ },
            Request::Run { command } => RequestView::Run { command: command@ },
        }
    }
}

/// The answer to a request. A reply that does not answer the request it
/// follows counts as a failure to carry that request out.
#[derive(Debug, Clone, PartialEq, Eq)]
pub enum Reply {
    /// The directory exists now.
    Created,
    /// The address was resolved; `first` is the first socket address found,
    /// written as `host:port`, or `None` when none was found.
    Resolved { first: Option<String> },
    /// The command ended: its exit code, or `None` when a signal ended it.
    Exited { code: Option<i32> },
    /// The request could not be carried out (the command could not be
    /// started, the directory not created, the address not looked up).
    Failed { message: String },
    /// The command was started, but waiting for it failed.
    WaitFailed { message: String },
}

/// The text that a failed reply carries.
pub open spec fn message_of(r: Reply) -> Seq<char> {
    match r {
        Reply::Failed { message } => message@,
        Reply::WaitFailed { message } => message@,
        _ => Seq::empty(),
    }
}

/// What an operation does next, given the replies so far.
#[derive(Debug)]
pub enum Progress<T> {
    /// The operation needs `request` carried out before it can go on.
    Ask { request: Request },
    /// The operation is over; the replies it used end before `next`.
    Finished { result: Result<T, Error>, next: usize },
}

pub enum Plan<T> {
    Ask { request: RequestView },
    Finished { result: Result<T, ErrorView>, next: int },
}

impl<T> View for Progress<T> {
    type V = Plan<T>;

    open spec fn view(&self) -> Plan<T> {
        match self {
            Progress::Ask { request } => Plan::Ask { request: request@ },
            Progress::Finished { result, next } => Plan::Finished {
                result: result_view(*result),
                next: *next as int,
            },
        }
    }
}

/// The program behind a kind of tunnel.
#[derive(Debug, Clone, Copy, PartialEq, Eq)]
pub enum Backend {
    Docker,
    Ssh,
}

impl Backend {
    pub open spec fn program(self) -> Seq<char> {
        match self {
            Backend::Docker => "docker"@,
            Backend::Ssh => "ssh"@,
        }
    }

    /// The failure to start the program.
    pub open spec fn spawn_error(self, message: Seq<char>) -> ErrorView {
        match self {
            Backend::Docker => ErrorView::SpawnDockerCommand { message },
            Backend::Ssh => ErrorView::SpawnSshCommand { message },
        }
    }

    /// The failure to wait for the program.
    pub open spec fn wait_error(self, message: Seq<char>) -> ErrorView {
        match self {
            Backend::Docker => ErrorView::WaitForDockerProcess { message },
            Backend::Ssh => ErrorView::WaitForSshProcess { message },
        }
    }

    /// The request to run the program with `args`.
    pub open spec fn run_request(self, args: Seq<Seq<char>>) -> RequestView {
        RequestView::Run { command: CommandView { program: self.program(), args } }
    }

    /// What a reply to a run of the program says: the exit code, or the
    /// failure.
    pub open spec fn outcome(self, r: Reply) -> Result<Option<i32>, ErrorView> {
        match r {
            Reply::Exited { code } => Ok(code),
            Reply::WaitFailed { message } => Err(self.wait_error(message@)),
            _ => Err(self.spawn_error(message_of(r))),
        }
    }

    fn command(&self, args: Vec<String>) -> (r: CommandLine)
        ensures
            r@ == (CommandView { program: self.program(), args: texts(args@) }),
    {
        let program = match self {
            Backend::Docker => String::from_str("docker"),
            Backend::Ssh => String::from_str("ssh"),
        };
        CommandLine { program, args }
    }

    fn read(&self, r: &Reply) -> (o: Result<Option<i32>, Error>)
        ensures
            result_view(o) == self.outcome(*r),
    {
        match r {
            Reply::Exited { code } => Ok(*code),
            Reply::WaitFailed { message } => match self {
                Backend::Docker => Err(Error::WaitForDockerProcess { message: message.clone() }),
                Backend::Ssh => Err(Error::WaitForSshProcess { message: message.clone() }),
            },
            _ => {
                let message = match r {
                    Reply::Failed { message } => message.clone(),
                    _ => String::new(),
                };
                match self {
                    Backend::Docker => Err(Error::SpawnDockerCommand { message }),
                    Backend::Ssh => Err(Error::SpawnSshCommand { message }),
                }
            },
        }
    }

    /// Runs the program with `args` and reports whether it exited with code 0.
    pub open spec fn query(self, args: Seq<Seq<char>>, rs: Seq<Reply>, at: int) -> Plan<bool> {
        if at >= rs.len() {
            Plan::Ask { request: self.run_request(args) }
        } else {
            match self.outcome(rs[at]) {
                Ok(code) => Plan::Finished { result: Ok(code == Some(0i32)), next: at + 1 },
                Err(e) => Plan::Finished { result: Err(e), next: at + 1 },
            }
        }
    }

    /// Runs the program with `args`; a non-zero exit code is a failure.
    pub open spec fn checked(self, args: Seq<Seq<char>>, rs: Seq<Reply>, at: int) -> Plan<()> {
        if at >= rs.len() {
            Plan::Ask { request: self.run_request(args) }
        } else {
            match self.outcome(rs[at]) {
                Ok(code) => Plan::Finished { result: exit_result(code), next: at + 1 },
                Err(e) => Plan::Finished { result: Err(e), next: at + 1 },
            }
        }
    }

    /// Runs the program with `args`; its exit code is not looked at.
    pub open spec fn unchecked(self, args: Seq<Seq<char>>, rs: Seq<Reply>, at: int) -> Plan<()> {
        if at >= rs.len() {
            Plan::Ask { request: self.run_request(args) }
        } else {
            match self.outcome(rs[at]) {
                Ok(code) => Plan::Finished { result: Ok(()), next: at + 1 },
                Err(e) => Plan::Finished { result: Err(e), next: at + 1 },
            }
        }
    }

    pub fn run_query(&self, args: Vec<String>, rs: &[Reply], at: usize) -> (p: Progress<bool>)
        ensures
            p@ == self.query(texts(args@), rs@, at as int),
    {
        if at >= rs.len() {
            return Progress::Ask { request: Request::Run { command: self.command(args) } };
        }
        match self.read(&rs[at]) {
            Ok(code) => Progress::Finished { result: Ok(code == Some(0i32)), next: at + 1 },
            Err(e) => Progress::Finished { result: Err(e), next: at + 1 },
        }
    }

    pub fn run_checked(&self, args: Vec<String>, rs: &[Reply], at: usize) -> (p: Progress<()>)
        ensures
            p@ == self.checked(texts(args@), rs@, at as int),
    {
        if at >= rs.len() {
            return Progress::Ask { request: Request::Run { command: self.command(args) } };
        }
        match self.read(&rs[at]) {
            Ok(code) => Progress::Finished { result: convert_output(code), next: at + 1 },
            Err(e) => Progress::Finished { result: Err(e), next: at + 1 },
        }
    }

    pub fn run_unchecked(&self, args: Vec<String>, rs: &[Reply], at: usize) -> (p: Progress<()>)
        ensures
            p@ == self.unchecked(texts(args@), rs@, at as int),
    {
        if at >= rs.len() {
            return Progress::Ask { request: Request::Run { command: self.command(args) } };
        }
        match self.read(&rs[at]) {
            Ok(_) => Progress::Finished { result: Ok(()), next: at + 1 },
            Err(e) => Progress::Finished { result: Err(e), next: at + 1 },
        }
    }
}

/// What an exit code means for a command whose failure matters: code 0, and
/// an end by a signal (no code), are success; any other code is a failure
/// that carries it.
pub open spec fn exit_result(code: Option<i32>) -> Result<(), ErrorView> {
    match code {
        Some(c) => if c == 0 {
            Ok(())
        } else {
            Err(ErrorView::ExternalCommand { code: c })
        },
        None => Ok(()),
    }
}

/// Reads the exit code of a command whose failure matters.
pub fn convert_output(code: Option<i32>) -> (r: Result<(), Error>)
    ensures
        result_view(r) == exit_result(code),
        r is Ok <==> (code is None || code == Some(0i32)),
        forall|c: i32| code == Some(c) && c != 0 ==> r == Err::<(), Error>(Error::ExternalCommand { code: c }),
{
    match code {
        Some(c) => if c == 0 {
            Ok(())
        } else {
            Err(Error::ExternalCommand { code: c })
        },
        None => Ok(()),
    }
}

} // verus!
