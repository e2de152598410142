//! The server: the name of its listening socket, and the decisions its event
//! loop takes on what polling the socket and dispatching requests report.

use crate::builder::WinitConfig;
use crate::decimal::{
    decimal, decimal_denotes, decimal_string, is_digit, lemma_decimal_injective, value_of,
};
use vstd::prelude::*;
use vstd::string::*;

verus! {

/// Why the server's event loop stopped with an error.
#[derive(Debug)]
pub enum ServerError {
    IO(std::io::Error),
    Socket(SocketError),
}

/// What polling the listening socket can report besides readiness.
#[derive(Debug)]
pub enum SocketError {
    IO(std::io::Error),
    /// poll() timed out while awaiting new events
    Timeout,
    /// poll() failed recoverably
    NotReady,
    /// poll() interrupted
    Interrupt,
}

/// The error number of a failed poll(2), as far as the socket tells them apart.
#[derive(Debug, Copy, Clone, PartialEq, Eq, Structural)]
pub enum PollErrno {
    /// `EAGAIN`: the kernel could not allocate what the call needed; try again.
    Again,
    /// `EINTR`: a signal arrived before any event.
    Interrupted,
    /// `EINVAL`: the descriptor count or the timeout was invalid.
    Invalid,
    /// Any other error number.
    Other(i32),
}

/// A server that has been built and can listen.
#[derive(Debug)]
pub struct Server {
    pub name: String,
    pub sock_id: usize,
    /// The window to render into when running as a client of another desktop.
    pub winit: Option<WinitConfig>,
    /// Whether to run with variable refresh rate, as the command line asked.
    pub vfr: bool,
}

/// The server as the specifications see it.
pub struct ServerView {
    pub name: Seq<char>,
    pub sock_id: usize,
    pub windowed: bool,
    pub vfr: bool,
}

/// What the event loop learned from the step it took last.
#[derive(Debug)]
pub enum LoopEvent {
    /// Polling the listening socket came back.
    Polled(Result<(), SocketError>),
    /// Dispatching pending client requests came back.
    Dispatched(Result<(), std::io::Error>),
}

/// What the event loop is to do next.
#[derive(Debug)]
pub enum LoopAction {
    /// Poll the listening socket (again).
    Poll,
    /// Dispatch the pending client requests.
    Dispatch,
    /// Flush the events queued for clients, then poll again.
    FlushAndPoll,
    /// Leave the loop with this result.
    Finish(Result<(), ServerError>),
}

/// The name of the listening socket of a server called `name` with id `id`:
/// the name, a hyphen, and the id in decimal.
pub open spec fn socket_name_of(name: Seq<char>, id: usize) -> Seq<char> {
    name + seq!['-'] + decimal(id as nat)
}

/// The poll outcomes that the socket expects; any other is a fault of the
/// poll call itself.
pub open spec fn poll_outcome_expected(outcome: Result<i32, PollErrno>) -> bool {
    match outcome {
        Ok(_) => true,
        Err(PollErrno::Again) => true,
        Err(PollErrno::Interrupted) => true,
        Err(_) => false,
    }
}

/// Whether `r` is what the socket reports for the poll outcome `outcome`.
pub open spec fn poll_reported(outcome: Result<i32, PollErrno>, r: Result<(), SocketError>) -> bool {
    match outcome {
        Ok(n) => if n == 0 {
            r matches Err(SocketError::Timeout)
        } else {
            r is Ok
        },
        Err(PollErrno::Again) => r matches Err(SocketError::NotReady),
        Err(PollErrno::Interrupted) => r matches Err(SocketError::Interrupt),
        Err(_) => false,
    }
}

/// The timeout handed to poll(2): the given number of milliseconds, or -1
/// (wait as long as it takes) when none is given.
///
/// A timeout of zero would make poll return at once every time, so it is not
/// a value the socket is ever polled with.
pub fn poll_timeout(timeout_ms: Option<i32>) -> (t: i32)
    requires
        timeout_ms != Some(0i32),
    ensures
        t == match timeout_ms {
            Some(ms) => ms,
            None => -1i32,
        },
        t != 0,
{
    match timeout_ms {
        Some(ms) => ms,
        None => -1,
    }
}

/// What the socket reports for one call of poll(2): the number of ready
/// descriptors, or the error number of a failed call.
///
/// No descriptor ready means the call timed out; `EAGAIN` is a failure worth
/// retrying; `EINTR` means a signal interrupted the wait.
pub fn interpret_poll(outcome: Result<i32, PollErrno>) -> (r: Result<(), SocketError>)
    requires
        poll_outcome_expected(outcome),
    ensures
        poll_reported(outcome, r),
{
    match outcome {
        Ok(0) => Err(SocketError::Timeout),
        Ok(_) => Ok(()),
        Err(PollErrno::Again) => Err(SocketError::NotReady),
        // The precondition leaves `EINTR` as the only other error number.
        Err(_) => Err(SocketError::Interrupt),
    }
}

impl View for Server {
    type V = ServerView;

    open spec fn view(&self) -> ServerView {
        ServerView {
            name: self.name@,
            sock_id: self.sock_id,
            windowed: self.winit is Some,
            vfr: self.vfr,
        }
    }
}

impl ServerView {
    /// The name of this server's listening socket.
    pub open spec fn socket_name(self) -> Seq<char> {
        socket_name_of(self.name, self.sock_id)
    }
}

impl Server {
    /// The name of the listening socket: the server's name, a hyphen, and its
    /// socket id in decimal.
    pub fn socket_name(&self) -> (s: String)
        ensures
            s@ == self@.socket_name(),
    {
        proof {
            reveal_strlit("-");
        }
        let mut s = String::from_str(self.name.as_str());
        s.append("-");
        let id = decimal_string(self.sock_id);
        s.append(id.as_str());
        s
    }

    /// The path of the listening socket inside the runtime directory
    /// `runtime_dir`.
    pub fn socket_path(&self, runtime_dir: &str) -> (p: String)
        ensures
            p@ == runtime_dir@ + seq!['/'] + self@.socket_name(),
    {
        proof {
            reveal_strlit("/");
        }
        let mut p = String::from_str(runtime_dir);
        p.append("/");
        let name = self.socket_name();
        p.append(name.as_str());
        p
    }

    /// Signal handling needs no setup yet; it always succeeds.
    pub fn register_signal_handlers(&self) -> (r: Result<(), ServerError>)
        ensures
            r is Ok,
    {
        Ok(())
    }

    /// The event loop's decision on what its last step reported.
    ///
    /// A socket that is not ready yet is polled again; an interrupting signal
    /// ends the loop successfully; any other socket failure, a timeout
    /// included, ends it with that failure. Events on the socket are
    /// dispatched; a dispatch that fails ends the loop with its error, and one
    /// that succeeds has the client events flushed before polling again.
    pub fn run_step(event: LoopEvent) -> (a: LoopAction)
        ensures
            match event {
                LoopEvent::Polled(Ok(())) => a is Dispatch,
                LoopEvent::Polled(Err(SocketError::NotReady)) => a is Poll,
                LoopEvent::Polled(Err(SocketError::Interrupt)) => a matches LoopAction::Finish(Ok(())),
                LoopEvent::Polled(Err(e)) => a == LoopAction::Finish(Err(ServerError::Socket(e))),
                LoopEvent::Dispatched(Ok(_)) => a is FlushAndPoll,
                LoopEvent::Dispatched(Err(e)) => a == LoopAction::Finish(Err(ServerError::IO(e))),
            },
    {
        match event {
            LoopEvent::Polled(Ok(())) => LoopAction::Dispatch,
            LoopEvent::Polled(Err(SocketError::NotReady)) => LoopAction::Poll,
            LoopEvent::Polled(Err(SocketError::Interrupt)) => LoopAction::Finish(Ok(())),
            LoopEvent::Polled(Err(e)) => LoopAction::Finish(Err(ServerError::Socket(e))),
            LoopEvent::Dispatched(Ok(_)) => LoopAction::FlushAndPoll,
            LoopEvent::Dispatched(Err(e)) => LoopAction::Finish(Err(ServerError::IO(e))),
        }
    }
}

/// The socket name of a server called `name` with id `id` starts with the
/// name, follows it with a hyphen, and ends with digits only, which read in
/// base ten give back `id` and start with `'0'` only for id zero.
pub proof fn socket_name_denotes(name: Seq<char>, id: usize)
    ensures
        socket_name_of(name, id).subrange(0, name.len() as int) == name,
        socket_name_of(name, id)[name.len() as int] == '-',
        ({
            let s = socket_name_of(name, id);
            let tail = s.subrange(name.len() as int + 1, s.len() as int);
            &&& tail.len() >= 1
            &&& forall|i: int| 0 <= i < tail.len() ==> is_digit(#[trigger] tail[i])
            &&& value_of(tail) == id
            &&& tail[0] == '0' ==> id == 0
        }),
{
    decimal_denotes(id as nat);
    let s = socket_name_of(name, id);
    assert(s.subrange(0, name.len() as int) =~= name);
    assert(s.subrange(name.len() as int + 1, s.len() as int) =~= decimal(id as nat));
}

/// Servers of the same name with different socket ids listen on sockets of
/// different names.
pub proof fn socket_names_distinct(name: Seq<char>, a: usize, b: usize)
    requires
        a != b,
    ensures
        socket_name_of(name, a) != socket_name_of(name, b),
{
    if socket_name_of(name, a) == socket_name_of(name, b) {
        let k = name.len() + 1;
        let sa = socket_name_of(name, a);
        let sb = socket_name_of(name, b);
        assert(sa.subrange(k as int, sa.len() as int) =~= decimal(a as nat));
        assert(sb.subrange(k as int, sb.len() as int) =~= decimal(b as nat));
        lemma_decimal_injective(a as nat, b as nat);
    }
}

} // verus!
