//! Assembling a server from the command and the configuration.

use crate::cli::{Command, Platform};
use crate::config::Config;
use crate::decimal::decimal;
use crate::server::{Server, ServerView};
use vstd::prelude::*;
use vstd::string::*;

verus! {

/// Settings of the window the server renders into when it runs as a client of
/// another desktop.
#[derive(Debug)]
pub struct WinitConfig {}

/// Why the windowing layer could not give the server its window.
#[derive(Debug)]
pub enum WinitError {
    OS(winit::error::OsError),
}

/// Why a server could not be set up.
#[derive(Debug)]
pub enum InitError {
    IO(std::io::Error),
    Winit(WinitError),
}

/// A server under construction.
#[derive(Debug)]
pub struct ServerBuilder<'cfg> {
    pub name: &'cfg str,
    pub sock_id: Option<usize>,
    pub winit: Option<WinitConfig>,
    /// Whether variable refresh rate was asked for.
    ///
    /// Only the command line's `--vfr` sets it; how the configuration file's
    /// `[server.graphics] vfr` should combine with it is left open, and the
    /// file's setting is not consulted.
    pub vfr: bool,
}

/// A server under construction, as the specifications see it.
pub struct ServerBuilderView {
    pub name: Seq<char>,
    pub sock_id: Option<usize>,
    pub windowed: bool,
    pub vfr: bool,
}

impl WinitConfig {
    /// The default window settings.
    pub fn new() -> (c: WinitConfig)
        ensures
            c == (WinitConfig {}),
    {
        WinitConfig {}
    }
}

impl Default for WinitConfig {
    fn default() -> (c: WinitConfig)
        ensures
            c == (WinitConfig {}),
    {
        WinitConfig {}
    }
}

impl<'cfg> View for ServerBuilder<'cfg> {
    type V = ServerBuilderView;

    open spec fn view(&self) -> ServerBuilderView {
        ServerBuilderView {
            name: self.name@,
            sock_id: self.sock_id,
            windowed: self.winit is Some,
            vfr: self.vfr,
        }
    }
}

impl ServerBuilderView {
    /// The builder with its socket id replaced by `id`.
    pub open spec fn with_socket_id(self, id: Option<usize>) -> ServerBuilderView {
        ServerBuilderView { sock_id: id, ..self }
    }

    /// The builder set to render into a window of another desktop.
    pub open spec fn with_winit(self) -> ServerBuilderView {
        ServerBuilderView { windowed: true, ..self }
    }

    /// The server this builder makes; meaningful when a socket id is set.
    pub open spec fn build(self) -> ServerView {
        ServerView {
            name: self.name,
            sock_id: self.sock_id->0,
            windowed: self.windowed,
            vfr: self.vfr,
        }
    }
}

/// The builder that [`Server::begin`] makes from the command `args` for a
/// configuration whose server is called `name`.
pub open spec fn begun(args: Command, name: Seq<char>) -> ServerBuilderView {
    match args {
        Command::Start { socket_id, platform, vfr, .. } => ServerBuilderView {
            name,
            sock_id: socket_id,
            windowed: platform == Platform::Winit,
            vfr,
        },
    }
}

impl<'cfg> Default for ServerBuilder<'cfg> {
    /// No name, no socket id, no window.
    fn default() -> (b: ServerBuilder<'cfg>)
        ensures
            b@ == (ServerBuilderView {
                name: Seq::empty(),
                sock_id: None,
                windowed: false,
                vfr: false,
            }),
    {
        let name: &'cfg str = "";
        proof {
            reveal_strlit("");
            assert(name@ =~= Seq::<char>::empty());
        }
        ServerBuilder { name, sock_id: None, winit: None, vfr: false }
    }
}

impl<'cfg> ServerBuilder<'cfg> {
    /// The builder with its socket id replaced by `id`; nothing else changes.
    pub fn with_socket_id(self, id: Option<usize>) -> (b: Self)
        ensures
            b@ == self@.with_socket_id(id),
            b.sock_id == id,
            b.name == self.name,
            b.winit == self.winit,
            b.vfr == self.vfr,
    {
        let mut b = self;
        b.sock_id = id;
        b
    }

    /// The builder set to render into a window of another desktop, with the
    /// default window settings; this always succeeds.
    pub fn with_winit(self) -> (r: Result<Self, WinitError>)
        ensures
            r matches Ok(b) && b@ == self@.with_winit() && b.name == self.name
                && b.winit == Some(WinitConfig {}) && b.sock_id == self.sock_id && b.vfr
                == self.vfr,
    {
        let mut b = self;
        b.winit = Some(WinitConfig::new());
        Ok(b)
    }

    /// The server this builder describes: its name, its socket id and its
    /// window settings. A socket id must have been set.
    pub fn build(self) -> (s: Server)
        requires
            self.sock_id is Some,
        ensures
            s@ == self@.build(),
            s.name@ == self.name@,
            Some(s.sock_id) == self.sock_id,
            s.winit == self.winit,
            s.vfr == self.vfr,
    {
        let sock_id = match self.sock_id {
            Some(id) => id,
            None => vstd::pervasive::unreached(),
        };
        Server { name: self.name.to_owned(), sock_id, winit: self.winit, vfr: self.vfr }
    }
}

impl Server {
    /// Starts a builder for the server that the command `args` asks for under
    /// the configuration `cfg`: named as the configuration says, with the
    /// command's socket id and variable-refresh-rate request, and set to render
    /// into a window of another desktop when the command asks for the winit
    /// platform. This always succeeds.
    pub fn begin<'cfg>(args: &'cfg Command, cfg: &'cfg Config) -> (r: Result<
        ServerBuilder<'cfg>,
        InitError,
    >)
        ensures
            r matches Ok(b) && b@ == begun(*args, cfg.server.name@),
            r matches Ok(b) && b.name@ == cfg.server.name@,
            r matches Ok(b) && (args matches Command::Start { platform, socket_id, vfr, .. } && b.sock_id
                == socket_id && b.vfr == vfr && (b.winit is Some <==> platform == Platform::Winit)),
    {
        let (socket_id, platform, vfr) = match args {
            Command::Start { socket_id, platform, vfr, .. } => (*socket_id, *platform, *vfr),
        };
        let res = ServerBuilder {
            name: cfg.server.name.as_str(),
            sock_id: socket_id,
            winit: None,
            vfr,
        };
        match platform {
            Platform::Winit => match res.with_winit() {
                Ok(b) => Ok(b),
                Err(e) => Err(InitError::Winit(e)),
            },
            Platform::Wayland => Ok(res),
        }
    }
}

/// A server begun from a command that carries a socket id, and then built,
/// listens on the socket named after the configured server name and that id,
/// runs in a window exactly when the command asks for the winit platform, and
/// runs with variable refresh rate exactly when the command asks for it.
pub proof fn begin_then_build(args: Command, name: Seq<char>, id: usize)
    requires
        args matches Command::Start { socket_id, .. } && socket_id == Some(id),
    ensures
        begun(args, name).build().socket_name() == name + seq!['-'] + decimal(id as nat),
        begun(args, name).build().windowed <==> (args matches Command::Start { platform, .. }
            && platform == Platform::Winit),
        begun(args, name).build().vfr <==> (args matches Command::Start { vfr, .. } && vfr),
{
}

/// For every start command, with or without a socket id, the builder begun
/// from it carries the configured name and the command's socket id and
/// variable-refresh-rate request, and is set to run in a window exactly when
/// the command asks for the winit platform.
pub proof fn begin_follows_command(args: Command, name: Seq<char>)
    ensures
        begun(args, name).name == name,
        args matches Command::Start { platform, socket_id, vfr, .. } && begun(args, name).sock_id
            == socket_id && begun(args, name).vfr == vfr && (begun(args, name).windowed <==> platform
            == Platform::Winit),
{
}

/// Setting the socket id gives the builder exactly that id, whatever it had
/// before and whatever the id is, and changes nothing else.
pub proof fn with_socket_id_sets(b: ServerBuilderView, id: Option<usize>)
    ensures
        b.with_socket_id(id).sock_id == id,
        b.with_socket_id(id).name == b.name,
        b.with_socket_id(id).windowed == b.windowed,
        b.with_socket_id(id).vfr == b.vfr,
{
}

/// Setting the socket id twice keeps only the second one.
pub proof fn socket_id_last_wins(b: ServerBuilderView, first: Option<usize>, second: Option<usize>)
    ensures
        b.with_socket_id(first).with_socket_id(second) == b.with_socket_id(second),
{
}

/// Asking for the windowed platform a second time changes nothing.
pub proof fn with_winit_idempotent(b: ServerBuilderView)
    ensures
        b.with_winit().with_winit() == b.with_winit(),
{
}

} // verus!
