//! The values the command line can take, and the names under which it takes them.

use std::path::PathBuf;
use vstd::prelude::*;

verus! {

/// Logging filters used when neither `--log-filter` nor `RUST_LOG` is given.
pub const DEFAULT_LOG_FILTER: &'static str = "warn,signal_wm=info";

/// How log lines are laid out.
#[derive(Debug, Copy, Clone, Eq, PartialEq, Hash, Structural)]
pub enum LogFormat {
    Compact,
    Full,
    Pretty,
    Json,
}

/// The platform the server renders and takes input through.
#[derive(Debug, Copy, Clone, Eq, PartialEq, Hash, Structural)]
pub enum Platform {
    /// Run as a client of another desktop manager, using Winit
    Winit,
    /// Run as a standalone wayland server
    Wayland,
}

/// The graphics API that WGPU drives.
#[derive(Debug, Copy, Clone, Eq, PartialEq, Hash, Structural)]
pub enum WGPUBackend {
    Vulkan,
    GL,
}

/// The power preference handed to WGPU when it picks an adapter.
#[derive(Debug, Copy, Clone, Eq, PartialEq, Hash, Structural)]
pub enum WGPUPower {
    Low,
    High,
}

/// What the program is asked to do.
#[derive(Debug)]
pub enum Command {
    /// Start the wayland server
    Start {
        /// The platform to use for rendering & input handling
        platform: Platform,
        wgpu_backend: WGPUBackend,
        wgpu_adapter: Option<String>,
        wgpu_power_preference: WGPUPower,
        /// Enable variable refresh rate, which, on supported hardware, prevents screen tearing,
        /// reduces input latency, and can be more energy efficient
        vfr: bool,
        /// ID with which to postfix the socket name
        socket_id: Option<usize>,
    },
}

/// The parsed command line.
#[derive(Debug)]
pub struct Args {
    /// Logging output filters; comma-separated
    pub log_filter: String,
    /// Logging output format
    pub log_format: LogFormat,
    /// Path to the configuration directory
    pub config_dir: PathBuf,
    /// Subcommand
    pub command: Command,
}

impl LogFormat {
    /// The name under which the command line accepts this format.
    pub open spec fn name_view(self) -> Seq<char> {
        match self {
            LogFormat::Compact => "compact"@,
            LogFormat::Full => "full"@,
            LogFormat::Pretty => "pretty"@,
            LogFormat::Json => "json"@,
        }
    }

    /// Every format, in the order the command line lists them.
    pub open spec fn all() -> Seq<LogFormat> {
        seq![LogFormat::Compact, LogFormat::Full, LogFormat::Pretty, LogFormat::Json]
    }

    /// Every format, in the order the command line lists them.
    pub fn value_variants() -> (v: Vec<LogFormat>)
        ensures
            v@ == Self::all(),
    {
        let v = vec![LogFormat::Compact, LogFormat::Full, LogFormat::Pretty, LogFormat::Json];
        assert(v@ == Self::all());
        v
    }

    /// The name under which the command line accepts this format.
    pub fn value_name(&self) -> (s: &'static str)
        ensures
            s@ == self.name_view(),
    {
        match self {
            LogFormat::Compact => "compact",
            LogFormat::Full => "full",
            LogFormat::Pretty => "pretty",
            LogFormat::Json => "json",
        }
    }
}

impl Platform {
    /// The name under which the command line accepts this platform.
    pub open spec fn name_view(self) -> Seq<char> {
        match self {
            Platform::Winit => "winit"@,
            Platform::Wayland => "wayland"@,
        }
    }

    /// Every platform, in the order the command line lists them.
    pub open spec fn all() -> Seq<Platform> {
        seq![Platform::Winit, Platform::Wayland]
    }

    /// Every platform, in the order the command line lists them.
    pub fn value_variants() -> (v: Vec<Platform>)
        ensures
            v@ == Self::all(),
    {
        let v = vec![Platform::Winit, Platform::Wayland];
        assert(v@ == Self::all());
        v
    }

    /// The name under which the command line accepts this platform.
    pub fn value_name(&self) -> (s: &'static str)
        ensures
            s@ == self.name_view(),
    {
        match self {
            Platform::Winit => "winit",
            Platform::Wayland => "wayland",
        }
    }
}

impl Default for Platform {
    /// A standalone wayland server, unless asked otherwise.
    fn default() -> (p: Platform)
        ensures
            p == Platform::Wayland,
    {
        Platform::Wayland
    }
}

impl WGPUBackend {
    /// The name under which the command line accepts this backend.
    pub open spec fn name_view(self) -> Seq<char> {
        match self {
            WGPUBackend::Vulkan => "vulkan"@,
            WGPUBackend::GL => "gl"@,
        }
    }

    /// Every backend, in the order the command line lists them.
    pub open spec fn all() -> Seq<WGPUBackend> {
        seq![WGPUBackend::Vulkan, WGPUBackend::GL]
    }

    /// Every backend, in the order the command line lists them.
    pub fn value_variants() -> (v: Vec<WGPUBackend>)
        ensures
            v@ == Self::all(),
    {
        let v = vec![WGPUBackend::Vulkan, WGPUBackend::GL];
        assert(v@ == Self::all());
        v
    }

    /// The name under which the command line accepts this backend.
    pub fn value_name(&self) -> (s: &'static str)
        ensures
            s@ == self.name_view(),
    {
        match self {
            WGPUBackend::Vulkan => "vulkan",
            WGPUBackend::GL => "gl",
        }
    }
}

impl Default for WGPUBackend {
    /// Vulkan, unless asked otherwise.
    fn default() -> (b: WGPUBackend)
        ensures
            b == WGPUBackend::Vulkan,
    {
        WGPUBackend::Vulkan
    }
}

impl WGPUPower {
    /// The name under which the command line accepts this preference.
    pub open spec fn name_view(self) -> Seq<char> {
        match self {
            WGPUPower::Low => "low"@,
            WGPUPower::High => "high"@,
        }
    }

    /// Every preference, in the order the command line lists them.
    pub open spec fn all() -> Seq<WGPUPower> {
        seq![WGPUPower::Low, WGPUPower::High]
    }

    /// Every preference, in the order the command line lists them.
    pub fn value_variants() -> (v: Vec<WGPUPower>)
        ensures
            v@ == Self::all(),
    {
        let v = vec![WGPUPower::Low, WGPUPower::High];
        assert(v@ == Self::all());
        v
    }

    /// The name under which the command line accepts this preference.
    pub fn value_name(&self) -> (s: &'static str)
        ensures
            s@ == self.name_view(),
    {
        match self {
            WGPUPower::Low => "low",
            WGPUPower::High => "high",
        }
    }
}

impl Default for WGPUPower {
    /// Low power, unless asked otherwise.
    fn default() -> (p: WGPUPower)
        ensures
            p == WGPUPower::Low,
    {
        WGPUPower::Low
    }
}

impl Clone for Command {
    fn clone(&self) -> (c: Command)
        ensures
            c == *self,
    {
        match self {
            Command::Start {
                platform,
                wgpu_backend,
                wgpu_adapter,
                wgpu_power_preference,
                vfr,
                socket_id,
            } => {
                let adapter = match wgpu_adapter {
                    Some(a) => Some(a.clone()),
                    None => None,
                };
                Command::Start {
                    platform: *platform,
                    wgpu_backend: *wgpu_backend,
                    wgpu_adapter: adapter,
                    wgpu_power_preference: *wgpu_power_preference,
                    vfr: *vfr,
                    socket_id: *socket_id,
                }
            },
        }
    }
}

/// Each log format is listed exactly once, and no two formats share a name,
/// so a name on the command line picks at most one format.
pub proof fn log_format_names_identify(a: LogFormat, b: LogFormat)
    ensures
        LogFormat::all().contains(a),
        LogFormat::all().no_duplicates(),
        a.name_view() == b.name_view() ==> a == b,
{
    reveal_strlit("compact");
    reveal_strlit("full");
    reveal_strlit("pretty");
    reveal_strlit("json");
    assert(LogFormat::all()[0] == LogFormat::Compact);
    assert(LogFormat::all()[1] == LogFormat::Full);
    assert(LogFormat::all()[2] == LogFormat::Pretty);
    assert(LogFormat::all()[3] == LogFormat::Json);
    if a.name_view() == b.name_view() && a != b {
        assert(a.name_view()[0] != b.name_view()[0] || a.name_view().len() != b.name_view().len());
    }
}

/// Each platform is listed exactly once, and the two have different names.
pub proof fn platform_names_identify(a: Platform, b: Platform)
    ensures
        Platform::all().contains(a),
        Platform::all().no_duplicates(),
        a.name_view() == b.name_view() ==> a == b,
{
    reveal_strlit("winit");
    reveal_strlit("wayland");
    assert(Platform::all()[0] == Platform::Winit);
    assert(Platform::all()[1] == Platform::Wayland);
    if a.name_view() == b.name_view() && a != b {
        assert(a.name_view()[0] != b.name_view()[0] || a.name_view()[1] != b.name_view()[1]);
    }
}

/// Each backend is listed exactly once, and the two have different names.
pub proof fn wgpu_backend_names_identify(a: WGPUBackend, b: WGPUBackend)
    ensures
        WGPUBackend::all().contains(a),
        WGPUBackend::all().no_duplicates(),
        a.name_view() == b.name_view() ==> a == b,
{
    reveal_strlit("vulkan");
    reveal_strlit("gl");
    assert(WGPUBackend::all()[0] == WGPUBackend::Vulkan);
    assert(WGPUBackend::all()[1] == WGPUBackend::GL);
    if a.name_view() == b.name_view() && a != b {
        assert(a.name_view().len() != b.name_view().len());
    }
}

/// Each power preference is listed exactly once, and the two have different names.
pub proof fn wgpu_power_names_identify(a: WGPUPower, b: WGPUPower)
    ensures
        WGPUPower::all().contains(a),
        WGPUPower::all().no_duplicates(),
        a.name_view() == b.name_view() ==> a == b,
{
    reveal_strlit("low");
    reveal_strlit("high");
    assert(WGPUPower::all()[0] == WGPUPower::Low);
    assert(WGPUPower::all()[1] == WGPUPower::High);
    if a.name_view() == b.name_view() && a != b {
        assert(a.name_view().len() != b.name_view().len());
    }
}

} // verus!
