use signal_wm::builder::{ServerBuilder, WinitConfig};
use signal_wm::cli::{Command, Platform, WGPUBackend, WGPUPower};
use signal_wm::config::{Config, GraphicsConfig, ServerConfig};
use signal_wm::decimal::decimal_string;
use signal_wm::server::{
    interpret_poll, poll_timeout, LoopAction, LoopEvent, PollErrno, Server, ServerError, SocketError,
};

fn start(platform: Platform, socket_id: Option<usize>) -> Command {
    start_with_vfr(platform, socket_id, false)
}

fn start_with_vfr(platform: Platform, socket_id: Option<usize>, vfr: bool) -> Command {
    Command::Start {
        platform,
        wgpu_backend: WGPUBackend::Vulkan,
        wgpu_adapter: None,
        wgpu_power_preference: WGPUPower::Low,
        vfr,
        socket_id,
    }
}

fn config(name: &str) -> Config {
    Config { server: ServerConfig { name: name.to_string(), graphics: GraphicsConfig { vfr: false } } }
}

#[test]
fn decimal_notation() {
    assert_eq!(decimal_string(0), "0");
    assert_eq!(decimal_string(7), "7");
    assert_eq!(decimal_string(10), "10");
    assert_eq!(decimal_string(12345), "12345");
    assert_eq!(decimal_string(usize::MAX), usize::MAX.to_string());
}

#[test]
fn socket_name_is_name_hyphen_id() {
    let s = Server { name: "signal_wm".to_string(), sock_id: 0, winit: None, vfr: false };
    assert_eq!(s.socket_name(), "signal_wm-0");
    let s = Server { name: "wm".to_string(), sock_id: 12, winit: None, vfr: false };
    assert_eq!(s.socket_name(), "wm-12");
}

#[test]
fn socket_path_is_inside_runtime_dir() {
    let s = Server { name: "wm".to_string(), sock_id: 12, winit: None, vfr: false };
    assert_eq!(s.socket_path("/run/user/1000"), "/run/user/1000/wm-12");
}

#[test]
fn different_ids_give_different_socket_names() {
    let a = Server { name: "wm".to_string(), sock_id: 1, winit: None, vfr: false };
    let b = Server { name: "wm".to_string(), sock_id: 11, winit: None, vfr: false };
    let c = Server { name: "wm-1".to_string(), sock_id: 1, winit: None, vfr: false };
    assert_ne!(a.socket_name(), b.socket_name());
    assert_eq!(c.socket_name(), "wm-1-1");
}

#[test]
fn poll_timeout_defaults_to_waiting_forever() {
    assert_eq!(poll_timeout(None), -1);
    assert_eq!(poll_timeout(Some(500)), 500);
}

#[test]
fn poll_outcomes() {
    assert!(matches!(interpret_poll(Ok(0)), Err(SocketError::Timeout)));
    assert!(matches!(interpret_poll(Ok(1)), Ok(())));
    assert!(matches!(interpret_poll(Ok(3)), Ok(())));
    assert!(matches!(interpret_poll(Err(PollErrno::Again)), Err(SocketError::NotReady)));
    assert!(matches!(interpret_poll(Err(PollErrno::Interrupted)), Err(SocketError::Interrupt)));
}

#[test]
fn loop_decisions() {
    assert!(matches!(Server::run_step(LoopEvent::Polled(Ok(()))), LoopAction::Dispatch));
    assert!(matches!(Server::run_step(LoopEvent::Polled(Err(SocketError::NotReady))), LoopAction::Poll));
    assert!(matches!(Server::run_step(LoopEvent::Polled(Err(SocketError::Interrupt))), LoopAction::Finish(Ok(()))));
    assert!(matches!(
        Server::run_step(LoopEvent::Polled(Err(SocketError::Timeout))),
        LoopAction::Finish(Err(ServerError::Socket(SocketError::Timeout)))
    ));
    let io = std::io::Error::new(std::io::ErrorKind::Other, "poll failed");
    assert!(matches!(
        Server::run_step(LoopEvent::Polled(Err(SocketError::IO(io)))),
        LoopAction::Finish(Err(ServerError::Socket(SocketError::IO(_))))
    ));
    assert!(matches!(Server::run_step(LoopEvent::Dispatched(Ok(()))), LoopAction::FlushAndPoll));
    let io = std::io::Error::new(std::io::ErrorKind::BrokenPipe, "client gone");
    match Server::run_step(LoopEvent::Dispatched(Err(io))) {
        LoopAction::Finish(Err(ServerError::IO(e))) => assert_eq!(e.kind(), std::io::ErrorKind::BrokenPipe),
        other => panic!("unexpected decision {:?}", other),
    }
}

#[test]
fn signal_handlers_register() {
    let s = Server { name: "wm".to_string(), sock_id: 1, winit: None, vfr: false };
    assert!(s.register_signal_handlers().is_ok());
}

#[test]
fn begin_for_wayland() {
    let cfg = config("desk");
    let cmd = start(Platform::Wayland, Some(2));
    let b = Server::begin(&cmd, &cfg).unwrap();
    assert_eq!(b.name, "desk");
    assert_eq!(b.sock_id, Some(2));
    assert!(b.winit.is_none());
}

#[test]
fn begin_for_winit_asks_for_a_window() {
    let cfg = config("desk");
    let cmd = start(Platform::Winit, None);
    let b = Server::begin(&cmd, &cfg).unwrap();
    assert_eq!(b.name, "desk");
    assert_eq!(b.sock_id, None);
    assert!(b.winit.is_some());
}

#[test]
fn begin_then_build_names_the_socket() {
    let cfg = config("desk");
    let cmd = start(Platform::Winit, Some(7));
    let s = Server::begin(&cmd, &cfg).unwrap().build();
    assert_eq!(s.name, "desk");
    assert_eq!(s.sock_id, 7);
    assert!(s.winit.is_some());
    assert_eq!(s.socket_name(), "desk-7");
}

#[test]
fn builder_settings() {
    let b = ServerBuilder::default();
    assert_eq!(b.name, "");
    assert_eq!(b.sock_id, None);
    assert!(b.winit.is_none());
    let b = b.with_socket_id(Some(3)).with_socket_id(Some(9));
    assert_eq!(b.sock_id, Some(9));
    let b = b.with_winit().unwrap().with_winit().unwrap();
    assert!(b.winit.is_some());
    assert_eq!(b.sock_id, Some(9));
    let b = b.with_socket_id(None);
    assert_eq!(b.sock_id, None);
    assert!(b.winit.is_some());
}

#[test]
fn build_keeps_name_and_id() {
    let b = ServerBuilder { name: "wm", sock_id: Some(4), winit: None, vfr: false };
    let s = b.build();
    assert_eq!(s.name, "wm");
    assert_eq!(s.sock_id, 4);
    assert!(s.winit.is_none());
    let _ = WinitConfig::new();
    let _ = WinitConfig::default();
}

#[test]
fn vfr_request_reaches_the_server() {
    let cfg = config("desk");
    let cmd_on = start_with_vfr(Platform::Wayland, Some(1), true);
    let on = Server::begin(&cmd_on, &cfg).unwrap();
    assert!(on.vfr);
    let server = on.build();
    assert!(server.vfr);
    let cmd_off = start_with_vfr(Platform::Winit, Some(1), false);
    let off = Server::begin(&cmd_off, &cfg).unwrap();
    assert!(!off.vfr);
    assert!(!off.build().vfr);
}

#[test]
fn builder_default_has_no_vfr() {
    let b = ServerBuilder::default();
    assert!(!b.vfr);
    let b = b.with_socket_id(Some(2)).with_winit().unwrap();
    assert!(!b.vfr);
}
