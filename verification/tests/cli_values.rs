use signal_wm::cli::{Command, LogFormat, Platform, WGPUBackend, WGPUPower, DEFAULT_LOG_FILTER};

#[test]
fn log_format_names() {
    assert_eq!(LogFormat::Compact.value_name(), "compact");
    assert_eq!(LogFormat::Full.value_name(), "full");
    assert_eq!(LogFormat::Pretty.value_name(), "pretty");
    assert_eq!(LogFormat::Json.value_name(), "json");
}

#[test]
fn log_format_variants_in_order() {
    assert_eq!(
        LogFormat::value_variants(),
        vec![LogFormat::Compact, LogFormat::Full, LogFormat::Pretty, LogFormat::Json]
    );
}

#[test]
fn platform_names_and_variants() {
    assert_eq!(Platform::Winit.value_name(), "winit");
    assert_eq!(Platform::Wayland.value_name(), "wayland");
    assert_eq!(Platform::value_variants(), vec![Platform::Winit, Platform::Wayland]);
}

#[test]
fn wgpu_backend_names_and_variants() {
    assert_eq!(WGPUBackend::Vulkan.value_name(), "vulkan");
    assert_eq!(WGPUBackend::GL.value_name(), "gl");
    assert_eq!(WGPUBackend::value_variants(), vec![WGPUBackend::Vulkan, WGPUBackend::GL]);
}

#[test]
fn wgpu_power_names_and_variants() {
    assert_eq!(WGPUPower::Low.value_name(), "low");
    assert_eq!(WGPUPower::High.value_name(), "high");
    assert_eq!(WGPUPower::value_variants(), vec![WGPUPower::Low, WGPUPower::High]);
}

#[test]
fn names_are_distinct_within_each_value_kind() {
    let names: Vec<&str> = LogFormat::value_variants().iter().map(|v| v.value_name()).collect();
    for i in 0..names.len() {
        for j in 0..names.len() {
            assert_eq!(i == j, names[i] == names[j]);
        }
    }
    assert_ne!(Platform::Winit.value_name(), Platform::Wayland.value_name());
    assert_ne!(WGPUBackend::Vulkan.value_name(), WGPUBackend::GL.value_name());
    assert_ne!(WGPUPower::Low.value_name(), WGPUPower::High.value_name());
}

#[test]
fn command_line_defaults() {
    assert_eq!(Platform::default(), Platform::Wayland);
    assert_eq!(WGPUBackend::default(), WGPUBackend::Vulkan);
    assert_eq!(WGPUPower::default(), WGPUPower::Low);
    assert_eq!(DEFAULT_LOG_FILTER, "warn,signal_wm=info");
}

#[test]
fn command_clone_keeps_every_field() {
    let cmd = Command::Start {
        platform: Platform::Winit,
        wgpu_backend: WGPUBackend::GL,
        wgpu_adapter: Some("llvmpipe".to_string()),
        wgpu_power_preference: WGPUPower::High,
        vfr: true,
        socket_id: Some(4),
    };
    let copy = cmd.clone();
    let Command::Start { platform, wgpu_backend, wgpu_adapter, wgpu_power_preference, vfr, socket_id } = copy;
    assert_eq!(platform, Platform::Winit);
    assert_eq!(wgpu_backend, WGPUBackend::GL);
    assert_eq!(wgpu_adapter.as_deref(), Some("llvmpipe"));
    assert_eq!(wgpu_power_preference, WGPUPower::High);
    assert!(vfr);
    assert_eq!(socket_id, Some(4));
}
