use webview_surface::formats::SurfaceFormat;
use webview_surface::lifecycle::{
    AcquireDecision, AcquireOutcome, Phase, ReadyAction, SurfaceLifecycle,
};
use webview_surface::negotiate::{ConfigError, SurfaceCapabilities};
use webview_surface::present::{plan_webview_attachment, LoadBehavior, TextureViewDimensionality};
use webview_surface::quirks::{
    is_spurious_timeout, recognized_vendor_policy, str_starts_with, OsFamily, PresentEnvironment,
    TimeoutPolicy,
};
use webview_surface::snapshot::{CompositeAlphaMode, PresentMode, WindowSnapshot};

fn snapshot(width: u32, height: u32) -> WindowSnapshot {
    WindowSnapshot {
        physical_width: width,
        physical_height: height,
        alpha_mode: CompositeAlphaMode::Opaque,
        present_mode: PresentMode::Fifo,
    }
}

fn bgra_caps() -> SurfaceCapabilities {
    SurfaceCapabilities {
        formats: vec![SurfaceFormat::Bgra8Unorm, SurfaceFormat::Bgra8UnormSrgb],
    }
}

fn linux_amd() -> PresentEnvironment {
    PresentEnvironment {
        os: OsFamily::Linux,
        adapter_names: vec![String::from("AMD Radeon RX 6800")],
    }
}

#[test]
fn end_to_end_configure_then_resize() {
    let mut m = SurfaceLifecycle::new();
    assert_eq!(m.phase, Phase::Unconfigured);

    let caps = bgra_caps();
    let first = snapshot(800, 600);
    assert_eq!(m.ensure_ready(Some(&caps), Some(&first)), Ok(ReadyAction::ApplyInitial));
    assert_eq!(m.phase, Phase::Configured);
    {
        let c = m.current_config();
        assert_eq!(c.format, SurfaceFormat::Bgra8UnormSrgb);
        assert!(c.view_formats.is_empty());
        assert_eq!(c.width, 800);
        assert_eq!(c.height, 600);
    }

    // The same snapshot again: idempotent, no reconfiguration.
    assert_eq!(m.ensure_ready(None, Some(&first)), Ok(ReadyAction::Unchanged));
    assert_eq!(m.phase, Phase::Configured);

    // A resize: exactly one reconfiguration, format unchanged.
    let resized = snapshot(1024, 768);
    assert_eq!(m.ensure_ready(None, Some(&resized)), Ok(ReadyAction::ApplyResized));
    let c = m.current_config();
    assert_eq!(c.width, 1024);
    assert_eq!(c.height, 768);
    assert_eq!(c.format, SurfaceFormat::Bgra8UnormSrgb);
}

#[test]
fn missing_handle_or_snapshot_is_noop() {
    let mut m = SurfaceLifecycle::new();
    assert_eq!(m.ensure_ready(None, None), Ok(ReadyAction::Skipped));
    assert_eq!(m.phase, Phase::Unconfigured);
    let caps = bgra_caps();
    assert_eq!(m.ensure_ready(Some(&caps), None), Ok(ReadyAction::Skipped));
    assert_eq!(m.phase, Phase::Unconfigured);
    let snap = snapshot(800, 600);
    assert_eq!(m.ensure_ready(None, Some(&snap)), Ok(ReadyAction::Skipped));
    assert_eq!(m.phase, Phase::Unconfigured);
}

#[test]
fn zero_sized_snapshot_suppresses_configuration() {
    let mut m = SurfaceLifecycle::new();
    let caps = bgra_caps();
    let minimized = snapshot(0, 600);
    assert_eq!(m.ensure_ready(Some(&caps), Some(&minimized)), Ok(ReadyAction::Skipped));
    assert_eq!(m.phase, Phase::Unconfigured);
}

#[test]
fn empty_capability_set_fails_the_machine() {
    let mut m = SurfaceLifecycle::new();
    let caps = SurfaceCapabilities { formats: Vec::new() };
    let snap = snapshot(800, 600);
    assert_eq!(
        m.ensure_ready(Some(&caps), Some(&snap)),
        Err(ConfigError::NoSupportedFormats)
    );
    assert_eq!(m.phase, Phase::Failed);
}

#[test]
fn mode_change_triggers_reconfiguration() {
    let mut m = SurfaceLifecycle::new();
    let caps = bgra_caps();
    let first = snapshot(800, 600);
    m.ensure_ready(Some(&caps), Some(&first)).unwrap();
    let mut vsync_off = first;
    vsync_off.present_mode = PresentMode::Immediate;
    assert_eq!(m.ensure_ready(None, Some(&vsync_off)), Ok(ReadyAction::ApplyResized));
    let c = m.current_config();
    assert_eq!(c.format, SurfaceFormat::Bgra8UnormSrgb);
    assert_eq!(c.width, 800);
}

#[test]
fn outdated_reconfigures_and_retry_succeeds() {
    let mut m = SurfaceLifecycle::new();
    let caps = bgra_caps();
    let snap = snapshot(800, 600);
    m.ensure_ready(Some(&caps), Some(&snap)).unwrap();
    let env = linux_amd();
    let policy = recognized_vendor_policy();

    let d = m.on_acquire_result(AcquireOutcome::Outdated, &env, &policy);
    assert_eq!(d, AcquireDecision::ReconfigureAndRetry);
    assert_eq!(m.phase, Phase::AwaitingRetry);
    // The configuration to re-apply is still held, unchanged.
    assert_eq!(m.current_config().width, 800);

    let d = m.on_acquire_result(AcquireOutcome::Acquired, &env, &policy);
    assert_eq!(d, AcquireDecision::Proceed);
    assert_eq!(m.phase, Phase::FrameAcquired);
}

#[test]
fn second_consecutive_outdated_is_fatal() {
    let mut m = SurfaceLifecycle::new();
    let caps = bgra_caps();
    let snap = snapshot(800, 600);
    m.ensure_ready(Some(&caps), Some(&snap)).unwrap();
    let env = linux_amd();
    let policy = recognized_vendor_policy();

    assert_eq!(
        m.on_acquire_result(AcquireOutcome::Outdated, &env, &policy),
        AcquireDecision::ReconfigureAndRetry
    );
    assert_eq!(
        m.on_acquire_result(AcquireOutcome::Outdated, &env, &policy),
        AcquireDecision::Fatal
    );
    assert_eq!(m.phase, Phase::Failed);
}

#[test]
fn recognized_timeout_skips_the_frame() {
    let mut m = SurfaceLifecycle::new();
    let caps = bgra_caps();
    let snap = snapshot(800, 600);
    m.ensure_ready(Some(&caps), Some(&snap)).unwrap();
    let env = linux_amd();
    let policy = recognized_vendor_policy();

    let d = m.on_acquire_result(AcquireOutcome::Timeout, &env, &policy);
    assert_eq!(d, AcquireDecision::SkipFrame);
    assert_eq!(m.phase, Phase::Configured);
    // The next frame proceeds as usual.
    assert_eq!(
        m.on_acquire_result(AcquireOutcome::Acquired, &env, &policy),
        AcquireDecision::Proceed
    );
}

#[test]
fn timeout_with_unlisted_vendor_is_fatal() {
    let mut m = SurfaceLifecycle::new();
    let caps = bgra_caps();
    let snap = snapshot(800, 600);
    m.ensure_ready(Some(&caps), Some(&snap)).unwrap();
    let env = PresentEnvironment {
        os: OsFamily::Linux,
        adapter_names: vec![String::from("NVIDIA GeForce RTX 3080")],
    };
    let policy = recognized_vendor_policy();

    assert_eq!(
        m.on_acquire_result(AcquireOutcome::Timeout, &env, &policy),
        AcquireDecision::Fatal
    );
    assert_eq!(m.phase, Phase::Failed);
}

#[test]
fn timeout_off_the_qualifying_platform_is_fatal() {
    let mut m = SurfaceLifecycle::new();
    let caps = bgra_caps();
    let snap = snapshot(800, 600);
    m.ensure_ready(Some(&caps), Some(&snap)).unwrap();
    let env = PresentEnvironment {
        os: OsFamily::Windows,
        adapter_names: vec![String::from("AMD Radeon RX 6800")],
    };
    let policy = recognized_vendor_policy();

    assert_eq!(
        m.on_acquire_result(AcquireOutcome::Timeout, &env, &policy),
        AcquireDecision::Fatal
    );
    assert_eq!(m.phase, Phase::Failed);
}

#[test]
fn other_error_is_fatal() {
    let mut m = SurfaceLifecycle::new();
    let caps = bgra_caps();
    let snap = snapshot(800, 600);
    m.ensure_ready(Some(&caps), Some(&snap)).unwrap();
    let env = linux_amd();
    let policy = recognized_vendor_policy();

    assert_eq!(
        m.on_acquire_result(AcquireOutcome::OtherError, &env, &policy),
        AcquireDecision::Fatal
    );
    assert_eq!(m.phase, Phase::Failed);
}

#[test]
fn acquired_frame_is_released_after_the_draw() {
    let mut m = SurfaceLifecycle::new();
    let caps = bgra_caps();
    let snap = snapshot(800, 600);
    m.ensure_ready(Some(&caps), Some(&snap)).unwrap();
    let env = linux_amd();
    let policy = recognized_vendor_policy();

    m.on_acquire_result(AcquireOutcome::Acquired, &env, &policy);
    assert_eq!(m.phase, Phase::FrameAcquired);
    m.frame_presented();
    assert_eq!(m.phase, Phase::Configured);
    assert_eq!(m.current_config().width, 800);
}

#[test]
fn attachment_plan_preserves_contents() {
    let mut m = SurfaceLifecycle::new();
    let caps = bgra_caps();
    let snap = snapshot(800, 600);
    m.ensure_ready(Some(&caps), Some(&snap)).unwrap();
    let env = linux_amd();
    let policy = recognized_vendor_policy();
    m.on_acquire_result(AcquireOutcome::Acquired, &env, &policy);

    let plan = plan_webview_attachment(&m);
    assert_eq!(plan.ops.load, LoadBehavior::LoadExisting);
    assert!(plan.ops.store);
    assert_eq!(plan.view.format, SurfaceFormat::Bgra8UnormSrgb);
    assert_eq!(plan.view.dimensionality, TextureViewDimensionality::D2);
    assert_eq!(plan.view.base_mip_level, 0);
    assert_eq!(plan.view.base_array_layer, 0);
}

#[test]
fn vendor_prefix_matching() {
    assert!(str_starts_with("AMD Radeon RX 6800", "AMD"));
    assert!(str_starts_with("Intel Arc A770", "Intel"));
    assert!(!str_starts_with("NVIDIA GeForce", "AMD"));
    assert!(!str_starts_with("AM", "AMD"));
    assert!(str_starts_with("anything", ""));
}

#[test]
fn spurious_timeout_judgement() {
    let policy = recognized_vendor_policy();
    assert!(is_spurious_timeout(&linux_amd(), &policy));
    let second_of_two = PresentEnvironment {
        os: OsFamily::Linux,
        adapter_names: vec![
            String::from("NVIDIA GeForce RTX 3080"),
            String::from("Intel Arc A770"),
        ],
    };
    assert!(is_spurious_timeout(&second_of_two, &policy));
    let mac = PresentEnvironment {
        os: OsFamily::MacOs,
        adapter_names: vec![String::from("AMD Radeon Pro")],
    };
    assert!(!is_spurious_timeout(&mac, &policy));
    let no_adapters = PresentEnvironment { os: OsFamily::Linux, adapter_names: Vec::new() };
    assert!(!is_spurious_timeout(&no_adapters, &policy));
    let empty_policy = TimeoutPolicy { vendor_prefixes: Vec::new() };
    assert!(!is_spurious_timeout(&linux_amd(), &empty_policy));
}
