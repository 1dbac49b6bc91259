use radiance::config::Aabb;
use radiance::config::Camera;
use radiance::config::ConfigError;
use radiance::config::RaymarchSettings;
use radiance::config::RenderConfiguration;
use radiance::config::RENDER_TARGET_COLOR;
use radiance::config::RENDER_TARGET_DENSITY;
use radiance::options::GpuContextMode;
use radiance::options::MethodType;
use radiance::options::ParseGpuContextModeError;
use radiance::options::RenderTarget;

fn sample_camera() -> Camera {
    Camera { distance: 1, theta: 2, phi: 3, vfov: 4, target_pos: [5, 6, 7] }
}

fn sample_box() -> Aabb {
    Aabb { lo: [10, 11, 12], hi: [13, 14, 15] }
}

#[test]
fn raymarch_settings_need_two_steps() {
    assert_eq!(RaymarchSettings::new(0).unwrap_err(), ConfigError::TooFewSteps);
    assert_eq!(RaymarchSettings::new(1).unwrap_err(), ConfigError::TooFewSteps);
    assert_eq!(RaymarchSettings::new(2).unwrap().n_steps, 2);
}

#[test]
fn raymarch_settings_default_steps() {
    assert_eq!(RaymarchSettings::default().n_steps, 300);
}

#[test]
fn render_configuration_validates_at_construction() {
    let settings = RaymarchSettings::new(300).unwrap();
    let cfg = RenderConfiguration::new(
        sample_camera(),
        settings,
        sample_box(),
        RENDER_TARGET_COLOR,
    )
    .unwrap();
    assert_eq!(cfg.render_target, RENDER_TARGET_COLOR);
    assert_eq!(cfg.rm_settings.n_steps, 300);
    assert_eq!(cfg.camera, sample_camera());
    assert_eq!(cfg.bounding_box, sample_box());
}

#[test]
fn render_configuration_rejects_few_steps() {
    let r = RenderConfiguration::new(
        sample_camera(),
        RaymarchSettings { n_steps: 1 },
        sample_box(),
        RENDER_TARGET_COLOR,
    );
    assert_eq!(r.unwrap_err(), ConfigError::TooFewSteps);
}

#[test]
fn render_configuration_rejects_unknown_target() {
    let r = RenderConfiguration::new(
        sample_camera(),
        RaymarchSettings { n_steps: 2 },
        sample_box(),
        7,
    );
    assert_eq!(r.unwrap_err(), ConfigError::InvalidRenderTarget);
}

#[test]
fn method_type_parse_canonical_names() {
    assert_eq!(MethodType::parse("singlecpu").unwrap(), MethodType::SingleCpu);
    assert_eq!(MethodType::parse("multicpu").unwrap(), MethodType::MultiCpu);
    assert_eq!(MethodType::parse("gpu").unwrap(), MethodType::Gpu);
}

#[test]
fn method_type_parse_keeps_bad_input() {
    let e = MethodType::parse("vulkan").unwrap_err();
    assert_eq!(e.0, "vulkan");
}

#[test]
fn method_type_names_round_trip() {
    for m in [MethodType::SingleCpu, MethodType::MultiCpu, MethodType::Gpu] {
        assert_eq!(MethodType::parse(&m.name()).unwrap(), m);
    }
}

#[test]
fn render_target_parse_and_codes() {
    assert_eq!(RenderTarget::parse("color").unwrap(), RenderTarget::Color);
    assert_eq!(RenderTarget::parse("density").unwrap(), RenderTarget::Density);
    assert_eq!(RenderTarget::parse("depth").unwrap_err().0, "depth");
    assert_eq!(RenderTarget::Color.code(), RENDER_TARGET_COLOR);
    assert_eq!(RenderTarget::Density.code(), RENDER_TARGET_DENSITY);
    assert_eq!(RenderTarget::default(), RenderTarget::Color);
}

#[test]
fn gpu_context_mode_parse_and_names() {
    assert_eq!(GpuContextMode::parse("debug").unwrap(), GpuContextMode::Debug);
    assert_eq!(GpuContextMode::parse("validation").unwrap(), GpuContextMode::ReleaseValidation);
    assert_eq!(GpuContextMode::parse("silent").unwrap(), GpuContextMode::ReleaseSilent);
    let ParseGpuContextModeError::InvalidArg(inp) = GpuContextMode::parse("loud").unwrap_err();
    assert_eq!(inp, "loud");
    for m in [
        GpuContextMode::Debug,
        GpuContextMode::ReleaseValidation,
        GpuContextMode::ReleaseSilent,
    ] {
        assert_eq!(GpuContextMode::parse(&m.name()).unwrap(), m);
    }
}
