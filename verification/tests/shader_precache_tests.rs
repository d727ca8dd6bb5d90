use verso::shader_precache::{
    ShaderCompilationProgress, ShaderPrecacheConfig, ShaderPrecacheConfigBuilder,
    ShaderPrecacheStrategy,
};
use webrender::ShaderPrecacheFlags;

#[test]
fn test_default_strategy() {
    assert_eq!(
        ShaderPrecacheStrategy::default(),
        ShaderPrecacheStrategy::Async
    );
}

#[test]
fn test_strategy_to_flags() {
    assert_eq!(
        ShaderPrecacheStrategy::NoPrecache.to_webrender_flags(),
        ShaderPrecacheFlags::empty()
    );
    assert_eq!(
        ShaderPrecacheStrategy::Async.to_webrender_flags(),
        ShaderPrecacheFlags::ASYNC_COMPILE
    );
    assert_eq!(
        ShaderPrecacheStrategy::Full.to_webrender_flags(),
        ShaderPrecacheFlags::FULL_COMPILE
    );
}

#[test]
fn test_strategy_from_str() {
    assert_eq!(
        ShaderPrecacheStrategy::from_str("none"),
        Some(ShaderPrecacheStrategy::NoPrecache)
    );
    assert_eq!(
        ShaderPrecacheStrategy::from_str("ASYNC"),
        Some(ShaderPrecacheStrategy::Async)
    );
    assert_eq!(
        ShaderPrecacheStrategy::from_str("full"),
        Some(ShaderPrecacheStrategy::Full)
    );
    assert_eq!(ShaderPrecacheStrategy::from_str("invalid"), None);
}

#[test]
fn test_progress_tracking() {
    let mut progress = ShaderCompilationProgress::new(10);
    assert_eq!(progress.percentage(), 0);
    assert!(!progress.complete);

    for _ in 0..8 {
        progress.on_shader_compiled();
    }
    assert_eq!(progress.percentage(), 80);

    progress.on_shader_failed();
    progress.on_shader_compiled();
    assert!(progress.complete);
    assert!(progress.has_failures());
}

#[test]
fn test_config_builder() {
    let config = ShaderPrecacheConfigBuilder::new()
        .strategy(ShaderPrecacheStrategy::Full)
        .use_optimized_shaders(false)
        .build();

    assert_eq!(config.strategy, ShaderPrecacheStrategy::Full);
    assert!(!config.use_optimized_shaders);
}

#[test]
fn test_preset_configs() {
    let fast = ShaderPrecacheConfig::fast_startup();
    assert_eq!(fast.strategy, ShaderPrecacheStrategy::NoPrecache);

    let smooth = ShaderPrecacheConfig::smooth_runtime();
    assert_eq!(smooth.strategy, ShaderPrecacheStrategy::Full);

    let balanced = ShaderPrecacheConfig::balanced();
    assert_eq!(balanced.strategy, ShaderPrecacheStrategy::Async);
}

#[test]
fn test_from_str_synonyms() {
    for s in ["none", "off", "disabled", "OFF", "Disabled"] {
        assert_eq!(
            ShaderPrecacheStrategy::from_str(s),
            Some(ShaderPrecacheStrategy::NoPrecache)
        );
    }
    for s in ["async", "background", "Background"] {
        assert_eq!(
            ShaderPrecacheStrategy::from_str(s),
            Some(ShaderPrecacheStrategy::Async)
        );
    }
    for s in ["full", "sync", "synchronous", "SYNC"] {
        assert_eq!(
            ShaderPrecacheStrategy::from_str(s),
            Some(ShaderPrecacheStrategy::Full)
        );
    }
    assert_eq!(ShaderPrecacheStrategy::from_str(""), None);
    assert_eq!(ShaderPrecacheStrategy::from_str("fully"), None);
}

#[test]
fn test_config_to_flags_follows_strategy() {
    assert_eq!(
        ShaderPrecacheConfig::smooth_runtime().to_webrender_flags(),
        ShaderPrecacheFlags::FULL_COMPILE
    );
    assert_eq!(
        ShaderPrecacheConfig::fast_startup().to_webrender_flags(),
        ShaderPrecacheFlags::empty()
    );
}

#[test]
fn test_descriptions() {
    assert_eq!(
        ShaderPrecacheStrategy::NoPrecache.description(),
        "No precaching - fastest startup, potential runtime stalls"
    );
    assert_eq!(
        ShaderPrecacheStrategy::Async.description(),
        "Async compilation - balanced startup and runtime performance"
    );
    assert_eq!(
        ShaderPrecacheStrategy::Full.description(),
        "Full precaching - slowest startup, smoothest runtime"
    );
}

#[test]
fn test_progress_empty_batch_is_complete() {
    let mut progress = ShaderCompilationProgress::new(0);
    assert_eq!(progress.percentage(), 100);
    progress.check_complete();
    assert!(progress.complete);
    assert!(!progress.has_failures());
}

#[test]
fn test_builder_shader_dir() {
    let config = ShaderPrecacheConfigBuilder::new()
        .shader_dir(String::from("shaders"))
        .build();
    assert_eq!(config.shader_dir, Some(String::from("shaders")));
}
