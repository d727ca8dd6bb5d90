use verso::ids::PipelineId;
use verso::webgl_support::{
    default_gpu_blocklist, init_webgl, is_gpu_blocked, parse_extensions, GPUBlocklistEntry,
    WebGLCapabilities, WebGLConfig, WebGLContextManager, WebGLContextState, WebGLContextId,
    WebGLInitResult, WebGLVersion,
};

#[test]
fn webgl_support_test_default_config() {
    let config = WebGLConfig::default();
    assert!(config.enabled);
    assert_eq!(config.version, WebGLVersion::WebGL2);
    assert!(config.antialias);
}

#[test]
fn test_disabled_config() {
    let config = WebGLConfig {
        enabled: false,
        ..Default::default()
    };
    assert!(!config.enabled);
}

#[test]
fn test_context_id_uniqueness() {
    // Ids come from the manager's own counter: no two registered contexts
    // ever share one.
    let mut manager = WebGLContextManager::new(WebGLConfig::default());
    let pipeline = PipelineId::new(1, 1);
    let id1 = manager.register_context(pipeline, 640, 480, WebGLVersion::WebGL2);
    let id2 = manager.register_context(pipeline, 640, 480, WebGLVersion::WebGL2);
    assert_ne!(id1, id2);
}

#[test]
fn test_gpu_blocklist() {
    let blocklist = default_gpu_blocklist();

    // Test blocked GPU
    let result = is_gpu_blocked(
        "Microsoft Corporation",
        "Microsoft Basic Render Driver",
        &blocklist,
        WebGLVersion::WebGL2,
    );
    assert!(result.is_some());

    // Test same GPU but WebGL1 (should be allowed)
    let result = is_gpu_blocked(
        "Microsoft Corporation",
        "Microsoft Basic Render Driver",
        &blocklist,
        WebGLVersion::WebGL1,
    );
    assert!(result.is_none());

    // Test allowed GPU
    let result = is_gpu_blocked(
        "NVIDIA Corporation",
        "GeForce RTX 3080",
        &blocklist,
        WebGLVersion::WebGL2,
    );
    assert!(result.is_none());
}

#[test]
fn test_context_state() {
    let id = WebGLContextId::new(1);
    let mut state = WebGLContextState::new(id, 800, 600, WebGLVersion::WebGL2);

    assert_eq!(state.width, 800);
    assert_eq!(state.height, 600);
    assert!(!state.is_lost);

    state.resize(1024, 768);
    assert_eq!(state.width, 1024);
    assert_eq!(state.height, 768);

    state.mark_lost();
    assert!(state.is_lost);

    state.mark_restored();
    assert!(!state.is_lost);
}

#[test]
fn test_context_manager_basic() {
    let manager = WebGLContextManager::new(WebGLConfig::default());
    assert!(manager.is_enabled());
    assert_eq!(manager.context_count(), 0);
}

#[test]
fn test_context_manager_register_and_lookup() {
    let mut manager = WebGLContextManager::new(WebGLConfig::default());
    let pipeline = PipelineId::new(1, 1);
    let id = manager.register_context(pipeline, 640, 480, WebGLVersion::WebGL2);

    assert_eq!(manager.context_count(), 1);
    let state = manager.get_context(id).unwrap();
    assert_eq!(state.width, 640);
    assert_eq!(state.height, 480);
    assert_eq!(state.version, WebGLVersion::WebGL2);
    assert!(manager.get_context(WebGLContextId::new(999)).is_none());

    let ids = manager.get_pipeline_contexts(pipeline).unwrap();
    assert_eq!(ids.len(), 1);
    assert_eq!(ids[0], id);
}

#[test]
fn test_context_manager_remove_context() {
    let mut manager = WebGLContextManager::new(WebGLConfig::default());
    let pipeline = PipelineId::new(1, 1);
    let id1 = manager.register_context(pipeline, 640, 480, WebGLVersion::WebGL2);
    let id2 = manager.register_context(pipeline, 800, 600, WebGLVersion::WebGL1);

    let removed = manager.remove_context(id1).unwrap();
    assert_eq!(removed.id, id1);
    assert_eq!(manager.context_count(), 1);
    assert!(manager.get_context(id1).is_none());
    assert!(manager.get_context(id2).is_some());
    // The id left the pipeline's list too.
    assert_eq!(manager.get_pipeline_contexts(pipeline).unwrap().len(), 1);
    // Removing an unknown id is a no-op.
    assert!(manager.remove_context(id1).is_none());
}

#[test]
fn test_context_manager_remove_pipeline() {
    let mut manager = WebGLContextManager::new(WebGLConfig::default());
    let pipeline1 = PipelineId::new(1, 1);
    let pipeline2 = PipelineId::new(1, 2);
    manager.register_context(pipeline1, 640, 480, WebGLVersion::WebGL2);
    manager.register_context(pipeline1, 800, 600, WebGLVersion::WebGL2);
    manager.register_context(pipeline2, 1024, 768, WebGLVersion::WebGL1);

    let removed = manager.remove_pipeline_contexts(pipeline1);
    assert_eq!(removed.len(), 2);
    assert_eq!(manager.context_count(), 1);
    assert!(manager.get_pipeline_contexts(pipeline1).is_none());
    assert!(manager.get_pipeline_contexts(pipeline2).is_some());
}

#[test]
fn test_init_webgl_decisions() {
    let config = WebGLConfig::default();

    // A driver advertising OpenGL ES 3 grants WebGL 2.
    match init_webgl(
        &config,
        String::from("llvmpipe"),
        String::from("Mesa"),
        String::from("OpenGL ES 3.2 Mesa"),
        4096,
    ) {
        WebGLInitResult::Success { version, renderer, vendor, max_texture_size } => {
            assert_eq!(version, WebGLVersion::WebGL2);
            assert_eq!(renderer, "llvmpipe");
            assert_eq!(vendor, "Mesa");
            assert_eq!(max_texture_size, 4096);
        }
        _ => panic!("expected success"),
    }

    // An old driver falls back to WebGL 1.
    match init_webgl(
        &config,
        String::from("gpu"),
        String::from("vendor"),
        String::from("OpenGL ES 2.0"),
        2048,
    ) {
        WebGLInitResult::Success { version, .. } => {
            assert_eq!(version, WebGLVersion::WebGL1);
        }
        _ => panic!("expected success"),
    }

    // Disabled by configuration.
    let disabled = WebGLConfig { enabled: false, ..Default::default() };
    assert!(matches!(
        init_webgl(&disabled, String::new(), String::new(), String::new(), 0),
        WebGLInitResult::Disabled
    ));
}

#[test]
fn test_gpu_blocklist_custom() {
    let custom = vec![GPUBlocklistEntry {
        vendor_pattern: String::from("TestVendor"),
        device_pattern: String::from("BadGPU"),
        reason: String::from("Known to crash"),
        blocked_versions: vec![], // Block all versions
    }];

    let result = is_gpu_blocked("TestVendor Inc.", "BadGPU 9000", &custom, WebGLVersion::WebGL1);
    assert!(result.is_some());

    let result = is_gpu_blocked("OtherVendor", "GoodGPU", &custom, WebGLVersion::WebGL1);
    assert!(result.is_none());
}

#[test]
fn test_capabilities_extensions() {
    let exts = parse_extensions("GL_OES_texture_float  GL_EXT_color_buffer_float\nGL_OES_vertex_array_object");
    assert_eq!(exts.len(), 3);
    assert_eq!(exts[0], "GL_OES_texture_float");
    assert_eq!(exts[1], "GL_EXT_color_buffer_float");
    assert_eq!(exts[2], "GL_OES_vertex_array_object");
    assert_eq!(parse_extensions("").len(), 0);
    assert_eq!(parse_extensions("   ").len(), 0);

    let caps = WebGLCapabilities {
        max_texture_size: 4096,
        max_cube_map_texture_size: 2048,
        max_renderbuffer_size: 4096,
        max_viewport_width: 4096,
        max_viewport_height: 4096,
        max_vertex_attribs: 16,
        max_vertex_uniform_vectors: 256,
        max_fragment_uniform_vectors: 224,
        max_varying_vectors: 30,
        max_texture_image_units: 16,
        extensions: exts,
    };
    assert!(caps.has_extension("GL_OES_texture_float"));
    assert!(caps.has_extension("GL_OES_vertex_array_object"));
    assert!(!caps.has_extension("GL_OES_texture"));
    assert!(!caps.has_extension("GL_ARB_imaging"));
}

#[test]
fn test_webgl_version_default() {
    assert_ne!(WebGLVersion::WebGL1, WebGLVersion::WebGL2);
    assert_eq!(WebGLVersion::default(), WebGLVersion::WebGL2);
}

#[test]
fn test_context_manager_modify_context() {
    let mut manager = WebGLContextManager::new(WebGLConfig::default());
    let pipeline = PipelineId::new(1, 1);
    let id = manager.register_context(pipeline, 640, 480, WebGLVersion::WebGL2);

    if let Some(state) = manager.get_context_mut(id) {
        state.resize(1280, 720);
        state.mark_lost();
    }

    let state = manager.get_context(id).unwrap();
    assert_eq!(state.width, 1280);
    assert_eq!(state.height, 720);
    assert!(state.is_lost);
}
