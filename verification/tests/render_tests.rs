use triforce::platform::{DriverProfile, Platform, ThreadMessage, CLOSE_WINDOW_MESSAGE};
use triforce::render::{
    context_attribs, pixel_format_attribs, RenderBuilder, RenderError, DRIVER_RESOLVED_ADDRESS,
    MODULE_RESOLVED_ADDRESS,
};
use triforce::window::WindowBuilder;

fn gl_platform() -> Platform {
    Platform {
        class_registered: false,
        display_available: true,
        next_window_id: 1,
        open_windows: Vec::new(),
        next_context_id: 1,
        open_contexts: Vec::new(),
        messages: Vec::new(),
        current: None,
        frames_presented: 0,
        driver: DriverProfile {
            basic_format_available: true,
            legacy_context_available: true,
            extended_format_available: true,
            max_major: 4,
            max_minor: 6,
            wgl_procs: vec![
                "wglChoosePixelFormatARB".to_owned(),
                "wglCreateContextAttribsARB".to_owned(),
                "glDebugMessageCallback".to_owned(),
            ],
            module_procs: vec!["glClear".to_owned(), "glViewport".to_owned()],
        },
    }
}

#[test]
fn render_attributes_default() {
    let attributes = triforce::render::RenderAttributes::default();
    assert_eq!(attributes.version, (4, 6));
    assert_eq!(attributes.color_bits, 32);
    assert_eq!(attributes.depth_bits, 24);
}

#[test]
fn render_builder_accumulates_attributes() {
    let builder = RenderBuilder::new()
        .with_version((3, 3))
        .with_color_bits(24)
        .with_depth_bits(16);
    assert_eq!(builder.attributes.version, (3, 3));
    assert_eq!(builder.attributes.color_bits, 24);
    assert_eq!(builder.attributes.depth_bits, 16);
}

#[test]
fn pixel_format_attrib_list_is_exact() {
    assert_eq!(
        pixel_format_attribs(32, 24),
        vec![0x2001, 1, 0x2010, 1, 0x2011, 1, 0x2014, 32, 0x2022, 24, 0, 0]
    );
}

#[test]
fn context_attrib_list_is_exact() {
    assert_eq!(context_attribs(4, 6), vec![0x2091, 4, 0x2092, 6, 0x2094, 1, 0, 0]);
}

#[test]
fn end_to_end_bootstrap_and_render_loop_step() {
    let mut platform = gl_platform();
    let mut window = WindowBuilder::new()
        .with_title("T")
        .with_size((800, 600))
        .build(&mut platform)
        .unwrap();
    let render = RenderBuilder::new()
        .with_version((4, 6))
        .with_color_bits(32)
        .with_depth_bits(24)
        .build(&mut platform, &window)
        .expect("bootstrap must succeed on a capable platform");

    render.make_current(&mut platform);
    assert_eq!(
        platform.current,
        Some((window.get_id(), render.gl_context))
    );
    assert_ne!(render.get_proc_address(&platform, "glClear"), 0);
    render.swap_buffers(&mut platform);
    assert_eq!(platform.frames_presented, 1);
    // the only queued message is the scratch window's own close
    // notification, so pumping leaves the caller's flag clear
    window.handle_events(&mut platform);
    assert!(!window.get_should_close());
}

#[test]
fn bootstrap_tears_the_scratch_resources_down() {
    let mut platform = gl_platform();
    let window = WindowBuilder::new().build(&mut platform).unwrap();
    let scratch_handle = platform.next_window_id;
    let render = RenderBuilder::new().build(&mut platform, &window).unwrap();
    // only the caller's window and the real context are left
    assert_eq!(platform.open_windows, vec![window.get_id()]);
    assert_eq!(platform.open_contexts, vec![render.gl_context]);
    assert_eq!(
        platform.messages,
        vec![ThreadMessage { message: CLOSE_WINDOW_MESSAGE, wparam: scratch_handle }]
    );
    assert_eq!(platform.current, Some((window.get_id(), render.gl_context)));
    assert_eq!(render.device_context, window.get_id());
}

#[test]
fn two_bootstraps_give_independent_contexts() {
    let mut platform = gl_platform();
    let first_window = WindowBuilder::new().build(&mut platform).unwrap();
    let first = RenderBuilder::new().build(&mut platform, &first_window).unwrap();
    let second_window = WindowBuilder::new().build(&mut platform).unwrap();
    let second = RenderBuilder::new().build(&mut platform, &second_window).unwrap();
    assert_ne!(first.gl_context, second.gl_context);
    assert_ne!(first.device_context, second.device_context);
    first.make_current(&mut platform);
    assert_eq!(platform.current, Some((first_window.get_id(), first.gl_context)));
    second.make_current(&mut platform);
    assert_eq!(platform.current, Some((second_window.get_id(), second.gl_context)));
}

#[test]
fn bootstrap_fails_without_display() {
    let mut platform = gl_platform();
    platform.display_available = false;
    let window_result = WindowBuilder::new().build(&mut platform);
    assert!(window_result.is_err());
    // bootstrap cannot even create its scratch window
    let probe = triforce::window::Window { handle: 77, should_close: false };
    let result = RenderBuilder::new().build(&mut platform, &probe);
    assert_eq!(result.unwrap_err(), RenderError::WindowCreationFailed);
}

#[test]
fn bootstrap_fails_at_the_basic_format_step() {
    let mut platform = gl_platform();
    platform.driver.basic_format_available = false;
    let window = WindowBuilder::new().build(&mut platform).unwrap();
    let result = RenderBuilder::new().build(&mut platform, &window);
    assert_eq!(result.unwrap_err(), RenderError::PixelFormatUnavailable);
}

#[test]
fn bootstrap_fails_at_the_legacy_context_step() {
    let mut platform = gl_platform();
    platform.driver.legacy_context_available = false;
    let window = WindowBuilder::new().build(&mut platform).unwrap();
    let result = RenderBuilder::new().build(&mut platform, &window);
    assert_eq!(result.unwrap_err(), RenderError::LegacyContextFailed);
}

#[test]
fn bootstrap_fails_when_the_extensions_are_missing() {
    let mut platform = gl_platform();
    platform.driver.wgl_procs = vec!["wglChoosePixelFormatARB".to_owned()];
    let window = WindowBuilder::new().build(&mut platform).unwrap();
    let result = RenderBuilder::new().build(&mut platform, &window);
    assert_eq!(result.unwrap_err(), RenderError::ExtensionUnavailable);
}

#[test]
fn bootstrap_fails_at_the_extended_format_step() {
    let mut platform = gl_platform();
    platform.driver.extended_format_available = false;
    let window = WindowBuilder::new().build(&mut platform).unwrap();
    let result = RenderBuilder::new().build(&mut platform, &window);
    assert_eq!(result.unwrap_err(), RenderError::ExtendedPixelFormatUnavailable);
}

#[test]
fn unsupported_version_fails_the_context_step_not_the_format_step() {
    let mut platform = gl_platform();
    let window = WindowBuilder::new().build(&mut platform).unwrap();
    let result = RenderBuilder::new().with_version((9, 0)).build(&mut platform, &window);
    assert_eq!(result.unwrap_err(), RenderError::ContextCreationFailed);

    // one more minor step above the maximum fails the same way
    let mut platform = gl_platform();
    let window = WindowBuilder::new().build(&mut platform).unwrap();
    let result = RenderBuilder::new().with_version((4, 7)).build(&mut platform, &window);
    assert_eq!(result.unwrap_err(), RenderError::ContextCreationFailed);

    // the highest supported version still succeeds
    let mut platform = gl_platform();
    let window = WindowBuilder::new().build(&mut platform).unwrap();
    assert!(RenderBuilder::new().with_version((4, 6)).build(&mut platform, &window).is_ok());
}

#[test]
fn proc_address_resolves_driver_first_with_module_fallback() {
    let mut platform = gl_platform();
    let window = WindowBuilder::new().build(&mut platform).unwrap();
    let render = RenderBuilder::new().build(&mut platform, &window).unwrap();
    // a baseline name lives only in the core library module
    assert_eq!(
        render.get_proc_address(&platform, "glClear"),
        MODULE_RESOLVED_ADDRESS
    );
    // an extension name resolves through the driver
    assert_eq!(
        render.get_proc_address(&platform, "glDebugMessageCallback"),
        DRIVER_RESOLVED_ADDRESS
    );
    // a fabricated name resolves nowhere, and that is an answer, not an error
    assert_eq!(render.get_proc_address(&platform, "glDefinitelyAbsent"), 0);
    assert_eq!(render.get_proc_address(&platform, ""), 0);
}

#[test]
fn context_destroy_unbinds_and_deletes() {
    let mut platform = gl_platform();
    let window = WindowBuilder::new().build(&mut platform).unwrap();
    let render = RenderBuilder::new().build(&mut platform, &window).unwrap();
    render.destroy(&mut platform);
    assert!(platform.open_contexts.is_empty());
    assert_eq!(platform.current, None);
}

#[test]
fn context_destroy_leaves_another_binding_current() {
    let mut platform = gl_platform();
    let first_window = WindowBuilder::new().build(&mut platform).unwrap();
    let first = RenderBuilder::new().build(&mut platform, &first_window).unwrap();
    let second_window = WindowBuilder::new().build(&mut platform).unwrap();
    let second = RenderBuilder::new().build(&mut platform, &second_window).unwrap();
    let second_context = second.gl_context;
    first.destroy(&mut platform);
    assert_eq!(platform.current, Some((second_window.get_id(), second_context)));
    assert_eq!(platform.open_contexts, vec![second_context]);
}

#[test]
fn registry_and_parser_stubs_construct() {
    let _registry = triforce::registry::Registry::new();
    let _parser = triforce::parser::Parser {};
}
