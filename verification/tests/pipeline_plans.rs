use gstreamer_media::gl_sys::{
    GstGLContext, GstGLDisplay, GstGLDisplayX11, GST_GL_API_ANY, GST_GL_API_GLES2,
    GST_GL_API_OPENGL, GST_GL_PLATFORM_ANY, GST_GL_PLATFORM_GLX, GST_GL_PLATFORM_WGL,
};
use gstreamer_media::pipeline_factory::{
    create_appsink_pipeline_url, create_opengl_pipeline_url, create_pipeline_videotest,
    window_system_for, GlContextSource, GlDisplaySource, GlHandleKind, GlWindowSystem, GstGLContextSend, GstGLDisplaySend,
    NeedContextAction,
};
use gstreamer_media::plan::{PadAction, PipelinePlan};
use gstreamer_media::text::{same_text, starts_with};

fn names(plan: &PipelinePlan) -> Vec<&str> {
    plan.elements.iter().map(|e| e.name.as_str()).collect()
}

fn factories(plan: &PipelinePlan) -> Vec<&str> {
    plan.elements.iter().map(|e| e.factory.as_str()).collect()
}

#[test]
fn videotest_plan_layout() {
    let plan = create_pipeline_videotest();
    assert_eq!(plan.name, "test-pipeline");
    assert_eq!(factories(&plan), vec!["videotestsrc", "appsink"]);
    assert_eq!(names(&plan), vec!["source", "sink"]);
    assert_eq!(plan.elements[0].properties.len(), 1);
    assert_eq!(plan.elements[0].properties[0].name, "pattern");
    assert_eq!(plan.elements[0].properties[0].value, "smpte");
    assert!(plan.elements[1].properties.is_empty());
    assert_eq!(plan.elements[0].missing_message, "Could not create source element.");
    assert_eq!(plan.elements[1].missing_message, "Could not create sink element");
    assert_eq!(plan.add_order, vec![0, 1]);
    assert_eq!(plan.links, vec![(0, 1)]);
    assert_eq!(plan.link_failure_message, "Elements could not be linked.");
    assert_eq!(plan.output, 1);
    let caps = plan.output_caps.as_ref().unwrap();
    assert_eq!(caps.media_type, "video/x-raw");
    assert_eq!(caps.format, "BGRA");
    assert_eq!(caps.pixel_aspect_ratio, (1, 1));
    assert_eq!(plan.pad_source, None);
    assert!(plan.pad_routes.is_empty());
}

#[test]
fn videotest_plan_routes_nothing() {
    let plan = create_pipeline_videotest();
    assert_eq!(plan.route_pad("video/x-raw"), None);
}

#[test]
fn appsink_plan_layout() {
    let url = "file:///tmp/movie.mkv";
    let plan = create_appsink_pipeline_url(url);
    assert_eq!(plan.name, "test-pipeline");
    assert_eq!(
        factories(&plan),
        vec!["uridecodebin", "videoconvert", "audioconvert", "appsink", "autoaudiosink"]
    );
    assert_eq!(names(&plan), vec!["source", "videoconvert", "audioconvert", "videosink", "audiosink"]);
    assert_eq!(plan.elements[0].properties[0].name, "uri");
    assert_eq!(plan.elements[0].properties[0].value, url);
    assert_eq!(plan.elements[0].missing_message, "Could not create uridecodebin element.");
    assert_eq!(plan.elements[1].missing_message, "Could not create videoconvert element.");
    assert_eq!(plan.elements[2].missing_message, "Could not create audioconvert element.");
    assert_eq!(plan.elements[3].missing_message, "Could not create sink element");
    assert_eq!(plan.elements[4].missing_message, "Could not create sink element.");
    assert_eq!(plan.add_order, vec![0, 1, 3, 2, 4]);
    assert_eq!(plan.links, vec![(1, 3), (2, 4)]);
    assert_eq!(plan.output, 3);
    let caps = plan.output_caps.as_ref().unwrap();
    assert_eq!(caps.format, "BGRA");
    assert_eq!(plan.pad_source, Some(0));
}

#[test]
fn appsink_plan_routes_pads_by_kind() {
    let plan = create_appsink_pipeline_url("http://example.org/a.ogg");
    assert_eq!(plan.route_pad("video/x-raw"), Some(1));
    assert_eq!(plan.route_pad("audio/x-raw"), Some(2));
    assert_eq!(plan.route_pad("audio/x-raw(memory:SystemMemory)"), Some(2));
    assert_eq!(plan.route_pad("video/x-bayer"), None);
    assert_eq!(plan.route_pad("text/x-raw"), None);
    assert_eq!(plan.route_pad("video/x-ra"), None);
    assert_eq!(plan.route_pad(""), None);
}

#[test]
fn appsink_plan_keeps_unicode_url() {
    let url = "file:///home/ü/видео.webm";
    let plan = create_appsink_pipeline_url(url);
    assert_eq!(plan.elements[0].properties[0].value, url);
}

#[test]
fn opengl_plan_on_x11() {
    let plan = create_opengl_pipeline_url("file:///a.mp4", GlWindowSystem::X11Glx);
    let p = &plan.pipeline;
    assert_eq!(factories(p), vec!["uridecodebin", "audioconvert", "glimagesink", "autoaudiosink"]);
    assert_eq!(names(p), vec!["source", "audioconvert", "videosink", "audiosink"]);
    assert_eq!(p.elements[0].properties[0].value, "file:///a.mp4");
    assert_eq!(p.add_order, vec![0, 2, 1, 3]);
    assert_eq!(p.links, vec![(1, 3)]);
    assert_eq!(p.output, 2);
    assert!(p.output_caps.is_none());
    assert_eq!(p.route_pad("video/x-raw"), Some(2));
    assert_eq!(p.route_pad("audio/x-raw"), Some(1));
    assert_eq!(plan.window_system, GlWindowSystem::X11Glx);
    assert_eq!(plan.display_source, GlDisplaySource::X11Connection);
    assert_eq!(
        plan.context_source,
        GlContextSource::Wrapped { platform: 2, api: 1 }
    );
    assert!(plan.attach_app_context);
}

#[test]
fn opengl_plan_on_windows() {
    let plan = create_opengl_pipeline_url("file:///a.mp4", GlWindowSystem::Windows);
    assert_eq!(plan.display_source, GlDisplaySource::NewDefault);
    assert_eq!(plan.context_source, GlContextSource::NewForDisplay);
    assert!(!plan.attach_app_context);
    assert_eq!(names(&plan.pipeline), vec!["source", "audioconvert", "videosink", "audiosink"]);
}

#[test]
fn need_context_answers() {
    let x11 = create_opengl_pipeline_url("file:///a.mp4", GlWindowSystem::X11Glx);
    assert_eq!(x11.need_context_action("gst.gl.GLDisplay"), NeedContextAction::ProvideDisplay);
    assert_eq!(
        x11.need_context_action("gst.gl.app_context"),
        NeedContextAction::ProvideAppContext { attach: true }
    );
    assert_eq!(x11.need_context_action("gst.gl.GLDisplayX11"), NeedContextAction::Ignore);
    assert_eq!(x11.need_context_action("gst.gl.GLDispla"), NeedContextAction::Ignore);
    assert_eq!(x11.need_context_action(""), NeedContextAction::Ignore);
    let win = create_opengl_pipeline_url("file:///a.mp4", GlWindowSystem::Windows);
    assert_eq!(
        win.need_context_action("gst.gl.app_context"),
        NeedContextAction::ProvideAppContext { attach: false }
    );
    assert_eq!(win.need_context_action("gst.gl.GLDisplay"), NeedContextAction::ProvideDisplay);
}

#[test]
fn handles_keep_their_address() {
    assert_eq!(GstGLDisplay::from_addr(0x1000).as_mut_ptr(), 0x1000);
    assert_eq!(GstGLContext::from_addr(0xdead_beef).as_mut_ptr(), 0xdead_beef);
    let x11 = GstGLDisplayX11::from_addr(0x2040);
    assert_eq!(x11.as_mut_ptr(), 0x2040);
    assert_eq!(x11.as_display().as_mut_ptr(), 0x2040);
    assert_eq!(GstGLDisplaySend::from_addr(7).as_mut_ptr(), 7);
    assert_eq!(GstGLContextSend::from_addr(usize::MAX).as_mut_ptr(), usize::MAX);
}

#[test]
fn send_handles_cross_threads() {
    fn is_send_sync<T: Send + Sync>() {}
    is_send_sync::<GstGLDisplaySend>();
    is_send_sync::<GstGLContextSend>();
}

#[test]
fn gl_flag_values() {
    assert_eq!(GST_GL_PLATFORM_GLX, 2);
    assert_eq!(GST_GL_PLATFORM_WGL, 4);
    assert_eq!(GST_GL_PLATFORM_ANY, u32::MAX);
    assert_eq!(GST_GL_API_OPENGL, 1);
    assert_eq!(GST_GL_API_GLES2, 65536);
    assert_eq!(GST_GL_API_ANY, u32::MAX);
}

#[test]
fn text_prefix_and_equality() {
    assert!(starts_with("video/x-raw, format=BGRA", "video/x-raw"));
    assert!(starts_with("abc", ""));
    assert!(starts_with("abc", "abc"));
    assert!(!starts_with("ab", "abc"));
    assert!(!starts_with("xbc", "abc"));
    assert!(starts_with("ünï", "ün"));
    assert!(same_text("gst.gl.GLDisplay", "gst.gl.GLDisplay"));
    assert!(!same_text("gst.gl.GLDisplay", "gst.gl.GLDisplay "));
    assert!(!same_text("a", "b"));
    assert!(same_text("", ""));
}

#[test]
fn pad_added_actions() {
    let plan = create_appsink_pipeline_url("file:///a.ogg");
    assert_eq!(plan.pad_added_action("video/x-raw", false), PadAction::Link { target: 1 });
    assert_eq!(plan.pad_added_action("video/x-raw", true), PadAction::AlreadyLinked { target: 1 });
    assert_eq!(plan.pad_added_action("audio/x-raw", false), PadAction::Link { target: 2 });
    assert_eq!(plan.pad_added_action("subtitle/x-kate", false), PadAction::Ignore);
    assert_eq!(plan.pad_added_action("subtitle/x-kate", true), PadAction::Ignore);
}

#[test]
fn each_sink_pad_linked_once_over_pad_events() {
    let plan = create_appsink_pipeline_url("file:///a.ogg");
    let mut linked = vec![false; plan.elements.len()];
    let mut links = Vec::new();
    let events = [
        ("video/x-raw", false),
        ("video/x-raw", true),
        ("audio/x-raw", true),
        ("video/x-raw", true),
        ("text/x-raw", true),
        ("audio/x-raw", true),
    ];
    for (pad_type, link_ok) in events {
        let target_linked = plan.route_pad(pad_type).map_or(false, |t| linked[t]);
        if let PadAction::Link { target } = plan.pad_added_action(pad_type, target_linked) {
            if link_ok {
                linked[target] = true;
                links.push(target);
            }
        }
    }
    assert_eq!(links, vec![1, 2]);
}

#[test]
fn native_context_kinds() {
    assert_eq!(window_system_for(GlHandleKind::Glx), Some(GlWindowSystem::X11Glx));
    assert_eq!(window_system_for(GlHandleKind::Wgl), Some(GlWindowSystem::Windows));
    assert_eq!(window_system_for(GlHandleKind::Egl), None);
}
