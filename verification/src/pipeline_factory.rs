use vstd::prelude::*;
use crate::gl_sys::{GstGLAPI, GstGLPlatform, GST_GL_API_OPENGL, GST_GL_PLATFORM_GLX};
use crate::plan::{
    CapsModel, CapsSpec, ElementModel, ElementSpec, PadRoute, PipelineModel, PipelinePlan,
    PropertySetting,
};
use crate::plan::first_route;
use crate::text::same_text;

verus! {

/// A `GstGLDisplay` handle that may be sent to another thread, held by the
/// address of the display object.
#[derive(Clone, Copy, Debug)]
pub struct GstGLDisplaySend(usize);

impl View for GstGLDisplaySend {
    type V = usize;

    closed spec fn view(&self) -> usize {
        self.0
    }
}

impl GstGLDisplaySend {
    /// The handle of the display object at address `addr`.
    #[verifier::allow_in_spec]
    pub fn from_addr(addr: usize) -> (d: Self)
        returns
            Self::from_addr_spec(addr),
    {
        GstGLDisplaySend(addr)
    }

    pub closed spec fn from_addr_spec(addr: usize) -> Self {
        GstGLDisplaySend(addr)
    }

    /// The address of the display object.
    #[verifier::allow_in_spec]
    pub fn as_mut_ptr(&self) -> usize
        returns
            self@,
    {
        self.0
    }
}

/// A `GstGLContext` handle that may be sent to another thread, held by the
/// address of the context object.
#[derive(Clone, Copy, Debug)]
pub struct GstGLContextSend(usize);

impl View for GstGLContextSend {
    type V = usize;

    closed spec fn view(&self) -> usize {
        self.0
    }
}

impl GstGLContextSend {
    /// The handle of the context object at address `addr`.
    #[verifier::allow_in_spec]
    pub fn from_addr(addr: usize) -> (c: Self)
        returns
            Self::from_addr_spec(addr),
    {
        GstGLContextSend(addr)
    }

    pub closed spec fn from_addr_spec(addr: usize) -> Self {
        GstGLContextSend(addr)
    }

    /// The address of the context object.
    #[verifier::allow_in_spec]
    pub fn as_mut_ptr(&self) -> usize
        returns
            self@,
    {
        self.0
    }
}

/// A sendable handle gives back the address it was made from.
pub proof fn lemma_send_handles_keep_address(addr: usize)
    ensures
        GstGLDisplaySend::from_addr(addr).as_mut_ptr() == addr,
        GstGLContextSend::from_addr(addr).as_mut_ptr() == addr,
{
}


/// Caps of the frames handed to the application: raw BGRA video with square
/// pixels.
pub open spec fn bgra_caps_model() -> CapsModel {
    CapsModel { media_type: "video/x-raw"@, format: "BGRA"@, pixel_aspect_ratio: (1, 1) }
}

pub open spec fn element_model(
    factory: Seq<char>,
    name: Seq<char>,
    properties: Seq<(Seq<char>, Seq<char>)>,
    missing_message: Seq<char>,
) -> ElementModel {
    ElementModel { factory, name, properties, missing_message }
}

/// `videotestsrc` (SMPTE colour bars) linked to an `appsink` that takes BGRA
/// frames; the sink is handed back.
pub open spec fn videotest_model() -> PipelineModel {
    PipelineModel {
        name: "test-pipeline"@,
        elements: seq![
            element_model(
                "videotestsrc"@,
                "source"@,
                seq![("pattern"@, "smpte"@)],
                "Could not create source element."@,
            ),
            element_model("appsink"@, "sink"@, seq![], "Could not create sink element"@),
        ],
        add_order: seq![0usize, 1usize],
        links: seq![(0usize, 1usize)],
        link_failure_message: "Elements could not be linked."@,
        output: 1,
        output_caps: Some(bgra_caps_model()),
        pad_source: None,
        pad_routes: seq![],
    }
}

fn text(s: &str) -> (t: String)
    ensures
        t@ == s@,
{
    s.to_owned()
}

fn element(factory: &str, name: &str, missing_message: &str) -> (e: ElementSpec)
    ensures
        e@ == element_model(factory@, name@, seq![], missing_message@),
{
    let e = ElementSpec {
        factory: text(factory),
        name: text(name),
        properties: Vec::new(),
        missing_message: text(missing_message),
    };
    assert(e@.properties =~= seq![]);
    e
}

fn element_with_property(
    factory: &str,
    name: &str,
    key: &str,
    value: &str,
    missing_message: &str,
) -> (e: ElementSpec)
    ensures
        e@ == element_model(factory@, name@, seq![(key@, value@)], missing_message@),
{
    let mut properties = Vec::new();
    properties.push(PropertySetting { name: text(key), value: text(value) });
    let e = ElementSpec {
        factory: text(factory),
        name: text(name),
        properties,
        missing_message: text(missing_message),
    };
    assert(e@.properties =~= seq![(key@, value@)]);
    e
}

fn bgra_caps() -> (c: CapsSpec)
    ensures
        c@ == bgra_caps_model(),
{
    CapsSpec { media_type: text("video/x-raw"), format: text("BGRA"), pixel_aspect_ratio: (1, 1) }
}

proof fn lemma_videotest_well_formed()
    ensures
        videotest_model().well_formed(),
{
    reveal_strlit("source");
    reveal_strlit("sink");
    assert("source"@.len() != "sink"@.len());
}

/// The layout of a pipeline that plays the SMPTE test pattern into an
/// application sink taking BGRA frames.
pub fn create_pipeline_videotest() -> (plan: PipelinePlan)
    ensures
        plan@ == videotest_model(),
        plan@.well_formed(),
        plan@.output_caps == Some(
            CapsModel {
                media_type: "video/x-raw"@,
                format: "BGRA"@,
                pixel_aspect_ratio: (1i32, 1i32),
            },
        ),
        plan@.elements[plan@.output as int].factory == "appsink"@,
{
    let mut elements = Vec::new();
    elements.push(
        element_with_property(
            "videotestsrc",
            "source",
            "pattern",
            "smpte",
            "Could not create source element.",
        ),
    );
    elements.push(element("appsink", "sink", "Could not create sink element"));
    let mut add_order = Vec::new();
    add_order.push(0);
    add_order.push(1);
    let mut links = Vec::new();
    links.push((0, 1));
    let plan = PipelinePlan {
        name: text("test-pipeline"),
        elements,
        add_order,
        links,
        link_failure_message: text("Elements could not be linked."),
        output: 1,
        output_caps: Some(bgra_caps()),
        pad_source: None,
        pad_routes: Vec::new(),
    };
    proof {
        lemma_videotest_well_formed();
        lemma_appsink_url_caps(seq![]);
        assert(plan@.elements =~= videotest_model().elements);
        assert(plan@.add_order =~= videotest_model().add_order);
        assert(plan@.links =~= videotest_model().links);
        assert(plan@.pad_routes =~= videotest_model().pad_routes);
    }
    plan
}

/// The routes of pads of a decoder: raw video to `video`, raw audio to `audio`.
pub open spec fn decoder_routes(video: usize, audio: usize) -> Seq<(Seq<char>, usize)> {
    seq![("video/x-raw"@, video), ("audio/x-raw"@, audio)]
}

/// `uridecodebin` reading `url`, its raw video converted into an `appsink`
/// that takes BGRA frames (handed back), its raw audio converted into the
/// default audio output.
pub open spec fn appsink_url_model(url: Seq<char>) -> PipelineModel {
    PipelineModel {
        name: "test-pipeline"@,
        elements: seq![
            element_model(
                "uridecodebin"@,
                "source"@,
                seq![("uri"@, url)],
                "Could not create uridecodebin element."@,
            ),
            element_model(
                "videoconvert"@,
                "videoconvert"@,
                seq![],
                "Could not create videoconvert element."@,
            ),
            element_model(
                "audioconvert"@,
                "audioconvert"@,
                seq![],
                "Could not create audioconvert element."@,
            ),
            element_model("appsink"@, "videosink"@, seq![], "Could not create sink element"@),
            element_model(
                "autoaudiosink"@,
                "audiosink"@,
                seq![],
                "Could not create sink element."@,
            ),
        ],
        add_order: seq![0usize, 1usize, 3usize, 2usize, 4usize],
        links: seq![(1usize, 3usize), (2usize, 4usize)],
        link_failure_message: "Elements could not be linked."@,
        output: 3,
        output_caps: Some(bgra_caps_model()),
        pad_source: Some(0),
        pad_routes: decoder_routes(1, 2),
    }
}

/// `uridecodebin` reading `url`, its raw video shown by `glimagesink`
/// (handed back), its raw audio converted into the default audio output.
pub open spec fn opengl_url_model(url: Seq<char>) -> PipelineModel {
    PipelineModel {
        name: "test-pipeline"@,
        elements: seq![
            element_model(
                "uridecodebin"@,
                "source"@,
                seq![("uri"@, url)],
                "Could not create uridecodebin element."@,
            ),
            element_model(
                "audioconvert"@,
                "audioconvert"@,
                seq![],
                "Could not create audioconvert element."@,
            ),
            element_model("glimagesink"@, "videosink"@, seq![], "Could not create sink element"@),
            element_model(
                "autoaudiosink"@,
                "audiosink"@,
                seq![],
                "Could not create sink element."@,
            ),
        ],
        add_order: seq![0usize, 2usize, 1usize, 3usize],
        links: seq![(1usize, 3usize)],
        link_failure_message: "Elements could not be linked."@,
        output: 2,
        output_caps: None,
        pad_source: Some(0),
        pad_routes: decoder_routes(2, 1),
    }
}

proof fn lemma_decoder_routes_disjoint(video: usize, audio: usize)
    ensures
        crate::plan::routes_disjoint(decoder_routes(video, audio)),
{
    reveal_strlit("video/x-raw");
    reveal_strlit("audio/x-raw");
    let r = decoder_routes(video, audio);
    assert(r[0].0[0] != r[1].0[0]);
    assert(r[0].0[0] != r[1].0.subrange(0, r[0].0.len() as int)[0]);
    assert(r[1].0[0] != r[0].0.subrange(0, r[1].0.len() as int)[0]);
}

/// The element names used by the decoding pipelines differ from each other.
proof fn lemma_decoder_names_distinct()
    ensures
        "source"@ != "videoconvert"@,
        "source"@ != "audioconvert"@,
        "source"@ != "videosink"@,
        "source"@ != "audiosink"@,
        "videoconvert"@ != "audioconvert"@,
        "videoconvert"@ != "videosink"@,
        "videoconvert"@ != "audiosink"@,
        "audioconvert"@ != "videosink"@,
        "audioconvert"@ != "audiosink"@,
        "videosink"@ != "audiosink"@,
{
    reveal_strlit("source");
    reveal_strlit("videoconvert");
    reveal_strlit("audioconvert");
    reveal_strlit("videosink");
    reveal_strlit("audiosink");
    assert("source"@.len() != "videoconvert"@.len());
    assert("source"@.len() != "audioconvert"@.len());
    assert("source"@.len() != "videosink"@.len());
    assert("source"@.len() != "audiosink"@.len());
    assert("videoconvert"@[0] != "audioconvert"@[0]);
    assert("videoconvert"@.len() != "videosink"@.len());
    assert("videoconvert"@.len() != "audiosink"@.len());
    assert("audioconvert"@.len() != "videosink"@.len());
    assert("audioconvert"@.len() != "audiosink"@.len());
    assert("videosink"@[0] != "audiosink"@[0]);
}

proof fn lemma_url_models_well_formed(url: Seq<char>)
    ensures
        appsink_url_model(url).well_formed(),
        opengl_url_model(url).well_formed(),
{
    lemma_decoder_names_distinct();
    lemma_decoder_routes_disjoint(1, 2);
    lemma_decoder_routes_disjoint(2, 1);
    let a = appsink_url_model(url);
    assert forall|i: int, j: int|
        0 <= i < a.elements.len() && 0 <= j < a.elements.len() && i != j implies (
        #[trigger] a.elements[i]).name != (#[trigger] a.elements[j]).name by {
        if i == 0 {} else if i == 1 {} else if i == 2 {} else if i == 3 {} else {}
        if j == 0 {} else if j == 1 {} else if j == 2 {} else if j == 3 {} else {}
    }
    let o = opengl_url_model(url);
    assert forall|i: int, j: int|
        0 <= i < o.elements.len() && 0 <= j < o.elements.len() && i != j implies (
        #[trigger] o.elements[i]).name != (#[trigger] o.elements[j]).name by {
        if i == 0 {} else if i == 1 {} else if i == 2 {} else {}
        if j == 0 {} else if j == 1 {} else if j == 2 {} else {}
    }
}

/// A new decoder pad whose caps name starts with `video/x-raw` goes to the
/// video branch, one starting with `audio/x-raw` to the audio branch, and
/// any other is left unlinked; no pad goes to both.
pub proof fn lemma_decoder_routing(video: usize, audio: usize, pad_type: Seq<char>)
    ensures
        crate::plan::first_route(decoder_routes(video, audio), pad_type) == (if "video/x-raw"@.is_prefix_of(pad_type) {
            Some(video)
        } else if "audio/x-raw"@.is_prefix_of(pad_type) {
            Some(audio)
        } else {
            None
        }),
        !("video/x-raw"@.is_prefix_of(pad_type) && "audio/x-raw"@.is_prefix_of(pad_type)),
{
    let r = decoder_routes(video, audio);
    lemma_decoder_routes_disjoint(video, audio);
    reveal_with_fuel(crate::plan::first_route, 3);
    assert(r.drop_first().drop_first() =~= Seq::<(Seq<char>, usize)>::empty());
    assert(r.drop_first()[0] == r[1]);
    if "video/x-raw"@.is_prefix_of(pad_type) && "audio/x-raw"@.is_prefix_of(pad_type) {
        crate::plan::lemma_route_is_unique(r, pad_type, 1);
    }
}

/// The application sink of the URL pipeline takes raw BGRA video with square
/// pixels, for every url: the very caps of the test-pattern pipeline's sink.
/// The element handed back is that `appsink`.
pub proof fn lemma_appsink_url_caps(url: Seq<char>)
    ensures
        appsink_url_model(url).output_caps == Some(
            CapsModel {
                media_type: "video/x-raw"@,
                format: "BGRA"@,
                pixel_aspect_ratio: (1i32, 1i32),
            },
        ),
        appsink_url_model(url).output_caps == videotest_model().output_caps,
        videotest_model().output_caps == Some(
            CapsModel {
                media_type: "video/x-raw"@,
                format: "BGRA"@,
                pixel_aspect_ratio: (1i32, 1i32),
            },
        ),
        appsink_url_model(url).elements[appsink_url_model(url).output as int].factory
            == "appsink"@,
        videotest_model().elements[videotest_model().output as int].factory == "appsink"@,
{
}

/// In both URL pipelines the decoder (`uridecodebin`, element 0) is the
/// element whose new pads are routed, and it is the only element given a
/// property: exactly one, `uri` set to the url.
pub proof fn lemma_url_pipelines_decoder(url: Seq<char>)
    ensures
        appsink_url_model(url).pad_source == Some(0usize),
        appsink_url_model(url).elements[0].factory == "uridecodebin"@,
        appsink_url_model(url).elements[0].properties == seq![("uri"@, url)],
        forall|i: int|
            1 <= i < appsink_url_model(url).elements.len() ==> (#[trigger] appsink_url_model(
                url,
            ).elements[i]).properties.len() == 0,
        opengl_url_model(url).pad_source == Some(0usize),
        opengl_url_model(url).elements[0].factory == "uridecodebin"@,
        opengl_url_model(url).elements[0].properties == seq![("uri"@, url)],
        forall|i: int|
            1 <= i < opengl_url_model(url).elements.len() ==> (#[trigger] opengl_url_model(
                url,
            ).elements[i]).properties.len() == 0,
{
    let a = appsink_url_model(url);
    assert forall|i: int| 1 <= i < a.elements.len() implies (#[trigger] a.elements[i]).properties.len()
        == 0 by {
        if i == 1 {} else if i == 2 {} else if i == 3 {} else {}
    }
    let o = opengl_url_model(url);
    assert forall|i: int| 1 <= i < o.elements.len() implies (#[trigger] o.elements[i]).properties.len()
        == 0 by {
        if i == 1 {} else if i == 2 {} else {}
    }
}

/// Where a new decoder pad goes in the appsink URL pipeline: raw video to the
/// `videoconvert` element, raw audio to the `audioconvert` element, anything
/// else nowhere.
pub proof fn lemma_appsink_url_routes(url: Seq<char>, pad_type: Seq<char>)
    ensures
        "video/x-raw"@.is_prefix_of(pad_type) ==> (first_route(
            appsink_url_model(url).pad_routes,
            pad_type,
        ) matches Some(t) && t < appsink_url_model(url).elements.len()
            && appsink_url_model(url).elements[t as int].factory == "videoconvert"@),
        "audio/x-raw"@.is_prefix_of(pad_type) ==> (first_route(
            appsink_url_model(url).pad_routes,
            pad_type,
        ) matches Some(t) && t < appsink_url_model(url).elements.len()
            && appsink_url_model(url).elements[t as int].factory == "audioconvert"@),
        !"video/x-raw"@.is_prefix_of(pad_type) && !"audio/x-raw"@.is_prefix_of(pad_type)
            ==> first_route(appsink_url_model(url).pad_routes, pad_type) is None,
{
    lemma_decoder_routing(1, 2, pad_type);
}

/// Where a new decoder pad goes in the GL URL pipeline: raw video straight to
/// the `glimagesink` element, raw audio to the `audioconvert` element,
/// anything else nowhere.
pub proof fn lemma_opengl_url_routes(url: Seq<char>, pad_type: Seq<char>)
    ensures
        "video/x-raw"@.is_prefix_of(pad_type) ==> (first_route(
            opengl_url_model(url).pad_routes,
            pad_type,
        ) matches Some(t) && t < opengl_url_model(url).elements.len()
            && opengl_url_model(url).elements[t as int].factory == "glimagesink"@),
        "audio/x-raw"@.is_prefix_of(pad_type) ==> (first_route(
            opengl_url_model(url).pad_routes,
            pad_type,
        ) matches Some(t) && t < opengl_url_model(url).elements.len()
            && opengl_url_model(url).elements[t as int].factory == "audioconvert"@),
        !"video/x-raw"@.is_prefix_of(pad_type) && !"audio/x-raw"@.is_prefix_of(pad_type)
            ==> first_route(opengl_url_model(url).pad_routes, pad_type) is None,
{
    lemma_decoder_routing(2, 1, pad_type);
}

/// An element asking for a context gets the GL display exactly when it asks
/// for `gst.gl.GLDisplay`, the application context exactly when it asks for
/// `gst.gl.app_context` (attached as the plan says), and nothing for any other
/// context type.
pub proof fn lemma_need_context_answers(context_type: Seq<char>, attach: bool)
    ensures
        (need_context_spec(context_type, attach) == NeedContextAction::ProvideDisplay) <==> (
        context_type == "gst.gl.GLDisplay"@),
        (need_context_spec(context_type, attach) is ProvideAppContext) <==> (context_type
            == "gst.gl.app_context"@),
        need_context_spec(context_type, attach) is ProvideAppContext ==> need_context_spec(
            context_type,
            attach,
        ) == (NeedContextAction::ProvideAppContext { attach }),
        (need_context_spec(context_type, attach) == NeedContextAction::Ignore) <==> (context_type
            != "gst.gl.GLDisplay"@ && context_type != "gst.gl.app_context"@),
{
    reveal_strlit("gst.gl.GLDisplay");
    reveal_strlit("gst.gl.app_context");
    assert("gst.gl.GLDisplay"@.len() != "gst.gl.app_context"@.len());
}

/// The GL pipeline of X11 wraps the application's GLX context as an OpenGL
/// context on a display made from the X connection, and attaches the
/// application context it is asked for; on Windows it makes a new default
/// display and a new context for it, and attaches none.
pub proof fn lemma_gl_sources()
    ensures
        display_source_for(GlWindowSystem::X11Glx) == GlDisplaySource::X11Connection,
        context_source_for(GlWindowSystem::X11Glx) == (GlContextSource::Wrapped {
            platform: GST_GL_PLATFORM_GLX,
            api: GST_GL_API_OPENGL,
        }),
        display_source_for(GlWindowSystem::Windows) == GlDisplaySource::NewDefault,
        context_source_for(GlWindowSystem::Windows) == GlContextSource::NewForDisplay,
{
}

/// The static wiring of the three pipelines, all named `test-pipeline`: the
/// test pattern (`videotestsrc` with `pattern` set to `smpte`, its only
/// property) feeds the `appsink`; in the appsink URL pipeline `videoconvert`
/// feeds the `appsink` and `audioconvert` feeds `autoaudiosink`; in the GL URL
/// pipeline only `audioconvert` feeds `autoaudiosink` (video reaches
/// `glimagesink` through a decoder pad). Every element of each is added.
pub proof fn lemma_pipeline_wiring(url: Seq<char>)
    ensures
        videotest_model().name == "test-pipeline"@,
        appsink_url_model(url).name == "test-pipeline"@,
        opengl_url_model(url).name == "test-pipeline"@,
        videotest_model().elements[0].factory == "videotestsrc"@,
        videotest_model().elements[0].properties == seq![("pattern"@, "smpte"@)],
        videotest_model().links.len() == 1,
        videotest_model().elements[videotest_model().links[0].0 as int].factory
            == "videotestsrc"@,
        videotest_model().elements[videotest_model().links[0].1 as int].factory == "appsink"@,
        videotest_model().pad_source is None,
        appsink_url_model(url).links.len() == 2,
        appsink_url_model(url).elements[appsink_url_model(url).links[0].0 as int].factory
            == "videoconvert"@,
        appsink_url_model(url).elements[appsink_url_model(url).links[0].1 as int].factory
            == "appsink"@,
        appsink_url_model(url).elements[appsink_url_model(url).links[1].0 as int].factory
            == "audioconvert"@,
        appsink_url_model(url).elements[appsink_url_model(url).links[1].1 as int].factory
            == "autoaudiosink"@,
        opengl_url_model(url).links.len() == 1,
        opengl_url_model(url).elements[opengl_url_model(url).links[0].0 as int].factory
            == "audioconvert"@,
        opengl_url_model(url).elements[opengl_url_model(url).links[0].1 as int].factory
            == "autoaudiosink"@,
        opengl_url_model(url).output_caps is None,
        appsink_url_model(url).elements.len() == 5,
        opengl_url_model(url).elements.len() == 4,
        videotest_model().elements.len() == 2,
{
}

fn decoder_routes_vec(video: usize, audio: usize) -> (routes: Vec<PadRoute>)
    ensures
        routes@.map_values(|r: PadRoute| r@) == decoder_routes(video, audio),
{
    let mut routes = Vec::new();
    routes.push(PadRoute { caps_prefix: text("video/x-raw"), target: video });
    routes.push(PadRoute { caps_prefix: text("audio/x-raw"), target: audio });
    assert(routes@.map_values(|r: PadRoute| r@) =~= decoder_routes(video, audio));
    routes
}

/// The layout of a pipeline that decodes `url`, hands its video to the
/// application as BGRA frames and plays its audio.
pub fn create_appsink_pipeline_url(url: &str) -> (plan: PipelinePlan)
    ensures
        plan@ == appsink_url_model(url@),
        plan@.well_formed(),
        plan@.output_caps == Some(
            CapsModel {
                media_type: "video/x-raw"@,
                format: "BGRA"@,
                pixel_aspect_ratio: (1i32, 1i32),
            },
        ),
        plan@.elements[plan@.output as int].factory == "appsink"@,
        plan@.pad_source == Some(0usize),
        plan@.elements[0].factory == "uridecodebin"@,
        plan@.elements[0].properties == seq![("uri"@, url@)],
{
    let mut elements = Vec::new();
    elements.push(
        element_with_property(
            "uridecodebin",
            "source",
            "uri",
            url,
            "Could not create uridecodebin element.",
        ),
    );
    elements.push(element("videoconvert", "videoconvert", "Could not create videoconvert element."));
    elements.push(element("audioconvert", "audioconvert", "Could not create audioconvert element."));
    elements.push(element("appsink", "videosink", "Could not create sink element"));
    elements.push(element("autoaudiosink", "audiosink", "Could not create sink element."));
    let mut add_order = Vec::new();
    add_order.push(0);
    add_order.push(1);
    add_order.push(3);
    add_order.push(2);
    add_order.push(4);
    let mut links = Vec::new();
    links.push((1, 3));
    links.push((2, 4));
    let plan = PipelinePlan {
        name: text("test-pipeline"),
        elements,
        add_order,
        links,
        link_failure_message: text("Elements could not be linked."),
        output: 3,
        output_caps: Some(bgra_caps()),
        pad_source: Some(0),
        pad_routes: decoder_routes_vec(1, 2),
    };
    proof {
        lemma_url_models_well_formed(url@);
        lemma_url_pipelines_decoder(url@);
        lemma_appsink_url_caps(url@);
        let m = appsink_url_model(url@);
        assert(plan@.elements =~= m.elements);
        assert(plan@.add_order =~= m.add_order);
        assert(plan@.links =~= m.links);
    }
    plan
}

/// How the GL display and context given to the pipeline are obtained, by
/// window system.
#[derive(Clone, Copy, Debug, PartialEq, Eq, Structural)]
pub enum GlWindowSystem {
    /// X11 with a GLX context (the display comes from the X connection).
    X11Glx,
    /// Windows with a WGL context.
    Windows,
}

/// The kind of native GL context the application renders with.
#[derive(Clone, Copy, Debug, PartialEq, Eq, Structural)]
pub enum GlHandleKind {
    /// A GLX context (X11).
    Glx,
    /// A WGL context (Windows).
    Wgl,
    /// An EGL context.
    Egl,
}

pub open spec fn window_system_for_spec(kind: GlHandleKind) -> Option<GlWindowSystem> {
    match kind {
        GlHandleKind::Glx => Some(GlWindowSystem::X11Glx),
        GlHandleKind::Wgl => Some(GlWindowSystem::Windows),
        GlHandleKind::Egl => None,
    }
}

/// The window system whose GL pipeline can use a native context of `kind`:
/// a GLX context goes with X11, a WGL context with Windows, and an EGL
/// context with neither.
pub fn window_system_for(kind: GlHandleKind) -> (system: Option<GlWindowSystem>)
    ensures
        system == window_system_for_spec(kind),
        kind == GlHandleKind::Glx ==> system == Some(GlWindowSystem::X11Glx),
        kind == GlHandleKind::Wgl ==> system == Some(GlWindowSystem::Windows),
        kind == GlHandleKind::Egl ==> system is None,
{
    match kind {
        GlHandleKind::Glx => Some(GlWindowSystem::X11Glx),
        GlHandleKind::Wgl => Some(GlWindowSystem::Windows),
        GlHandleKind::Egl => None,
    }
}

/// Where the GStreamer GL display comes from.
#[derive(Clone, Copy, Debug, PartialEq, Eq, Structural)]
pub enum GlDisplaySource {
    /// Made from the display of the application's X connection.
    X11Connection,
    /// A new default GL display.
    NewDefault,
}

/// Where the GStreamer GL context comes from.
#[derive(Clone, Copy, Debug, PartialEq, Eq, Structural)]
pub enum GlContextSource {
    /// The application's own GL context, wrapped with this platform and API.
    Wrapped { platform: GstGLPlatform, api: GstGLAPI },
    /// A new context made for the GL display.
    NewForDisplay,
}

/// What to answer an element that asks for a context.
#[derive(Clone, Copy, Debug, PartialEq, Eq, Structural)]
pub enum NeedContextAction {
    /// Give it a `gst.gl.GLDisplay` context holding the GL display.
    ProvideDisplay,
    /// Build a `gst.gl.app_context` context holding the GL context; set it on
    /// the element only when `attach` holds.
    ProvideAppContext { attach: bool },
    /// Not a context this pipeline provides.
    Ignore,
}

/// A pipeline that renders video through the application's GL context.
pub struct GlPipelinePlan {
    pub pipeline: PipelinePlan,
    pub window_system: GlWindowSystem,
    pub display_source: GlDisplaySource,
    pub context_source: GlContextSource,
    /// Whether the application context is set on the element that asks.
    pub attach_app_context: bool,
}

pub open spec fn display_source_for(system: GlWindowSystem) -> GlDisplaySource {
    match system {
        GlWindowSystem::X11Glx => GlDisplaySource::X11Connection,
        GlWindowSystem::Windows => GlDisplaySource::NewDefault,
    }
}

pub open spec fn context_source_for(system: GlWindowSystem) -> GlContextSource {
    match system {
        GlWindowSystem::X11Glx => GlContextSource::Wrapped {
            platform: GST_GL_PLATFORM_GLX,
            api: GST_GL_API_OPENGL,
        },
        GlWindowSystem::Windows => GlContextSource::NewForDisplay,
    }
}

/// The answer to a request for a context of type `context_type`.
pub open spec fn need_context_spec(context_type: Seq<char>, attach: bool) -> NeedContextAction {
    if context_type == "gst.gl.GLDisplay"@ {
        NeedContextAction::ProvideDisplay
    } else if context_type == "gst.gl.app_context"@ {
        NeedContextAction::ProvideAppContext { attach }
    } else {
        NeedContextAction::Ignore
    }
}

/// The layout of a pipeline that decodes `url`, shows its video through the
/// application's GL context and plays its audio.
pub fn create_opengl_pipeline_url(url: &str, window_system: GlWindowSystem) -> (plan: GlPipelinePlan)
    ensures
        plan.pipeline@ == opengl_url_model(url@),
        plan.pipeline@.well_formed(),
        plan.pipeline@.pad_source == Some(0usize),
        plan.pipeline@.elements[0].factory == "uridecodebin"@,
        plan.pipeline@.elements[0].properties == seq![("uri"@, url@)],
        plan.pipeline@.elements[plan.pipeline@.output as int].factory == "glimagesink"@,
        plan.window_system == window_system,
        plan.display_source == display_source_for(window_system),
        plan.context_source == context_source_for(window_system),
        plan.attach_app_context == (window_system == GlWindowSystem::X11Glx),
{
    let mut elements = Vec::new();
    elements.push(
        element_with_property(
            "uridecodebin",
            "source",
            "uri",
            url,
            "Could not create uridecodebin element.",
        ),
    );
    elements.push(element("audioconvert", "audioconvert", "Could not create audioconvert element."));
    elements.push(element("glimagesink", "videosink", "Could not create sink element"));
    elements.push(element("autoaudiosink", "audiosink", "Could not create sink element."));
    let mut add_order = Vec::new();
    add_order.push(0);
    add_order.push(2);
    add_order.push(1);
    add_order.push(3);
    let mut links = Vec::new();
    links.push((1, 3));
    let pipeline = PipelinePlan {
        name: text("test-pipeline"),
        elements,
        add_order,
        links,
        link_failure_message: text("Elements could not be linked."),
        output: 2,
        output_caps: None,
        pad_source: Some(0),
        pad_routes: decoder_routes_vec(2, 1),
    };
    proof {
        lemma_url_models_well_formed(url@);
        lemma_url_pipelines_decoder(url@);
        let m = opengl_url_model(url@);
        assert(pipeline@.elements =~= m.elements);
        assert(pipeline@.add_order =~= m.add_order);
        assert(pipeline@.links =~= m.links);
    }
    let (display_source, context_source, attach_app_context) = match window_system {
        GlWindowSystem::X11Glx => (
            GlDisplaySource::X11Connection,
            GlContextSource::Wrapped { platform: GST_GL_PLATFORM_GLX, api: GST_GL_API_OPENGL },
            true,
        ),
        GlWindowSystem::Windows => (GlDisplaySource::NewDefault, GlContextSource::NewForDisplay, false),
    };
    GlPipelinePlan { pipeline, window_system, display_source, context_source, attach_app_context }
}

impl GlPipelinePlan {
    /// What to answer an element of the pipeline that asks for a context of
    /// type `context_type`.
    pub fn need_context_action(&self, context_type: &str) -> (action: NeedContextAction)
        ensures
            action == need_context_spec(context_type@, self.attach_app_context),
            (action == NeedContextAction::ProvideDisplay) <==> (context_type@
                == "gst.gl.GLDisplay"@),
            (action == NeedContextAction::ProvideAppContext { attach: self.attach_app_context })
                <==> (context_type@ == "gst.gl.app_context"@),
            (action == NeedContextAction::Ignore) <==> (context_type@ != "gst.gl.GLDisplay"@
                && context_type@ != "gst.gl.app_context"@),
    {
        proof {
            lemma_need_context_answers(context_type@, self.attach_app_context);
        }
        if same_text(context_type, "gst.gl.GLDisplay") {
            NeedContextAction::ProvideDisplay
        } else if same_text(context_type, "gst.gl.app_context") {
            NeedContextAction::ProvideAppContext { attach: self.attach_app_context }
        } else {
            NeedContextAction::Ignore
        }
    }
}

} // verus!
