use vstd::prelude::*;

verus! {

/// `GstGLPlatform`: the window-system platform of a GL context (a set of
/// flags; each value below is one bit, `ANY` is all of them).
pub type GstGLPlatform = u32;

pub const GST_GL_PLATFORM_NONE: GstGLPlatform = 0;
pub const GST_GL_PLATFORM_EGL: GstGLPlatform = 1;
pub const GST_GL_PLATFORM_GLX: GstGLPlatform = 2;
pub const GST_GL_PLATFORM_WGL: GstGLPlatform = 4;
pub const GST_GL_PLATFORM_CGL: GstGLPlatform = 8;
pub const GST_GL_PLATFORM_EAGL: GstGLPlatform = 16;
pub const GST_GL_PLATFORM_ANY: GstGLPlatform = 4294967295;

/// `GstGLAPI`: the GL APIs a context offers (a set of flags).
pub type GstGLAPI = u32;

pub const GST_GL_API_NONE: GstGLAPI = 0;
pub const GST_GL_API_OPENGL: GstGLAPI = 1;
pub const GST_GL_API_OPENGL3: GstGLAPI = 2;
pub const GST_GL_API_GLES1: GstGLAPI = 32768;
pub const GST_GL_API_GLES2: GstGLAPI = 65536;
pub const GST_GL_API_ANY: GstGLAPI = 4294967295;

/// A `GstGLDisplay` object of the GStreamer GL library, held by its address.
#[derive(Clone, Copy, Debug)]
pub struct GstGLDisplay(usize);

impl View for GstGLDisplay {
    type V = usize;

    closed spec fn view(&self) -> usize {
        self.0
    }
}

impl GstGLDisplay {
    /// The display object at address `addr`.
    #[verifier::allow_in_spec]
    pub fn from_addr(addr: usize) -> (d: Self)
        returns
            Self::from_addr_spec(addr),
    {
        GstGLDisplay(addr)
    }

    pub closed spec fn from_addr_spec(addr: usize) -> Self {
        GstGLDisplay(addr)
    }

    /// The address of the display object.
    #[verifier::allow_in_spec]
    pub fn as_mut_ptr(&self) -> usize
        returns
            self@,
    {
        self.0
    }
}

/// A `GstGLDisplayX11` object (an X11 specialisation of `GstGLDisplay`), held
/// by its address.
#[derive(Clone, Copy, Debug)]
pub struct GstGLDisplayX11(usize);

impl View for GstGLDisplayX11 {
    type V = usize;

    closed spec fn view(&self) -> usize {
        self.0
    }
}

impl GstGLDisplayX11 {
    /// The X11 display object at address `addr`.
    #[verifier::allow_in_spec]
    pub fn from_addr(addr: usize) -> (d: Self)
        returns
            Self::from_addr_spec(addr),
    {
        GstGLDisplayX11(addr)
    }

    pub closed spec fn from_addr_spec(addr: usize) -> Self {
        GstGLDisplayX11(addr)
    }

    /// The same object seen as a plain `GstGLDisplay`.
    #[verifier::allow_in_spec]
    pub fn as_display(&self) -> GstGLDisplay
        returns
            GstGLDisplay::from_addr_spec(self@),
    {
        GstGLDisplay(self.0)
    }

    /// The address of the display object.
    #[verifier::allow_in_spec]
    pub fn as_mut_ptr(&self) -> usize
        returns
            self@,
    {
        self.0
    }
}

/// A `GstGLContext` object of the GStreamer GL library, held by its address.
#[derive(Clone, Copy, Debug)]
pub struct GstGLContext(usize);

impl View for GstGLContext {
    type V = usize;

    closed spec fn view(&self) -> usize {
        self.0
    }
}

impl GstGLContext {
    /// The context object at address `addr`.
    #[verifier::allow_in_spec]
    pub fn from_addr(addr: usize) -> (c: Self)
        returns
            Self::from_addr_spec(addr),
    {
        GstGLContext(addr)
    }

    pub closed spec fn from_addr_spec(addr: usize) -> Self {
        GstGLContext(addr)
    }

    /// The address of the context object.
    #[verifier::allow_in_spec]
    pub fn as_mut_ptr(&self) -> usize
        returns
            self@,
    {
        self.0
    }
}

/// A handle gives back the address it was made from.
pub proof fn lemma_handles_keep_address(addr: usize)
    ensures
        GstGLDisplay::from_addr(addr).as_mut_ptr() == addr,
        GstGLDisplayX11::from_addr(addr).as_mut_ptr() == addr,
        GstGLContext::from_addr(addr).as_mut_ptr() == addr,
{
}

/// Seeing an X11 display as a plain display keeps the object it refers to.
pub proof fn lemma_as_display_keeps_object(display: GstGLDisplayX11)
    ensures
        display.as_display().as_mut_ptr() == display.as_mut_ptr(),
        display.as_display()@ == display@,
{
}

} // verus!
