//! Context bootstrap and the long-lived graphics-context handle.
//!
//! The bootstrap is a two-phase negotiation: the extended pixel-format and
//! context-creation entry points are only discoverable through a context that
//! is already current, so a hidden scratch window hosts a throwaway legacy
//! context just long enough to look them up, is torn down entirely, and the
//! real format and the versioned core-profile context are then created on the
//! caller's window.

use vstd::prelude::*;

use crate::platform::{contains_name, has_name, Platform, ThreadMessage, CLOSE_WINDOW_MESSAGE};
use crate::window::{WindowBuilder, Window};

verus! {

pub const WGL_DRAW_TO_WINDOW_ARB: i32 = 0x2001;

pub const WGL_SUPPORT_OPENGL_ARB: i32 = 0x2010;

pub const WGL_DOUBLE_BUFFER_ARB: i32 = 0x2011;

pub const WGL_COLOR_BITS_ARB: i32 = 0x2014;

pub const WGL_DEPTH_BITS_ARB: i32 = 0x2022;

pub const WGL_CONTEXT_MAJOR_VERSION_ARB: i32 = 0x2091;

pub const WGL_CONTEXT_MINOR_VERSION_ARB: i32 = 0x2092;

pub const WGL_CONTEXT_FLAGS_ARB: i32 = 0x2094;

pub const WGL_CONTEXT_CORE_PROFILE_BIT_ARB: i32 = 0x00000001;

/// The model's handle for the core graphics library module, retained as the
/// fallback path of proc-address resolution.
pub const GL_LIBRARY_MODULE: i32 = 1;

/// Model address a name resolves to through the driver's dynamic lookup. The
/// model keeps real addresses opaque and records only which path, if any,
/// resolved a name; both model addresses are non-null.
pub const DRIVER_RESOLVED_ADDRESS: usize = 2;

/// Model address a name resolves to through the core library module.
pub const MODULE_RESOLVED_ADDRESS: usize = 1;

/// Requested context attributes: context version, color depth and
/// depth-buffer depth. Read once, at bootstrap time.
#[derive(Debug)]
pub struct RenderAttributes {
    pub version: (u8, u8),
    pub color_bits: u8,
    pub depth_bits: u8,
}

impl Default for RenderAttributes {
    /// Version 4.6, 32 color bits, 24 depth bits.
    fn default() -> (r: Self)
        ensures
            r.version == ((4u8, 6u8)),
            r.color_bits == 32,
            r.depth_bits == 24,
    {
        RenderAttributes { version: (4, 6), color_bits: 32, depth_bits: 24 }
    }
}

/// Fluent builder over [`RenderAttributes`].
#[derive(Debug)]
pub struct RenderBuilder {
    pub attributes: RenderAttributes,
}

impl Default for RenderBuilder {
    fn default() -> (r: Self)
        ensures
            r.attributes.version == ((4u8, 6u8)),
            r.attributes.color_bits == 32,
            r.attributes.depth_bits == 24,
    {
        RenderBuilder { attributes: Default::default() }
    }
}

impl RenderBuilder {
    /// A builder holding the default attributes.
    pub fn new() -> (r: Self)
        ensures
            r.attributes.version == ((4u8, 6u8)),
            r.attributes.color_bits == 32,
            r.attributes.depth_bits == 24,
    {
        Default::default()
    }

    /// Replaces the requested context version.
    pub fn with_version(self, version: (u8, u8)) -> (r: Self)
        ensures
            r.attributes.version == version,
            r.attributes.color_bits == self.attributes.color_bits,
            r.attributes.depth_bits == self.attributes.depth_bits,
    {
        RenderBuilder { attributes: RenderAttributes { version, ..self.attributes } }
    }

    /// Replaces the requested color depth.
    pub fn with_color_bits(self, color_bits: u8) -> (r: Self)
        ensures
            r.attributes.color_bits == color_bits,
            r.attributes.version == self.attributes.version,
            r.attributes.depth_bits == self.attributes.depth_bits,
    {
        RenderBuilder { attributes: RenderAttributes { color_bits, ..self.attributes } }
    }

    /// Replaces the requested depth-buffer depth.
    pub fn with_depth_bits(self, depth_bits: u8) -> (r: Self)
        ensures
            r.attributes.depth_bits == depth_bits,
            r.attributes.version == self.attributes.version,
            r.attributes.color_bits == self.attributes.color_bits,
    {
        RenderBuilder { attributes: RenderAttributes { depth_bits, ..self.attributes } }
    }

    /// Runs the bootstrap for the given window with the accumulated
    /// attributes; the contract of [`Render::new`], with these attributes.
    pub fn build(self, platform: &mut Platform, window: &Window) -> (r: Result<
        Render,
        RenderError,
    >)
        requires
            old(platform).wf(),
        ensures
            final(platform).wf(),
            final(platform).class_registered,
            final(platform).driver == old(platform).driver,
            final(platform).display_available == old(platform).display_available,
            final(platform).frames_presented == old(platform).frames_presented,
            r is Ok <==> bootstrap_outcome(*old(platform), self.attributes) is Ok,
            match r {
                Ok(render) => {
                    &&& render.device_context == window.handle
                    &&& render.gl_context == old(platform).next_context_id + 1
                    &&& render.gl_library == GL_LIBRARY_MODULE
                    &&& !old(platform).open_contexts@.contains(render.gl_context)
                    &&& final(platform).current == Some((window.handle, render.gl_context))
                    &&& final(platform).open_windows@ == old(platform).open_windows@
                    &&& final(platform).open_contexts@ == old(platform).open_contexts@.push(
                        render.gl_context,
                    )
                    &&& final(platform).next_window_id == old(platform).next_window_id + 1
                    &&& final(platform).next_context_id == old(platform).next_context_id + 2
                    &&& final(platform).messages@ == old(platform).messages@.push(
                        ThreadMessage {
                            message: CLOSE_WINDOW_MESSAGE,
                            wparam: old(platform).next_window_id,
                        },
                    )
                },
                Err(e) => Err::<(), RenderError>(e) == bootstrap_outcome(
                    *old(platform),
                    self.attributes,
                ),
            },
    {
        Render::new(platform, window, self.attributes)
    }
}

/// Which bootstrap step failed. Every variant names an unrecoverable
/// environment precondition — an absent display, an incompatible driver, or
/// an unsupported version request — attributed to the step that detected it.
#[derive(Clone, Copy, PartialEq, Eq, Structural, Debug)]
pub enum RenderError {
    /// The hidden scratch window could not be created.
    WindowCreationFailed,
    /// No basic pixel format could be chosen and set on the scratch surface.
    PixelFormatUnavailable,
    /// The throwaway legacy context could not be created or made current.
    LegacyContextFailed,
    /// The driver does not expose the two extended entry points.
    ExtensionUnavailable,
    /// The extended chooser found no format for the caller's surface.
    ExtendedPixelFormatUnavailable,
    /// The versioned, core-profile context could not be created.
    ContextCreationFailed,
}

/// Whether the driver can create a context of the requested version.
pub open spec fn version_supported(d: crate::platform::DriverProfile, major: u8, minor: u8) -> bool {
    major < d.max_major || (major == d.max_major && minor <= d.max_minor)
}

/// Whether the driver's dynamic lookup exposes both extended entry points:
/// the attribute-driven format chooser and the versioned context creator.
pub open spec fn modern_wgl_available(d: crate::platform::DriverProfile) -> bool {
    has_name(d.wgl_procs@, "wglChoosePixelFormatARB"@) && has_name(
        d.wgl_procs@,
        "wglCreateContextAttribsARB"@,
    )
}

/// Whether a name resolves at all: first through the driver's dynamic
/// lookup, then through the core library module.
pub open spec fn resolves(d: crate::platform::DriverProfile, name: Seq<char>) -> bool {
    has_name(d.wgl_procs@, name) || has_name(d.module_procs@, name)
}

/// The outcome the bootstrap owes on a given platform: `Ok` exactly when
/// every step can succeed, and otherwise the error of the first step that
/// cannot, in protocol order.
pub open spec fn bootstrap_outcome(p: Platform, a: RenderAttributes) -> Result<(), RenderError> {
    if !(p.display_available && p.next_window_id < i32::MAX) {
        Err(RenderError::WindowCreationFailed)
    } else if !p.driver.basic_format_available {
        Err(RenderError::PixelFormatUnavailable)
    } else if !(p.driver.legacy_context_available && p.next_context_id < i32::MAX) {
        Err(RenderError::LegacyContextFailed)
    } else if !modern_wgl_available(p.driver) {
        Err(RenderError::ExtensionUnavailable)
    } else if !p.driver.extended_format_available {
        Err(RenderError::ExtendedPixelFormatUnavailable)
    } else if !(version_supported(p.driver, a.version.0, a.version.1) && p.next_context_id
        < i32::MAX - 1) {
        Err(RenderError::ContextCreationFailed)
    } else {
        Ok(())
    }
}

/// The attribute list handed to the extended format chooser: draw-to-window,
/// GL support and double buffering switched on, the requested color and
/// depth bit depths, and the zero sentinel pair.
pub open spec fn format_attrib_list(color_bits: u8, depth_bits: u8) -> Seq<i32> {
    seq![
        WGL_DRAW_TO_WINDOW_ARB,
        1,
        WGL_SUPPORT_OPENGL_ARB,
        1,
        WGL_DOUBLE_BUFFER_ARB,
        1,
        WGL_COLOR_BITS_ARB,
        color_bits as i32,
        WGL_DEPTH_BITS_ARB,
        depth_bits as i32,
        0,
        0,
    ]
}

/// The attribute list handed to the extended context creator: the requested
/// major and minor version, the core-profile flag, and the zero sentinel
/// pair.
pub open spec fn context_attrib_list(major: u8, minor: u8) -> Seq<i32> {
    seq![
        WGL_CONTEXT_MAJOR_VERSION_ARB,
        major as i32,
        WGL_CONTEXT_MINOR_VERSION_ARB,
        minor as i32,
        WGL_CONTEXT_FLAGS_ARB,
        WGL_CONTEXT_CORE_PROFILE_BIT_ARB,
        0,
        0,
    ]
}

/// Builds the pixel-format attribute list for the extended chooser.
pub fn pixel_format_attribs(color_bits: u8, depth_bits: u8) -> (r: Vec<i32>)
    ensures
        r@ == format_attrib_list(color_bits, depth_bits),
{
    let mut v: Vec<i32> = Vec::new();
    v.push(WGL_DRAW_TO_WINDOW_ARB);
    v.push(1);
    v.push(WGL_SUPPORT_OPENGL_ARB);
    v.push(1);
    v.push(WGL_DOUBLE_BUFFER_ARB);
    v.push(1);
    v.push(WGL_COLOR_BITS_ARB);
    v.push(color_bits as i32);
    v.push(WGL_DEPTH_BITS_ARB);
    v.push(depth_bits as i32);
    v.push(0);
    v.push(0);
    proof {
        assert(v@ =~= format_attrib_list(color_bits, depth_bits));
    }
    v
}

/// Builds the context attribute list for the extended context creator.
pub fn context_attribs(major: u8, minor: u8) -> (r: Vec<i32>)
    ensures
        r@ == context_attrib_list(major, minor),
{
    let mut v: Vec<i32> = Vec::new();
    v.push(WGL_CONTEXT_MAJOR_VERSION_ARB);
    v.push(major as i32);
    v.push(WGL_CONTEXT_MINOR_VERSION_ARB);
    v.push(minor as i32);
    v.push(WGL_CONTEXT_FLAGS_ARB);
    v.push(WGL_CONTEXT_CORE_PROFILE_BIT_ARB);
    v.push(0);
    v.push(0);
    proof {
        assert(v@ =~= context_attrib_list(major, minor));
    }
    v
}

/// The long-lived graphics context: the created context handle, the device
/// surface it is bound to (the owning window's), and the core library module
/// retained as the fallback for proc-address resolution.
#[derive(Debug)]
pub struct Render {
    pub gl_context: i32,
    pub gl_library: i32,
    pub device_context: i32,
}

impl Render {
    /// The two-phase bootstrap. Succeeds exactly when
    /// [`bootstrap_outcome`] says `Ok`, and otherwise returns the error of
    /// the first step that cannot succeed. On success the new context is a
    /// fresh handle, current on the caller's window's surface; the scratch
    /// window and its throwaway context are gone, leaving only the scratch
    /// window's close notification on the thread queue.
    pub fn new(platform: &mut Platform, window: &Window, attributes: RenderAttributes) -> (r:
        Result<Render, RenderError>)
        requires
            old(platform).wf(),
        ensures
            final(platform).wf(),
            final(platform).class_registered,
            final(platform).driver == old(platform).driver,
            final(platform).display_available == old(platform).display_available,
            final(platform).frames_presented == old(platform).frames_presented,
            final(platform).next_window_id >= old(platform).next_window_id,
            final(platform).next_context_id >= old(platform).next_context_id,
            r is Ok <==> bootstrap_outcome(*old(platform), attributes) is Ok,
            match r {
                Ok(render) => {
                    &&& render.device_context == window.handle
                    &&& render.gl_context == old(platform).next_context_id + 1
                    &&& render.gl_library == GL_LIBRARY_MODULE
                    &&& !old(platform).open_contexts@.contains(render.gl_context)
                    &&& final(platform).current == Some((window.handle, render.gl_context))
                    &&& final(platform).open_windows@ == old(platform).open_windows@
                    &&& final(platform).open_contexts@ == old(platform).open_contexts@.push(
                        render.gl_context,
                    )
                    &&& final(platform).next_window_id == old(platform).next_window_id + 1
                    &&& final(platform).next_context_id == old(platform).next_context_id + 2
                    &&& final(platform).messages@ == old(platform).messages@.push(
                        ThreadMessage {
                            message: CLOSE_WINDOW_MESSAGE,
                            wparam: old(platform).next_window_id,
                        },
                    )
                },
                Err(e) => Err::<(), RenderError>(e) == bootstrap_outcome(
                    *old(platform),
                    attributes,
                ),
            },
    {
        // Phase one: a hidden scratch window hosts the throwaway context.
        let scratch = match (WindowBuilder::new().with_size((0, 0)).build(platform)) {
            Ok(w) => w,
            Err(_) => { return Err(RenderError::WindowCreationFailed) },
        };
        let scratch_device = scratch.get_id();

        // Basic pixel format on the scratch surface.
        if !platform.driver.basic_format_available {
            return Err(RenderError::PixelFormatUnavailable);
        }

        // Throwaway legacy context, made current to unlock the driver's
        // dynamic lookup.
        if !platform.driver.legacy_context_available {
            return Err(RenderError::LegacyContextFailed);
        }
        let legacy = match (platform.create_context()) {
            Some(c) => c,
            None => { return Err(RenderError::LegacyContextFailed) },
        };
        platform.set_current(Some((scratch_device, legacy)));

        // Extension discovery through the legacy context.
        let have_choose = contains_name(&platform.driver.wgl_procs, "wglChoosePixelFormatARB");
        let have_create = contains_name(&platform.driver.wgl_procs, "wglCreateContextAttribsARB");
        if !(have_choose && have_create) {
            return Err(RenderError::ExtensionUnavailable);
        }

        // Scratch teardown: unbind, delete the throwaway context, destroy
        // the scratch window.
        platform.set_current(None);
        platform.delete_context(legacy);
        proof {
            crate::platform::lemma_push_then_remove_value(
                old(platform).open_contexts@,
                legacy,
            );
        }
        scratch.destroy(platform);
        proof {
            crate::platform::lemma_push_then_remove_value(
                old(platform).open_windows@,
                old(platform).next_window_id,
            );
        }

        // Phase two: the real surface of the caller's window. The chooser
        // takes the request as the attribute list that
        // [`format_attrib_list`] describes, and the chosen format is set
        // with a zeroed descriptor: the list, not the descriptor, selected
        // it.
        let device_context = window.get_id();
        if !platform.driver.extended_format_available {
            return Err(RenderError::ExtendedPixelFormatUnavailable);
        }
        // The versioned request is the list [`context_attrib_list`]
        // describes; the driver honours it up to its highest version.
        if !version_ok(&platform.driver, attributes.version.0, attributes.version.1) {
            return Err(RenderError::ContextCreationFailed);
        }
        let gl_context = match (platform.create_context()) {
            Some(c) => c,
            None => { return Err(RenderError::ContextCreationFailed) },
        };
        platform.set_current(Some((device_context, gl_context)));

        // The core library module, the fallback for proc-address resolution.
        let gl_library = GL_LIBRARY_MODULE;

        Ok(Render { gl_context, gl_library, device_context })
    }

    /// Binds this context and its surface as the thread's rendering target.
    /// Idempotent: the outcome does not depend on what was current before.
    pub fn make_current(&self, platform: &mut Platform)
        ensures
            *final(platform) == (Platform {
                current: Some((self.device_context, self.gl_context)),
                ..*old(platform)
            }),
    {
        platform.set_current(Some((self.device_context, self.gl_context)));
    }

    /// Presents the back buffer of this context's surface.
    pub fn swap_buffers(&self, platform: &mut Platform)
        requires
            old(platform).frames_presented < u64::MAX,
        ensures
            *final(platform) == (Platform {
                frames_presented: (old(platform).frames_presented + 1) as u64,
                ..*old(platform)
            }),
    {
        platform.frames_presented = platform.frames_presented + 1;
    }

    /// Explicit teardown, consuming the handle: unbinds the context if it is
    /// the thread's current one, then deletes it. The device surface belongs
    /// to the owning window and stays with it; destroying the window is the
    /// owner's separate, terminal step.
    pub fn destroy(self, platform: &mut Platform)
        requires
            old(platform).wf(),
        ensures
            final(platform).wf(),
            final(platform).open_contexts@ == old(platform).open_contexts@.remove_value(
                self.gl_context,
            ),
            final(platform).current == (match old(platform).current {
                Some(binding) => if binding == (self.device_context, self.gl_context) {
                    None
                } else {
                    Some(binding)
                },
                None => None::<(i32, i32)>,
            }),
            *final(platform) == (Platform {
                open_contexts: final(platform).open_contexts,
                current: final(platform).current,
                ..*old(platform)
            }),
    {
        let unbind = match platform.current {
            Some((device, context)) => device == self.device_context && context
                == self.gl_context,
            None => false,
        };
        if unbind {
            platform.set_current(None);
        }
        platform.delete_context(self.gl_context);
    }

    /// Resolves a function name: first through the driver's dynamic lookup,
    /// which covers the extension and post-legacy entry points, then through
    /// the core library module, which covers the baseline ones. Null — and
    /// only null — for a name neither path resolves; an unresolved name is
    /// an answer, never a failure.
    pub fn get_proc_address(&self, platform: &Platform, name: &str) -> (r: usize)
        ensures
            r != 0 <==> resolves(platform.driver, name@),
            has_name(platform.driver.wgl_procs@, name@) ==> r == DRIVER_RESOLVED_ADDRESS,
            !has_name(platform.driver.wgl_procs@, name@) && has_name(
                platform.driver.module_procs@,
                name@,
            ) ==> r == MODULE_RESOLVED_ADDRESS,
            !resolves(platform.driver, name@) ==> r == 0,
    {
        if contains_name(&platform.driver.wgl_procs, name) {
            DRIVER_RESOLVED_ADDRESS
        } else if contains_name(&platform.driver.module_procs, name) {
            MODULE_RESOLVED_ADDRESS
        } else {
            0
        }
    }
}

/// The bootstrap's outcome reads only the display, the driver profile and
/// the two handle allocators — never the current binding, the thread queue
/// or the set of live windows and contexts. Nothing a completed bootstrap
/// leaves behind can therefore block a later one: the scratch phase keeps no
/// hidden single-instance state.
pub proof fn lemma_bootstrap_reusable(
    before: Platform,
    after: Platform,
    attributes: RenderAttributes,
)
    requires
        before.display_available == after.display_available,
        before.driver == after.driver,
        before.next_window_id == after.next_window_id,
        before.next_context_id == after.next_context_id,
    ensures
        bootstrap_outcome(before, attributes) == bootstrap_outcome(after, attributes),
{
}

/// Executable twin of [`version_supported`].
fn version_ok(d: &crate::platform::DriverProfile, major: u8, minor: u8) -> (r: bool)
    ensures
        r == version_supported(*d, major, minor),
{
    major < d.max_major || (major == d.max_major && minor <= d.max_minor)
}

} // verus!
