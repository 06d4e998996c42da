//! The per-window record: a surface bound to a native window.

use vstd::prelude::*;

verus! {

/// Why a window record could not be made.
#[derive(Clone, Copy, Debug, PartialEq, Eq, Structural)]
pub enum SurfaceError {
    /// The window reported a physical width or height of zero pixels, and a
    /// surface of that size cannot be presented.
    ZeroSized { width: u32, height: u32 },
}

/// What the display system reported for one frame.
#[derive(Clone, Copy, Debug, PartialEq, Eq, Structural)]
pub enum FrameOutcome {
    /// The buffer was leased, the window was told that a frame is coming, and
    /// the buffer was presented.
    Presented,
    /// No buffer could be leased from the surface; nothing further was tried.
    BufferUnavailable,
    /// The buffer was leased but the display system rejected the frame.
    PresentRejected,
}

/// Why a frame did not reach the display.
#[derive(Clone, Copy, Debug, PartialEq, Eq, Structural)]
pub enum DrawError {
    /// The surface's pixel buffer could not be leased.
    BufferUnavailable,
    /// The display system rejected the frame.
    PresentRejected,
}

/// The result that a frame outcome stands for.
pub open spec fn draw_result(outcome: FrameOutcome) -> Result<(), DrawError> {
    match outcome {
        FrameOutcome::Presented => Ok(()),
        FrameOutcome::BufferUnavailable => Err(DrawError::BufferUnavailable),
        FrameOutcome::PresentRejected => Err(DrawError::PresentRejected),
    }
}

/// The attributes that a window is asked for.
#[derive(Debug)]
pub struct WindowAttributes {
    /// The text in the title bar.
    pub title: String,
    /// The background lets what is behind the window shine through.
    pub transparent: bool,
    /// The window covers its whole display and has no border.
    pub borderless_fullscreen: bool,
    /// The window stays above every ordinary window.
    pub always_on_top: bool,
    /// The window takes pointer input. Without hit-testing, clicks go
    /// through to what is underneath.
    pub cursor_hittest: bool,
}

/// The attributes of an overlay: no title, transparent, borderless across
/// the whole display, above everything else, and out of the pointer's way.
pub open spec fn is_overlay(attributes: WindowAttributes) -> bool {
    &&& attributes.title@ == Seq::<char>::empty()
    &&& attributes.transparent
    &&& attributes.borderless_fullscreen
    &&& attributes.always_on_top
    &&& !attributes.cursor_hittest
}

/// The attributes that every window of the application is created with.
pub fn overlay_attributes() -> (attributes: WindowAttributes)
    ensures
        is_overlay(attributes),
{
    WindowAttributes {
        title: String::new(),
        transparent: true,
        borderless_fullscreen: true,
        always_on_top: true,
        cursor_hittest: false,
    }
}

/// What a window record stands for: the resources it keeps alive and the
/// size of its surface in physical pixels.
pub struct WindowRecord<H> {
    pub handle: H,
    pub width: u32,
    pub height: u32,
}

impl<H> WindowRecord<H> {
    /// A record can present: its surface has a non-zero size.
    pub open spec fn wf(self) -> bool {
        self.width > 0 && self.height > 0
    }
}

/// What binding a record to a window of the given size yields.
pub open spec fn bind_record<H>(handle: H, width: u32, height: u32) -> Result<
    WindowRecord<H>,
    SurfaceError,
> {
    if width == 0 || height == 0 {
        Err(SurfaceError::ZeroSized { width, height })
    } else {
        Ok(WindowRecord { handle, width, height })
    }
}

/// One window of the application.
///
/// `H` is whatever the shell needs to keep alive for the window, typically
/// the surface and the native handle it was bound to. The record owns it:
/// dropping the record releases it.
pub struct WindowState<H> {
    handle: H,
    width: u32,
    height: u32,
}

impl<H> View for WindowState<H> {
    type V = WindowRecord<H>;

    closed spec fn view(&self) -> WindowRecord<H> {
        WindowRecord { handle: self.handle, width: self.width, height: self.height }
    }
}

/// What a record, or the reason why there is none, stands for.
pub open spec fn record_view<H>(record: Result<WindowState<H>, SurfaceError>) -> Result<
    WindowRecord<H>,
    SurfaceError,
> {
    match record {
        Ok(record) => Ok(record@),
        Err(e) => Err(e),
    }
}

impl<H> WindowState<H> {
    /// A record always has a surface that can be presented.
    #[verifier::type_invariant]
    pub open spec fn inv(self) -> bool {
        self@.wf()
    }

    /// Binds a record to a window of `width` by `height` physical pixels.
    ///
    /// Fails when either dimension is zero; the handle is then released.
    pub fn new(handle: H, width: u32, height: u32) -> (r: Result<Self, SurfaceError>)
        ensures
            record_view(r) == bind_record(handle, width, height),
    {
        if width == 0 || height == 0 {
            Err(SurfaceError::ZeroSized { width, height })
        } else {
            Ok(WindowState { handle, width, height })
        }
    }

    /// Reports how presenting a frame on this window went.
    pub fn draw(&self, outcome: FrameOutcome) -> (r: Result<(), DrawError>)
        ensures
            r == draw_result(outcome),
    {
        match outcome {
            FrameOutcome::Presented => Ok(()),
            FrameOutcome::BufferUnavailable => Err(DrawError::BufferUnavailable),
            FrameOutcome::PresentRejected => Err(DrawError::PresentRejected),
        }
    }

    /// What the shell keeps alive for this window.
    pub fn handle(&self) -> (h: &H)
        ensures
            *h == self@.handle,
    {
        &self.handle
    }

    /// The surface's width in physical pixels; never zero.
    pub fn width(&self) -> (w: u32)
        ensures
            w == self@.width,
            w > 0,
    {
        proof {
            use_type_invariant(self);
        }
        self.width
    }

    /// The surface's height in physical pixels; never zero.
    pub fn height(&self) -> (h: u32)
        ensures
            h == self@.height,
            h > 0,
    {
        proof {
            use_type_invariant(self);
        }
        self.height
    }
}

} // verus!
