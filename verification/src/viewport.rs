//! The drawable surface: acquisition from the page, resize, and the
//! dimension query.
//!
//! The host probes the page (window, document, element lookup, canvas cast,
//! context request) and reports what it found as a [`DomProbe`]; the library
//! decides whether a surface exists and which specific acquisition error to
//! report otherwise. The graphics context is requested exactly once, at
//! construction: a constructed `ViewPort` always has its context bound, so
//! clearing and drawing through it can never fail on context re-derivation.

use vstd::prelude::*;

use crate::errors::ViewPortError;

verus! {

/// What the host found under the configured canvas identifier.
#[derive(Debug, Clone, Copy, PartialEq, Eq, Structural)]
pub enum ElementProbe {
    /// No element exists under the identifier.
    Missing,
    /// An element exists but it is not a canvas.
    NotCanvas,
    /// A canvas element, with its current pixel dimensions.
    Canvas { width: u32, height: u32 },
}

/// The outcome of probing the page for a drawable canvas, in the order the
/// host performs the probes: window, document, element lookup and cast,
/// context request. A later field is only meaningful when every earlier
/// probe succeeded; construction consults the fields in exactly that order.
#[derive(Debug, Clone, Copy, PartialEq, Eq, Structural)]
pub struct DomProbe {
    /// The page's window object was accessible.
    pub window_found: bool,
    /// The window had a document.
    pub document_found: bool,
    /// What the element lookup and the canvas cast produced.
    pub element: ElementProbe,
    /// The canvas handed out a graphics context.
    pub context_obtained: bool,
}

impl DomProbe {
    /// A probe that yields a surface: every stage of the acquisition
    /// succeeded.
    pub open spec fn acquires_context(self) -> bool {
        &&& self.window_found
        &&& self.document_found
        &&& self.element matches ElementProbe::Canvas { .. }
        &&& self.context_obtained
    }
}

/// The drawable surface. Holds the canvas pixel dimensions; its graphics
/// context is bound by construction and is never re-derived.
#[derive(Debug, Clone, Copy, PartialEq, Eq, Structural)]
pub struct ViewPort {
    /// Canvas width in pixels.
    pub width: u32,
    /// Canvas height in pixels.
    pub height: u32,
}

impl ViewPort {
    /// The surface as it stands after a resize to the given dimensions.
    pub open spec fn resized(self, width: u32, height: u32) -> ViewPort {
        ViewPort { width, height }
    }

    /// The dimension pair a query reports.
    pub open spec fn dims_spec(self) -> (u32, u32) {
        (self.width, self.height)
    }

    /// Decides surface construction from what the host found on the page.
    ///
    /// Succeeds exactly when every acquisition stage succeeded, and otherwise
    /// reports the specific error of the first stage that failed — never a
    /// generic one.
    pub fn new(probe: &DomProbe) -> (r: Result<ViewPort, ViewPortError>)
        ensures
            r is Ok <==> probe.acquires_context(),
            !probe.window_found ==> r == Err::<ViewPort, ViewPortError>(
                ViewPortError::FailedToGetWindowElement,
            ),
            probe.window_found && !probe.document_found ==> r == Err::<ViewPort, ViewPortError>(
                ViewPortError::FailedToGetDocumentElement,
            ),
            probe.window_found && probe.document_found && probe.element is Missing ==> r == Err::<
                ViewPort,
                ViewPortError,
            >(ViewPortError::FailedToGetCanvasElement),
            probe.window_found && probe.document_found && probe.element is NotCanvas ==> r == Err::<
                ViewPort,
                ViewPortError,
            >(ViewPortError::FailedToConvertToHtmlCanvasElement),
            probe.window_found && probe.document_found && (probe.element matches ElementProbe::Canvas {
                ..
            }) && !probe.context_obtained ==> r == Err::<ViewPort, ViewPortError>(
                ViewPortError::FailedToGetGlContext,
            ),
            probe.acquires_context() ==> (r matches Ok(vp) && probe.element matches ElementProbe::Canvas {
                width,
                height,
            } && vp.width == width && vp.height == height),
    {
        if !probe.window_found {
            return Err(ViewPortError::FailedToGetWindowElement);
        }
        if !probe.document_found {
            return Err(ViewPortError::FailedToGetDocumentElement);
        }
        match probe.element {
            ElementProbe::Missing => Err(ViewPortError::FailedToGetCanvasElement),
            ElementProbe::NotCanvas => Err(ViewPortError::FailedToConvertToHtmlCanvasElement),
            ElementProbe::Canvas { width, height } => {
                if !probe.context_obtained {
                    Err(ViewPortError::FailedToGetGlContext)
                } else {
                    Ok(ViewPort { width, height })
                }
            },
        }
    }

    /// Sets the canvas pixel dimensions. Only the two dimension attributes
    /// are written; the bound context is untouched, and no failure path
    /// exists.
    pub fn resize(&mut self, width: u32, height: u32)
        ensures
            *final(self) == old(self).resized(width, height),
    {
        self.width = width;
        self.height = height;
    }

    /// Reports the canvas pixel dimensions.
    pub fn dimensions(&self) -> (d: (u32, u32))
        ensures
            d == self.dims_spec(),
    {
        (self.width, self.height)
    }
}

/// Law: resizing a surface and then querying its dimensions yields exactly
/// the requested pair, whatever the surface held before.
pub proof fn lemma_resize_then_query(vp: ViewPort, width: u32, height: u32)
    ensures
        vp.resized(width, height).dims_spec() == (width, height),
{
}

} // verus!
