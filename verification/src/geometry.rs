//! Screen-space geometry: the canonical bounding box and the occlusion
//! rectangle derived from it, plus the sentence unit that the detection
//! backend produces.
//!
//! Two box conventions exist around this system: corner form
//! (`min_x, min_y, max_x, max_y`) and size form (`min_x, min_y, width,
//! height`). The corner form is the canonical one everywhere in this crate;
//! the size form is only ever converted to it at a boundary.

use vstd::prelude::*;

verus! {

/// An axis-aligned rectangle in screen pixel coordinates, canonical corner
/// form. Well-formed when each min coordinate is at most its max.
#[derive(Clone, Copy, Debug, PartialEq, Eq, Structural)]
pub struct BoundingBox {
    pub min_x: u32,
    pub min_y: u32,
    pub max_x: u32,
    pub max_y: u32,
}

/// A rectangle in size form: top-left corner plus width and height. This is
/// the shape handed to the painter for the occlusion panel.
#[derive(Clone, Copy, Debug, PartialEq, Eq, Structural)]
pub struct Rect {
    pub x: u32,
    pub y: u32,
    pub width: u32,
    pub height: u32,
}

impl BoundingBox {
    pub open spec fn wf(self) -> bool {
        self.min_x <= self.max_x && self.min_y <= self.max_y
    }

    pub open spec fn spec_width(self) -> int {
        self.max_x - self.min_x
    }

    pub open spec fn spec_height(self) -> int {
        self.max_y - self.min_y
    }

    pub fn new(min_x: u32, min_y: u32, max_x: u32, max_y: u32) -> (r: BoundingBox)
        requires
            min_x <= max_x,
            min_y <= max_y,
        ensures
            r == (BoundingBox { min_x, min_y, max_x, max_y }),
            r.wf(),
    {
        BoundingBox { min_x, min_y, max_x, max_y }
    }

    /// Corner form as the backend reports it, checked: the corners must be
    /// ordered for the box to be well-formed.
    pub fn from_corners(min_x: u32, min_y: u32, max_x: u32, max_y: u32) -> (r: Option<
        BoundingBox,
    >)
        ensures
            r is Some <==> (min_x <= max_x && min_y <= max_y),
            r is Some ==> r->Some_0 == (BoundingBox { min_x, min_y, max_x, max_y })
                && r->Some_0.wf(),
    {
        if min_x <= max_x && min_y <= max_y {
            Some(BoundingBox { min_x, min_y, max_x, max_y })
        } else {
            None
        }
    }

    /// Size form, converted to the canonical corner form; `None` exactly when
    /// a corner would not fit in the coordinate type.
    pub fn from_min_size(min_x: u32, min_y: u32, width: u32, height: u32) -> (r: Option<
        BoundingBox,
    >)
        ensures
            r is Some <==> (min_x + width <= u32::MAX && min_y + height <= u32::MAX),
            r is Some ==> r->Some_0 == (BoundingBox {
                min_x,
                min_y,
                max_x: (min_x + width) as u32,
                max_y: (min_y + height) as u32,
            }) && r->Some_0.wf(),
    {
        match (min_x.checked_add(width), min_y.checked_add(height)) {
            (Some(max_x), Some(max_y)) => Some(BoundingBox { min_x, min_y, max_x, max_y }),
            _ => None,
        }
    }

    pub fn width(&self) -> (r: u32)
        requires
            self.wf(),
        ensures
            r == self.spec_width(),
    {
        self.max_x - self.min_x
    }

    pub fn height(&self) -> (r: u32)
        requires
            self.wf(),
        ensures
            r == self.spec_height(),
    {
        self.max_y - self.min_y
    }

    pub open spec fn spec_occlusion_rect(self) -> Rect {
        Rect {
            x: self.min_x,
            y: self.min_y,
            width: (self.max_x - self.min_x) as u32,
            height: (self.max_y - self.min_y) as u32,
        }
    }

    /// The panel painted over the original on-screen text: same top-left
    /// corner, width and height taken between the corners.
    pub fn occlusion_rect(&self) -> (r: Rect)
        requires
            self.wf(),
        ensures
            r == self.spec_occlusion_rect(),
            r.x == self.min_x && r.y == self.min_y,
            r.width == self.spec_width() && r.height == self.spec_height(),
    {
        Rect {
            x: self.min_x,
            y: self.min_y,
            width: self.max_x - self.min_x,
            height: self.max_y - self.min_y,
        }
    }
}

/// Converting a well-formed box to size form and back is the identity, and
/// the occlusion rectangle carries exactly the box's corner and dimensions:
/// the two conventions name the same rectangle.
pub proof fn lemma_box_round_trip(b: BoundingBox)
    requires
        b.wf(),
    ensures
        b.min_x + b.spec_occlusion_rect().width <= u32::MAX,
        b.min_y + b.spec_occlusion_rect().height <= u32::MAX,
        (BoundingBox {
            min_x: b.min_x,
            min_y: b.min_y,
            max_x: (b.min_x + b.spec_occlusion_rect().width) as u32,
            max_y: (b.min_y + b.spec_occlusion_rect().height) as u32,
        }) == b,
{
}

/// One detected, translated unit of on-screen text together with its
/// screen-space bounding box. Produced only at the detection boundary and
/// never mutated afterwards.
#[derive(Clone, Debug)]
pub struct Sentence {
    pub text: String,
    pub bbox: BoundingBox,
}

impl Sentence {
    pub open spec fn wf(self) -> bool {
        self.bbox.wf()
    }

    pub fn new(text: String, bbox: BoundingBox) -> (r: Sentence)
        requires
            bbox.wf(),
        ensures
            r.text@ == text@,
            r.bbox == bbox,
            r.wf(),
    {
        Sentence { text, bbox }
    }

    /// A sentence with no text is never drawn: neither its occlusion panel
    /// nor any line of text.
    pub fn is_blank(&self) -> (r: bool)
        ensures
            r == (self.text@.len() == 0),
    {
        self.text.as_str().is_empty()
    }
}

} // verus!
