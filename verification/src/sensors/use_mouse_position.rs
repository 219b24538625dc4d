use vstd::prelude::*;

verus! {

/// Where a pointer position came from.
#[derive(Clone, Copy, Debug, PartialEq, Eq, Structural)]
pub enum EventType {
    Mouse,
    Touch,
}

/// A pointer position: client coordinates, coordinates relative to the
/// tracked element (when tracked relative to it), and page coordinates.
#[derive(Clone, Copy, Debug, PartialEq, Eq, Structural)]
pub struct MousePosition {
    pub x: i32,
    pub y: i32,
    pub element_x: Option<i32>,
    pub element_y: Option<i32>,
    pub page_x: i32,
    pub page_y: i32,
    pub source_type: EventType,
}

/// The coordinates of one pointer reading.
#[derive(Clone, Copy, Debug, PartialEq, Eq, Structural)]
pub struct PointerSample {
    pub client_x: i32,
    pub client_y: i32,
    pub page_x: i32,
    pub page_y: i32,
}

/// The switches of pointer tracking that the event handlers read.
#[derive(Clone, Copy, Debug, PartialEq, Eq, Structural)]
pub struct PointerTracking {
    /// Whether touch events are tracked
    pub touch: bool,
    /// Whether the position returns to the origin when a touch ends
    pub reset_on_touch_ends: bool,
    /// Whether only touch events move the position
    pub touch_only: bool,
    /// Whether to report coordinates relative to the tracked element
    pub relative_to_element: bool,
}

impl Default for MousePosition {
    /// The origin, with no element-relative coordinates, as reported by a mouse.
    fn default() -> (p: Self)
        ensures
            p == (MousePosition {
                x: 0,
                y: 0,
                element_x: None,
                element_y: None,
                page_x: 0,
                page_y: 0,
                source_type: EventType::Mouse,
            }),
    {
        MousePosition { x: 0, y: 0, element_x: None, element_y: None, page_x: 0, page_y: 0, source_type: EventType::Mouse }
    }
}

/// Whether the element-relative coordinates of `s`, against an element whose
/// top-left corner is at `origin` in client coordinates, fit in `i32`.
pub open spec fn offsets_fit(s: PointerSample, origin: Option<(i32, i32)>) -> bool {
    match origin {
        Some((ox, oy)) => i32::MIN <= s.client_x - ox <= i32::MAX && i32::MIN <= s.client_y - oy <= i32::MAX,
        None => true,
    }
}

/// The position that the reading `s` from `source` gives: element-relative
/// coordinates only when tracking relative to the element and its corner
/// `origin` is known.
pub open spec fn spec_position(t: PointerTracking, s: PointerSample, origin: Option<(i32, i32)>, source: EventType) -> MousePosition {
    let (element_x, element_y) = match origin {
        Some((ox, oy)) => if t.relative_to_element {
            (Some((s.client_x - ox) as i32), Some((s.client_y - oy) as i32))
        } else {
            (None, None)
        },
        None => (None, None),
    };
    MousePosition {
        x: s.client_x,
        y: s.client_y,
        element_x,
        element_y,
        page_x: s.page_x,
        page_y: s.page_y,
        source_type: source,
    }
}

impl PointerTracking {
    /// The tracking of the default options: touch tracked, no reset, mouse
    /// too, client coordinates only.
    pub fn default_tracking() -> (t: Self)
        ensures
            t == (PointerTracking { touch: true, reset_on_touch_ends: false, touch_only: false, relative_to_element: false }),
    {
        PointerTracking { touch: true, reset_on_touch_ends: false, touch_only: false, relative_to_element: false }
    }

    /// The position that the reading `s` from `source` gives.
    fn position(&self, s: PointerSample, origin: Option<(i32, i32)>, source: EventType) -> (p: MousePosition)
        requires
            offsets_fit(s, origin),
        ensures
            p == spec_position(*self, s, origin, source),
    {
        let (element_x, element_y) = match origin {
            Some((ox, oy)) => if self.relative_to_element {
                (Some(s.client_x - ox), Some(s.client_y - oy))
            } else {
                (None, None)
            },
            None => (None, None),
        };
        MousePosition {
            x: s.client_x,
            y: s.client_y,
            element_x,
            element_y,
            page_x: s.page_x,
            page_y: s.page_y,
            source_type: source,
        }
    }

    /// The new position after the mouse moved to the reading `s`, unless
    /// only touch is tracked. `origin` is the tracked element's top-left
    /// corner in client coordinates, when known.
    pub fn on_mouse_move(&self, s: PointerSample, origin: Option<(i32, i32)>) -> (p: Option<MousePosition>)
        requires
            offsets_fit(s, origin),
        ensures
            p == if self.touch_only { None } else { Some(spec_position(*self, s, origin, EventType::Mouse)) },
    {
        if self.touch_only {
            None
        } else {
            Some(self.position(s, origin, EventType::Mouse))
        }
    }

    /// The new position after a touch start or move whose first touch point
    /// is `first` (`None`: no touch point), when touch is tracked.
    pub fn on_touch(&self, first: Option<PointerSample>, origin: Option<(i32, i32)>) -> (p: Option<MousePosition>)
        requires
            first matches Some(s) ==> offsets_fit(s, origin),
        ensures
            p == match first {
                Some(s) => if self.touch { Some(spec_position(*self, s, origin, EventType::Touch)) } else { None },
                None => None,
            },
    {
        if self.touch {
            if let Some(s) = first {
                return Some(self.position(s, origin, EventType::Touch));
            }
        }
        None
    }

    /// The new position after a touch ended: the origin, reported by touch,
    /// when resetting on touch end; else unchanged.
    pub fn on_touch_end(&self) -> (p: Option<MousePosition>)
        ensures
            p == if self.reset_on_touch_ends {
                Some(MousePosition {
                    x: 0,
                    y: 0,
                    element_x: None,
                    element_y: None,
                    page_x: 0,
                    page_y: 0,
                    source_type: EventType::Touch,
                })
            } else {
                None
            },
    {
        if self.reset_on_touch_ends {
            Some(MousePosition { x: 0, y: 0, element_x: None, element_y: None, page_x: 0, page_y: 0, source_type: EventType::Touch })
        } else {
            None
        }
    }
}

/// A reading is reported as read: the client and page coordinates pass
/// through unchanged with the source of the event, and the element-relative
/// coordinates, when given, are the client coordinates measured from the
/// element's corner (adding the corner back gives the client coordinates).
/// They are given exactly when tracking relative to the element with a known
/// corner.
pub proof fn lemma_position_reports_reading(t: PointerTracking, s: PointerSample, origin: Option<(i32, i32)>, source: EventType)
    requires
        offsets_fit(s, origin),
    ensures
        ({
            let p = spec_position(t, s, origin, source);
            &&& p.x == s.client_x && p.y == s.client_y
            &&& p.page_x == s.page_x && p.page_y == s.page_y
            &&& p.source_type == source
            &&& (p.element_x is Some <==> (t.relative_to_element && origin is Some))
            &&& (p.element_y is Some <==> (t.relative_to_element && origin is Some))
            &&& (p.element_x is Some ==> p.element_x->0 + (origin->0).0 == s.client_x)
            &&& (p.element_y is Some ==> p.element_y->0 + (origin->0).1 == s.client_y)
        }),
{
}

} // verus!
