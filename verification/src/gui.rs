//! GUI window sizes and the bookkeeping of native resize drags.
//!
//! The frontend owns the lifetime of a resize gesture (pointer capture is a
//! browser concept); the plugin snapshots the desktop pointer when a drag begins,
//! so that every resize request of that drag is recomputed from the original
//! pointer position. A drag ID links the two sides.
use vstd::prelude::*;

verus! {

/// A window size in physical pixels, as exchanged with the host.
#[derive(Debug, Clone, Copy, PartialEq, Eq, Structural)]
pub struct GuiSize {
    pub width: u32,
    pub height: u32,
}

/// Smallest and largest window size that the host may resize the GUI to.
#[derive(Debug, Clone, Copy, PartialEq, Eq, Structural)]
pub struct GuiSizeLimits {
    pub min: GuiSize,
    pub max: GuiSize,
}

/// `size` lies within `limits`, in both dimensions.
pub open spec fn spec_size_within(size: GuiSize, limits: GuiSizeLimits) -> bool {
    &&& limits.min.width <= size.width <= limits.max.width
    &&& limits.min.height <= size.height <= limits.max.height
}

/// Size at which the host opens the GUI window.
pub fn default_gui_size() -> (size: GuiSize)
    ensures
        size == (GuiSize { width: 360, height: 360 }),
{
    GuiSize { width: 360, height: 360 }
}

/// Limits within which the host keeps the GUI window when the user resizes it.
pub fn gui_size_limits() -> (limits: GuiSizeLimits)
    ensures
        limits == (GuiSizeLimits {
            min: GuiSize { width: 280, height: 280 },
            max: GuiSize { width: 720, height: 720 },
        }),
{
    GuiSizeLimits { min: GuiSize { width: 280, height: 280 }, max: GuiSize { width: 720, height: 720 } }
}

/// Law: the window opens at a size that its resize limits allow.
pub proof fn lemma_default_size_within_limits()
    ensures
        spec_size_within(
            GuiSize { width: 360, height: 360 },
            GuiSizeLimits {
                min: GuiSize { width: 280, height: 280 },
                max: GuiSize { width: 720, height: 720 },
            },
        ),
{
}

/// The drag that is live after a `begin` event: the new drag when the pointer
/// position could be read, else the drag that was live before.
pub open spec fn spec_after_begin(active: Option<u64>, drag_id: u64, pointer_available: bool) -> Option<u64> {
    if pointer_available {
        Some(drag_id)
    } else {
        active
    }
}

/// The drag that is live after an `end` event: ending the live drag clears it;
/// ending any other drag changes nothing.
pub open spec fn spec_after_end(active: Option<u64>, drag_id: u64) -> Option<u64> {
    if active == Some(drag_id) {
        None
    } else {
        active
    }
}

/// A resize request follows the native drag only when it names the live drag.
pub open spec fn spec_follows_drag(active: Option<u64>, drag_id: Option<u64>) -> bool {
    drag_id is Some && active == drag_id
}

/// Which native resize drag, if any, is live.
pub struct ResizeDragTracker {
    active_drag: Option<u64>,
}

impl View for ResizeDragTracker {
    type V = Option<u64>;

    closed spec fn view(&self) -> Option<u64> {
        self.active_drag
    }
}

impl ResizeDragTracker {
    /// No drag is live.
    pub fn new() -> (tracker: Self)
        ensures
            tracker@ == None::<u64>,
    {
        ResizeDragTracker { active_drag: None }
    }

    /// The live drag, if any.
    pub fn active_drag(&self) -> (active: Option<u64>)
        ensures
            active == self@,
    {
        self.active_drag
    }

    /// The frontend begins drag `drag_id`. It becomes the live drag, replacing any
    /// earlier one, when the desktop pointer position could be read; the result
    /// says whether it could.
    pub fn begin_drag(&mut self, drag_id: u64, pointer_available: bool) -> (ok: bool)
        ensures
            ok == pointer_available,
            final(self)@ == spec_after_begin(old(self)@, drag_id, pointer_available),
    {
        if !pointer_available {
            return false;
        }
        self.active_drag = Some(drag_id);
        true
    }

    /// The frontend ends drag `drag_id`; only the live drag can be ended.
    pub fn end_drag(&mut self, drag_id: u64)
        ensures
            final(self)@ == spec_after_end(old(self)@, drag_id),
    {
        match self.active_drag {
            Some(active) => {
                if active == drag_id {
                    self.active_drag = None;
                }
            },
            None => {},
        }
    }

    /// Whether a resize request that names `drag_id` follows the live drag.
    pub fn follows_drag(&self, drag_id: Option<u64>) -> (b: bool)
        ensures
            b == spec_follows_drag(self@, drag_id),
    {
        match (drag_id, self.active_drag) {
            (Some(requested), Some(active)) => requested == active,
            _ => false,
        }
    }
}

/// Law: a drag that began is followed by requests that name it and by no other,
/// and once it ends no request follows it.
pub proof fn lemma_drag_lifecycle(active: Option<u64>, drag_id: u64, other: u64)
    requires
        other != drag_id,
    ensures
        spec_follows_drag(spec_after_begin(active, drag_id, true), Some(drag_id)),
        !spec_follows_drag(spec_after_begin(active, drag_id, true), Some(other)),
        !spec_follows_drag(spec_after_begin(active, drag_id, true), None),
        spec_after_end(spec_after_begin(active, drag_id, true), drag_id) == None::<u64>,
        spec_after_end(spec_after_begin(active, drag_id, true), other) == Some(drag_id),
{
}

/// Law: how the live drag moves. A begin whose pointer position can be read
/// makes its drag the live one, replacing any other; a begin whose pointer
/// position cannot be read changes nothing; an end clears the live drag when it
/// names it and changes nothing otherwise.
pub proof fn lemma_drag_transitions(active: Option<u64>, drag_id: u64)
    ensures
        spec_after_begin(active, drag_id, true) == Some(drag_id),
        spec_after_begin(active, drag_id, false) == active,
        active == Some(drag_id) ==> spec_after_end(active, drag_id) == None::<u64>,
        active != Some(drag_id) ==> spec_after_end(active, drag_id) == active,
{
}

/// Law: a resize request follows a native drag exactly when it names the live
/// drag; a request without a drag ID never does, and nothing follows when no
/// drag is live.
pub proof fn lemma_follows_only_the_live_drag(active: Option<u64>, drag_id: u64)
    ensures
        !spec_follows_drag(active, None),
        !spec_follows_drag(None, Some(drag_id)),
        spec_follows_drag(active, Some(drag_id)) <==> active == Some(drag_id),
{
}

} // verus!
