//! Rounds the tuning panel's outer corners.
//!
//! Windows 10 has no rounded top-level windows, so the corners are cut with a
//! window region. A region clips the *whole* window, frame included, so it is
//! sized from the window rectangle and not from the client area.
//!
//! [`RoundedWindow`] decides when a region has to be cut and how large it is;
//! finding the window and handing over the region are the system's part.
use vstd::prelude::*;

verus! {

/// A window's rectangle on the desktop, in physical pixels.
#[derive(Debug, Clone, Copy, PartialEq, Eq, Structural)]
pub struct WindowRect {
    pub left: i32,
    pub top: i32,
    pub right: i32,
    pub bottom: i32,
}

impl WindowRect {
    pub open spec fn width(self) -> int {
        self.right - self.left
    }

    pub open spec fn height(self) -> int {
        self.bottom - self.top
    }

    /// Whether the extents, and the exclusive edges one past them, can be
    /// computed.
    pub open spec fn measurable(self) -> bool {
        &&& i32::MIN <= self.width() < i32::MAX
        &&& i32::MIN <= self.height() < i32::MAX
    }
}

/// A rounded rectangle to clip the window to. It starts at the window's own
/// corner; the right and bottom edges are exclusive.
#[derive(Debug, Clone, Copy, PartialEq, Eq, Structural)]
pub struct Region {
    pub right: i32,
    pub bottom: i32,
    /// The width and height of the ellipse that rounds each corner.
    pub diameter: i32,
}

/// What came of a region.
#[derive(Debug, Clone, Copy, PartialEq, Eq, Structural)]
pub enum RegionOutcome {
    /// The system could not make it.
    NotCreated,
    /// It was made, and the window would not take it.
    Refused,
    /// The window took it, and owns it now.
    Taken,
}

/// Cuts the panel window's corners off with a window region.
///
/// The clip stays in force until it is replaced, so the region only needs
/// rebuilding when the window changes size.
#[derive(Debug)]
pub struct RoundedWindow {
    /// The panel's window, resolved on the first frame and then kept.
    pub hwnd: Option<isize>,
    /// The physical size the region currently in force was cut for.
    pub applied: Option<(i32, i32)>,
}

/// The region to cut for a window that occupies `rect`, given the size that is
/// already cut.
pub open spec fn region_for(
    applied: Option<(i32, i32)>,
    rect: WindowRect,
    diameter: int,
) -> Option<Region> {
    if rect.width() <= 0 || rect.height() <= 0 || applied == Some(
        (rect.width() as i32, rect.height() as i32),
    ) {
        None
    } else {
        Some(
            Region {
                right: (rect.width() + 1) as i32,
                bottom: (rect.height() + 1) as i32,
                diameter: at_least_one(diameter) as i32,
            },
        )
    }
}

/// A whole number of pixels, never zero.
pub open spec fn at_least_one(pixels: int) -> int {
    if pixels < 1 {
        1
    } else {
        pixels
    }
}

/// The size that is cut once a region has met with `outcome`.
pub open spec fn applied_after(
    applied: Option<(i32, i32)>,
    rect: WindowRect,
    outcome: RegionOutcome,
) -> Option<(i32, i32)> {
    if outcome == RegionOutcome::Taken {
        Some((rect.width() as i32, rect.height() as i32))
    } else {
        applied
    }
}

impl Default for RoundedWindow {
    fn default() -> (r: Self)
        ensures
            r.hwnd is None,
            r.applied is None,
    {
        Self::new()
    }
}

impl RoundedWindow {
    /// A shaper that will find its window on the first frame it is shown one.
    pub fn new() -> (r: Self)
        ensures
            r.hwnd is None,
            r.applied is None,
    {
        RoundedWindow { hwnd: None, applied: None }
    }

    /// The region to cut now, for a window that occupies `rect`, with corners
    /// `diameter` whole pixels across.
    ///
    /// Nothing after the first successful cut at a given size.
    pub fn apply(&self, rect: WindowRect, diameter: i32) -> (r: Option<Region>)
        requires
            rect.measurable(),
        ensures
            r == region_for(self.applied, rect, diameter as int),
    {
        let width: i32 = rect.right - rect.left;
        let height: i32 = rect.bottom - rect.top;
        let done = match self.applied {
            Some((w, h)) => w == width && h == height,
            None => false,
        };
        if width <= 0 || height <= 0 || done {
            return None;
        }
        // The right and bottom edges are exclusive, so a region that is to cover
        // `width` pixels is asked for `width + 1`.
        Some(Region { right: width + 1, bottom: height + 1, diameter: physical(diameter) })
    }

    /// Records what came of the region for `rect`. Returns whether it is still
    /// the caller's to free: the window owns a region it took, and there is
    /// nothing to free where none was made.
    pub fn settle(&mut self, rect: WindowRect, outcome: RegionOutcome) -> (free: bool)
        requires
            rect.measurable(),
        ensures
            final(self).hwnd == old(self).hwnd,
            final(self).applied == applied_after(old(self).applied, rect, outcome),
            free == (outcome == RegionOutcome::Refused),
    {
        match outcome {
            RegionOutcome::NotCreated => false,
            RegionOutcome::Refused => true,
            RegionOutcome::Taken => {
                self.applied = Some((rect.right - rect.left, rect.bottom - rect.top));
                false
            },
        }
    }

    /// The panel's window, resolved once and remembered. `found` is what this
    /// frame shows; it is only looked at until a window has been found.
    pub fn window(&mut self, found: Option<isize>) -> (r: Option<isize>)
        ensures
            final(self).applied == old(self).applied,
            final(self).hwnd == r,
            r == (if old(self).hwnd is Some {
                old(self).hwnd
            } else {
                found
            }),
    {
        if self.hwnd.is_none() {
            self.hwnd = found;
        }
        self.hwnd
    }
}

/// A length in whole physical pixels, never zero.
///
/// Zero is not usable for a region: a zero-size region is invalid, and a zero
/// diameter is a square corner written the slow way.
pub fn physical(pixels: i32) -> (r: i32)
    ensures
        r == at_least_one(pixels as int),
{
    if pixels < 1 {
        1
    } else {
        pixels
    }
}

/// Once a region has been taken, the same size asks for none, wherever the
/// window stands; a region that was not taken is asked for again.
pub proof fn a_size_is_cut_once(
    applied: Option<(i32, i32)>,
    rect: WindowRect,
    later: WindowRect,
    diameter: int,
    outcome: RegionOutcome,
)
    requires
        rect.measurable(),
        later.width() == rect.width(),
        later.height() == rect.height(),
        region_for(applied, rect, diameter) is Some,
    ensures
        region_for(applied_after(applied, rect, outcome), later, diameter) == (if outcome
            == RegionOutcome::Taken {
            None
        } else {
            region_for(applied, rect, diameter)
        }),
{
}

/// A window that has changed size gets a new region.
pub proof fn a_resized_window_is_cut_again(
    applied: Option<(i32, i32)>,
    rect: WindowRect,
    resized: WindowRect,
    diameter: int,
)
    requires
        rect.measurable(),
        resized.measurable(),
        resized.width() > 0,
        resized.height() > 0,
        rect.width() != resized.width() || rect.height() != resized.height(),
    ensures
        region_for(applied_after(applied, rect, RegionOutcome::Taken), resized, diameter) is Some,
{
}

/// A region covers the whole window and has corners to round.
pub proof fn a_region_covers_the_window(
    applied: Option<(i32, i32)>,
    rect: WindowRect,
    diameter: i32,
)
    requires
        rect.measurable(),
    ensures
        region_for(applied, rect, diameter as int) matches Some(region) ==> {
            &&& region.right == rect.width() + 1
            &&& region.bottom == rect.height() + 1
            &&& region.diameter >= 1
        },
{
}

/// A region is cut exactly for a window that has a size, and another size than
/// the one that is cut already: one pixel past the window either way, since the
/// edges are exclusive, with corners at least a pixel across.
pub proof fn a_window_is_cut_to_its_size(
    window: RoundedWindow,
    rect: WindowRect,
    diameter: i32,
    r: Option<Region>,
)
    requires
        rect.measurable(),
        call_ensures(RoundedWindow::apply, (&window, rect, diameter), r),
    ensures
        ({
            let width = rect.right - rect.left;
            let height = rect.bottom - rect.top;
            let cut = window.applied matches Some((w, h)) && w == width && h == height;
            &&& r is Some <==> width > 0 && height > 0 && !cut
            &&& r matches Some(region) ==> {
                &&& region.right == width + 1
                &&& region.bottom == height + 1
                &&& diameter >= 1 ==> region.diameter == diameter
                &&& diameter < 1 ==> region.diameter == 1
            }
        }),
{
}

/// The size counts as cut exactly when the window took the region, and a region
/// is freed exactly when the window would not take it.
pub proof fn a_region_that_was_taken_counts(
    window: &mut RoundedWindow,
    rect: WindowRect,
    outcome: RegionOutcome,
    free: bool,
)
    requires
        rect.measurable(),
        call_ensures(RoundedWindow::settle, (window, rect, outcome), free),
    ensures
        free <==> outcome == RegionOutcome::Refused,
        outcome == RegionOutcome::Taken ==> (final(window).applied matches Some((w, h)) && w
            == rect.right - rect.left && h == rect.bottom - rect.top),
        outcome != RegionOutcome::Taken ==> final(window).applied == old(window).applied,
        final(window).hwnd == old(window).hwnd,
{
}

/// The first window found is the window for good; a new shaper has found none
/// and cut none.
pub proof fn the_first_window_found_is_kept(
    window: &mut RoundedWindow,
    found: Option<isize>,
    r: Option<isize>,
    fresh: RoundedWindow,
    pixels: i32,
    whole: i32,
)
    requires
        call_ensures(RoundedWindow::window, (window, found), r),
        call_ensures(RoundedWindow::new, (), fresh),
        call_ensures(physical, (pixels,), whole),
    ensures
        old(window).hwnd is Some ==> r == old(window).hwnd,
        old(window).hwnd is None ==> r == found,
        final(window).hwnd == r,
        final(window).applied == old(window).applied,
        fresh.hwnd is None && fresh.applied is None,
        pixels >= 1 ==> whole == pixels,
        pixels < 1 ==> whole == 1,
{
}

} // verus!
