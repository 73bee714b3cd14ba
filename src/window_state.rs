use vstd::prelude::*;

verus! {

/// A position in physical pixels.
#[derive(Debug, Clone, Copy, PartialEq, Eq, Structural)]
pub struct PhysicalPosition {
    pub x: i32,
    pub y: i32,
}

/// A size in physical pixels.
#[derive(Debug, Clone, Copy, PartialEq, Eq, Structural)]
pub struct PhysicalSize {
    pub width: u32,
    pub height: u32,
}

/// A rectangle in logical pixels, as the toolkit reports frame extents.
#[derive(Debug, Clone, Copy, PartialEq, Eq, Structural)]
pub struct Rect {
    pub x: i32,
    pub y: i32,
    pub width: i32,
    pub height: i32,
}

pub open spec fn clamp(v: int, lo: int, hi: int) -> int {
    if v < lo {
        lo
    } else if v > hi {
        hi
    } else {
        v
    }
}

/// A logical coordinate scaled to physical pixels, saturated to `i32`.
pub open spec fn physical_coord(logical: i32, scale: i32) -> int {
    clamp(logical * scale, i32::MIN as int, i32::MAX as int)
}

/// A logical extent scaled to physical pixels, saturated to `u32`
/// (a negative extent becomes zero).
pub open spec fn physical_extent(logical: i32, scale: i32) -> int {
    clamp(logical * scale, 0, u32::MAX as int)
}

pub open spec fn physical_position_of(x: i32, y: i32, scale: i32) -> PhysicalPosition {
    PhysicalPosition { x: physical_coord(x, scale) as i32, y: physical_coord(y, scale) as i32 }
}

pub open spec fn physical_size_of(w: i32, h: i32, scale: i32) -> PhysicalSize {
    PhysicalSize { width: physical_extent(w, scale) as u32, height: physical_extent(h, scale) as u32 }
}

pub open spec fn fits_i32(v: int) -> bool {
    i32::MIN <= v <= i32::MAX
}

proof fn lemma_i32_product_fits(a: i32, b: i32)
    ensures
        i64::MIN <= a * b <= i64::MAX,
{
    assert(-0x4000_0000_0000_0000 <= a * b <= 0x4000_0000_0000_0000) by (nonlinear_arith)
        requires
            -0x8000_0000 <= a < 0x8000_0000,
            -0x8000_0000 <= b < 0x8000_0000,
    ;
}

fn scale_coord(logical: i32, scale: i32) -> (r: i32)
    requires
        scale > 0,
    ensures
        r == physical_coord(logical, scale),
{
    proof {
        lemma_i32_product_fits(logical, scale);
    }
    let p: i64 = (logical as i64) * (scale as i64);
    if p < i32::MIN as i64 {
        i32::MIN
    } else if p > i32::MAX as i64 {
        i32::MAX
    } else {
        p as i32
    }
}

fn scale_extent(logical: i32, scale: i32) -> (r: u32)
    requires
        scale > 0,
    ensures
        r == physical_extent(logical, scale),
{
    proof {
        lemma_i32_product_fits(logical, scale);
    }
    let p: i64 = (logical as i64) * (scale as i64);
    if p < 0 {
        0
    } else if p > u32::MAX as i64 {
        u32::MAX
    } else {
        p as u32
    }
}

/// Converts a logical position to physical pixels with an integral scale.
pub fn to_physical_position(x: i32, y: i32, scale: i32) -> (r: PhysicalPosition)
    requires
        scale > 0,
    ensures
        r == physical_position_of(x, y, scale),
{
    PhysicalPosition { x: scale_coord(x, scale), y: scale_coord(y, scale) }
}

/// Converts a logical size to physical pixels with an integral scale.
pub fn to_physical_size(w: i32, h: i32, scale: i32) -> (r: PhysicalSize)
    requires
        scale > 0,
    ensures
        r == physical_size_of(w, h, scale),
{
    PhysicalSize { width: scale_extent(w, scale), height: scale_extent(h, scale) }
}

/// Geometry of one window in logical pixels, with the scale factor that
/// converts it to physical pixels.
#[derive(Debug, Clone, Copy, PartialEq, Eq, Structural)]
pub struct WindowState {
    pub scale_factor: i32,
    pub surface_x: i32,
    pub surface_y: i32,
    pub outer_x: i32,
    pub outer_y: i32,
    pub surface_width: i32,
    pub surface_height: i32,
    pub outer_width: i32,
    pub outer_height: i32,
}

impl WindowState {
    pub open spec fn wf(&self) -> bool {
        self.scale_factor > 0
    }

    /// Builds the snapshot from what the toolkit reports at construction:
    /// the integral scale factor, the window position and size, and the
    /// frame extents once a native surface exists.  With a frame, the outer
    /// rectangle is the frame and the surface offset is the position
    /// relative to it; without one, the outer rectangle is the window
    /// itself and the offset is zero.
    pub fn new(
        scale_factor: i32,
        inner_x: i32,
        inner_y: i32,
        surface_width: i32,
        surface_height: i32,
        frame: Option<Rect>,
    ) -> (r: Self)
        requires
            scale_factor > 0,
            frame matches Some(f) ==> fits_i32(inner_x - f.x) && fits_i32(inner_y - f.y),
        ensures
            r.wf(),
            r.scale_factor == scale_factor,
            r.surface_width == surface_width,
            r.surface_height == surface_height,
            match frame {
                Some(f) => {
                    &&& r.outer_x == f.x
                    &&& r.outer_y == f.y
                    &&& r.outer_width == f.width
                    &&& r.outer_height == f.height
                    &&& r.surface_x == inner_x - f.x
                    &&& r.surface_y == inner_y - f.y
                },
                None => {
                    &&& r.outer_x == inner_x
                    &&& r.outer_y == inner_y
                    &&& r.outer_width == surface_width
                    &&& r.outer_height == surface_height
                    &&& r.surface_x == 0
                    &&& r.surface_y == 0
                },
            },
    {
        match frame {
            Some(f) => WindowState {
                scale_factor,
                surface_x: inner_x - f.x,
                surface_y: inner_y - f.y,
                outer_x: f.x,
                outer_y: f.y,
                surface_width,
                surface_height,
                outer_width: f.width,
                outer_height: f.height,
            },
            None => WindowState {
                scale_factor,
                surface_x: 0,
                surface_y: 0,
                outer_x: inner_x,
                outer_y: inner_y,
                surface_width,
                surface_height,
                outer_width: surface_width,
                outer_height: surface_height,
            },
        }
    }
}

/// Stores `new` into `current` and reports whether it differed.
fn maybe_update(current: &mut i32, new: i32) -> (changed: bool)
    ensures
        *final(current) == new,
        changed == (*old(current) != new),
{
    if *current != new {
        *current = new;
        true
    } else {
        false
    }
}

/// The per-window geometry record that signal handlers write and any
/// reader queries.  Each field is written on its own; the physical getters
/// apply the scale factor current at the time of the read.
#[derive(Debug, Clone, Copy)]
pub struct SharedWindowState {
    state: WindowState,
}

impl SharedWindowState {
    pub closed spec fn view(&self) -> WindowState {
        self.state
    }

    pub open spec fn wf(&self) -> bool {
        self.view().wf()
    }

    pub fn new(state: WindowState) -> (r: Self)
        requires
            state.wf(),
        ensures
            r.wf(),
            r.view() == state,
    {
        SharedWindowState { state }
    }

    /// The snapshot of every field.
    pub fn snapshot(&self) -> (r: WindowState)
        ensures
            r == self.view(),
    {
        self.state
    }

    pub fn scale_factor(&self) -> (r: i32)
        ensures
            r == self.view().scale_factor,
    {
        self.state.scale_factor
    }

    /// Records a new scale factor; returns whether it differed from the
    /// previous one.  Nothing else changes.
    pub fn update_scale_factor(&mut self, scale_factor: i32) -> (changed: bool)
        requires
            scale_factor > 0,
        ensures
            final(self).view() == (WindowState { scale_factor, ..old(self).view() }),
            changed == (old(self).view().scale_factor != scale_factor),
    {
        maybe_update(&mut self.state.scale_factor, scale_factor)
    }

    /// Records a new scale factor.
    pub fn set_scale_factor(&mut self, scale_factor: i32)
        requires
            scale_factor > 0,
        ensures
            final(self).view() == (WindowState { scale_factor, ..old(self).view() }),
    {
        self.state.scale_factor = scale_factor;
    }

    pub fn set_surface_position(&mut self, x: i32, y: i32)
        ensures
            final(self).view() == (WindowState { surface_x: x, surface_y: y, ..old(self).view() }),
    {
        self.state.surface_x = x;
        self.state.surface_y = y;
    }

    pub fn set_surface_size(&mut self, width: i32, height: i32)
        ensures
            final(self).view() == (WindowState {
                surface_width: width,
                surface_height: height,
                ..old(self).view()
            }),
    {
        self.state.surface_width = width;
        self.state.surface_height = height;
    }

    pub fn set_outer_position(&mut self, x: i32, y: i32)
        ensures
            final(self).view() == (WindowState { outer_x: x, outer_y: y, ..old(self).view() }),
    {
        self.state.outer_x = x;
        self.state.outer_y = y;
    }

    pub fn set_outer_size(&mut self, width: i32, height: i32)
        ensures
            final(self).view() == (WindowState {
                outer_width: width,
                outer_height: height,
                ..old(self).view()
            }),
    {
        self.state.outer_width = width;
        self.state.outer_height = height;
    }

    pub fn surface_position(&self) -> (r: PhysicalPosition)
        requires
            self.wf(),
        ensures
            r == physical_position_of(
                self.view().surface_x,
                self.view().surface_y,
                self.view().scale_factor,
            ),
    {
        to_physical_position(self.state.surface_x, self.state.surface_y, self.state.scale_factor)
    }

    pub fn outer_position(&self) -> (r: PhysicalPosition)
        requires
            self.wf(),
        ensures
            r == physical_position_of(
                self.view().outer_x,
                self.view().outer_y,
                self.view().scale_factor,
            ),
    {
        to_physical_position(self.state.outer_x, self.state.outer_y, self.state.scale_factor)
    }

    pub fn surface_size(&self) -> (r: PhysicalSize)
        requires
            self.wf(),
        ensures
            r == physical_size_of(
                self.view().surface_width,
                self.view().surface_height,
                self.view().scale_factor,
            ),
    {
        to_physical_size(self.state.surface_width, self.state.surface_height, self.state.scale_factor)
    }

    pub fn outer_size(&self) -> (r: PhysicalSize)
        requires
            self.wf(),
        ensures
            r == physical_size_of(
                self.view().outer_width,
                self.view().outer_height,
                self.view().scale_factor,
            ),
    {
        to_physical_size(self.state.outer_width, self.state.outer_height, self.state.scale_factor)
    }

    /// Stores a full geometry update and reports whether the surface size
    /// changed and whether the outer position changed.
    pub fn update_position_and_size(
        &mut self,
        surface_x: i32,
        surface_y: i32,
        surface_width: i32,
        surface_height: i32,
        outer_x: i32,
        outer_y: i32,
        outer_width: i32,
        outer_height: i32,
    ) -> (r: (bool, bool))
        ensures
            final(self).view() == (WindowState {
                scale_factor: old(self).view().scale_factor,
                surface_x,
                surface_y,
                outer_x,
                outer_y,
                surface_width,
                surface_height,
                outer_width,
                outer_height,
            }),
            r.0 == (old(self).view().surface_width != surface_width
                || old(self).view().surface_height != surface_height),
            r.1 == (old(self).view().outer_x != outer_x || old(self).view().outer_y != outer_y),
    {
        maybe_update(&mut self.state.surface_x, surface_x);
        maybe_update(&mut self.state.surface_y, surface_y);
        let width_changed = maybe_update(&mut self.state.surface_width, surface_width);
        let height_changed = maybe_update(&mut self.state.surface_height, surface_height);
        let surface_size_changed = width_changed || height_changed;

        let x_changed = maybe_update(&mut self.state.outer_x, outer_x);
        let y_changed = maybe_update(&mut self.state.outer_y, outer_y);
        let outer_position_changed = x_changed || y_changed;
        maybe_update(&mut self.state.outer_width, outer_width);
        maybe_update(&mut self.state.outer_height, outer_height);

        (surface_size_changed, outer_position_changed)
    }
}

/// The physical surface size read after a logical size `(w, h)` was stored
/// always applies the scale factor stored last, even when the scale factor
/// changed after the size did.
pub proof fn lemma_surface_size_uses_latest_scale(
    s0: WindowState,
    w: i32,
    h: i32,
    scale: i32,
)
    requires
        s0.wf(),
        scale > 0,
    ensures
        ({
            let s1 = WindowState { surface_width: w, surface_height: h, ..s0 };
            let s2 = WindowState { scale_factor: scale, ..s1 };
            physical_size_of(s2.surface_width, s2.surface_height, s2.scale_factor)
                == physical_size_of(w, h, scale)
        }),
{
}

} // verus!
