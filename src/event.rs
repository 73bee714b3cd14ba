use vstd::prelude::*;

use crate::window_state::{
    fits_i32, physical_position_of, physical_size_of, PhysicalPosition, PhysicalSize, Rect,
    SharedWindowState, WindowState,
};

verus! {

/// Identifies a live window; derived from the native window's identifier.
#[derive(Debug, Clone, Copy, PartialEq, Eq, Structural, Hash)]
pub struct WindowId {
    pub raw: u64,
}

impl WindowId {
    pub fn from_raw(raw: u64) -> (r: Self)
        ensures
            r.raw == raw,
    {
        WindowId { raw }
    }

    pub fn into_raw(self) -> (r: u64)
        ensures
            r == self.raw,
    {
        self.raw
    }
}

/// Identifies an input device.
#[derive(Debug, Clone, Copy, PartialEq, Eq, Structural, Hash)]
pub struct DeviceId {
    pub raw: i64,
}

/// What the native signal handlers report about a window.
#[derive(Debug, Clone, Copy, PartialEq, Eq, Structural)]
pub enum WindowEvent {
    CloseRequested,
    Moved(PhysicalPosition),
    SurfaceResized(PhysicalSize),
    Focused(bool),
    Destroyed,
    RedrawRequested,
}

/// An event waiting to be handed to the application, in production order.
/// Device events are carried through unchanged, whatever their payload.
#[derive(Debug, Clone)]
#[allow(inconsistent_fields)]
pub enum QueuedEvent<D> {
    Window { id: WindowId, event: WindowEvent },
    Device { id: DeviceId, event: D },
}

/// The native frame of a window and the origin of its surface, both in
/// root coordinates.
#[derive(Debug, Clone, Copy, PartialEq, Eq, Structural)]
pub struct Frame {
    pub extents: Rect,
    pub origin_x: i32,
    pub origin_y: i32,
}

/// Where a configure notification puts the window: the surface size, and,
/// once a native surface exists, its frame extents and the surface origin
/// in root coordinates.
#[derive(Debug, Clone, Copy, PartialEq, Eq, Structural)]
pub struct ConfigureGeometry {
    pub width: i32,
    pub height: i32,
    pub frame: Option<Frame>,
}

impl ConfigureGeometry {
    pub open spec fn valid(&self) -> bool {
        self.frame matches Some(fr) ==> fits_i32(fr.origin_x - fr.extents.x) && fits_i32(
            fr.origin_y - fr.extents.y,
        )
    }

    /// The logical geometry that the notification stands for.
    pub open spec fn geometry(&self, scale_factor: i32) -> WindowState {
        match self.frame {
            Some(fr) => WindowState {
                scale_factor,
                surface_x: (fr.origin_x - fr.extents.x) as i32,
                surface_y: (fr.origin_y - fr.extents.y) as i32,
                outer_x: fr.extents.x,
                outer_y: fr.extents.y,
                surface_width: self.width,
                surface_height: self.height,
                outer_width: fr.extents.width,
                outer_height: fr.extents.height,
            },
            None => WindowState {
                scale_factor,
                surface_x: 0,
                surface_y: 0,
                outer_x: 0,
                outer_y: 0,
                surface_width: self.width,
                surface_height: self.height,
                outer_width: self.width,
                outer_height: self.height,
            },
        }
    }
}

/// Handles a configure notification for window `id`: stores the new
/// geometry first, then returns the events to queue, `Moved` with the outer
/// position and `SurfaceResized` with the surface size, both in physical
/// pixels at the stored scale factor.  A reader reacting to either event
/// therefore already sees the new geometry.
pub fn configure_window<D>(
    state: &mut SharedWindowState,
    id: WindowId,
    geometry: ConfigureGeometry,
) -> (events: Vec<QueuedEvent<D>>)
    requires
        old(state).wf(),
        geometry.valid(),
    ensures
        final(state).wf(),
        final(state).view() == geometry.geometry(old(state).view().scale_factor),
        events@.len() == 2,
        events@[0] == (QueuedEvent::<D>::Window {
            id,
            event: WindowEvent::Moved(
                physical_position_of(
                    final(state).view().outer_x,
                    final(state).view().outer_y,
                    final(state).view().scale_factor,
                ),
            ),
        }),
        events@[1] == (QueuedEvent::<D>::Window {
            id,
            event: WindowEvent::SurfaceResized(
                physical_size_of(
                    final(state).view().surface_width,
                    final(state).view().surface_height,
                    final(state).view().scale_factor,
                ),
            ),
        }),
{
    let (surface_x, surface_y, outer_x, outer_y, outer_width, outer_height) = match geometry.frame {
        Some(fr) => {
            let f = fr.extents;
            (fr.origin_x - f.x, fr.origin_y - f.y, f.x, f.y, f.width, f.height)
        },
        None => (0, 0, 0, 0, geometry.width, geometry.height),
    };
    state.set_surface_position(surface_x, surface_y);
    state.set_surface_size(geometry.width, geometry.height);
    state.set_outer_position(outer_x, outer_y);
    state.set_outer_size(outer_width, outer_height);

    let mut events: Vec<QueuedEvent<D>> = Vec::new();
    events.push(QueuedEvent::Window { id, event: WindowEvent::Moved(state.outer_position()) });
    events.push(
        QueuedEvent::Window { id, event: WindowEvent::SurfaceResized(state.surface_size()) },
    );
    events
}

/// Handles a scale-factor notification: stores the new factor, which every
/// later physical read applies.
pub fn scale_factor_changed(state: &mut SharedWindowState, scale_factor: i32)
    requires
        old(state).wf(),
        scale_factor > 0,
    ensures
        final(state).wf(),
        final(state).view() == (WindowState { scale_factor, ..old(state).view() }),
{
    state.set_scale_factor(scale_factor);
}

} // verus!
