use vstd::prelude::*;

use crate::error::Error;
use crate::swapchain::{format_serves, SurfaceFormat};

verus! {

/// A native window, as the windowing system names it. Handles and pointers
/// are held as plain numbers.
#[derive(Clone, Copy, Debug, PartialEq, Eq, Structural, Hash)]
pub enum WindowHandle {
    Xlib { window: u64, display: u64 },
    Xcb { window: u64, connection: u64 },
    Wayland { surface: u64, display: u64 },
    /// A windowing system the library does not support.
    Unsupported,
}

/// Where a surface on a Unix windowing system comes from.
#[derive(Clone, Copy, Debug, PartialEq, Eq, Structural, Hash)]
pub struct SurfaceDescriptorUnix {
    pub xlib_window: Option<u64>,
    pub xlib_display: Option<u64>,
    pub xcb_window: Option<u64>,
    pub xcb_connection: Option<u64>,
    pub wayland_surface: Option<u64>,
    pub wayland_display: Option<u64>,
}

/// The descriptor of a supported window: the handles of its windowing system
/// set, all others unset.
pub fn surface_descriptor_from_window(handle: WindowHandle) -> (r: SurfaceDescriptorUnix)
    requires
        handle != WindowHandle::Unsupported,
    ensures
        match handle {
            WindowHandle::Xlib { window, display } => r == SurfaceDescriptorUnix {
                xlib_window: Some(window),
                xlib_display: Some(display),
                xcb_window: None,
                xcb_connection: None,
                wayland_surface: None,
                wayland_display: None,
            },
            WindowHandle::Xcb { window, connection } => r == SurfaceDescriptorUnix {
                xlib_window: None,
                xlib_display: None,
                xcb_window: Some(window),
                xcb_connection: Some(connection),
                wayland_surface: None,
                wayland_display: None,
            },
            WindowHandle::Wayland { surface, display } => r == SurfaceDescriptorUnix {
                xlib_window: None,
                xlib_display: None,
                xcb_window: None,
                xcb_connection: None,
                wayland_surface: Some(surface),
                wayland_display: Some(display),
            },
            WindowHandle::Unsupported => false,
        },
{
    match handle {
        WindowHandle::Xlib { window, display } => SurfaceDescriptorUnix {
            xlib_window: Some(window),
            xlib_display: Some(display),
            xcb_window: None,
            xcb_connection: None,
            wayland_surface: None,
            wayland_display: None,
        },
        WindowHandle::Xcb { window, connection } => SurfaceDescriptorUnix {
            xlib_window: None,
            xlib_display: None,
            xcb_window: Some(window),
            xcb_connection: Some(connection),
            wayland_surface: None,
            wayland_display: None,
        },
        WindowHandle::Wayland { surface, display } => SurfaceDescriptorUnix {
            xlib_window: None,
            xlib_display: None,
            xcb_window: None,
            xcb_connection: None,
            wayland_surface: Some(surface),
            wayland_display: Some(display),
        },
        WindowHandle::Unsupported => SurfaceDescriptorUnix {
            xlib_window: None,
            xlib_display: None,
            xcb_window: None,
            xcb_connection: None,
            wayland_surface: None,
            wayland_display: None,
        },
    }
}

/// The surface to create for a descriptor.
#[derive(Clone, Copy, Debug, PartialEq, Eq, Structural, Hash)]
pub enum SurfaceSource {
    Xlib { window: u64, display: u64 },
    Xcb { window: u64, connection: u64 },
    Wayland { surface: u64, display: u64 },
}

/// The windowing system of a descriptor: Xlib when both its handles are set,
/// else XCB, else Wayland, else none.
pub open spec fn spec_surface_source(d: SurfaceDescriptorUnix) -> Option<SurfaceSource> {
    if d.xlib_window is Some && d.xlib_display is Some {
        Some(SurfaceSource::Xlib { window: d.xlib_window.unwrap(), display: d.xlib_display.unwrap() })
    } else if d.xcb_window is Some && d.xcb_connection is Some {
        Some(SurfaceSource::Xcb { window: d.xcb_window.unwrap(), connection: d.xcb_connection.unwrap() })
    } else if d.wayland_display is Some && d.wayland_surface is Some {
        Some(SurfaceSource::Wayland { surface: d.wayland_surface.unwrap(), display: d.wayland_display.unwrap() })
    } else {
        None
    }
}

/// Picks the windowing system of a descriptor; a descriptor with no complete
/// pair of handles is refused with a message.
pub fn surface_source(descriptor: &SurfaceDescriptorUnix) -> (r: Result<SurfaceSource, Error>)
    ensures
        match spec_surface_source(*descriptor) {
            Some(source) => r matches Ok(s) && s == source,
            None => r matches Err(e) && e.kind is Message,
        },
{
    if let (Some(window), Some(display)) = (descriptor.xlib_window, descriptor.xlib_display) {
        return Ok(SurfaceSource::Xlib { window, display });
    }
    if let (Some(window), Some(connection)) = (descriptor.xcb_window, descriptor.xcb_connection) {
        return Ok(SurfaceSource::Xcb { window, connection });
    }
    if let (Some(display), Some(surface)) = (descriptor.wayland_display, descriptor.wayland_surface) {
        return Ok(SurfaceSource::Wayland { surface, display });
    }
    Err(Error::from_message("Invalid surface descriptor"))
}

/// Whether some supported format serves the requested one.
pub fn is_supported_format(supported_formats: &[SurfaceFormat], requested_format: SurfaceFormat) -> (r: bool)
    ensures
        r == exists|i: int|
            0 <= i < supported_formats@.len() && format_serves(
                #[trigger] supported_formats@[i],
                requested_format,
            ),
{
    let mut i: usize = 0;
    while i < supported_formats.len()
        invariant
            i <= supported_formats@.len(),
            forall|j: int| 0 <= j < i ==> !format_serves(#[trigger] supported_formats@[j], requested_format),
        decreases supported_formats@.len() - i,
    {
        let f = supported_formats[i];
        if (f.format == requested_format.format || f.format == crate::vk::FORMAT_UNDEFINED)
            && requested_format.color_space == f.color_space {
            assert(format_serves(supported_formats@[i as int], requested_format));
            return true;
        }
        i = i + 1;
    }
    false
}

} // verus!
