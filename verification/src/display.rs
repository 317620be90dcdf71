//! Typed operations over displays, display modes, images and window lists.
//!
//! Every operation forwards to the window server — held here as an explicit
//! [`WindowServer`] value — and translates its reply: a null handle becomes an
//! absent result, a zero return code success, any other code an error carrying
//! that exact code. Handles to reference-counted records are held in owning
//! wrappers that retain on duplication and release exactly once on
//! destruction.

use vstd::prelude::*;

pub use crate::base::CGError;
pub use crate::base::boolean_t;
pub use crate::geometry::CGPoint;
pub use crate::geometry::CGRect;
pub use crate::geometry::CGSize;

use crate::base::bool_from_native;
use crate::base::result_from_code;
use crate::server::ArrayCaptureRequest;
use crate::server::CaptureRequest;
use crate::server::ModeInfo;
use crate::server::NativeHandle;
use crate::server::Record;
use crate::server::RecordKind;
use crate::server::WindowQuery;
use crate::server::WindowServer;
use crate::server::spec_current_mode;
use crate::server::spec_display_capturable;
use crate::server::spec_mode_info;
use crate::server::spec_released;
use crate::server::spec_window_count;

verus! {

/// An opaque numeric handle naming a display known to the window server.
pub type CGDirectDisplayID = u32;

/// An opaque numeric handle naming a window.
pub type CGWindowID = u32;

/// The null window: enumeration relative to it means relative to none.
#[allow(non_upper_case_globals)]
pub const kCGNullWindowID: CGWindowID = 0;

/// Bit flags selecting which windows an enumeration covers.
pub type CGWindowListOption = u32;

#[allow(non_upper_case_globals)]
pub const kCGWindowListOptionAll: CGWindowListOption = 0;

#[allow(non_upper_case_globals)]
pub const kCGWindowListOptionOnScreenOnly: CGWindowListOption = 1 << 0;

#[allow(non_upper_case_globals)]
pub const kCGWindowListOptionOnScreenAboveWindow: CGWindowListOption = 1 << 1;

#[allow(non_upper_case_globals)]
pub const kCGWindowListOptionOnScreenBelowWindow: CGWindowListOption = 1 << 2;

#[allow(non_upper_case_globals)]
pub const kCGWindowListOptionIncludingWindow: CGWindowListOption = 1 << 3;

#[allow(non_upper_case_globals)]
pub const kCGWindowListExcludeDesktopElements: CGWindowListOption = 1 << 4;

/// Bit flags shaping a window-list image capture.
pub type CGWindowImageOption = u32;

#[allow(non_upper_case_globals)]
pub const kCGWindowImageDefault: CGWindowImageOption = 0;

#[allow(non_upper_case_globals)]
pub const kCGWindowImageBoundsIgnoreFraming: CGWindowImageOption = 1 << 0;

#[allow(non_upper_case_globals)]
pub const kCGWindowImageShouldBeOpaque: CGWindowImageOption = 1 << 1;

#[allow(non_upper_case_globals)]
pub const kCGWindowImageOnlyShadows: CGWindowImageOption = 1 << 2;

#[allow(non_upper_case_globals)]
pub const kCGWindowImageBestResolution: CGWindowImageOption = 1 << 3;

#[allow(non_upper_case_globals)]
pub const kCGWindowImageNominalResolution: CGWindowImageOption = 1 << 4;

/// An owning wrapper over a reference-counted display-mode record.
///
/// Adoption takes ownership of one existing reference and refuses the null
/// handle, so a wrapper never holds null; duplication retains one more
/// reference; destruction releases exactly once.
pub struct CGDisplayMode {
    handle: NativeHandle,
}

impl CGDisplayMode {
    /// A wrapper never holds the null handle.
    #[verifier::type_invariant]
    pub closed spec fn inv(self) -> bool {
        self.handle != 0
    }

    /// The wrapped handle.
    pub closed spec fn raw(self) -> NativeHandle {
        self.handle
    }

    /// Whether the wrapped handle names a live display-mode record of
    /// `server`.
    pub open spec fn valid(self, server: WindowServer) -> bool {
        &&& server.handle_alive(self.raw())
        &&& spec_mode_info(server.record_at(self.raw())) is Some
    }

    /// The description the wrapped record holds.
    pub open spec fn spec_info(self, server: WindowServer) -> ModeInfo
        recommends
            self.valid(server),
    {
        spec_mode_info(server.record_at(self.raw()))->Some_0
    }

    /// The wrapped handle, never null.
    pub fn raw_handle(&self) -> (r: NativeHandle)
        ensures
            r == self.raw(),
            r != 0,
    {
        proof {
            use_type_invariant(&*self);
        }
        self.handle
    }

    /// Takes ownership of one reference to `handle` ("adopt"). The null
    /// handle is rejected before any wrapper exists; a wrapper holding null
    /// is never produced.
    pub fn adopt(handle: NativeHandle) -> (r: Option<CGDisplayMode>)
        ensures
            r is Some <==> handle != 0,
            (r matches Some(m) ==> m.raw() == handle),
    {
        if handle != 0 {
            Some(CGDisplayMode { handle })
        } else {
            None
        }
    }

    /// Duplicates the wrapper: retains one more reference to the same record
    /// and produces an independent wrapper aliasing it.
    pub fn duplicate(&self, server: &mut WindowServer) -> (r: CGDisplayMode)
        requires
            old(server).wf(),
            self.valid(*old(server)),
            old(server).record_at(self.raw()).ref_count < u64::MAX,
        ensures
            final(server).wf(),
            r.raw() == self.raw(),
            r.valid(*final(server)),
            self.valid(*final(server)),
            final(server).records@ == old(server).records@.update(
                self.raw() - 1,
                (Record {
                    ref_count: (old(server).record_at(self.raw()).ref_count + 1) as u64,
                    ..old(server).record_at(self.raw())
                }),
            ),
            *final(server) == old(server).with_records(final(server).records),
    {
        server.retain(self.handle);
        CGDisplayMode { handle: self.handle }
    }

    /// Destroys the wrapper: releases its one reference, exactly once; the
    /// record is freed just when this was the last reference.
    pub fn destroy(self, server: &mut WindowServer)
        requires
            old(server).wf(),
            self.valid(*old(server)),
        ensures
            final(server).wf(),
            final(server).records@ == old(server).records@.update(
                self.raw() - 1,
                spec_released(old(server).record_at(self.raw())),
            ),
            *final(server) == old(server).with_records(final(server).records),
    {
        server.release(self.handle);
    }

    /// The configuration's logical height, read through the wrapped record.
    pub fn height(&self, server: &WindowServer) -> (r: u64)
        requires
            server.wf(),
            self.valid(*server),
        ensures
            r == self.spec_info(*server).height,
    {
        match server.records[self.handle - 1].kind {
            RecordKind::DisplayMode(info) => info.height,
            _ => {
                proof {
                    assert(false);
                }
                0
            },
        }
    }

    /// The configuration's logical width.
    pub fn width(&self, server: &WindowServer) -> (r: u64)
        requires
            server.wf(),
            self.valid(*server),
        ensures
            r == self.spec_info(*server).width,
    {
        match server.records[self.handle - 1].kind {
            RecordKind::DisplayMode(info) => info.width,
            _ => {
                proof {
                    assert(false);
                }
                0
            },
        }
    }

    /// The configuration's height in pixel units.
    pub fn pixel_height(&self, server: &WindowServer) -> (r: u64)
        requires
            server.wf(),
            self.valid(*server),
        ensures
            r == self.spec_info(*server).pixel_height,
    {
        match server.records[self.handle - 1].kind {
            RecordKind::DisplayMode(info) => info.pixel_height,
            _ => {
                proof {
                    assert(false);
                }
                0
            },
        }
    }

    /// The configuration's width in pixel units.
    pub fn pixel_width(&self, server: &WindowServer) -> (r: u64)
        requires
            server.wf(),
            self.valid(*server),
        ensures
            r == self.spec_info(*server).pixel_width,
    {
        match server.records[self.handle - 1].kind {
            RecordKind::DisplayMode(info) => info.pixel_width,
            _ => {
                proof {
                    assert(false);
                }
                0
            },
        }
    }

    /// The configuration's refresh rate, in millihertz.
    pub fn refresh_rate(&self, server: &WindowServer) -> (r: u64)
        requires
            server.wf(),
            self.valid(*server),
        ensures
            r == self.spec_info(*server).refresh_rate_millihertz,
    {
        match server.records[self.handle - 1].kind {
            RecordKind::DisplayMode(info) => info.refresh_rate_millihertz,
            _ => {
                proof {
                    assert(false);
                }
                0
            },
        }
    }
}

/// An owning wrapper over a captured image record, received under the create
/// rule: the caller owns the one reference and must release it.
pub struct CGImage {
    handle: NativeHandle,
}

impl CGImage {
    /// A wrapper never holds the null handle.
    #[verifier::type_invariant]
    pub closed spec fn inv(self) -> bool {
        self.handle != 0
    }

    /// The wrapped handle.
    pub closed spec fn raw(self) -> NativeHandle {
        self.handle
    }

    /// Whether the wrapped handle names a live image record of `server`.
    pub open spec fn valid(self, server: WindowServer) -> bool {
        &&& server.handle_alive(self.raw())
        &&& server.record_at(self.raw()).kind == RecordKind::Image
    }

    /// The wrapped handle, never null.
    pub fn raw_handle(&self) -> (r: NativeHandle)
        ensures
            r == self.raw(),
            r != 0,
    {
        proof {
            use_type_invariant(&*self);
        }
        self.handle
    }

    /// Takes ownership of one reference to `handle`; the null handle is
    /// rejected before any wrapper exists.
    pub fn adopt(handle: NativeHandle) -> (r: Option<CGImage>)
        ensures
            r is Some <==> handle != 0,
            (r matches Some(m) ==> m.raw() == handle),
    {
        if handle != 0 {
            Some(CGImage { handle })
        } else {
            None
        }
    }

    /// Destroys the wrapper: releases its one reference, exactly once.
    pub fn destroy(self, server: &mut WindowServer)
        requires
            old(server).wf(),
            self.valid(*old(server)),
        ensures
            final(server).wf(),
            final(server).records@ == old(server).records@.update(
                self.raw() - 1,
                spec_released(old(server).record_at(self.raw())),
            ),
            *final(server) == old(server).with_records(final(server).records),
    {
        server.release(self.handle);
    }
}

/// An owning wrapper over a window-descriptor list record, received under the
/// create rule.
pub struct CGWindowList {
    handle: NativeHandle,
}

impl CGWindowList {
    /// A wrapper never holds the null handle.
    #[verifier::type_invariant]
    pub closed spec fn inv(self) -> bool {
        self.handle != 0
    }

    /// The wrapped handle.
    pub closed spec fn raw(self) -> NativeHandle {
        self.handle
    }

    /// Whether the wrapped handle names a live window-array record of
    /// `server`.
    pub open spec fn valid(self, server: WindowServer) -> bool {
        &&& server.handle_alive(self.raw())
        &&& spec_window_count(server.record_at(self.raw())) is Some
    }

    /// The wrapped handle, never null.
    pub fn raw_handle(&self) -> (r: NativeHandle)
        ensures
            r == self.raw(),
            r != 0,
    {
        proof {
            use_type_invariant(&*self);
        }
        self.handle
    }

    /// Takes ownership of one reference to `handle`; the null handle is
    /// rejected before any wrapper exists.
    pub fn adopt(handle: NativeHandle) -> (r: Option<CGWindowList>)
        ensures
            r is Some <==> handle != 0,
            (r matches Some(m) ==> m.raw() == handle),
    {
        if handle != 0 {
            Some(CGWindowList { handle })
        } else {
            None
        }
    }

    /// How many window descriptors the list holds.
    pub fn count(&self, server: &WindowServer) -> (r: u64)
        requires
            server.wf(),
            self.valid(*server),
        ensures
            r == spec_window_count(server.record_at(self.raw()))->Some_0,
    {
        match server.records[self.handle - 1].kind {
            RecordKind::WindowArray(n) => n,
            _ => {
                proof {
                    assert(false);
                }
                0
            },
        }
    }

    /// Destroys the wrapper: releases its one reference, exactly once.
    pub fn destroy(self, server: &mut WindowServer)
        requires
            old(server).wf(),
            self.valid(*old(server)),
        ensures
            final(server).wf(),
            final(server).records@ == old(server).records@.update(
                self.raw() - 1,
                spec_released(old(server).record_at(self.raw())),
            ),
            *final(server) == old(server).with_records(final(server).records),
    {
        server.release(self.handle);
    }
}

/// A display known to the window server, named by its identifier. The
/// identifier is a plain value the server owns; the binding never allocates
/// or frees it.
#[derive(Clone, Copy, Debug)]
pub struct CGDisplay {
    pub id: CGDirectDisplayID,
}

impl CGDisplay {
    /// Wraps a display identifier.
    pub fn new(id: CGDirectDisplayID) -> (r: CGDisplay)
        ensures
            r.id == id,
    {
        CGDisplay { id }
    }

    /// The main display.
    pub fn main(server: &WindowServer) -> (r: CGDisplay)
        ensures
            r.id == server.main_id,
    {
        CGDisplay::new(server.native_main_display_id())
    }

    /// The bounds of the display in the global display coordinate space; the
    /// empty rectangle for a display the server does not know.
    pub fn bounds(&self, server: &WindowServer) -> (r: CGRect)
        requires
            server.wf(),
        ensures
            r == match server.spec_display(self.id) {
                Some(d) => d.bounds,
                None => (CGRect {
                    origin: CGPoint { x: 0, y: 0 },
                    size: CGSize { width: 0, height: 0 },
                }),
            },
    {
        match server.lookup_display(self.id) {
            Some(d) => d.bounds,
            None => CGRect::zero(),
        }
    }

    /// The display's current configuration as an owned wrapper, or `None`
    /// when the server reports none — absence, never a failure.
    pub fn display_mode(&self, server: &mut WindowServer) -> (r: Option<CGDisplayMode>)
        requires
            old(server).wf(),
        ensures
            final(server).wf(),
            match spec_current_mode(*old(server), self.id) {
                Some(info) => {
                    &&& r is Some
                    &&& r->Some_0.valid(*final(server))
                    &&& r->Some_0.spec_info(*final(server)) == info
                    &&& final(server).records@ == old(server).records@.push(
                        (Record { ref_count: 1, frees: 0, kind: RecordKind::DisplayMode(info) }),
                    )
                    &&& *final(server) == old(server).with_records(final(server).records)
                },
                None => r is None && *final(server) == *old(server),
            },
    {
        let handle = server.copy_display_mode(self.id);
        CGDisplayMode::adopt(handle)
    }

    /// An image of the display's contents as an owned wrapper, or `None` when
    /// the server yields none.
    pub fn image(&self, server: &mut WindowServer) -> (r: Option<CGImage>)
        requires
            old(server).wf(),
        ensures
            final(server).wf(),
            if spec_display_capturable(*old(server), self.id) {
                &&& r is Some
                &&& r->Some_0.valid(*final(server))
                &&& final(server).records@ == old(server).records@.push(
                    (Record { ref_count: 1, frees: 0, kind: RecordKind::Image }),
                )
                &&& *final(server) == old(server).with_records(final(server).records)
            } else {
                r is None && *final(server) == *old(server)
            },
    {
        let handle = server.create_display_image(self.id);
        CGImage::adopt(handle)
    }

    /// A composite image over a dynamically generated window list. The screen
    /// region and the window-filter parameters reach the server unchanged.
    pub fn screenshot(
        bounds: CGRect,
        list_option: CGWindowListOption,
        window_id: CGWindowID,
        image_option: CGWindowImageOption,
        server: &mut WindowServer,
    ) -> (r: Option<CGImage>)
        requires
            old(server).wf(),
        ensures
            final(server).wf(),
            final(server).last_capture == Some(
                (CaptureRequest { bounds, list_option, window_id, image_option }),
            ),
            if old(server).capture_available {
                &&& r is Some
                &&& r->Some_0.valid(*final(server))
                &&& final(server).records@ == old(server).records@.push(
                    (Record { ref_count: 1, frees: 0, kind: RecordKind::Image }),
                )
                &&& *final(server) == old(server).with_records(
                    final(server).records,
                ).with_last_capture(final(server).last_capture)
            } else {
                &&& r is None
                &&& *final(server) == old(server).with_last_capture(final(server).last_capture)
            },
    {
        let handle = server.create_window_image(
            CaptureRequest { bounds, list_option, window_id, image_option },
        );
        CGImage::adopt(handle)
    }

    /// A composite image of the windows in an explicit list. The screen
    /// region and the image options reach the server unchanged, together with
    /// the list's own handle.
    pub fn screenshot_from_windows(
        bounds: CGRect,
        windows: &CGWindowList,
        image_option: CGWindowImageOption,
        server: &mut WindowServer,
    ) -> (r: Option<CGImage>)
        requires
            old(server).wf(),
            windows.valid(*old(server)),
        ensures
            final(server).wf(),
            windows.valid(*final(server)),
            final(server).last_array_capture == Some(
                (ArrayCaptureRequest { bounds, windows: windows.raw(), image_option }),
            ),
            if old(server).capture_available {
                &&& r is Some
                &&& r->Some_0.valid(*final(server))
                &&& final(server).records@ == old(server).records@.push(
                    (Record { ref_count: 1, frees: 0, kind: RecordKind::Image }),
                )
                &&& *final(server) == old(server).with_records(
                    final(server).records,
                ).with_last_array_capture(final(server).last_array_capture)
            } else {
                &&& r is None
                &&& *final(server) == old(server).with_last_array_capture(
                    final(server).last_array_capture,
                )
            },
    {
        let windows_handle = windows.raw_handle();
        let handle = server.create_window_array_image(
            ArrayCaptureRequest { bounds, windows: windows_handle, image_option },
        );
        CGImage::adopt(handle)
    }

    /// Information about the selected windows in the current session, as an
    /// owned list wrapper, or `None` when the server yields none. An absent
    /// relative window means the null window.
    pub fn window_list_info(
        option: CGWindowListOption,
        relative_to_window: Option<CGWindowID>,
        server: &mut WindowServer,
    ) -> (r: Option<CGWindowList>)
        requires
            old(server).wf(),
        ensures
            final(server).wf(),
            final(server).last_window_query == Some(
                (WindowQuery {
                    options: option,
                    relative_to_window: match relative_to_window {
                        Some(w) => w,
                        None => kCGNullWindowID,
                    },
                }),
            ),
            if old(server).window_list_available {
                &&& r is Some
                &&& r->Some_0.valid(*final(server))
                &&& spec_window_count(final(server).record_at(r->Some_0.raw())) == Some(
                    old(server).window_count,
                )
                &&& final(server).records@ == old(server).records@.push(
                    (Record {
                        ref_count: 1,
                        frees: 0,
                        kind: RecordKind::WindowArray(old(server).window_count),
                    }),
                )
                &&& *final(server) == old(server).with_records(
                    final(server).records,
                ).with_last_window_query(final(server).last_window_query)
            } else {
                &&& r is None
                &&& *final(server) == old(server).with_last_window_query(
                    final(server).last_window_query,
                )
            },
    {
        let relative = match relative_to_window {
            Some(w) => w,
            None => kCGNullWindowID,
        };
        let handle = server.copy_window_info(
            WindowQuery { options: option, relative_to_window: relative },
        );
        CGWindowList::adopt(handle)
    }

    /// Whether the display is active (drawable). Unknown displays are not.
    pub fn is_active(&self, server: &WindowServer) -> (r: bool)
        requires
            server.wf(),
        ensures
            r == match server.spec_display(self.id) {
                Some(d) => d.active != 0,
                None => false,
            },
    {
        match server.lookup_display(self.id) {
            Some(d) => bool_from_native(d.active),
            None => false,
        }
    }

    /// Whether the display is always in a mirroring set.
    pub fn is_always_in_mirror_set(&self, server: &WindowServer) -> (r: bool)
        requires
            server.wf(),
        ensures
            r == match server.spec_display(self.id) {
                Some(d) => d.always_in_mirror_set != 0,
                None => false,
            },
    {
        match server.lookup_display(self.id) {
            Some(d) => bool_from_native(d.always_in_mirror_set),
            None => false,
        }
    }

    /// Whether the display is sleeping (and therefore not drawable).
    pub fn is_asleep(&self, server: &WindowServer) -> (r: bool)
        requires
            server.wf(),
        ensures
            r == match server.spec_display(self.id) {
                Some(d) => d.asleep != 0,
                None => false,
            },
    {
        match server.lookup_display(self.id) {
            Some(d) => bool_from_native(d.asleep),
            None => false,
        }
    }

    /// Whether the display is built in, such as the internal display of a
    /// portable system.
    pub fn is_builtin(&self, server: &WindowServer) -> (r: bool)
        requires
            server.wf(),
        ensures
            r == match server.spec_display(self.id) {
                Some(d) => d.builtin != 0,
                None => false,
            },
    {
        match server.lookup_display(self.id) {
            Some(d) => bool_from_native(d.builtin),
            None => false,
        }
    }

    /// Whether the display is in a hardware mirroring set.
    pub fn is_in_hw_mirror_set(&self, server: &WindowServer) -> (r: bool)
        requires
            server.wf(),
        ensures
            r == match server.spec_display(self.id) {
                Some(d) => d.in_hw_mirror_set != 0,
                None => false,
            },
    {
        match server.lookup_display(self.id) {
            Some(d) => bool_from_native(d.in_hw_mirror_set),
            None => false,
        }
    }

    /// Whether the display is in a mirroring set.
    pub fn is_in_mirror_set(&self, server: &WindowServer) -> (r: bool)
        requires
            server.wf(),
        ensures
            r == match server.spec_display(self.id) {
                Some(d) => d.in_mirror_set != 0,
                None => false,
            },
    {
        match server.lookup_display(self.id) {
            Some(d) => bool_from_native(d.in_mirror_set),
            None => false,
        }
    }

    /// Whether the display is the main display.
    pub fn is_main(&self, server: &WindowServer) -> (r: bool)
        requires
            server.wf(),
        ensures
            r == match server.spec_display(self.id) {
                Some(d) => d.main != 0,
                None => false,
            },
    {
        match server.lookup_display(self.id) {
            Some(d) => bool_from_native(d.main),
            None => false,
        }
    }

    /// Whether the display is connected or online.
    pub fn is_online(&self, server: &WindowServer) -> (r: bool)
        requires
            server.wf(),
        ensures
            r == match server.spec_display(self.id) {
                Some(d) => d.online != 0,
                None => false,
            },
    {
        match server.lookup_display(self.id) {
            Some(d) => bool_from_native(d.online),
            None => false,
        }
    }

    /// Whether the compositor renders the display with hardware-accelerated
    /// windowing.
    pub fn uses_open_gl_acceleration(&self, server: &WindowServer) -> (r: bool)
        requires
            server.wf(),
        ensures
            r == match server.spec_display(self.id) {
                Some(d) => d.uses_gl_acceleration != 0,
                None => false,
            },
    {
        match server.lookup_display(self.id) {
            Some(d) => bool_from_native(d.uses_gl_acceleration),
            None => false,
        }
    }

    /// Whether the display runs in a stereo graphics mode.
    pub fn is_stereo(&self, server: &WindowServer) -> (r: bool)
        requires
            server.wf(),
        ensures
            r == match server.spec_display(self.id) {
                Some(d) => d.stereo != 0,
                None => false,
            },
    {
        match server.lookup_display(self.id) {
            Some(d) => bool_from_native(d.stereo),
            None => false,
        }
    }

    /// For a secondary display in a mirroring set, the primary display; the
    /// null identifier otherwise, and for unknown displays.
    pub fn mirrors_display(&self, server: &WindowServer) -> (r: CGDirectDisplayID)
        requires
            server.wf(),
        ensures
            r == match server.spec_display(self.id) {
                Some(d) => d.mirrors,
                None => 0u32,
            },
    {
        match server.lookup_display(self.id) {
            Some(d) => d.mirrors,
            None => 0,
        }
    }

    /// The primary display in the display's hardware mirroring set; the null
    /// identifier for unknown displays.
    pub fn primary_display(&self, server: &WindowServer) -> (r: CGDirectDisplayID)
        requires
            server.wf(),
        ensures
            r == match server.spec_display(self.id) {
                Some(d) => d.primary,
                None => 0u32,
            },
    {
        match server.lookup_display(self.id) {
            Some(d) => d.primary,
            None => 0,
        }
    }

    /// The rotation of the display, in whole degrees; zero for unknown
    /// displays.
    pub fn rotation(&self, server: &WindowServer) -> (r: u32)
        requires
            server.wf(),
        ensures
            r == match server.spec_display(self.id) {
                Some(d) => d.rotation_degrees,
                None => 0u32,
            },
    {
        match server.lookup_display(self.id) {
            Some(d) => d.rotation_degrees,
            None => 0,
        }
    }

    /// The width and height of the display in millimetres; the empty size for
    /// unknown displays.
    pub fn screen_size(&self, server: &WindowServer) -> (r: CGSize)
        requires
            server.wf(),
        ensures
            r == match server.spec_display(self.id) {
                Some(d) => d.screen_size,
                None => (CGSize { width: 0, height: 0 }),
            },
    {
        match server.lookup_display(self.id) {
            Some(d) => d.screen_size,
            None => CGSize::zero(),
        }
    }

    /// The serial number of the display's monitor; zero for unknown displays.
    pub fn serial_number(&self, server: &WindowServer) -> (r: u32)
        requires
            server.wf(),
        ensures
            r == match server.spec_display(self.id) {
                Some(d) => d.serial_number,
                None => 0u32,
            },
    {
        match server.lookup_display(self.id) {
            Some(d) => d.serial_number,
            None => 0,
        }
    }

    /// The logical unit number of the display; zero for unknown displays.
    pub fn unit_number(&self, server: &WindowServer) -> (r: u32)
        requires
            server.wf(),
        ensures
            r == match server.spec_display(self.id) {
                Some(d) => d.unit_number,
                None => 0u32,
            },
    {
        match server.lookup_display(self.id) {
            Some(d) => d.unit_number,
            None => 0,
        }
    }

    /// The vendor number of the display's monitor; zero for unknown displays.
    pub fn vendor_number(&self, server: &WindowServer) -> (r: u32)
        requires
            server.wf(),
        ensures
            r == match server.spec_display(self.id) {
                Some(d) => d.vendor_number,
                None => 0u32,
            },
    {
        match server.lookup_display(self.id) {
            Some(d) => d.vendor_number,
            None => 0,
        }
    }

    /// The model number of the display's monitor; zero for unknown displays.
    pub fn model_number(&self, server: &WindowServer) -> (r: u32)
        requires
            server.wf(),
        ensures
            r == match server.spec_display(self.id) {
                Some(d) => d.model_number,
                None => 0u32,
            },
    {
        match server.lookup_display(self.id) {
            Some(d) => d.model_number,
            None => 0,
        }
    }

    /// The display height in pixel units; zero for unknown displays.
    pub fn pixels_high(&self, server: &WindowServer) -> (r: u64)
        requires
            server.wf(),
        ensures
            r == match server.spec_display(self.id) {
                Some(d) => d.pixels_high as u64,
                None => 0u64,
            },
    {
        match server.lookup_display(self.id) {
            Some(d) => d.pixels_high as u64,
            None => 0,
        }
    }

    /// The display width in pixel units; zero for unknown displays.
    pub fn pixels_wide(&self, server: &WindowServer) -> (r: u64)
        requires
            server.wf(),
        ensures
            r == match server.spec_display(self.id) {
                Some(d) => d.pixels_wide as u64,
                None => 0u64,
            },
    {
        match server.lookup_display(self.id) {
            Some(d) => d.pixels_wide as u64,
            None => 0,
        }
    }

    /// The identifiers of the active displays, by the two-phase protocol: a
    /// size probe, then a fill of exactly that size. On failure the server's
    /// code is surfaced verbatim.
    pub fn active_displays(server: &WindowServer) -> (r: Result<Vec<CGDirectDisplayID>, CGError>)
        requires
            server.wf(),
        ensures
            r is Ok <==> server.list_code == 0,
            (r matches Ok(v) ==> v@ == server.active_list@),
            (r matches Err(e) ==> e == server.list_code),
    {
        let count = match CGDisplay::active_display_count(server) {
            Ok(c) => c,
            Err(e) => {
                return Err(e);
            },
        };
        let (code, buf) = server.native_active_display_fill(count);
        if code == 0 {
            proof {
                assert(buf@ =~= server.active_list@);
            }
            Ok(buf)
        } else {
            Err(code)
        }
    }

    /// How many displays are active: the size probe of the two-phase
    /// protocol. On failure the server's code is surfaced verbatim.
    pub fn active_display_count(server: &WindowServer) -> (r: Result<u32, CGError>)
        requires
            server.wf(),
        ensures
            r == server.spec_active_display_count(),
            r is Ok <==> server.list_code == 0,
            (r matches Ok(c) ==> c == server.active_list@.len()),
            (r matches Err(e) ==> e == server.list_code),
    {
        let (code, count) = server.native_active_display_count();
        if code == 0 {
            Ok(count)
        } else {
            Err(code)
        }
    }

    /// Hides the cursor and raises the outstanding hide level by one. A
    /// non-zero server code is surfaced verbatim, with nothing changed.
    pub fn hide_cursor(&self, server: &mut WindowServer) -> (r: Result<(), CGError>)
        requires
            old(server).wf(),
            old(server).cursor_hide_level < u64::MAX,
        ensures
            final(server).wf(),
            r is Ok <==> old(server).cursor_code == 0,
            (r matches Err(e) ==> e == old(server).cursor_code && *final(server) == *old(server)),
            r is Ok ==> *final(server) == old(server).with_cursor_hide_level(
                (old(server).cursor_hide_level + 1) as u64,
            ),
    {
        let code = server.native_hide_cursor();
        result_from_code(code)
    }

    /// Lowers the outstanding hide level by one and shows the cursor when it
    /// reaches zero. A non-zero server code is surfaced verbatim, with
    /// nothing changed.
    pub fn show_cursor(&self, server: &mut WindowServer) -> (r: Result<(), CGError>)
        requires
            old(server).wf(),
        ensures
            final(server).wf(),
            r is Ok <==> old(server).cursor_code == 0,
            (r matches Err(e) ==> e == old(server).cursor_code && *final(server) == *old(server)),
            r is Ok ==> *final(server) == old(server).with_cursor_hide_level(
                if old(server).cursor_hide_level > 0 {
                    (old(server).cursor_hide_level - 1) as u64
                } else {
                    0u64
                },
            ),
    {
        let code = server.native_show_cursor();
        result_from_code(code)
    }

    /// Moves the cursor to a point given relative to the display's origin.
    /// The point reaches the server verbatim; a non-zero code is surfaced
    /// unchanged.
    pub fn move_cursor_to_point(&self, point: CGPoint, server: &mut WindowServer) -> (r: Result<
        (),
        CGError,
    >)
        requires
            old(server).wf(),
        ensures
            final(server).wf(),
            r is Ok <==> old(server).cursor_code == 0,
            (r matches Err(e) ==> e == old(server).cursor_code && *final(server) == *old(server)),
            r is Ok ==> *final(server) == old(server).with_cursor_position(point),
    {
        let code = server.native_set_cursor_position(point);
        result_from_code(code)
    }

    /// Moves the cursor to a point in global display space without generating
    /// events. The point reaches the server verbatim.
    pub fn warp_mouse_cursor_position(point: CGPoint, server: &mut WindowServer) -> (r: Result<
        (),
        CGError,
    >)
        requires
            old(server).wf(),
        ensures
            final(server).wf(),
            r is Ok <==> old(server).cursor_code == 0,
            (r matches Err(e) ==> e == old(server).cursor_code && *final(server) == *old(server)),
            r is Ok ==> *final(server) == old(server).with_cursor_position(point),
    {
        let code = server.native_set_cursor_position(point);
        result_from_code(code)
    }

    /// Connects or disconnects mouse movement and cursor position. The flag
    /// reaches the server as the C interface's boolean.
    pub fn associate_mouse_and_mouse_cursor_position(
        connected: bool,
        server: &mut WindowServer,
    ) -> (r: Result<(), CGError>)
        requires
            old(server).wf(),
        ensures
            final(server).wf(),
            r is Ok <==> old(server).cursor_code == 0,
            (r matches Err(e) ==> e == old(server).cursor_code && *final(server) == *old(server)),
            r is Ok ==> *final(server) == old(server).with_mouse_associated(
                if connected {
                    1u32
                } else {
                    0u32
                },
            ),
    {
        let flag: u32 = if connected {
            1
        } else {
            0
        };
        let code = server.native_associate_mouse(flag);
        result_from_code(code)
    }
}

/// The enumeration protocol's coherence law: against one window-server state,
/// the size probe and the two-phase enumeration succeed together; on success
/// the enumeration yields exactly as many identifiers as the probe reported,
/// and on failure both surface the same code.
pub proof fn lemma_count_matches_enumeration(server: WindowServer)
    requires
        server.wf(),
    ensures
        server.spec_active_display_count() is Ok <==> server.spec_active_displays() is Ok,
        (match (server.spec_active_display_count(), server.spec_active_displays()) {
            (Ok(c), Ok(v)) => v.len() == c,
            (Err(c), Err(e)) => c == e,
            _ => true,
        }),
{
}

} // verus!
