//! The model of the operating system's window server.
//!
//! The real window server is a service outside the process; this module holds
//! it as an explicit value, so that the binding's behaviour — what each call
//! reads, which records it retains or releases, and which return code it
//! surfaces — can be stated and proved. A test builds a [`WindowServer`] with
//! chosen contents and drives the public operations against it.

use vstd::prelude::*;

use crate::base::CGError;
use crate::base::boolean_t;
use crate::geometry::CGPoint;
use crate::geometry::CGRect;
use crate::geometry::CGSize;

verus! {

/// A handle to a window-server-owned, reference-counted record. `0` is the
/// null handle; handle `h` names the record at index `h - 1` of the table.
pub type NativeHandle = usize;

/// What a display-mode record describes: one configuration a display can
/// operate in. The refresh rate is held in millihertz, so that the value is a
/// plain integer.
#[derive(Clone, Copy, Debug, PartialEq, Eq, Structural)]
pub struct ModeInfo {
    pub width: u64,
    pub height: u64,
    pub pixel_width: u64,
    pub pixel_height: u64,
    pub refresh_rate_millihertz: u64,
}

/// The contents of one reference-counted record owned by the window server.
#[derive(Clone, Copy, Debug, PartialEq, Eq, Structural)]
pub enum RecordKind {
    /// A display-configuration description.
    DisplayMode(ModeInfo),
    /// A captured image; its pixel contents are opaque to the binding.
    Image,
    /// A list of window descriptors; the binding only ever reads its length.
    WindowArray(u64),
}

/// One reference-counted record, with its count and the number of times it
/// has been freed. The server's well-formedness says a record is freed at
/// most once, exactly when its count reaches zero.
#[derive(Clone, Copy, Debug, PartialEq, Eq, Structural)]
pub struct Record {
    pub ref_count: u64,
    pub frees: u64,
    pub kind: RecordKind,
}

impl Record {
    /// Freed at most once, and exactly when no reference is left.
    pub open spec fn wf(self) -> bool {
        &&& self.frees <= 1
        &&& (self.frees == 1 <==> self.ref_count == 0)
    }
}

/// The mode description of a record, when it is one.
pub open spec fn spec_mode_info(r: Record) -> Option<ModeInfo> {
    match r.kind {
        RecordKind::DisplayMode(info) => Some(info),
        _ => None,
    }
}

/// The descriptor count of a window-array record, when it is one.
pub open spec fn spec_window_count(r: Record) -> Option<u64> {
    match r.kind {
        RecordKind::WindowArray(n) => Some(n),
        _ => None,
    }
}

/// Everything the window server reports of one display, held as the plain
/// values its C interface returns: the boolean properties as `boolean_t`
/// flags (any non-zero value is true), the rotation in whole degrees.
#[derive(Clone, Copy, Debug)]
pub struct DisplayProperties {
    pub id: u32,
    pub active: boolean_t,
    pub always_in_mirror_set: boolean_t,
    pub asleep: boolean_t,
    pub builtin: boolean_t,
    pub in_hw_mirror_set: boolean_t,
    pub in_mirror_set: boolean_t,
    pub main: boolean_t,
    pub online: boolean_t,
    pub uses_gl_acceleration: boolean_t,
    pub stereo: boolean_t,
    /// For a secondary display in a mirroring set, the primary display; `0`
    /// otherwise.
    pub mirrors: u32,
    /// The primary display of the hardware mirroring set.
    pub primary: u32,
    pub rotation_degrees: u32,
    /// Width and height in millimetres.
    pub screen_size: CGSize,
    pub serial_number: u32,
    pub unit_number: u32,
    pub vendor_number: u32,
    pub model_number: u32,
    pub pixels_high: usize,
    pub pixels_wide: usize,
    pub bounds: CGRect,
    /// The display's current configuration, if it has one.
    pub mode: Option<ModeInfo>,
    /// Whether an image of the display's contents can be captured.
    pub capturable: boolean_t,
}

/// The parameters of a window-list image capture, recorded verbatim so that a
/// contract can say they reach the server unchanged.
#[derive(Clone, Copy, Debug, PartialEq, Eq, Structural)]
pub struct CaptureRequest {
    pub bounds: CGRect,
    pub list_option: u32,
    pub window_id: u32,
    pub image_option: u32,
}

/// The parameters of a capture over an explicit window array.
#[derive(Clone, Copy, Debug, PartialEq, Eq, Structural)]
pub struct ArrayCaptureRequest {
    pub bounds: CGRect,
    pub windows: NativeHandle,
    pub image_option: u32,
}

/// The parameters of a window-enumeration query.
#[derive(Clone, Copy, Debug, PartialEq, Eq, Structural)]
pub struct WindowQuery {
    pub options: u32,
    pub relative_to_window: u32,
}

/// The window server's state: the displays it knows, the table of
/// reference-counted records, the list of active displays, the return codes
/// its calls will report, and the cursor state it owns.
pub struct WindowServer {
    pub displays: Vec<DisplayProperties>,
    pub records: Vec<Record>,
    /// The identifier of the main display.
    pub main_id: u32,
    /// The identifiers of the active (drawable) displays, in order.
    pub active_list: Vec<u32>,
    /// The code the enumeration call reports; `0` lets it succeed.
    pub list_code: CGError,
    /// The code the cursor-control calls report; `0` lets them succeed.
    pub cursor_code: CGError,
    /// How many balanced hide requests are outstanding; the cursor is visible
    /// exactly when this is zero.
    pub cursor_hide_level: u64,
    /// The most recently requested cursor position, verbatim.
    pub cursor_position: CGPoint,
    /// Whether mouse movement and cursor position are associated.
    pub mouse_associated: boolean_t,
    /// Whether a window-enumeration query yields a list at all.
    pub window_list_available: bool,
    /// How many window descriptors an enumeration yields.
    pub window_count: u64,
    /// Whether a window-list image capture yields an image.
    pub capture_available: bool,
    /// The last capture request received, verbatim.
    pub last_capture: Option<CaptureRequest>,
    /// The last array-capture request received, verbatim.
    pub last_array_capture: Option<ArrayCaptureRequest>,
    /// The last window-enumeration query received, verbatim.
    pub last_window_query: Option<WindowQuery>,
}

impl WindowServer {
    /// Display identifiers are unique, the active list fits the probe's
    /// 32-bit count, and every record obeys the freed-exactly-once law.
    pub open spec fn wf(self) -> bool {
        &&& self.active_list@.len() <= u32::MAX
        &&& forall|j: int, k: int|
            0 <= j < self.displays@.len() && 0 <= k < self.displays@.len()
                && #[trigger] self.displays@[j].id == #[trigger] self.displays@[k].id ==> j == k
        &&& forall|i: int| 0 <= i < self.records@.len() ==> (#[trigger] self.records@[i]).wf()
    }

    /// Whether `h` names a slot of the record table.
    pub open spec fn handle_in_range(self, h: NativeHandle) -> bool {
        1 <= h <= self.records@.len()
    }

    /// The record `h` names.
    pub open spec fn record_at(self, h: NativeHandle) -> Record
        recommends
            self.handle_in_range(h),
    {
        self.records@[h - 1]
    }

    /// Whether `h` names a record that still has a reference outstanding.
    pub open spec fn handle_alive(self, h: NativeHandle) -> bool {
        self.handle_in_range(h) && self.record_at(h).ref_count > 0
    }

    /// The display the server knows under `id`, if any.
    pub open spec fn spec_display(self, id: u32) -> Option<DisplayProperties> {
        if exists|j: int|
            0 <= j < self.displays@.len() && (#[trigger] self.displays@[j]).id == id {
            Some(
                self.displays@[choose|j: int|
                    0 <= j < self.displays@.len() && (#[trigger] self.displays@[j]).id == id],
            )
        } else {
            None
        }
    }

    /// The cursor is visible exactly when no hide request is outstanding.
    pub open spec fn cursor_visible(self) -> bool {
        self.cursor_hide_level == 0
    }

    /// This state with another record table.
    pub open spec fn with_records(self, records: Vec<Record>) -> WindowServer {
        WindowServer { records, ..self }
    }

    /// This state with another recorded capture request.
    pub open spec fn with_last_capture(self, r: Option<CaptureRequest>) -> WindowServer {
        WindowServer { last_capture: r, ..self }
    }

    /// This state with another recorded array-capture request.
    pub open spec fn with_last_array_capture(self, r: Option<ArrayCaptureRequest>) -> WindowServer {
        WindowServer { last_array_capture: r, ..self }
    }

    /// This state with another recorded window-enumeration query.
    pub open spec fn with_last_window_query(self, q: Option<WindowQuery>) -> WindowServer {
        WindowServer { last_window_query: q, ..self }
    }

    /// This state with another hide level.
    pub open spec fn with_cursor_hide_level(self, level: u64) -> WindowServer {
        WindowServer { cursor_hide_level: level, ..self }
    }

    /// This state with another cursor position.
    pub open spec fn with_cursor_position(self, p: CGPoint) -> WindowServer {
        WindowServer { cursor_position: p, ..self }
    }

    /// This state with another mouse-association flag.
    pub open spec fn with_mouse_associated(self, flag: boolean_t) -> WindowServer {
        WindowServer { mouse_associated: flag, ..self }
    }

    /// Looks a display up by identifier: the first (and, by well-formedness,
    /// only) record carrying `id`.
    pub fn lookup_display(&self, id: u32) -> (r: Option<DisplayProperties>)
        requires
            self.wf(),
        ensures
            r == self.spec_display(id),
    {
        let n = self.displays.len();
        let mut i: usize = 0;
        while i < n
            invariant
                self.wf(),
                n == self.displays@.len(),
                i <= n,
                forall|j: int| 0 <= j < i ==> (#[trigger] self.displays@[j]).id != id,
            decreases n - i,
        {
            if self.displays[i].id == id {
                proof {
                    let w = i as int;
                    assert(self.displays@[w].id == id);
                    let c = choose|j: int|
                        0 <= j < self.displays@.len() && (#[trigger] self.displays@[j]).id == id;
                    assert(self.displays@[c].id == self.displays@[w].id);
                    assert(c == w);
                }
                return Some(self.displays[i]);
            }
            i = i + 1;
        }
        None
    }

    /// The identifier of the main display, as the server reports it.
    pub fn native_main_display_id(&self) -> (r: u32)
        ensures
            r == self.main_id,
    {
        self.main_id
    }

    /// One retain call: increments the record's reference count.
    ///
    /// Models the window server's retain on a record the caller already holds
    /// a reference to.
    pub fn retain(&mut self, handle: NativeHandle)
        requires
            old(self).wf(),
            old(self).handle_alive(handle),
            old(self).record_at(handle).ref_count < u64::MAX,
        ensures
            final(self).wf(),
            final(self).records@ == old(self).records@.update(
                handle - 1,
                (Record {
                    ref_count: (old(self).record_at(handle).ref_count + 1) as u64,
                    ..old(self).record_at(handle)
                }),
            ),
            *final(self) == old(self).with_records(final(self).records),
    {
        let idx = handle - 1;
        let mut rec = self.records[idx];
        rec.ref_count = rec.ref_count + 1;
        self.records[idx] = rec;
        proof {
            assert(self.records@ =~= old(self).records@.update(
                handle - 1,
                (Record {
                    ref_count: (old(self).record_at(handle).ref_count + 1) as u64,
                    ..old(self).record_at(handle)
                }),
            ));
        }
    }

    /// One release call: decrements the record's reference count, and frees
    /// the record when the last reference goes.
    pub fn release(&mut self, handle: NativeHandle)
        requires
            old(self).wf(),
            old(self).handle_alive(handle),
        ensures
            final(self).wf(),
            final(self).records@ == old(self).records@.update(
                handle - 1,
                spec_released(old(self).record_at(handle)),
            ),
            *final(self) == old(self).with_records(final(self).records),
    {
        let idx = handle - 1;
        let mut rec = self.records[idx];
        proof {
            assert(old(self).record_at(handle).wf());
        }
        rec.ref_count = rec.ref_count - 1;
        if rec.ref_count == 0 {
            rec.frees = rec.frees + 1;
        }
        self.records[idx] = rec;
        proof {
            assert(self.records@ =~= old(self).records@.update(
                handle - 1,
                spec_released(old(self).record_at(handle)),
            ));
        }
    }
    /// The current configuration of display `display_id` as a fresh record the
    /// caller owns one reference to, or the null handle if the display is
    /// unknown or has no configuration.
    pub fn copy_display_mode(&mut self, display_id: u32) -> (handle: NativeHandle)
        requires
            old(self).wf(),
        ensures
            final(self).wf(),
            match spec_current_mode(*old(self), display_id) {
                Some(info) => {
                    &&& handle == old(self).records@.len() + 1
                    &&& final(self).records@ == old(self).records@.push(
                        (Record { ref_count: 1, frees: 0, kind: RecordKind::DisplayMode(info) }),
                    )
                    &&& *final(self) == old(self).with_records(final(self).records)
                },
                None => handle == 0 && *final(self) == *old(self),
            },
    {
        let display = self.lookup_display(display_id);
        match display {
            Some(d) => match d.mode {
                Some(info) => {
                    self.records.push(
                        Record { ref_count: 1, frees: 0, kind: RecordKind::DisplayMode(info) },
                    );
                    self.records.len()
                },
                None => 0,
            },
            None => 0,
        }
    }

    /// A captured image of display `display_id` as a fresh record the caller
    /// owns, or the null handle if the display is unknown or cannot be
    /// captured.
    pub fn create_display_image(&mut self, display_id: u32) -> (handle: NativeHandle)
        requires
            old(self).wf(),
        ensures
            final(self).wf(),
            if spec_display_capturable(*old(self), display_id) {
                &&& handle == old(self).records@.len() + 1
                &&& final(self).records@ == old(self).records@.push(
                    (Record { ref_count: 1, frees: 0, kind: RecordKind::Image }),
                )
                &&& *final(self) == old(self).with_records(final(self).records)
            } else {
                handle == 0 && *final(self) == *old(self)
            },
    {
        let display = self.lookup_display(display_id);
        match display {
            Some(d) => {
                if d.capturable != 0 {
                    self.records.push(Record { ref_count: 1, frees: 0, kind: RecordKind::Image });
                    self.records.len()
                } else {
                    0
                }
            },
            None => 0,
        }
    }

    /// A composite image over a dynamically generated window list. The request
    /// reaches the server verbatim; a fresh image record comes back when
    /// capture is available, the null handle otherwise.
    pub fn create_window_image(&mut self, request: CaptureRequest) -> (handle: NativeHandle)
        requires
            old(self).wf(),
        ensures
            final(self).wf(),
            final(self).last_capture == Some(request),
            if old(self).capture_available {
                &&& handle == old(self).records@.len() + 1
                &&& final(self).records@ == old(self).records@.push(
                    (Record { ref_count: 1, frees: 0, kind: RecordKind::Image }),
                )
                &&& *final(self) == old(self).with_records(final(self).records)
                    .with_last_capture(Some(request))
            } else {
                handle == 0 && *final(self) == old(self).with_last_capture(Some(request))
            },
    {
        self.last_capture = Some(request);
        if self.capture_available {
            self.records.push(Record { ref_count: 1, frees: 0, kind: RecordKind::Image });
            self.records.len()
        } else {
            0
        }
    }

    /// A composite image of the windows in an explicit array. The request
    /// reaches the server verbatim.
    pub fn create_window_array_image(&mut self, request: ArrayCaptureRequest) -> (handle:
        NativeHandle)
        requires
            old(self).wf(),
            old(self).handle_alive(request.windows),
            spec_window_count(old(self).record_at(request.windows)) is Some,
        ensures
            final(self).wf(),
            final(self).last_array_capture == Some(request),
            if old(self).capture_available {
                &&& handle == old(self).records@.len() + 1
                &&& final(self).records@ == old(self).records@.push(
                    (Record { ref_count: 1, frees: 0, kind: RecordKind::Image }),
                )
                &&& *final(self) == old(self).with_records(final(self).records)
                    .with_last_array_capture(Some(request))
            } else {
                handle == 0 && *final(self) == old(self).with_last_array_capture(Some(request))
            },
    {
        self.last_array_capture = Some(request);
        if self.capture_available {
            self.records.push(Record { ref_count: 1, frees: 0, kind: RecordKind::Image });
            self.records.len()
        } else {
            0
        }
    }

    /// A window-enumeration query. The query reaches the server verbatim; a
    /// fresh window-array record of the server's current descriptor count
    /// comes back when a list is available, the null handle otherwise.
    pub fn copy_window_info(&mut self, query: WindowQuery) -> (handle: NativeHandle)
        requires
            old(self).wf(),
        ensures
            final(self).wf(),
            final(self).last_window_query == Some(query),
            if old(self).window_list_available {
                &&& handle == old(self).records@.len() + 1
                &&& final(self).records@ == old(self).records@.push(
                    (Record {
                        ref_count: 1,
                        frees: 0,
                        kind: RecordKind::WindowArray(old(self).window_count),
                    }),
                )
                &&& *final(self) == old(self).with_records(final(self).records)
                    .with_last_window_query(Some(query))
            } else {
                handle == 0 && *final(self) == old(self).with_last_window_query(Some(query))
            },
    {
        self.last_window_query = Some(query);
        if self.window_list_available {
            let n = self.window_count;
            self.records.push(Record { ref_count: 1, frees: 0, kind: RecordKind::WindowArray(n) });
            self.records.len()
        } else {
            0
        }
    }

    /// One hide-cursor call: on success the outstanding hide level rises by
    /// one; on failure the server reports its code and changes nothing.
    pub fn native_hide_cursor(&mut self) -> (code: CGError)
        requires
            old(self).wf(),
            old(self).cursor_hide_level < u64::MAX,
        ensures
            final(self).wf(),
            code == old(self).cursor_code,
            code == 0 ==> *final(self) == old(self).with_cursor_hide_level(
                (old(self).cursor_hide_level + 1) as u64,
            ),
            code != 0 ==> *final(self) == *old(self),
    {
        if self.cursor_code == 0 {
            self.cursor_hide_level = self.cursor_hide_level + 1;
        }
        self.cursor_code
    }

    /// One show-cursor call: on success the outstanding hide level falls by
    /// one (never below zero), and the cursor shows again when it reaches
    /// zero.
    pub fn native_show_cursor(&mut self) -> (code: CGError)
        requires
            old(self).wf(),
        ensures
            final(self).wf(),
            code == old(self).cursor_code,
            code == 0 ==> *final(self) == old(self).with_cursor_hide_level(
                if old(self).cursor_hide_level > 0 {
                    (old(self).cursor_hide_level - 1) as u64
                } else {
                    0u64
                },
            ),
            code != 0 ==> *final(self) == *old(self),
    {
        if self.cursor_code == 0 && self.cursor_hide_level > 0 {
            self.cursor_hide_level = self.cursor_hide_level - 1;
        }
        self.cursor_code
    }

    /// One cursor-positioning call: on success the server records the
    /// requested position verbatim.
    pub fn native_set_cursor_position(&mut self, point: CGPoint) -> (code: CGError)
        requires
            old(self).wf(),
        ensures
            final(self).wf(),
            code == old(self).cursor_code,
            code == 0 ==> *final(self) == old(self).with_cursor_position(point),
            code != 0 ==> *final(self) == *old(self),
    {
        if self.cursor_code == 0 {
            self.cursor_position = point;
        }
        self.cursor_code
    }

    /// One association call: on success the server records the flag verbatim.
    pub fn native_associate_mouse(&mut self, connected: boolean_t) -> (code: CGError)
        requires
            old(self).wf(),
        ensures
            final(self).wf(),
            code == old(self).cursor_code,
            code == 0 ==> *final(self) == old(self).with_mouse_associated(connected),
            code != 0 ==> *final(self) == *old(self),
    {
        if self.cursor_code == 0 {
            self.mouse_associated = connected;
        }
        self.cursor_code
    }

    /// The size probe of the enumeration protocol: asked with a null buffer,
    /// the server reports how many displays are active.
    pub fn native_active_display_count(&self) -> (r: (CGError, u32))
        requires
            self.wf(),
        ensures
            r.0 == self.list_code,
            r.0 == 0 ==> r.1 == self.active_list@.len(),
    {
        if self.list_code == 0 {
            (0, self.active_list.len() as u32)
        } else {
            (self.list_code, 0)
        }
    }

    /// The fill phase of the enumeration protocol: the server hands out the
    /// first `max_displays` active identifiers, in order.
    pub fn native_active_display_fill(&self, max_displays: u32) -> (r: (CGError, Vec<u32>))
        requires
            self.wf(),
        ensures
            r.0 == self.list_code,
            r.0 == 0 ==> r.1@ == self.active_list@.subrange(
                0,
                if max_displays <= self.active_list@.len() {
                    max_displays as int
                } else {
                    self.active_list@.len() as int
                },
            ),
    {
        if self.list_code != 0 {
            return (self.list_code, Vec::new());
        }
        let n: usize = if (max_displays as usize) <= self.active_list.len() {
            max_displays as usize
        } else {
            self.active_list.len()
        };
        let mut buf: Vec<u32> = Vec::new();
        let mut i: usize = 0;
        while i < n
            invariant
                i <= n,
                n <= self.active_list@.len(),
                buf@ == self.active_list@.subrange(0, i as int),
            decreases n - i,
        {
            buf.push(self.active_list[i]);
            proof {
                assert(buf@ =~= self.active_list@.subrange(0, i + 1));
            }
            i = i + 1;
        }
        (0, buf)
    }

    /// What the size probe reports of this state.
    pub open spec fn spec_active_display_count(self) -> Result<u32, CGError> {
        if self.list_code == 0 {
            Ok(self.active_list@.len() as u32)
        } else {
            Err(self.list_code)
        }
    }

    /// What the two-phase enumeration reports of this state.
    pub open spec fn spec_active_displays(self) -> Result<Seq<u32>, CGError> {
        if self.list_code == 0 {
            Ok(self.active_list@)
        } else {
            Err(self.list_code)
        }
    }
}

/// The configuration of display `display_id` in `server`, if the display is
/// known and has one.
pub open spec fn spec_current_mode(server: WindowServer, display_id: u32) -> Option<ModeInfo> {
    match server.spec_display(display_id) {
        Some(d) => d.mode,
        None => None,
    }
}

/// Whether display `display_id` is known to `server` and capturable.
pub open spec fn spec_display_capturable(server: WindowServer, display_id: u32) -> bool {
    match server.spec_display(display_id) {
        Some(d) => d.capturable != 0,
        None => false,
    }
}

/// A record after one release: the count drops by one, and the free happens
/// exactly when the count reaches zero.
pub open spec fn spec_released(r: Record) -> Record {
    if r.ref_count == 1 {
        Record { ref_count: 0, frees: (r.frees + 1) as u64, ..r }
    } else {
        Record { ref_count: (r.ref_count - 1) as u64, ..r }
    }
}

} // verus!
