//! The capture flows: what a backend is asked to do, in which order, and what is made of
//! its answers.

use vstd::prelude::*;

use super::hyprland::{
    format_window_selection_regions, select_focused_monitor, selectable_windows, spec_candidates,
    spec_first_focused, spec_focused_monitor_from,
    spec_has_focused_monitor, spec_region_line, FocusedMonitor,
    MonitorStatus, WindowClientStatus,
};
use super::selection::{parse_region_selection, spec_region_selection, CaptureSelection};
use super::CaptureError;
use crate::chars::{append_chars, chars_of, string_from_chars};
use crate::numbers::{decimal_chars, spec_decimal};
use crate::text::{spec_join_lines, spec_trim, trimmed_chars};

verus! {

#[verifier::external_type_specification]
#[verifier::external_body]
pub struct ExSystemTime(std::time::SystemTime);

/// A finished capture: its id, the file it was written to, the image size, where on screen
/// it was taken, and when (milliseconds since the Unix epoch).
#[derive(Debug, Clone)]
pub struct CaptureArtifact {
    pub capture_id: String,
    pub temp_path: String,
    pub width: u32,
    pub height: u32,
    pub screen_x: i32,
    pub screen_y: i32,
    pub screen_width: u32,
    pub screen_height: u32,
    pub created_at: u64,
}

/// Why removing a temporary capture file failed.
#[derive(Debug, Clone)]
pub enum RemoveFileError {
    NotFound,
    Failed { message: String },
}

/// What cleaning up a temporary capture file came to.
#[derive(Debug, Clone, Copy, PartialEq, Eq, Structural)]
pub enum TempCaptureCleanupOutcome {
    Removed,
    NotFound,
    Failed,
}

/// The outside work of a capture: querying the compositor, running the region picker and
/// the screenshot tool, reading the image size, and managing the temporary file. None of it
/// promises a result. Each method is described by a relation between the backend before the
/// call, what the call was handed, what it answered, and the backend after the call; an
/// implementation may define these relations (left undefined, they hold of everything). The
/// backend before and after each call are the links of a chain, so a flow can state the
/// exact sequence of calls it makes, with their arguments, from the backend it was handed to
/// the backend it leaves, and what it makes of each answer.
pub trait CaptureBackend: Sized {
    /// Reading the compositor's monitors, from `self`, answered `r` and left `next`.
    closed spec fn spec_monitors_read(&self, r: Result<Vec<MonitorStatus>, CaptureError>, next: Self) -> bool {
        true
    }

    /// Reading the compositor's client windows, from `self`, answered `r` and left `next`.
    closed spec fn spec_clients_read(&self, r: Result<Vec<WindowClientStatus>, CaptureError>, next: Self) -> bool {
        true
    }

    /// Asking for a temporary file for the capture `capture_id`, from `self`, gave `path`
    /// and left `next`.
    closed spec fn spec_temp_path_for(&self, capture_id: Seq<char>, path: Seq<char>, next: Self) -> bool {
        true
    }

    /// Capturing the monitor `monitor` into `output`, from `self`, answered `r` and left
    /// `next`.
    closed spec fn spec_full_captured(
        &self,
        monitor: Seq<char>,
        output: Seq<char>,
        r: Result<(), CaptureError>,
        next: Self,
    ) -> bool {
        true
    }

    /// Running the region picker, from `self`, answered `r` and left `next`.
    closed spec fn spec_region_picked(&self, r: Result<String, CaptureError>, next: Self) -> bool {
        true
    }

    /// Running the window picker on `regions`, from `self`, answered `r` and left `next`.
    closed spec fn spec_window_picked(&self, regions: Seq<char>, r: Result<String, CaptureError>, next: Self) -> bool {
        true
    }

    /// Capturing the region `geometry` into `output`, from `self`, answered `r` and left
    /// `next`.
    closed spec fn spec_region_captured(
        &self,
        geometry: Seq<char>,
        output: Seq<char>,
        r: Result<(), CaptureError>,
        next: Self,
    ) -> bool {
        true
    }

    /// Reading the size of the image in `output`, from `self`, answered `r` and left `next`.
    closed spec fn spec_measured(&self, output: Seq<char>, r: Result<(u32, u32), CaptureError>, next: Self) -> bool {
        true
    }

    /// Removing the file at `path`, from `self`, answered `r` and left `next`.
    closed spec fn spec_removed(&self, path: Seq<char>, r: Result<(), RemoveFileError>, next: Self) -> bool {
        true
    }

    /// The compositor's monitors.
    fn focused_monitors(&mut self) -> (r: Result<Vec<MonitorStatus>, CaptureError>)
        ensures
            old(self).spec_monitors_read(r, *final(self)),
    ;

    /// The compositor's client windows.
    fn clients(&mut self) -> (r: Result<Vec<WindowClientStatus>, CaptureError>)
        ensures
            old(self).spec_clients_read(r, *final(self)),
    ;

    /// A fresh temporary file path for the capture with this id.
    fn temp_capture_path(&mut self, capture_id: &str) -> (path: String)
        ensures
            old(self).spec_temp_path_for(capture_id@, path@, *final(self)),
    ;

    /// Captures the whole of the named monitor into `output`.
    fn run_full_capture(&mut self, monitor: &str, output: &str) -> (r: Result<(), CaptureError>)
        ensures
            old(self).spec_full_captured(monitor@, output@, r, *final(self)),
    ;

    /// Lets the user drag a region; its geometry as the picker prints it.
    fn run_region_selection(&mut self) -> (r: Result<String, CaptureError>)
        ensures
            old(self).spec_region_picked(r, *final(self)),
    ;

    /// Lets the user pick one of the given regions; its geometry as the picker prints it.
    fn run_window_selection(&mut self, window_regions: &str) -> (r: Result<String, CaptureError>)
        ensures
            old(self).spec_window_picked(window_regions@, r, *final(self)),
    ;

    /// Captures the region `geometry` into `output`.
    fn run_region_capture(&mut self, geometry: &str, output: &str) -> (r: Result<(), CaptureError>)
        ensures
            old(self).spec_region_captured(geometry@, output@, r, *final(self)),
    ;

    /// Width and height of the image in `output`.
    fn image_dimensions(&mut self, output: &str) -> (r: Result<(u32, u32), CaptureError>)
        ensures
            old(self).spec_measured(output@, r, *final(self)),
    ;

    /// Removes the file at `path`.
    fn remove_temp_file(&mut self, path: &str) -> (r: Result<(), RemoveFileError>)
        ensures
            old(self).spec_removed(path@, r, *final(self)),
    ;
}

pub open spec fn spec_cleanup_outcome(r: Result<(), RemoveFileError>) -> TempCaptureCleanupOutcome {
    match r {
        Ok(_) => TempCaptureCleanupOutcome::Removed,
        Err(RemoveFileError::NotFound) => TempCaptureCleanupOutcome::NotFound,
        Err(RemoveFileError::Failed { .. }) => TempCaptureCleanupOutcome::Failed,
    }
}

/// What a removal result comes to: removed, already missing, or failed.
pub fn cleanup_outcome(r: &Result<(), RemoveFileError>) -> (o: TempCaptureCleanupOutcome)
    ensures
        o == spec_cleanup_outcome(*r),
{
    match r {
        Ok(_) => TempCaptureCleanupOutcome::Removed,
        Err(RemoveFileError::NotFound) => TempCaptureCleanupOutcome::NotFound,
        Err(RemoveFileError::Failed { .. }) => TempCaptureCleanupOutcome::Failed,
    }
}

/// Removes a temporary capture file with `remove_file` and reports the outcome.
pub fn cleanup_temp_capture_file_with<F: FnOnce(&str) -> Result<(), RemoveFileError>>(
    temp_path: &str,
    remove_file: F,
) -> (o: TempCaptureCleanupOutcome)
    requires
        remove_file.requires((temp_path,)),
    ensures
        exists|r: Result<(), RemoveFileError>|
            remove_file.ensures((temp_path,), r) && o == #[trigger] spec_cleanup_outcome(r),
{
    let r = remove_file(temp_path);
    cleanup_outcome(&r)
}

/// Removes a temporary capture file through the backend and reports the outcome.
fn cleanup_temp_capture_file<B: CaptureBackend>(backend: &mut B, temp_path: &str) -> (o: TempCaptureCleanupOutcome)
    ensures
        exists|r: Result<(), RemoveFileError>| #[trigger] old(backend).spec_removed(temp_path@, r, *final(backend))
            && o == spec_cleanup_outcome(r),
{
    let r = backend.remove_temp_file(temp_path);
    cleanup_outcome(&r)
}

/// `SystemTime::now`: the current time of the system clock. Nothing is claimed of it.
#[verifier::external_body]
fn system_time_now() -> std::time::SystemTime {
    std::time::SystemTime::now()
}

/// `SystemTime::duration_since(UNIX_EPOCH)`: the time elapsed since the Unix epoch, or the
/// error's text where the time lies before it. Nothing is claimed of either.
#[verifier::external_body]
fn duration_since_unix_epoch(t: &std::time::SystemTime) -> Result<core::time::Duration, String> {
    match t.duration_since(std::time::UNIX_EPOCH) {
        Ok(d) => Ok(d),
        Err(err) => Err(format!("{err}")),
    }
}

/// `Duration::as_nanos`: the whole nanoseconds of a duration. Nothing is claimed of it.
#[verifier::external_body]
fn duration_as_nanos(d: &core::time::Duration) -> u128 {
    d.as_nanos()
}

/// Nanoseconds since the Unix epoch, or `InvalidCaptureArtifact` where the clock is before it.
pub fn capture_clock() -> (r: Result<u128, CaptureError>)
    ensures
        r matches Err(e) ==> (e matches CaptureError::InvalidCaptureArtifact { message }
            && message@.take(31) == "system time before unix epoch: "@),
{
    let now = system_time_now();
    match duration_since_unix_epoch(&now) {
        Ok(d) => Ok(duration_as_nanos(&d)),
        Err(text) => {
            let mut m = chars_of("system time before unix epoch: ");
            let ghost prefix = m@;
            append_chars(&mut m, &chars_of(text.as_str()));
            proof {
                reveal_strlit("system time before unix epoch: ");
                assert(prefix.len() == 31);
                assert(m@.take(31) =~= prefix);
            }
            Err(CaptureError::InvalidCaptureArtifact { message: string_from_chars(&m) })
        },
    }
}

/// The id of a capture taken `nanos` nanoseconds after the Unix epoch.
pub open spec fn spec_capture_id(nanos: u128) -> Seq<char> {
    "capture-"@ + spec_decimal(nanos as nat)
}

/// The creation time, in milliseconds, of a capture taken at `nanos`.
pub open spec fn spec_created_at(nanos: u128) -> u64 {
    (nanos / 1_000_000) as u64
}

pub fn capture_id_for(nanos: u128) -> (s: String)
    ensures
        s@ == spec_capture_id(nanos),
{
    let mut v = chars_of("capture-");
    append_chars(&mut v, &decimal_chars(nanos));
    string_from_chars(&v)
}

/// Whether `a` carries the id and creation time of a capture taken at `nanos`, and the other
/// values given.
pub open spec fn spec_artifact(
    a: CaptureArtifact,
    nanos: u128,
    temp_path: Seq<char>,
    dimensions: (u32, u32),
    screen: (i32, i32, u32, u32),
) -> bool {
    &&& a.capture_id@ == spec_capture_id(nanos)
    &&& a.temp_path@ == temp_path
    &&& a.width == dimensions.0
    &&& a.height == dimensions.1
    &&& a.screen_x == screen.0
    &&& a.screen_y == screen.1
    &&& a.screen_width == screen.2
    &&& a.screen_height == screen.3
    &&& a.created_at == spec_created_at(nanos)
}

/// The artifact of a capture taken at `nanos` into `temp_path`.
pub fn capture_artifact(
    nanos: u128,
    temp_path: String,
    dimensions: (u32, u32),
    screen: (i32, i32, u32, u32),
) -> (a: CaptureArtifact)
    ensures
        spec_artifact(a, nanos, temp_path@, dimensions, screen),
{
    let millis: u128 = nanos / 1_000_000;
    CaptureArtifact {
        capture_id: capture_id_for(nanos),
        temp_path,
        width: dimensions.0,
        height: dimensions.1,
        screen_x: screen.0,
        screen_y: screen.1,
        screen_width: screen.2,
        screen_height: screen.3,
        created_at: #[verifier::truncate] (millis as u64),
    }
}

/// The screen area of a full-monitor capture: the monitor's position, and its size where
/// known, else the image's.
pub open spec fn spec_full_capture_screen(m: FocusedMonitor, dimensions: (u32, u32)) -> (
    i32,
    i32,
    u32,
    u32,
) {
    (
        m.x,
        m.y,
        match m.width {
            Some(w) => w,
            None => dimensions.0,
        },
        match m.height {
            Some(h) => h,
            None => dimensions.1,
        },
    )
}

pub fn full_capture_screen(monitor: &FocusedMonitor, dimensions: (u32, u32)) -> (s: (
    i32,
    i32,
    u32,
    u32,
))
    ensures
        s == spec_full_capture_screen(*monitor, dimensions),
{
    (
        monitor.x,
        monitor.y,
        match monitor.width {
            Some(w) => w,
            None => dimensions.0,
        },
        match monitor.height {
            Some(h) => h,
            None => dimensions.1,
        },
    )
}

/// What a picker's output selects: the trimmed geometry and the region it reads as. Empty
/// output gives `InvalidSelection` with `empty_message`.
pub fn selected_geometry(raw: &str, empty_message: &str) -> (r: Result<
    (String, CaptureSelection),
    CaptureError,
>)
    ensures
        spec_trim(raw@).len() == 0 ==> (r matches Err(CaptureError::InvalidSelection { message })
            && message@ == empty_message@),
        r matches Ok(p) ==> p.1.width > 0 && p.1.height > 0,
        spec_trim(raw@).len() > 0 ==> (match spec_region_selection(spec_trim(raw@)) {
            Ok(sel) => r matches Ok(p) && p.0@ == spec_trim(raw@) && p.1 == sel,
            Err(m) => r matches Err(CaptureError::InvalidSelection { message }) && message@ == m,
        }),
{
    let trimmed = trimmed_chars(raw);
    if trimmed.len() == 0 {
        return Err(
            CaptureError::InvalidSelection {
                message: string_from_chars(&chars_of(empty_message)),
            },
        );
    }
    let geometry = string_from_chars(&trimmed);
    match parse_region_selection(geometry.as_str()) {
        Ok(sel) => Ok((geometry, sel)),
        Err(e) => Err(e),
    }
}

/// The workspace whose windows a window capture offers: the focused monitor's active one.
pub fn focused_workspace_id(monitor: &FocusedMonitor) -> (r: Result<i32, CaptureError>)
    ensures
        match monitor.active_workspace_id {
            Some(id) => r == Ok::<i32, CaptureError>(id),
            None => r matches Err(CaptureError::InvalidMonitorMetadata { message })
                && message@ == "focused monitor missing active workspace id"@,
        },
{
    match monitor.active_workspace_id {
        Some(id) => Ok(id),
        None => Err(
            CaptureError::InvalidMonitorMetadata {
                message: string_from_chars(&chars_of("focused monitor missing active workspace id")),
            },
        ),
    }
}

/// Whether `a` is the artifact of some capture: its id and creation time agree with one
/// clock reading.
pub open spec fn spec_stamped(a: CaptureArtifact) -> bool {
    exists|n: u128| a.capture_id@ == #[trigger] spec_capture_id(n) && a.created_at == spec_created_at(n)
}


/// What reading the image size after a capture into `path` comes to, from backend `b` to
/// backend `bf`: after a failed capture the file is removed (the only call) and the capture's
/// error returned; otherwise the size is read and returned, and where that failed the file
/// is removed too (the next and last call); after a size read no other call is made.
pub open spec fn spec_measure_outcome<B: CaptureBackend>(
    b: B,
    path: Seq<char>,
    written: Result<(), CaptureError>,
    r: Result<(u32, u32), CaptureError>,
    bf: B,
) -> bool {
    match written {
        Err(e) => r == Err::<(u32, u32), CaptureError>(e) && exists|c: Result<(), RemoveFileError>| #[trigger]
            b.spec_removed(path, c, bf),
        Ok(_) => exists|m: Result<(u32, u32), CaptureError>, b2: B| #[trigger]
            b.spec_measured(path, m, b2) && r == m && match m {
                Ok(_) => bf == b2,
                Err(_) => exists|c: Result<(), RemoveFileError>| #[trigger] b2.spec_removed(path, c, bf),
            },
    }
}

/// After the capture command ran (`written`), reads the captured image's size; on a failure
/// of either step the temporary file is removed and the error returned.
fn write_and_measure<B: CaptureBackend>(
    backend: &mut B,
    temp_path: &str,
    written: Result<(), CaptureError>,
) -> (r: Result<(u32, u32), CaptureError>)
    ensures
        spec_measure_outcome(*old(backend), temp_path@, written, r, *final(backend)),
{
    let ghost b0 = *backend;
    if let Err(err) = written {
        cleanup_temp_capture_file(backend, temp_path);
        return Err(err);
    }
    let measured = backend.image_dimensions(temp_path);
    let ghost b2 = *backend;
    match measured {
        Ok(size) => {
            assert(b0.spec_measured(temp_path@, measured, b2));
            Ok(size)
        },
        Err(err) => {
            cleanup_temp_capture_file(backend, temp_path);
            assert(b0.spec_measured(temp_path@, measured, b2));
            Err(err)
        },
    }
}

/// What `capture_clock` can come to: a time, or the error for a clock before the epoch.
pub open spec fn spec_clock_reading(clock: Result<u128, CaptureError>) -> bool {
    clock matches Err(e) ==> (e matches CaptureError::InvalidCaptureArtifact { message }
        && message@.take(31) == "system time before unix epoch: "@)
}

/// The calls of a capture after the clock read `nanos`, from backend `b` to backend `bf`:
/// a temporary file `path` is asked for under the id of that time (to `b2`), the capture
/// runs into it (`run`, to `b3`), the size is read as `spec_measure_outcome` says, and the
/// artifact of that time, file, size and screen area (`screen` of the size) is returned.
pub open spec fn spec_tail_after_clock<B: CaptureBackend>(
    b: B,
    run: spec_fn(B, Seq<char>, Result<(), CaptureError>, B) -> bool,
    screen: spec_fn((u32, u32)) -> (i32, i32, u32, u32),
    r: Result<CaptureArtifact, CaptureError>,
    bf: B,
    nanos: u128,
    path: Seq<char>,
    b2: B,
    written: Result<(), CaptureError>,
    b3: B,
    sized: Result<(u32, u32), CaptureError>,
) -> bool {
    &&& b.spec_temp_path_for(spec_capture_id(nanos), path, b2)
    &&& run(b2, path, written, b3)
    &&& spec_measure_outcome(b3, path, written, sized, bf)
    &&& match sized {
        Err(e) => r == Err::<CaptureArtifact, CaptureError>(e),
        Ok(d) => r matches Ok(a) && spec_artifact(a, nanos, path, d, screen(d)),
    }
}

/// What the end of a capture comes to once its target is chosen, from backend `b` to
/// backend `bf`: the clock is read (its error is returned, with no backend call), then the
/// calls of `spec_tail_after_clock` are made.
pub open spec fn spec_capture_tail<B: CaptureBackend>(
    b: B,
    run: spec_fn(B, Seq<char>, Result<(), CaptureError>, B) -> bool,
    screen: spec_fn((u32, u32)) -> (i32, i32, u32, u32),
    r: Result<CaptureArtifact, CaptureError>,
    bf: B,
) -> bool {
    exists|clock: Result<u128, CaptureError>| #[trigger] spec_clock_reading(clock) && match clock {
        Err(e) => r == Err::<CaptureArtifact, CaptureError>(e) && bf == b,
        Ok(nanos) => exists|
            path: Seq<char>,
            b2: B,
            written: Result<(), CaptureError>,
            b3: B,
            sized: Result<(u32, u32), CaptureError>,
        | #[trigger] spec_tail_after_clock(b, run, screen, r, bf, nanos, path, b2, written, b3, sized),
    }
}

/// What a full capture comes to, from backend `b` to backend `bf`: the monitors are read
/// (their error is returned, and no other call made); without a focused monitor the answer
/// is `NoFocusedMonitor` (no other call); otherwise that monitor is captured whole as
/// `spec_capture_tail` says, and its screen area is the monitor's.
pub open spec fn spec_full_capture<B: CaptureBackend>(b: B, r: Result<CaptureArtifact, CaptureError>, bf: B) -> bool {
    exists|mons: Result<Vec<MonitorStatus>, CaptureError>, b1: B| #[trigger] b.spec_monitors_read(mons, b1) && match mons {
        Err(e) => r == Err::<CaptureArtifact, CaptureError>(e) && bf == b1,
        Ok(ms) => if !spec_has_focused_monitor(ms@) {
            r == Err::<CaptureArtifact, CaptureError>(CaptureError::NoFocusedMonitor) && bf == b1
        } else {
            exists|m: FocusedMonitor| #[trigger] spec_focused_monitor_from(m, ms@[spec_first_focused(ms@, 0)->0]) && spec_capture_tail(
                b1,
                |x: B, out: Seq<char>, w: Result<(), CaptureError>, y: B| x.spec_full_captured(m.name@, out, w, y),
                |d: (u32, u32)| spec_full_capture_screen(m, d),
                r,
                bf,
            )
        },
    }
}

/// Captures the focused monitor whole.
pub fn capture_full_with<B: CaptureBackend>(backend: &mut B) -> (r: Result<CaptureArtifact, CaptureError>)
    ensures
        spec_full_capture(*old(backend), r, *final(backend)),
        r matches Ok(a) ==> spec_stamped(a),
{
    let ghost b0 = *backend;
    let monitors = backend.focused_monitors();
    let ghost mons = monitors;
    let ghost b1 = *backend;
    assert(b0.spec_monitors_read(mons, b1));
    let monitors = match monitors {
        Ok(ms) => ms,
        Err(e) => return Err(e),
    };
    let monitor = match select_focused_monitor(&monitors) {
        Ok(m) => m,
        Err(e) => return Err(e),
    };
    let ghost m = monitor;
    assert(spec_focused_monitor_from(m, monitors@[spec_first_focused(monitors@, 0)->0]));
    let ghost run = |x: B, out: Seq<char>, w: Result<(), CaptureError>, y: B| x.spec_full_captured(m.name@, out, w, y);
    let ghost screen = |d: (u32, u32)| spec_full_capture_screen(m, d);
    let clock = capture_clock();
    let ghost clock_g = clock;
    assert(spec_clock_reading(clock_g));
    let nanos = match clock {
        Ok(n) => n,
        Err(e) => return Err(e),
    };
    let temp_path = backend.temp_capture_path(capture_id_for(nanos).as_str());
    let ghost b2 = *backend;
    let written = backend.run_full_capture(monitor.name.as_str(), temp_path.as_str());
    let ghost written_g = written;
    let ghost b3 = *backend;
    assert(run(b2, temp_path@, written_g, b3));
    let measured = write_and_measure(backend, temp_path.as_str(), written);
    let ghost sized = measured;
    let dimensions = match measured {
        Ok(d) => d,
        Err(e) => {
            assert(spec_tail_after_clock(b1, run, screen, Err(e), *backend, nanos, temp_path@, b2, written_g, b3, sized));
            return Err(e);
        },
    };
    let screen_area = full_capture_screen(&monitor, dimensions);
    let ghost path_g = temp_path@;
    let a = capture_artifact(nanos, temp_path, dimensions, screen_area);
    assert(spec_tail_after_clock(b1, run, screen, Ok(a), *backend, nanos, path_g, b2, written_g, b3, sized));
    assert(spec_stamped(a));
    Ok(a)
}

/// What a capture of a picked region comes to, from what the picker printed, from backend
/// `b` to backend `bf`: empty output is `InvalidSelection` with `empty_message`, and output
/// that does not read as a region is `InvalidSelection` with the reading's message (in both
/// cases no call is made); a region is captured as `spec_capture_tail` says, with the picked
/// region as its screen area.
pub open spec fn spec_picked_region_capture<B: CaptureBackend>(
    b: B,
    raw: Seq<char>,
    empty_message: Seq<char>,
    r: Result<CaptureArtifact, CaptureError>,
    bf: B,
) -> bool {
    if spec_trim(raw).len() == 0 {
        r matches Err(CaptureError::InvalidSelection { message }) && message@ == empty_message && bf == b
    } else {
        match spec_region_selection(spec_trim(raw)) {
            Ok(sel) => spec_capture_tail(
                b,
                |x: B, out: Seq<char>, w: Result<(), CaptureError>, y: B| x.spec_region_captured(spec_trim(raw), out, w, y),
                |d: (u32, u32)| (sel.x, sel.y, sel.width, sel.height),
                r,
                bf,
            ),
            Err(m) => r matches Err(CaptureError::InvalidSelection { message }) && message@ == m && bf == b,
        }
    }
}

fn capture_picked_region<B: CaptureBackend>(backend: &mut B, raw: &str, empty_message: &str) -> (r: Result<
    CaptureArtifact,
    CaptureError,
>)
    ensures
        spec_picked_region_capture(*old(backend), raw@, empty_message@, r, *final(backend)),
        r matches Ok(a) ==> spec_stamped(a) && a.screen_width > 0 && a.screen_height > 0,
{
    let ghost b1 = *backend;
    let (geometry, selection) = match selected_geometry(raw, empty_message) {
        Ok(p) => p,
        Err(e) => return Err(e),
    };
    let ghost run = |x: B, out: Seq<char>, w: Result<(), CaptureError>, y: B| x.spec_region_captured(spec_trim(raw@), out, w, y);
    let ghost screen = |d: (u32, u32)| (selection.x, selection.y, selection.width, selection.height);
    let clock = capture_clock();
    let ghost clock_g = clock;
    assert(spec_clock_reading(clock_g));
    let nanos = match clock {
        Ok(n) => n,
        Err(e) => return Err(e),
    };
    let temp_path = backend.temp_capture_path(capture_id_for(nanos).as_str());
    let ghost b2 = *backend;
    let written = backend.run_region_capture(geometry.as_str(), temp_path.as_str());
    let ghost written_g = written;
    let ghost b3 = *backend;
    assert(run(b2, temp_path@, written_g, b3));
    let measured = write_and_measure(backend, temp_path.as_str(), written);
    let ghost sized = measured;
    let dimensions = match measured {
        Ok(d) => d,
        Err(e) => {
            assert(spec_tail_after_clock(b1, run, screen, Err(e), *backend, nanos, temp_path@, b2, written_g, b3, sized));
            return Err(e);
        },
    };
    let ghost path_g = temp_path@;
    let a = capture_artifact(
        nanos,
        temp_path,
        dimensions,
        (selection.x, selection.y, selection.width, selection.height),
    );
    assert(spec_tail_after_clock(b1, run, screen, Ok(a), *backend, nanos, path_g, b2, written_g, b3, sized));
    assert(spec_stamped(a));
    Ok(a)
}

/// What a region capture comes to, from backend `b` to backend `bf`: the monitors are read
/// (their error is returned, no other call made); without a focused monitor the answer is
/// `NoFocusedMonitor` (no other call); otherwise the region picker runs (its error is
/// returned, no other call) and what it printed is captured as
/// `spec_picked_region_capture` says.
pub open spec fn spec_region_capture<B: CaptureBackend>(b: B, r: Result<CaptureArtifact, CaptureError>, bf: B) -> bool {
    exists|mons: Result<Vec<MonitorStatus>, CaptureError>, b1: B| #[trigger] b.spec_monitors_read(mons, b1) && match mons {
        Err(e) => r == Err::<CaptureArtifact, CaptureError>(e) && bf == b1,
        Ok(ms) => if !spec_has_focused_monitor(ms@) {
            r == Err::<CaptureArtifact, CaptureError>(CaptureError::NoFocusedMonitor) && bf == b1
        } else {
            exists|picked: Result<String, CaptureError>, b2: B| #[trigger] b1.spec_region_picked(picked, b2) && match picked {
                Err(e) => r == Err::<CaptureArtifact, CaptureError>(e) && bf == b2,
                Ok(raw) => spec_picked_region_capture(b2, raw@, "region selection returned no geometry"@, r, bf),
            }
        },
    }
}

/// Captures a region the user drags on the focused monitor.
pub fn capture_region_with<B: CaptureBackend>(backend: &mut B) -> (r: Result<CaptureArtifact, CaptureError>)
    ensures
        spec_region_capture(*old(backend), r, *final(backend)),
        r matches Ok(a) ==> spec_stamped(a) && a.screen_width > 0 && a.screen_height > 0,
{
    let ghost b0 = *backend;
    let monitors = backend.focused_monitors();
    let ghost mons = monitors;
    let ghost b1 = *backend;
    assert(b0.spec_monitors_read(mons, b1));
    let monitors = match monitors {
        Ok(ms) => ms,
        Err(e) => return Err(e),
    };
    match select_focused_monitor(&monitors) {
        Ok(_) => {},
        Err(e) => return Err(e),
    }
    let picked = backend.run_region_selection();
    let ghost picked_g = picked;
    let ghost b2 = *backend;
    assert(b1.spec_region_picked(picked_g, b2));
    let raw = match picked {
        Ok(raw) => raw,
        Err(e) => return Err(e),
    };
    capture_picked_region(backend, raw.as_str(), "region selection returned no geometry")
}

/// The lines the window picker is offered: one per selectable window of workspace `ws`.
pub open spec fn spec_window_regions(clients: Seq<WindowClientStatus>, ws: i32) -> Seq<char> {
    spec_join_lines(spec_candidates(clients, ws).map_values(|c: (i32, i32, u32, u32, Seq<char>)| spec_region_line(c)))
}

/// What a window capture comes to, from backend `b` to backend `bf`: the monitors are read
/// (their error is returned, no other call made); without a focused monitor the answer is
/// `NoFocusedMonitor` (no other call); a focused monitor without an active workspace is
/// `InvalidMonitorMetadata` (no other call); otherwise the client windows are read (their
/// error is returned, no other call), and with no selectable window on that workspace the
/// answer is `InvalidSelection` (no other call); otherwise the window picker is offered one
/// line per window (its error is returned, no other call) and what it printed is captured as
/// `spec_picked_region_capture` says.
pub open spec fn spec_window_capture<B: CaptureBackend>(b: B, r: Result<CaptureArtifact, CaptureError>, bf: B) -> bool {
    exists|mons: Result<Vec<MonitorStatus>, CaptureError>, b1: B| #[trigger] b.spec_monitors_read(mons, b1) && match mons {
        Err(e) => r == Err::<CaptureArtifact, CaptureError>(e) && bf == b1,
        Ok(ms) => if !spec_has_focused_monitor(ms@) {
            r == Err::<CaptureArtifact, CaptureError>(CaptureError::NoFocusedMonitor) && bf == b1
        } else {
            exists|m: FocusedMonitor| #[trigger] spec_focused_monitor_from(m, ms@[spec_first_focused(ms@, 0)->0]) && match m.active_workspace_id {
                None => r matches Err(CaptureError::InvalidMonitorMetadata { message })
                    && message@ == "focused monitor missing active workspace id"@ && bf == b1,
                Some(ws) => exists|cl: Result<Vec<WindowClientStatus>, CaptureError>, b2: B| #[trigger] b1.spec_clients_read(cl, b2) && match cl {
                    Err(e) => r == Err::<CaptureArtifact, CaptureError>(e) && bf == b2,
                    Ok(clients) => if spec_candidates(clients@, ws).len() == 0 {
                        r matches Err(CaptureError::InvalidSelection { message })
                            && message@ == "window selection has no selectable windows"@ && bf == b2
                    } else {
                        exists|picked: Result<String, CaptureError>, b3: B| #[trigger] b2.spec_window_picked(
                            spec_window_regions(clients@, ws),
                            picked,
                            b3,
                        ) && match picked {
                            Err(e) => r == Err::<CaptureArtifact, CaptureError>(e) && bf == b3,
                            Ok(raw) => spec_picked_region_capture(b3, raw@, "window selection returned no geometry"@, r, bf),
                        }
                    },
                },
            }
        },
    }
}

/// Captures a window of the focused workspace that the user picks.
pub fn capture_window_with<B: CaptureBackend>(backend: &mut B) -> (r: Result<CaptureArtifact, CaptureError>)
    ensures
        spec_window_capture(*old(backend), r, *final(backend)),
        r matches Ok(a) ==> spec_stamped(a) && a.screen_width > 0 && a.screen_height > 0,
{
    let ghost b0 = *backend;
    let monitors = backend.focused_monitors();
    let ghost mons = monitors;
    let ghost b1 = *backend;
    assert(b0.spec_monitors_read(mons, b1));
    let monitors = match monitors {
        Ok(ms) => ms,
        Err(e) => return Err(e),
    };
    let monitor = match select_focused_monitor(&monitors) {
        Ok(m) => m,
        Err(e) => return Err(e),
    };
    let ghost m = monitor;
    assert(spec_focused_monitor_from(m, monitors@[spec_first_focused(monitors@, 0)->0]));
    let workspace_id = match focused_workspace_id(&monitor) {
        Ok(id) => id,
        Err(e) => return Err(e),
    };
    let listed = backend.clients();
    let ghost listed_g = listed;
    let ghost b2 = *backend;
    assert(b1.spec_clients_read(listed_g, b2));
    let clients = match listed {
        Ok(c) => c,
        Err(e) => return Err(e),
    };
    let candidates = selectable_windows(&clients, workspace_id);
    assert(candidates@.len() == spec_candidates(clients@, workspace_id).len());
    if candidates.len() == 0 {
        return Err(
            CaptureError::InvalidSelection {
                message: string_from_chars(&chars_of("window selection has no selectable windows")),
            },
        );
    }
    let regions = format_window_selection_regions(&candidates);
    assert(regions@ == spec_window_regions(clients@, workspace_id));
    let picked = backend.run_window_selection(regions.as_str());
    let ghost picked_g = picked;
    let ghost b3 = *backend;
    assert(b2.spec_window_picked(regions@, picked_g, b3));
    let raw = match picked {
        Ok(raw) => raw,
        Err(e) => return Err(e),
    };
    capture_picked_region(backend, raw.as_str(), "window selection returned no geometry")
}

} // verus!
