//! The viewer's session: which source is selected, what is being captured or
//! recorded, and what each user action or outside event does to that.
//!
//! Nothing here opens a device or a file. A transition changes the state and
//! returns what the application has to do about it.

use crate::layout::BottomTab;
use crate::logbook::LogLevel;
use crate::playback;
use crate::playback::{Background, BackgroundStep};
use crate::sources;
use crate::sources::{Backend, CameraSource, DiscoveredId, DiscoveredSource, SourceId, SourceInfo};
use crate::text;
use vstd::prelude::*;
use vstd::string::*;

verus! {

/// What is being captured.
#[derive(Clone, Copy, PartialEq, Eq, Structural, Debug)]
pub enum CaptureKind {
    Stopped,
    Fits,
    SVBony,
    Gev,
    Toupcam,
    Indi,
}

/// A recording in progress.
#[derive(PartialEq, Eq, Debug)]
pub struct Recording {
    pub filename: String,
    /// Frames handed to the writer.
    pub frames: u32,
}

/// The session.
#[derive(PartialEq, Eq, Debug)]
pub struct Session {
    pub source: CameraSource,
    pub capture: CaptureKind,
    pub running: bool,
    pub recording: Option<Recording>,
    /// Whether the Connect window is showing.
    pub connect_open: bool,
    /// Error from the last connect attempt.
    pub camera_error: Option<String>,
    /// Frames discarded because a newer one superseded them.
    pub drain_drops: u64,
    /// A FITS file is being loaded.
    pub fits_pending: bool,
    /// A file dialog is open.
    pub dialog_pending: bool,
    /// Every discovered device across all backends, in registry order.
    pub discovered: Vec<DiscoveredSource>,
    pub tab: BottomTab,
    pub bottom_open: bool,
    pub side_open: bool,
    pub background: Background,
}

/// The content of a [`Session`].
#[verifier::ext_equal]
pub struct SessionState {
    pub source: SourceId,
    pub capture: CaptureKind,
    pub running: bool,
    pub recording: Option<(Seq<char>, int)>,
    pub connect_open: bool,
    pub camera_error: Option<Seq<char>>,
    pub drain_drops: int,
    pub fits_pending: bool,
    pub dialog_pending: bool,
    pub discovered: Seq<DiscoveredId>,
    pub tab: BottomTab,
    pub bottom_open: bool,
    pub side_open: bool,
    pub background: Background,
}

impl View for Session {
    type V = SessionState;

    open spec fn view(&self) -> SessionState {
        SessionState {
            source: self.source@,
            capture: self.capture,
            running: self.running,
            recording: match self.recording {
                Some(r) => Some((r.filename@, r.frames as int)),
                None => None,
            },
            connect_open: self.connect_open,
            camera_error: sources::string_view(self.camera_error),
            drain_drops: self.drain_drops as int,
            fits_pending: self.fits_pending,
            dialog_pending: self.dialog_pending,
            discovered: sources::rows(self.discovered@),
            tab: self.tab,
            bottom_open: self.bottom_open,
            side_open: self.side_open,
            background: self.background,
        }
    }
}

/// A line for the log.
#[derive(PartialEq, Eq, Debug)]
pub struct Note {
    pub level: LogLevel,
    pub text: String,
}

impl View for Note {
    type V = (LogLevel, Seq<char>);

    open spec fn view(&self) -> (LogLevel, Seq<char>) {
        (self.level, self.text@)
    }
}

/// The content of an optional note.
pub open spec fn note_view(n: Option<Note>) -> Option<(LogLevel, Seq<char>)> {
    match n {
        Some(x) => Some(x@),
        None => None,
    }
}

pub(crate) fn info(t: String) -> (r: Note)
    ensures
        r@ == (LogLevel::Info, t@),
{
    Note { level: LogLevel::Info, text: t }
}

pub(crate) fn error(t: String) -> (r: Note)
    ensures
        r@ == (LogLevel::Error, t@),
{
    Note { level: LogLevel::Error, text: t }
}

impl SessionState {
    /// Only a capture can run, and the background is in order.
    pub open spec fn wf(self) -> bool {
        &&& self.running ==> self.capture != CaptureKind::Stopped
        &&& self.background.wf()
    }

    /// The state once the capture was stopped: nothing runs, nothing is
    /// recorded, drop counts start anew, and the frames of a file are gone.
    pub open spec fn stopped(self) -> SessionState {
        SessionState {
            capture: CaptureKind::Stopped,
            running: false,
            recording: None,
            drain_drops: 0,
            background: Background { frames: 0, pending: None, ..self.background },
            ..self
        }
    }

    /// The state with the capture paused.
    pub open spec fn paused(self) -> SessionState {
        SessionState { running: false, ..self }
    }

    /// The state with a paused capture running again.
    pub open spec fn resumed(self) -> SessionState {
        SessionState { running: true, ..self }
    }

    /// What the log says when a recording stops.
    pub open spec fn recording_note(self) -> Option<(LogLevel, Seq<char>)> {
        match self.recording {
            Some((f, n)) => Some(
                (
                    LogLevel::Info,
                    "Recording stopped: "@ + f + " ("@ + text::decimal(n) + " frames)"@,
                ),
            ),
            None => None,
        }
    }
}

/// What stopping the capture leaves to do.
#[derive(PartialEq, Eq, Debug)]
pub struct Stopped {
    /// The capture whose thread is to be stopped and waited for.
    pub closed: CaptureKind,
    /// The writer is to be finished, and this is what the log says of it.
    pub recording: Option<Note>,
}

impl Stopped {
    /// Is this what stopping the capture of `before` leaves to do?
    pub open spec fn of(self, before: SessionState) -> bool {
        self.closed == before.capture && note_view(self.recording) == before.recording_note()
    }
}

impl Session {
    /// An idle session with what was discovered at startup.
    pub fn new(discovered: Vec<DiscoveredSource>) -> (r: Session)
        ensures
            r@.wf(),
            r@ == (SessionState {
                source: SourceId::NoSource,
                capture: CaptureKind::Stopped,
                running: false,
                recording: None,
                connect_open: false,
                camera_error: None,
                drain_drops: 0,
                fits_pending: false,
                dialog_pending: false,
                discovered: sources::rows(discovered@),
                tab: BottomTab::Histogram,
                bottom_open: true,
                side_open: true,
                background: Background {
                    enabled: false,
                    percent: 35,
                    computed: None,
                    pending: None,
                    frames: 0,
                },
            }),
    {
        Session {
            source: CameraSource::NoSource,
            capture: CaptureKind::Stopped,
            running: false,
            recording: None,
            connect_open: false,
            camera_error: None,
            drain_drops: 0,
            fits_pending: false,
            dialog_pending: false,
            discovered,
            tab: BottomTab::Histogram,
            bottom_open: true,
            side_open: true,
            background: Background::new(),
        }
    }

    /// Stops a recording in progress. The writer drains its queue, flushes and
    /// syncs before anything else happens.
    pub fn stop_recording(&mut self) -> (r: Option<Note>)
        requires
            old(self)@.wf(),
        ensures
            final(self)@.wf(),
            final(self)@ == (SessionState { recording: None, ..old(self)@ }),
            note_view(r) == old(self)@.recording_note(),
    {
        let note: Option<Note> = match &self.recording {
            Some(rec) => {
                let n: String = text::int_text(rec.frames as i128);
                Some(
                    info(
                        text::join5(
                            "Recording stopped: ",
                            rec.filename.as_str(),
                            " (",
                            n.as_str(),
                            " frames)",
                        ),
                    ),
                )
            },
            None => None,
        };
        self.recording = None;
        note
    }

    /// A recording started.
    pub fn recording_started(&mut self, filename: String, path: &str) -> (r: Note)
        requires
            old(self)@.wf(),
        ensures
            final(self)@.wf(),
            final(self)@ == (SessionState { recording: Some((filename@, 0)), ..old(self)@ }),
            r@ == (LogLevel::Info, "Recording started: "@ + path@),
    {
        self.recording = Some(Recording { filename, frames: 0 });
        info(text::join2("Recording started: ", path))
    }

    /// The recordings directory could not be created.
    pub fn recording_dir_failed(&self, dir: &str, err: &str) -> (r: Note)
        ensures
            r@ == (
                LogLevel::Error,
                "Failed to create recordings dir "@ + dir@ + ": "@ + err@,
            ),
    {
        error(text::join4("Failed to create recordings dir ", dir, ": ", err))
    }

    /// A frame was handed to the writer, or its queue was full: only a frame
    /// that was taken counts.
    pub fn frame_recorded(&mut self, taken: bool)
        requires
            old(self)@.wf(),
            old(self)@.recording matches Some((_, n)) ==> n < u32::MAX,
        ensures
            final(self)@.wf(),
            final(self)@ == (SessionState {
                recording: match old(self)@.recording {
                    Some((f, n)) => Some(
                        (
                            f,
                            if taken {
                                n + 1
                            } else {
                                n
                            },
                        ),
                    ),
                    None => None,
                },
                ..old(self)@
            }),
    {
        if taken {
            let rec: Option<Recording> = self.recording.take();
            match rec {
                Some(r) => {
                    self.recording =
                    Some(Recording { filename: r.filename, frames: r.frames + 1 });
                },
                None => {},
            }
        }
    }

    /// Stops the capture, whatever it is, and a recording with it.
    pub fn stop_capture(&mut self) -> (r: Stopped)
        requires
            old(self)@.wf(),
        ensures
            final(self)@.wf(),
            final(self)@ == old(self)@.stopped(),
            r.of(old(self)@),
    {
        let closed: CaptureKind = self.capture;
        let recording: Option<Note> = self.stop_recording();
        self.capture = CaptureKind::Stopped;
        self.running = false;
        self.drain_drops = 0;
        self.background.unload();
        Stopped { closed, recording }
    }

    /// Selects a FITS file, to be loaded in the background. The capture stops
    /// first; the last result is the log line.
    pub fn start_fits(&mut self, path: String, file_name: &str) -> (r: (Stopped, Note))
        requires
            old(self)@.wf(),
        ensures
            final(self)@.wf(),
            final(self)@ == (SessionState {
                source: SourceId::FitsFile(path@),
                fits_pending: true,
                ..old(self)@.stopped()
            }),
            r.0.of(old(self)@),
            r.1@ == (LogLevel::Info, "Loading FITS: "@ + file_name@ + "..."@),
    {
        let stopped: Stopped = self.stop_capture();
        self.source = CameraSource::FitsFile(path);
        self.fits_pending = true;
        (stopped, info(text::join3("Loading FITS: ", file_name, "...")))
    }

    /// The descriptor to remember for the next launch.
    pub fn descriptor_to_remember(&self) -> (r: Option<String>)
        ensures
            sources::string_view(r) == sources::descriptor_of(self@.source),
    {
        self.source.descriptor()
    }

    /// A FITS file was loaded: playback starts.
    pub fn fits_loaded(
        &mut self,
        file_name: &str,
        width: u32,
        height: u32,
        bit_depth: u8,
        frames: usize,
    ) -> (r: (BackgroundStep, Note))
        requires
            old(self)@.wf(),
        ensures
            final(self)@.wf(),
            final(self)@ == (SessionState {
                fits_pending: false,
                capture: CaptureKind::Fits,
                running: true,
                background: old(self).background.after_load(frames),
                ..old(self)@
            }),
            r.0 == old(self).background.load_step(frames),
            r.1@ == (
                LogLevel::Info,
                "FITS: "@ + file_name@ + " ("@ + text::decimal(width as int) + "x"@ + (
                text::decimal(height as int) + ", "@ + text::decimal(bit_depth as int) + "-bit, "@
                    + text::decimal(frames as int)) + " frames)"@,
            ),
    {
        self.fits_pending = false;
        let step: BackgroundStep = self.background.loaded(frames);
        self.capture = CaptureKind::Fits;
        self.running = true;
        (step, info(playback::loaded_note(file_name, width, height, bit_depth, frames)))
    }

    /// A FITS file could not be loaded.
    pub fn fits_failed(&mut self, err: &str) -> (r: Note)
        requires
            old(self)@.wf(),
        ensures
            final(self)@.wf(),
            final(self)@ == (SessionState { fits_pending: false, ..old(self)@ }),
            r@ == (LogLevel::Error, "Failed to open FITS: "@ + err@),
    {
        self.fits_pending = false;
        error(text::join2("Failed to open FITS: ", err))
    }

    /// A camera or server is about to be opened: the capture stops, and the
    /// last error goes.
    pub fn begin_open(&mut self) -> (r: Stopped)
        requires
            old(self)@.wf(),
        ensures
            final(self)@.wf(),
            final(self)@ == (SessionState { camera_error: None, ..old(self)@.stopped() }),
            r.of(old(self)@),
    {
        let stopped: Stopped = self.stop_capture();
        self.camera_error = None;
        stopped
    }
}

// ---------------------------------------------------------------------------
// Devices

/// The capture, the source and the display name of a device.
pub open spec fn device_of(info: sources::DeviceId) -> (CaptureKind, SourceId, Seq<char>) {
    match info {
        sources::DeviceId::SVBony { camera_id, name, .. } => (
            CaptureKind::SVBony,
            SourceId::SVBony(camera_id),
            name,
        ),
        sources::DeviceId::Toupcam { id, display_name } => (
            CaptureKind::Toupcam,
            SourceId::Toupcam(id),
            display_name,
        ),
        sources::DeviceId::Gev { id, display_name, .. } => (
            CaptureKind::Gev,
            SourceId::Gev(id),
            display_name,
        ),
    }
}

/// What the log says of an opened device.
pub open spec fn opened_text(info: sources::DeviceId) -> Seq<char> {
    if info is Gev {
        "GigE camera opened: "@ + device_of(info).2
    } else {
        "Camera opened: "@ + device_of(info).2
    }
}

/// What is said of a device that could not be opened.
pub open spec fn open_failed_text(info: sources::DeviceId, err: Seq<char>) -> Seq<char> {
    if info is Gev {
        "Failed to open GigE camera: "@ + err
    } else {
        "Failed to open camera: "@ + err
    }
}

impl Session {
    /// A device was opened.
    pub fn device_opened(&mut self, device: &SourceInfo) -> (r: Note)
        requires
            old(self)@.wf(),
        ensures
            final(self)@.wf(),
            final(self)@ == (SessionState {
                capture: device_of(device@).0,
                source: device_of(device@).1,
                running: true,
                ..old(self)@
            }),
            r@ == (LogLevel::Info, opened_text(device@)),
    {
        self.running = true;
        match device {
            SourceInfo::SVBony(d) => {
                self.capture = CaptureKind::SVBony;
                self.source = CameraSource::SVBony(d.camera_id);
                info(text::join2("Camera opened: ", d.name.as_str()))
            },
            SourceInfo::Toupcam(d) => {
                self.capture = CaptureKind::Toupcam;
                self.source = CameraSource::Toupcam(d.id.clone());
                info(text::join2("Camera opened: ", d.display_name.as_str()))
            },
            SourceInfo::Gev(d) => {
                self.capture = CaptureKind::Gev;
                self.source = CameraSource::Gev(d.id.clone());
                info(text::join2("GigE camera opened: ", d.display_name.as_str()))
            },
        }
    }

    fn fail(&mut self, msg: String) -> (r: Note)
        requires
            old(self)@.wf(),
        ensures
            final(self)@.wf(),
            final(self)@ == (SessionState { camera_error: Some(msg@), ..old(self)@ }),
            r@ == (LogLevel::Error, msg@),
    {
        self.camera_error = Some(msg.clone());
        error(msg)
    }

    /// A device could not be opened.
    pub fn device_failed(&mut self, device: &SourceInfo, err: &str) -> (r: Note)
        requires
            old(self)@.wf(),
        ensures
            final(self)@.wf(),
            final(self)@ == (SessionState {
                camera_error: Some(open_failed_text(device@, err@)),
                ..old(self)@
            }),
            r@ == (LogLevel::Error, open_failed_text(device@, err@)),
    {
        let msg: String = match device {
            SourceInfo::Gev(_) => text::join2("Failed to open GigE camera: ", err),
            _ => text::join2("Failed to open camera: ", err),
        };
        self.fail(msg)
    }

    /// An INDI server answered. Frames only start once the user connects a
    /// device and starts an exposure, so the Controls tab is shown.
    pub fn indi_connected(&mut self, addr: &str, host: &str, port: u16) -> (r: Note)
        requires
            old(self)@.wf(),
        ensures
            final(self)@.wf(),
            final(self)@ == (SessionState {
                capture: CaptureKind::Indi,
                source: SourceId::Indi(text::trimmed(addr@)),
                running: true,
                tab: BottomTab::Controls,
                ..old(self)@
            }),
            r@ == (
                LogLevel::Info,
                "INDI: connected to "@ + host@ + ":"@ + text::decimal(port as int),
            ),
    {
        self.capture = CaptureKind::Indi;
        self.source = CameraSource::Indi(text::trim(addr).to_string());
        self.running = true;
        self.tab = BottomTab::Controls;
        let p: String = text::int_text(port as i128);
        info(text::join4("INDI: connected to ", host, ":", p.as_str()))
    }

    /// An INDI server could not be reached.
    pub fn indi_failed(&mut self, err: &str) -> (r: Note)
        requires
            old(self)@.wf(),
        ensures
            final(self)@.wf(),
            final(self)@ == (SessionState {
                camera_error: Some("INDI connect failed: "@ + err@),
                ..old(self)@
            }),
            r@ == (LogLevel::Error, "INDI connect failed: "@ + err@),
    {
        self.fail(text::join2("INDI connect failed: ", err))
    }

    /// A device is nowhere to be found.
    pub fn source_not_found(&mut self, descriptor: &str) -> (r: Note)
        requires
            old(self)@.wf(),
        ensures
            final(self)@.wf(),
            final(self)@ == (SessionState {
                camera_error: Some("Source not found: "@ + descriptor@),
                ..old(self)@
            }),
            r@ == (LogLevel::Error, "Source not found: "@ + descriptor@),
    {
        self.fail(text::join2("Source not found: ", descriptor))
    }
}

// ---------------------------------------------------------------------------
// Opening any source

/// How a source is opened.
#[derive(PartialEq, Eq, Debug)]
pub enum OpenPlan {
    /// There is nothing to open.
    Nothing,
    /// Load this FITS file.
    Fits(String),
    /// Connect to this INDI address.
    Indi(String),
    /// Open the GigE camera at this address directly, without waiting on a
    /// broadcast enumeration that it may never answer.
    GevAddress(String),
    /// Open this device.
    Device(SourceInfo),
    /// The device is not among the discovered ones: enumerate its own backend
    /// once more, and no other.
    Refresh(Backend),
    /// The device is nowhere to be found; this is its descriptor.
    NotFound(String),
}

/// The content of an [`OpenPlan`].
#[verifier::ext_equal]
pub enum OpenSpec {
    Nothing,
    Fits(Seq<char>),
    Indi(Seq<char>),
    GevAddress(Seq<char>),
    Device(sources::DeviceId),
    Refresh(Backend),
    NotFound(Seq<char>),
}

impl View for OpenPlan {
    type V = OpenSpec;

    open spec fn view(&self) -> OpenSpec {
        match self {
            OpenPlan::Nothing => OpenSpec::Nothing,
            OpenPlan::Fits(p) => OpenSpec::Fits(p@),
            OpenPlan::Indi(h) => OpenSpec::Indi(h@),
            OpenPlan::GevAddress(ip) => OpenSpec::GevAddress(ip@),
            OpenPlan::Device(d) => OpenSpec::Device(d@),
            OpenPlan::Refresh(b) => OpenSpec::Refresh(*b),
            OpenPlan::NotFound(d) => OpenSpec::NotFound(d@),
        }
    }
}

/// The plan for a device that has to be among the discovered ones.
pub open spec fn device_plan(
    id: SourceId,
    discovered: Seq<DiscoveredId>,
    refreshed: bool,
) -> OpenSpec {
    let i = sources::row_index(discovered, id);
    if i < discovered.len() {
        OpenSpec::Device(discovered[i].info)
    } else {
        match sources::backend_for(sources::registry(), sources::scheme_of(id)->Some_0) {
            Some(b) => if refreshed {
                OpenSpec::NotFound(sources::descriptor_of(id)->Some_0)
            } else {
                OpenSpec::Refresh(b)
            },
            None => OpenSpec::NotFound(sources::descriptor_of(id)->Some_0),
        }
    }
}

/// How a source is opened, where `refreshed` says that its backend has just
/// been enumerated.
pub open spec fn open_plan(
    id: SourceId,
    discovered: Seq<DiscoveredId>,
    refreshed: bool,
) -> OpenSpec {
    match id {
        SourceId::NoSource => OpenSpec::Nothing,
        SourceId::FitsFile(p) => OpenSpec::Fits(p),
        SourceId::Indi(h) => OpenSpec::Indi(h),
        SourceId::Gev(g) => if sources::is_ipv4(g) {
            OpenSpec::GevAddress(g)
        } else {
            device_plan(id, discovered, refreshed)
        },
        _ => device_plan(id, discovered, refreshed),
    }
}

impl Session {
    fn plan_device(&self, source: &CameraSource, refreshed: bool) -> (r: OpenPlan)
        requires
            source@ !is NoSource,
        ensures
            r@ == device_plan(source@, sources::rows(self.discovered@), refreshed),
    {
        match sources::find_row(&self.discovered, source) {
            Some(i) => {
                assert(sources::rows(self.discovered@)[i as int] == self.discovered@[i as int]@);
                OpenPlan::Device(self.discovered[i].info.copy_of())
            },
            None => {
                let descriptor: String = match source.descriptor() {
                    Some(d) => d,
                    None => String::new(),
                };
                if refreshed {
                    return OpenPlan::NotFound(descriptor);
                }
                let scheme: &str = match source.scheme() {
                    Some(s) => s,
                    None => "",
                };
                let list: Vec<Backend> = sources::backends();
                match sources::find_backend(&list, scheme) {
                    Some(b) => OpenPlan::Refresh(b),
                    None => OpenPlan::NotFound(descriptor),
                }
            },
        }
    }

    /// How to open a source: the single way for the command line, the
    /// remembered source, the Source menu and the Connect window. A camera
    /// that is not among the discovered ones asks for its backend to be
    /// enumerated once more, after which `refreshed` is set.
    pub fn open_source(&self, source: &CameraSource, refreshed: bool) -> (r: OpenPlan)
        ensures
            r@ == open_plan(source@, self@.discovered, refreshed),
    {
        match source {
            CameraSource::NoSource => OpenPlan::Nothing,
            CameraSource::FitsFile(p) => OpenPlan::Fits(p.clone()),
            CameraSource::Indi(h) => OpenPlan::Indi(h.clone()),
            CameraSource::Gev(id) => match sources::parse_ipv4(id.as_str()) {
                Some(_) => OpenPlan::GevAddress(id.clone()),
                None => self.plan_device(source, refreshed),
            },
            _ => self.plan_device(source, refreshed),
        }
    }

    /// Takes over a full enumeration: one list per backend of the registry.
    pub fn refresh_sources(&mut self, found: &Vec<Vec<SourceInfo>>)
        requires
            old(self)@.wf(),
        ensures
            final(self)@.wf(),
            final(self)@ == (SessionState {
                discovered: sources::all_rows(sources::registry(), found@),
                ..old(self)@
            }),
    {
        self.discovered = sources::discover_all(found);
    }

    /// Takes over the enumeration of one backend: its fresh rows replace its
    /// old ones, in place.
    pub fn refresh_backend(&mut self, b: &Backend, found: &Vec<SourceInfo>)
        requires
            old(self)@.wf(),
        ensures
            final(self)@.wf(),
            final(self)@ == (SessionState {
                discovered: sources::spliced(
                    old(self)@.discovered,
                    b.name@,
                    if b.discovers {
                        sources::stamped(found@, b.name@)
                    } else {
                        Seq::empty()
                    },
                ),
                ..old(self)@
            }),
    {
        let rows: Vec<DiscoveredSource> = sources::splice_rows(&self.discovered, b, found);
        self.discovered = rows;
    }
}

/// A source whose backend was just enumerated is opened or reported, but never
/// sent round for another enumeration.
pub proof fn law_one_refresh_at_most(id: SourceId, discovered: Seq<DiscoveredId>)
    ensures
        open_plan(id, discovered, true) !is Refresh,
{
}

/// Only the backend that a source belongs to is enumerated for it.
pub proof fn law_refresh_stays_with_backend(id: SourceId, discovered: Seq<DiscoveredId>)
    ensures
        open_plan(id, discovered, false) matches OpenSpec::Refresh(b)
            ==> Some(b.scheme@) == sources::scheme_of(id),
{
    if let OpenSpec::Refresh(b) = open_plan(id, discovered, false) {
        sources::lemma_backend_for(sources::registry(), sources::scheme_of(id)->Some_0);
    }
}

// ---------------------------------------------------------------------------
// Transport

/// What the toolbar's Stop does.
#[derive(PartialEq, Eq, Debug)]
pub enum StopStep {
    /// Pause acquisition but keep the session: some cameras' stream engines do
    /// not survive a teardown and reconnect.
    PauseGev,
    Stop(Stopped),
}

/// What the toolbar's Play does.
#[derive(PartialEq, Eq, Debug)]
pub enum PlayStep {
    /// Nothing is selected: the Connect window is shown.
    ChooseSource,
    /// Resume the paused session in place.
    ResumeGev,
    Open(OpenPlan),
}

impl Session {
    /// The toolbar's Stop: pauses a GigE session, stops any other capture.
    pub fn pause_or_stop(&mut self) -> (r: StopStep)
        requires
            old(self)@.wf(),
        ensures
            final(self)@.wf(),
            if old(self)@.capture == CaptureKind::Gev {
                &&& r == StopStep::PauseGev
                &&& final(self)@ == old(self)@.paused()
            } else {
                &&& r matches StopStep::Stop(s) && s.of(old(self)@)
                &&& final(self)@ == old(self)@.stopped()
            },
    {
        if self.capture == CaptureKind::Gev {
            self.running = false;
            return StopStep::PauseGev;
        }
        StopStep::Stop(self.stop_capture())
    }

    /// The toolbar's Play: resumes a paused GigE session in place, otherwise
    /// opens the selected source afresh.
    pub fn play_or_resume(&mut self) -> (r: PlayStep)
        requires
            old(self)@.wf(),
        ensures
            final(self)@.wf(),
            if old(self)@.source is NoSource {
                &&& r == PlayStep::ChooseSource
                &&& final(self)@ == (SessionState { connect_open: true, ..old(self)@ })
            } else if old(self)@.capture == CaptureKind::Gev {
                &&& r == PlayStep::ResumeGev
                &&& final(self)@ == old(self)@.resumed()
            } else {
                &&& r matches PlayStep::Open(p) && p@ == open_plan(
                    old(self)@.source,
                    old(self)@.discovered,
                    false,
                )
                &&& final(self)@ == old(self)@
            },
    {
        match self.source {
            CameraSource::NoSource => {
                self.connect_open = true;
                return PlayStep::ChooseSource;
            },
            _ => {},
        }
        if self.capture == CaptureKind::Gev {
            self.running = true;
            return PlayStep::ResumeGev;
        }
        PlayStep::Open(self.open_source(&self.source, false))
    }

    /// Takes the outcome of draining the frame channel: how many frames were
    /// waiting, all but the newest of which are dropped, and whether its other
    /// end is gone.
    pub fn frames_drained(&mut self, received: u64, disconnected: bool)
        requires
            old(self)@.wf(),
            old(self)@.drain_drops + received <= u64::MAX,
        ensures
            final(self)@.wf(),
            final(self)@ == (SessionState {
                drain_drops: old(self)@.drain_drops + (if received > 0 {
                    received - 1
                } else {
                    0
                }),
                running: old(self)@.running && !disconnected,
                ..old(self)@
            }),
    {
        if received > 0 {
            self.drain_drops = self.drain_drops + (received - 1);
        }
        if disconnected {
            self.running = false;
        }
    }

    /// Frames dropped since the capture started: those that did not fit into
    /// the channel, those superseded, and for a GigE capture those lost on the
    /// way there.
    pub fn dropped_total(
        &self,
        pump: u64,
        rx_to_control: u64,
        control_to_ui: u64,
        decode_skipped: u64,
    ) -> (r: u64)
        requires
            pump + self@.drain_drops + rx_to_control + control_to_ui + decode_skipped <= u64::MAX,
        ensures
            r == pump + self@.drain_drops + (if self@.capture == CaptureKind::Gev {
                rx_to_control + control_to_ui + decode_skipped
            } else {
                0
            }),
    {
        let total: u64 = pump + self.drain_drops;
        if self.capture == CaptureKind::Gev {
            total + rx_to_control + control_to_ui + decode_skipped
        } else {
            total
        }
    }
}

/// Pausing and resuming a capture gives back the state before; so do resuming
/// and pausing one that was paused.
pub proof fn law_pause_resume(s: SessionState)
    requires
        s.wf(),
        s.capture != CaptureKind::Stopped,
    ensures
        s.paused().wf(),
        s.resumed().wf(),
        s.running ==> s.paused().resumed() == s,
        !s.running ==> s.resumed().paused() == s,
{
}

/// Stopping twice is stopping once.
pub proof fn law_stop_is_idempotent(s: SessionState)
    ensures
        s.stopped().stopped() == s.stopped(),
        s.stopped().recording_note() is None,
{
}

// ---------------------------------------------------------------------------
// Shortcuts

/// The shortcut keys pressed in one pass of the user interface.
#[derive(Clone, Copy, PartialEq, Eq, Structural, Debug)]
pub struct Keys {
    pub open: bool,
    pub connect: bool,
    pub quit: bool,
    pub side_panel: bool,
    pub bottom_panel: bool,
    pub play: bool,
    pub record: bool,
}

/// What the shortcut keys leave to do.
#[derive(Clone, Copy, PartialEq, Eq, Structural, Debug)]
pub struct KeySteps {
    pub open_dialog: bool,
    pub quit: bool,
    /// Pause or stop the running capture.
    pub stop: bool,
    /// Play or resume the selected source.
    pub play: bool,
    pub start_recording: bool,
    pub stop_recording: bool,
}

impl Session {
    /// Does the play key ask for a source to be chosen? It does where nothing
    /// is selected: the Connect window is then shown instead of doing nothing.
    pub open spec fn asks_for_source(&self, keys: Keys, typing: bool) -> bool {
        keys.play && !typing && !self@.running && self@.source is NoSource
    }

    /// Takes the shortcut keys. The bare ones stay quiet while a widget has
    /// the keyboard, so that typing never trips them.
    pub fn shortcuts(&mut self, keys: Keys, typing: bool) -> (r: KeySteps)
        requires
            old(self)@.wf(),
        ensures
            final(self)@.wf(),
            final(self)@ == (SessionState {
                side_open: old(self)@.side_open != (keys.side_panel && !typing),
                bottom_open: old(self)@.bottom_open != (keys.bottom_panel && !typing),
                connect_open: old(self)@.connect_open || keys.connect || old(
                    self,
                ).asks_for_source(keys, typing),
                dialog_pending: old(self)@.dialog_pending || keys.open,
                ..old(self)@
            }),
            r == (KeySteps {
                open_dialog: keys.open && !old(self)@.dialog_pending,
                quit: keys.quit,
                stop: keys.play && !typing && old(self)@.running,
                play: keys.play && !typing && !old(self)@.running && old(self)@.source
                    !is NoSource,
                start_recording: keys.record && !typing && old(self)@.recording is None,
                stop_recording: keys.record && !typing && old(self)@.recording is Some,
            }),
    {
        if keys.side_panel && !typing {
            self.side_open = !self.side_open;
        }
        if keys.bottom_panel && !typing {
            self.bottom_open = !self.bottom_open;
        }
        let open_dialog: bool = keys.open && self.begin_dialog();
        if keys.connect {
            self.connect_open = true;
        }
        let selected: bool = match self.source {
            CameraSource::NoSource => false,
            _ => true,
        };
        if keys.play && !typing && !self.running && !selected {
            self.connect_open = true;
        }
        KeySteps {
            open_dialog,
            quit: keys.quit,
            stop: keys.play && !typing && self.running,
            play: keys.play && !typing && !self.running && selected,
            start_recording: keys.record && !typing && self.recording.is_none(),
            stop_recording: keys.record && !typing && self.recording.is_some(),
        }
    }

    /// Opens the file dialog, unless one is open already.
    pub fn begin_dialog(&mut self) -> (r: bool)
        requires
            old(self)@.wf(),
        ensures
            final(self)@.wf(),
            final(self)@ == (SessionState { dialog_pending: true, ..old(self)@ }),
            r == !old(self)@.dialog_pending,
    {
        let fresh: bool = !self.dialog_pending;
        self.dialog_pending = true;
        fresh
    }

    /// The file dialog closed.
    pub fn end_dialog(&mut self)
        requires
            old(self)@.wf(),
        ensures
            final(self)@.wf(),
            final(self)@ == (SessionState { dialog_pending: false, ..old(self)@ }),
    {
        self.dialog_pending = false;
    }

    /// Shows a tab, and opens the panel for it.
    pub fn show_tab(&mut self, tab: BottomTab)
        requires
            old(self)@.wf(),
        ensures
            final(self)@.wf(),
            final(self)@ == (SessionState { tab, bottom_open: true, ..old(self)@ }),
    {
        self.tab = tab;
        self.bottom_open = true;
    }
}

// ---------------------------------------------------------------------------
// The Connect window

impl Session {
    /// Takes what the Connect window reported, before a source it chose is
    /// opened. The result says whether to open the file dialog.
    pub fn connect_reported(
        &mut self,
        keep_open: bool,
        manual_err: Option<String>,
        open_fits: bool,
        connecting: bool,
    ) -> (r: bool)
        requires
            old(self)@.wf(),
        ensures
            final(self)@.wf(),
            final(self)@ == (SessionState {
                connect_open: keep_open && !open_fits,
                camera_error: if connecting {
                    None
                } else if manual_err is Some {
                    sources::string_view(manual_err)
                } else {
                    old(self)@.camera_error
                },
                dialog_pending: old(self)@.dialog_pending || open_fits,
                ..old(self)@
            }),
            r == (open_fits && !old(self)@.dialog_pending),
    {
        self.connect_open = keep_open && !open_fits;
        match manual_err {
            Some(e) => {
                self.camera_error = Some(e);
            },
            None => {},
        }
        if connecting {
            self.camera_error = None;
        }
        open_fits && self.begin_dialog()
    }

    /// Escape was pressed: the Connect window closes.
    pub fn dismiss_connect(&mut self)
        requires
            old(self)@.wf(),
        ensures
            final(self)@.wf(),
            final(self)@ == (SessionState { connect_open: false, ..old(self)@ }),
    {
        self.connect_open = false;
    }

    /// The source chosen in the Connect window was opened, or was not: the
    /// window closes unless there is an error to show in it.
    pub fn connect_finished(&mut self)
        requires
            old(self)@.wf(),
        ensures
            final(self)@.wf(),
            final(self)@ == (SessionState {
                connect_open: old(self)@.connect_open && old(self)@.camera_error is Some,
                ..old(self)@
            }),
    {
        if self.camera_error.is_none() {
            self.connect_open = false;
        }
    }
}

/// The rows of one backend's group in the Connect window, by index.
pub fn group_rows(discovered: &Vec<DiscoveredSource>, b: &Backend) -> (r: Vec<usize>)
    ensures
        forall|k: int| 0 <= k < r.len() ==> (#[trigger] r@[k]) < discovered.len(),
        r@.map_values(|i: usize| discovered@[i as int]@) == sources::rows_of(
            sources::rows(discovered@),
            b.name@,
        ),
{
    let ghost all = sources::rows(discovered@);
    let ghost pick = |d: DiscoveredId| d.backend == b.name@;
    let ghost at = |i: usize| discovered@[i as int]@;
    let mut out: Vec<usize> = Vec::new();
    proof {
        reveal(Seq::filter);
        assert(all.take(0) =~= Seq::<DiscoveredId>::empty());
        assert(out@.map_values(at) =~= Seq::<DiscoveredId>::empty());
    }
    for i in 0..discovered.len()
        invariant
            all == sources::rows(discovered@),
            pick == (|d: DiscoveredId| d.backend == b.name@),
            at == (|i: usize| discovered@[i as int]@),
            forall|k: int| 0 <= k < out.len() ==> (#[trigger] out@[k]) < discovered.len(),
            out@.map_values(at) == all.take(i as int).filter(pick),
    {
        proof {
            reveal(Seq::filter);
            assert(all.take(i as int + 1).drop_last() =~= all.take(i as int));
            assert(all.take(i as int + 1).last() == discovered@[i as int]@);
        }
        if text::same_text(discovered[i].backend, b.name) {
            let ghost before = out@;
            out.push(i);
            assert(out@.map_values(at) =~= before.map_values(at).push(discovered@[i as int]@));
        }
    }
    assert(all.take(all.len() as int) =~= all);
    out
}

/// The network address of a device that has one.
pub open spec fn device_address(info: sources::DeviceId) -> Option<Seq<char>> {
    match info {
        sources::DeviceId::Gev { ip, .. } => Some(ip),
        _ => None,
    }
}

/// The address to remember of a device that was opened, so that its field is
/// filled in at the next launch.
pub fn address_to_remember(device: &SourceInfo) -> (r: Option<String>)
    ensures
        sources::string_view(r) == device_address(device@),
{
    match device {
        SourceInfo::Gev(d) => Some(d.ip.clone()),
        _ => None,
    }
}

/// The initial text of the field for a GigE address, from the one that is
/// remembered.
pub open spec fn gev_field(last: Option<Seq<char>>) -> Seq<char> {
    match last {
        Some(ip) => text::trimmed(ip),
        None => ""@,
    }
}

/// The initial texts of the address fields: the registry's defaults, with the
/// last GigE address that was connected to, where one is remembered.
pub fn initial_inputs(last_gev_ip: Option<&str>) -> (r: Vec<(&'static str, String)>)
    ensures
        r.len() == 2,
        r@[0].0@ == "gev"@,
        r@[0].1@ == gev_field(sources::text_view(last_gev_ip)),
        r@[1].0@ == "indi"@,
        r@[1].1@ == "localhost"@,
{
    let gev: String = match last_gev_ip {
        Some(ip) => text::trim(ip).to_string(),
        None => "".to_string(),
    };
    let mut out: Vec<(&'static str, String)> = Vec::new();
    out.push(("gev", gev));
    out.push(("indi", "localhost".to_string()));
    out
}

/// The address of a GigE camera that was opened stands in its field at the next
/// launch.
pub proof fn law_remembered_address_comes_back(ip: Seq<char>)
    requires
        sources::is_ipv4(ip),
    ensures
        gev_field(Some(ip)) == ip,
{
    let (a, b, c, d) = choose|a: u8, b: u8, c: u8, d: u8|
        ip == #[trigger] sources::ipv4_text(a, b, c, d);
    text::lemma_decimal_nat(a as nat);
    text::lemma_decimal_nat(d as nat);
    text::lemma_trimmed_idle(ip);
}

// ---------------------------------------------------------------------------
// Startup

/// What to do at startup.
#[derive(PartialEq, Eq, Debug)]
pub struct Startup {
    pub note: Option<Note>,
    pub open: Option<CameraSource>,
}

/// Where the startup source comes from.
#[derive(Clone, Copy, PartialEq, Eq, Structural, Debug)]
pub enum Origin {
    CommandLine,
    Remembered,
}

/// What to do at startup about a descriptor that was read as `parsed`.
pub open spec fn startup_of(
    origin: Origin,
    descriptor: Seq<char>,
    parsed: Result<SourceId, Seq<char>>,
) -> (Option<(LogLevel, Seq<char>)>, Option<SourceId>) {
    match (origin, parsed) {
        (Origin::CommandLine, Ok(id)) => (None, Some(id)),
        (Origin::CommandLine, Err(e)) => (
            Some((LogLevel::Error, "Command-line source: "@ + e)),
            None,
        ),
        (Origin::Remembered, Ok(id)) => (
            Some((LogLevel::Info, "Reconnecting to last source: "@ + descriptor)),
            Some(id),
        ),
        (Origin::Remembered, Err(e)) => (
            Some((LogLevel::Error, "Remembered source: "@ + e)),
            None,
        ),
    }
}

impl View for Startup {
    type V = (Option<(LogLevel, Seq<char>)>, Option<SourceId>);

    open spec fn view(&self) -> (Option<(LogLevel, Seq<char>)>, Option<SourceId>) {
        (
            note_view(self.note),
            match self.open {
                Some(s) => Some(s@),
                None => None,
            },
        )
    }
}

/// What to do at startup about a descriptor that was read as `parsed`.
pub fn startup_with(
    origin: Origin,
    descriptor: &str,
    parsed: Result<CameraSource, String>,
) -> (r: Startup)
    ensures
        r@ == startup_of(origin, descriptor@, sources::parsed_view(parsed)),
{
    match (origin, parsed) {
        (Origin::CommandLine, Ok(s)) => Startup { note: None, open: Some(s) },
        (Origin::CommandLine, Err(e)) => Startup {
            note: Some(error(text::join2("Command-line source: ", e.as_str()))),
            open: None,
        },
        (Origin::Remembered, Ok(s)) => Startup {
            note: Some(info(text::join2("Reconnecting to last source: ", descriptor))),
            open: Some(s),
        },
        (Origin::Remembered, Err(e)) => Startup {
            note: Some(error(text::join2("Remembered source: ", e.as_str()))),
            open: None,
        },
    }
}

/// The descriptor that startup goes by: an explicit one from the command line
/// wins; otherwise the remembered one, if it is not blank; otherwise none.
pub open spec fn startup_descriptor(
    arg: Option<Seq<char>>,
    remembered: Option<Seq<char>>,
) -> Option<(Origin, Seq<char>)> {
    match (arg, remembered) {
        (Some(a), _) => Some((Origin::CommandLine, a)),
        (None, Some(d)) => if text::trimmed(d).len() > 0 {
            Some((Origin::Remembered, text::trimmed(d)))
        } else {
            None
        },
        (None, None) => None,
    }
}

/// Decides what to do at startup.
pub fn startup(arg: Option<&str>, remembered: Option<&str>) -> (r: Startup)
    ensures
        match startup_descriptor(sources::text_view(arg), sources::text_view(remembered)) {
            Some((origin, d)) => r@ == startup_of(
                origin,
                d,
                sources::parsed_descriptor(sources::registry(), d, true),
            ) || r@ == startup_of(
                origin,
                d,
                sources::parsed_descriptor(sources::registry(), d, false),
            ),
            None => r@ == (None::<(LogLevel, Seq<char>)>, None::<SourceId>),
        },
{
    match arg {
        Some(a) => startup_with(Origin::CommandLine, a, CameraSource::parse_descriptor(a)),
        None => match remembered {
            Some(d) => {
                let t = text::trim(d);
                if t.is_empty() {
                    Startup { note: None, open: None }
                } else {
                    startup_with(Origin::Remembered, t, CameraSource::parse_descriptor(t))
                }
            },
            None => Startup { note: None, open: None },
        },
    }
}

/// The next launch reconnects: the descriptor remembered of a source is the
/// one that startup goes by, and it opens the same source.
pub proof fn law_remembered_source_comes_back(id: SourceId, exists_on_disk: bool)
    requires
        id !is NoSource,
        id matches SourceId::SVBony(n) ==> i32::MIN <= n <= i32::MAX,
        id matches SourceId::Indi(host) ==> host.len() > 0 && sources::without_slashes(host)
            == host,
        sources::address_of(id).len() > 0 ==> !text::is_white_space(
            sources::address_of(id).last(),
        ),
    ensures
        ({
            let d = sources::descriptor_of(id)->Some_0;
            let parsed = sources::parsed_descriptor(sources::registry(), d, exists_on_disk);
            &&& startup_descriptor(None, Some(d)) == Some((Origin::Remembered, d))
            &&& startup_of(Origin::Remembered, d, parsed).1 == Some(id)
        }),
{
    sources::law_descriptor_round_trip(id, exists_on_disk);
    reveal_strlit("file");
    reveal_strlit("svb");
    reveal_strlit("gev");
    reveal_strlit("toupcam");
    reveal_strlit("indi");
    text::lemma_trimmed_idle(sources::descriptor_of(id)->Some_0);
}

// ---------------------------------------------------------------------------
// Laws of the transitions

/// A plan opens what was asked for and nothing else. Only where nothing is
/// selected there is nothing to do; a file is loaded by its own path, a server
/// is connected to at its own address, and so is a GigE camera that is given by
/// an address. A device that is opened is the first discovered one that the
/// source names, and if every row carries its own device's source, it is the
/// camera asked for.
pub proof fn law_plan_opens_what_was_asked(
    s: Session,
    source: CameraSource,
    refreshed: bool,
    r: OpenPlan,
)
    requires
        call_ensures(Session::open_source, (&s, &source, refreshed), r),
    ensures
        r is Nothing <==> source is NoSource,
        source matches CameraSource::FitsFile(p) ==> (r matches OpenPlan::Fits(q) && q@ == p@),
        r is Fits ==> source is FitsFile,
        source matches CameraSource::Indi(h) ==> (r matches OpenPlan::Indi(q) && q@ == h@),
        r is Indi ==> source is Indi,
        source matches CameraSource::Gev(a) ==> (sources::is_ipv4(a@) ==> (
        r matches OpenPlan::GevAddress(q) && q@ == a@)),
        r is GevAddress ==> (source matches CameraSource::Gev(a) && sources::is_ipv4(a@)),
        r matches OpenPlan::Device(d) ==> exists|i: int|
            0 <= i < s.discovered.len() && sources::names_same(
                (#[trigger] s.discovered@[i]).source,
                source,
            ) && sources::same_device(s.discovered@[i].info, d) && (forall|j: int|
                #![trigger s.discovered@[j]]
                0 <= j < i ==> !sources::names_same(s.discovered@[j].source, source)),
        (forall|i: int|
            0 <= i < s.discovered.len() ==> sources::is_source_of(
                (#[trigger] s.discovered@[i]).source,
                s.discovered@[i].info,
            )) ==> (r matches OpenPlan::Device(d) ==> sources::is_source_of(source, d)),
{
    let v = sources::rows(s.discovered@);
    let i = sources::row_index(v, source@);
    sources::lemma_row_index(v, source@);
    if let OpenPlan::Device(d) = r {
        assert(v[i] == s.discovered@[i]@);
        assert(sources::names_same(s.discovered@[i].source, source));
        assert forall|j: int|
            #![trigger s.discovered@[j]]
            0 <= j < i implies !sources::names_same(s.discovered@[j].source, source) by {
            assert(v[j] == s.discovered@[j]@);
        }
    }
}

/// A camera among the discovered ones is opened. One that is not there has its
/// own backend enumerated once more, and is reported by its descriptor after
/// that.
pub proof fn law_missing_camera_is_looked_for_once(
    s: Session,
    source: CameraSource,
    refreshed: bool,
    r: OpenPlan,
)
    requires
        source is SVBony || source is Toupcam || (source matches CameraSource::Gev(a)
            && !sources::is_ipv4(a@)),
        call_ensures(Session::open_source, (&s, &source, refreshed), r),
    ensures
        r is Device <==> exists|i: int|
            0 <= i < s.discovered.len() && sources::names_same(
                (#[trigger] s.discovered@[i]).source,
                source,
            ),
        r is Device || (r is Refresh <==> !refreshed),
        r is Device || (r is NotFound <==> refreshed),
        r matches OpenPlan::Refresh(b) ==> match source {
            CameraSource::SVBony(_) => b.scheme@ == "svb"@ && b.name@ == "SVBony"@ && b.discovers,
            CameraSource::Toupcam(_) => b.scheme@ == "toupcam"@ && b.name@ == "ToupTek"@
                && b.discovers,
            _ => b.scheme@ == "gev"@ && b.name@ == "GigE Vision"@ && b.discovers,
        },
        r matches OpenPlan::NotFound(t) ==> match source {
            CameraSource::SVBony(n) => t@ == "svb"@ + seq![':'] + text::decimal(n as int),
            CameraSource::Toupcam(id) => t@ == "toupcam"@ + seq![':'] + id@,
            CameraSource::Gev(id) => t@ == "gev"@ + seq![':'] + id@,
            _ => false,
        },
{
    let v = sources::rows(s.discovered@);
    sources::lemma_row_index(v, source@);
    let i = sources::row_index(v, source@);
    sources::law_registry_schemes();
    assert(sources::entry_for(sources::BackendKind::SVBony).scheme@ == "svb"@);
    assert(sources::entry_for(sources::BackendKind::Toupcam).scheme@ == "toupcam"@);
    assert(sources::entry_for(sources::BackendKind::Gev).scheme@ == "gev"@);
    if r is Device {
        assert(v[i] == s.discovered@[i]@);
        assert(sources::names_same(s.discovered@[i].source, source));
    } else {
        assert forall|j: int| 0 <= j < s.discovered.len() implies !sources::names_same(
            (#[trigger] s.discovered@[j]).source,
            source,
        ) by {
            assert(v[j] == s.discovered@[j]@);
        }
    }
}

/// Stopping ends the capture and the recording, names the capture whose thread
/// has to end, and reports the recording by its file and its frames. The
/// selected source stays selected.
pub proof fn law_stopping_ends_the_capture(s: &mut Session, r: Stopped)
    requires
        old(s)@.wf(),
        call_ensures(Session::stop_capture, (s,), r),
    ensures
        final(s).capture == CaptureKind::Stopped,
        !final(s).running,
        final(s).recording is None,
        final(s).drain_drops == 0,
        final(s).background.frames == 0,
        sources::names_same(final(s).source, old(s).source),
        final(s).tab == old(s).tab && final(s).side_open == old(s).side_open
            && final(s).bottom_open == old(s).bottom_open && final(s).connect_open
            == old(s).connect_open && final(s).fits_pending == old(s).fits_pending
            && final(s).dialog_pending == old(s).dialog_pending,
        final(s)@.discovered == old(s)@.discovered,
        final(s)@.camera_error == old(s)@.camera_error,
        r.closed == old(s).capture,
        r.recording is Some <==> old(s).recording is Some,
        r.recording matches Some(n) ==> n.level == LogLevel::Info && n.text@
            == "Recording stopped: "@ + old(s).recording->0.filename@ + " ("@ + text::decimal(
            old(s).recording->0.frames as int,
        ) + " frames)"@,
{
}

/// The toolbar's Stop keeps a GigE session, which Play then takes up again
/// where it was: the same capture, the same source and the same recording.
pub proof fn law_gev_pause_is_taken_back(s: &mut Session, t: &mut Session, a: StopStep, b: PlayStep)
    requires
        old(s)@.wf(),
        old(s).capture == CaptureKind::Gev,
        old(s).source !is NoSource,
        call_ensures(Session::pause_or_stop, (s,), a),
        *old(t) == *final(s),
        call_ensures(Session::play_or_resume, (t,), b),
    ensures
        a == StopStep::PauseGev,
        !final(s).running && final(s).capture == CaptureKind::Gev,
        b == PlayStep::ResumeGev,
        final(t).running && final(t).capture == CaptureKind::Gev,
        sources::names_same(final(t).source, old(s).source),
        final(t)@.recording == old(s)@.recording,
        old(s).running ==> final(t)@ == old(s)@,
{
}

/// The toolbar's Stop ends any capture but a GigE one as stopping does.
pub proof fn law_other_captures_are_stopped(s: &mut Session, r: StopStep)
    requires
        old(s)@.wf(),
        old(s).capture != CaptureKind::Gev,
        call_ensures(Session::pause_or_stop, (s,), r),
    ensures
        r matches StopStep::Stop(st) && st.closed == old(s).capture && (st.recording is Some
            <==> old(s).recording is Some),
        final(s).capture == CaptureKind::Stopped,
        !final(s).running,
        final(s).recording is None,
        final(s).drain_drops == 0,
        sources::names_same(final(s).source, old(s).source),
{
}

/// Play without a selected source shows the Connect window. With one it opens
/// that source, and changes nothing itself.
pub proof fn law_play_opens_the_selected_source(s: &mut Session, r: PlayStep, plan: OpenPlan)
    requires
        old(s)@.wf(),
        call_ensures(Session::play_or_resume, (s,), r),
        call_ensures(Session::open_source, (&*old(s), &old(s).source, false), plan),
    ensures
        old(s).source is NoSource ==> r == PlayStep::ChooseSource && final(s).connect_open
            && final(s).running == old(s).running && final(s).capture == old(s).capture,
        old(s).source !is NoSource && old(s).capture != CaptureKind::Gev ==> (
        r matches PlayStep::Open(p) && p@ == plan@) && final(s)@ == old(s)@,
        old(s).source !is NoSource ==> final(s).connect_open == old(s).connect_open,
{
}

/// Selecting a file stops the capture and marks the file as being loaded; once
/// it is loaded, playback of it runs.
pub proof fn law_file_is_loaded_and_played(
    s: &mut Session,
    t: &mut Session,
    path: String,
    file_name: &str,
    width: u32,
    height: u32,
    bit_depth: u8,
    frames: usize,
    a: (Stopped, Note),
    b: (BackgroundStep, Note),
)
    requires
        old(s)@.wf(),
        call_ensures(Session::start_fits, (s, path, file_name), a),
        *old(t) == *final(s),
        call_ensures(Session::fits_loaded, (t, file_name, width, height, bit_depth, frames), b),
    ensures
        final(s).source matches CameraSource::FitsFile(p) && p@ == path@,
        final(s).fits_pending && !final(s).running && final(s).capture == CaptureKind::Stopped
            && final(s).recording is None,
        a.0.closed == old(s).capture,
        a.1.level == LogLevel::Info && a.1.text@ == "Loading FITS: "@ + file_name@ + "..."@,
        final(t).source matches CameraSource::FitsFile(p) && p@ == path@,
        !final(t).fits_pending && final(t).running && final(t).capture == CaptureKind::Fits,
        final(t).background.frames == frames,
        b.1.level == LogLevel::Info && b.1.text@ == "FITS: "@ + file_name@ + " ("@ + text::decimal(
            width as int,
        ) + "x"@ + (text::decimal(height as int) + ", "@ + text::decimal(bit_depth as int)
            + "-bit, "@ + text::decimal(frames as int)) + " frames)"@,
{
}

/// A file that could not be loaded is no longer waited for, is reported, and
/// changes nothing else.
pub proof fn law_file_failure_is_reported(s: &mut Session, err: &str, r: Note)
    requires
        old(s)@.wf(),
        call_ensures(Session::fits_failed, (s, err), r),
    ensures
        !final(s).fits_pending,
        final(s)@ == (SessionState { fits_pending: false, ..old(s)@ }),
        final(s).running == old(s).running && final(s).capture == old(s).capture,
        r.level == LogLevel::Error && r.text@ == "Failed to open FITS: "@ + err@,
{
}

/// Opening a camera forgets the last error and stops the capture. The camera
/// that opened is the selected source, of its own kind, and it runs.
pub proof fn law_opened_camera_is_selected(
    s: &mut Session,
    t: &mut Session,
    device: SourceInfo,
    a: Stopped,
    b: Note,
)
    requires
        old(s)@.wf(),
        call_ensures(Session::begin_open, (s,), a),
        *old(t) == *final(s),
        call_ensures(Session::device_opened, (t, &device), b),
    ensures
        final(s).camera_error is None,
        final(s).capture == CaptureKind::Stopped && !final(s).running && final(s).recording is None,
        a.closed == old(s).capture,
        sources::is_source_of(final(t).source, device),
        final(t).running,
        final(t).camera_error is None,
        b.level == LogLevel::Info,
        match device {
            SourceInfo::SVBony(d) => final(t).capture == CaptureKind::SVBony && b.text@
                == "Camera opened: "@ + d.name@,
            SourceInfo::Toupcam(d) => final(t).capture == CaptureKind::Toupcam && b.text@
                == "Camera opened: "@ + d.display_name@,
            SourceInfo::Gev(d) => final(t).capture == CaptureKind::Gev && b.text@
                == "GigE camera opened: "@ + d.display_name@,
        },
{
}

/// A camera that could not be opened is reported, in the Connect window and in
/// the log alike, and nothing else changes.
pub proof fn law_camera_failure_is_reported(
    s: &mut Session,
    device: SourceInfo,
    err: &str,
    r: Note,
)
    requires
        old(s)@.wf(),
        call_ensures(Session::device_failed, (s, &device, err), r),
    ensures
        final(s).camera_error matches Some(e) && e@ == r.text@,
        r.level == LogLevel::Error,
        device is Gev ==> r.text@ == "Failed to open GigE camera: "@ + err@,
        device !is Gev ==> r.text@ == "Failed to open camera: "@ + err@,
        final(s).running == old(s).running && final(s).capture == old(s).capture,
        sources::names_same(final(s).source, old(s).source),
        final(s)@ == (SessionState { camera_error: final(s)@.camera_error, ..old(s)@ }),
{
}

/// A server that answered is the selected source, without the white space
/// around its address, and the Controls tab is shown. One that did not is
/// reported.
pub proof fn law_server_is_selected_once_it_answers(
    s: &mut Session,
    t: &mut Session,
    addr: &str,
    host: &str,
    port: u16,
    err: &str,
    a: Note,
    b: Note,
)
    requires
        old(s)@.wf(),
        old(t)@.wf(),
        call_ensures(Session::indi_connected, (s, addr, host, port), a),
        call_ensures(Session::indi_failed, (t, err), b),
    ensures
        final(s).source matches CameraSource::Indi(h) && h@ == text::trimmed(addr@),
        final(s).capture == CaptureKind::Indi && final(s).running && final(s).tab
            == BottomTab::Controls,
        final(s).bottom_open == old(s).bottom_open,
        a.level == LogLevel::Info && a.text@ == "INDI: connected to "@ + host@ + ":"@
            + text::decimal(port as int),
        final(t).camera_error matches Some(e) && e@ == "INDI connect failed: "@ + err@,
        b.level == LogLevel::Error && b.text@ == "INDI connect failed: "@ + err@,
        final(t).running == old(t).running && final(t).capture == old(t).capture && final(t).tab
            == old(t).tab,
        sources::names_same(final(t).source, old(t).source),
{
}

/// A camera that is nowhere to be found is reported by its descriptor.
pub proof fn law_missing_camera_is_reported(s: &mut Session, descriptor: &str, r: Note)
    requires
        old(s)@.wf(),
        call_ensures(Session::source_not_found, (s, descriptor), r),
    ensures
        final(s).camera_error matches Some(e) && e@ == "Source not found: "@ + descriptor@,
        r.level == LogLevel::Error && r.text@ == "Source not found: "@ + descriptor@,
        final(s).running == old(s).running && final(s).capture == old(s).capture,
        sources::names_same(final(s).source, old(s).source),
{
}

/// A recording counts the frames that its writer took, from none, and stopping
/// it reports the count under the name it was started with.
pub proof fn law_recording_counts_its_frames(
    s: &mut Session,
    t: &mut Session,
    u: &mut Session,
    filename: String,
    path: &str,
    taken: bool,
    a: Note,
    b: Option<Note>,
)
    requires
        old(s)@.wf(),
        call_ensures(Session::recording_started, (s, filename, path), a),
        *old(t) == *final(s),
        call_ensures(Session::frame_recorded, (t, taken), ()),
        *old(u) == *final(t),
        call_ensures(Session::stop_recording, (u,), b),
    ensures
        a.level == LogLevel::Info && a.text@ == "Recording started: "@ + path@,
        final(s).recording matches Some(x) && x.filename@ == filename@ && x.frames == 0,
        final(t).recording matches Some(x) && x.filename@ == filename@ && x.frames == (if taken {
            1u32
        } else {
            0u32
        }),
        final(u).recording is None,
        b matches Some(n) && n.level == LogLevel::Info && n.text@ == "Recording stopped: "@
            + filename@ + " ("@ + text::decimal(
            if taken {
                1
            } else {
                0
            },
        ) + " frames)"@,
        final(u).running == old(s).running && final(u).capture == old(s).capture,
{
}

/// A frame that the writer took adds one to the count, one that it had no room
/// for adds nothing, and without a recording there is nothing to count.
pub proof fn law_only_taken_frames_count(s: &mut Session, taken: bool)
    requires
        old(s)@.wf(),
        old(s).recording matches Some(x) ==> x.frames < 0xffff_ffff,
        call_ensures(Session::frame_recorded, (s, taken), ()),
    ensures
        old(s).recording is None <==> final(s).recording is None,
        old(s).recording is Some ==> final(s).recording->0.filename@ == old(
            s,
        ).recording->0.filename@ && final(s).recording->0.frames == old(s).recording->0.frames + (
        if taken {
            1int
        } else {
            0int
        }),
{
}

/// A recordings directory that could not be created is named with the reason.
pub proof fn law_recording_directory_failure(s: Session, dir: &str, err: &str, r: Note)
    requires
        call_ensures(Session::recording_dir_failed, (&s, dir, err), r),
    ensures
        r.level == LogLevel::Error,
        r.text@ == "Failed to create recordings dir "@ + dir@ + ": "@ + err@,
{
}

/// Of the frames waiting only the newest is shown, so all the others count as
/// dropped. A channel whose other end is gone ends the capture's run.
pub proof fn law_superseded_frames_are_dropped(s: &mut Session, received: u64, gone: bool)
    requires
        old(s)@.wf(),
        old(s).drain_drops + received <= u64::MAX,
        call_ensures(Session::frames_drained, (s, received, gone), ()),
    ensures
        received <= 1 ==> final(s).drain_drops == old(s).drain_drops,
        received >= 1 ==> final(s).drain_drops + 1 == old(s).drain_drops + received,
        gone ==> !final(s).running,
        !gone ==> final(s).running == old(s).running,
        final(s).capture == old(s).capture,
        sources::names_same(final(s).source, old(s).source),
        final(s)@.recording == old(s)@.recording,
{
}

/// The drop count is the sum of what each stage lost, where the stages of a
/// GigE stream count for a GigE capture only.
pub proof fn law_drops_add_up(s: Session, pump: u64, a: u64, b: u64, c: u64, r: u64)
    requires
        pump + s.drain_drops + a + b + c <= u64::MAX,
        call_ensures(Session::dropped_total, (&s, pump, a, b, c), r),
    ensures
        s.capture == CaptureKind::Gev ==> r == pump + s.drain_drops + a + b + c,
        s.capture != CaptureKind::Gev ==> r == pump + s.drain_drops,
{
}

/// Keys that are not pressed do nothing, and the bare ones do nothing while
/// something is being typed.
pub proof fn law_keys_do_what_they_name(s: &mut Session, keys: Keys, typing: bool, r: KeySteps)
    requires
        old(s)@.wf(),
        call_ensures(Session::shortcuts, (s, keys, typing), r),
    ensures
        r.quit == keys.quit,
        r.open_dialog <==> keys.open && !old(s).dialog_pending,
        keys.open ==> final(s).dialog_pending,
        !keys.open ==> final(s).dialog_pending == old(s).dialog_pending,
        keys.connect ==> final(s).connect_open,
        keys.side_panel && !typing ==> final(s).side_open == !old(s).side_open,
        !keys.side_panel || typing ==> final(s).side_open == old(s).side_open,
        keys.bottom_panel && !typing ==> final(s).bottom_open == !old(s).bottom_open,
        !keys.bottom_panel || typing ==> final(s).bottom_open == old(s).bottom_open,
        !keys.play || typing ==> !r.play && !r.stop,
        !keys.connect && (!keys.play || typing || old(s).running || old(s).source !is NoSource)
            ==> final(s).connect_open == old(s).connect_open,
        keys.play && !typing && old(s).running ==> r.stop && !r.play,
        keys.play && !typing && !old(s).running && old(s).source !is NoSource ==> r.play && !r.stop,
        keys.play && !typing && !old(s).running && old(s).source is NoSource ==> !r.play && !r.stop
            && final(s).connect_open,
        !keys.record || typing ==> !r.start_recording && !r.stop_recording,
        keys.record && !typing ==> (r.start_recording <==> old(s).recording is None) && (
        r.stop_recording <==> old(s).recording is Some),
        final(s).running == old(s).running && final(s).capture == old(s).capture && final(s).tab
            == old(s).tab,
        sources::names_same(final(s).source, old(s).source),
        final(s)@.recording == old(s)@.recording,
{
}

/// A second file dialog is not opened while one is open; once it closed, the
/// next one is.
pub proof fn law_one_dialog_at_a_time(
    s: &mut Session,
    t: &mut Session,
    u: &mut Session,
    v: &mut Session,
    a: bool,
    b: bool,
    c: bool,
)
    requires
        old(s)@.wf(),
        call_ensures(Session::begin_dialog, (s,), a),
        *old(t) == *final(s),
        call_ensures(Session::begin_dialog, (t,), b),
        *old(u) == *final(t),
        call_ensures(Session::end_dialog, (u,), ()),
        *old(v) == *final(u),
        call_ensures(Session::begin_dialog, (v,), c),
    ensures
        a == !old(s).dialog_pending,
        final(s).dialog_pending,
        !b,
        !final(u).dialog_pending,
        c,
{
}

/// Showing a tab selects it and opens the panel that it stands in.
pub proof fn law_tab_is_shown(s: &mut Session, tab: BottomTab)
    requires
        old(s)@.wf(),
        call_ensures(Session::show_tab, (s, tab), ()),
    ensures
        final(s).tab == tab,
        final(s).bottom_open,
        final(s).side_open == old(s).side_open,
        final(s)@ == (SessionState { tab: final(s).tab, bottom_open: true, ..old(s)@ }),
{
}

/// What the Connect window reports is taken over: it stays open as asked unless
/// a file is to be opened, an address that was refused is shown, and the error
/// goes once a connection is tried.
pub proof fn law_connect_window_reports(
    s: &mut Session,
    keep_open: bool,
    manual_err: Option<String>,
    open_fits: bool,
    connecting: bool,
    r: bool,
)
    requires
        old(s)@.wf(),
        call_ensures(
            Session::connect_reported,
            (s, keep_open, manual_err, open_fits, connecting),
            r,
        ),
    ensures
        final(s).connect_open <==> keep_open && !open_fits,
        connecting ==> final(s).camera_error is None,
        !connecting ==> (manual_err matches Some(e) ==> (final(s).camera_error matches Some(x)
            && x@ == e@)),
        !connecting && manual_err is None ==> final(s)@.camera_error == old(s)@.camera_error,
        r <==> open_fits && !old(s).dialog_pending,
        open_fits ==> final(s).dialog_pending,
        !open_fits ==> final(s).dialog_pending == old(s).dialog_pending,
        final(s).running == old(s).running && final(s).capture == old(s).capture,
        sources::names_same(final(s).source, old(s).source),
{
}

/// Escape closes the Connect window; an attempt to connect closes it unless
/// there is an error to show in it.
pub proof fn law_connect_window_closes(s: &mut Session, t: &mut Session)
    requires
        old(s)@.wf(),
        old(t)@.wf(),
        call_ensures(Session::dismiss_connect, (s,), ()),
        call_ensures(Session::connect_finished, (t,), ()),
    ensures
        !final(s).connect_open,
        final(s)@ == (SessionState { connect_open: false, ..old(s)@ }),
        old(t).camera_error is None ==> !final(t).connect_open,
        old(t).camera_error is Some ==> final(t).connect_open == old(t).connect_open,
        final(t)@ == (SessionState { connect_open: final(t).connect_open, ..old(t)@ }),
{
}

/// A group of the Connect window lists rows of its own backend, each once and
/// in their order, and leaves none of them out.
pub proof fn law_group_lists_its_backend(
    discovered: Vec<DiscoveredSource>,
    b: Backend,
    r: Vec<usize>,
)
    requires
        call_ensures(group_rows, (&discovered, &b), r),
    ensures
        forall|k: int|
            0 <= k < r.len() ==> (#[trigger] r@[k]) < discovered.len()
                && discovered@[r@[k] as int].backend@ == b.name@,
        forall|i: int|
            0 <= i < discovered.len() && (#[trigger] discovered@[i]).backend@ == b.name@ ==> exists|
                k: int,
            |
                0 <= k < r.len() && discovered@[#[trigger] r@[k] as int]@ == discovered@[i]@,
{
    let all = sources::rows(discovered@);
    let pick = |d: DiscoveredId| d.backend == b.name@;
    let at = |i: usize| discovered@[i as int]@;
    let got = all.filter(pick);
    assert(r@.map_values(at) == got);
    assert forall|k: int| 0 <= k < r.len() implies (#[trigger] r@[k]) < discovered.len()
        && discovered@[r@[k] as int].backend@ == b.name@ by {
        assert(r@.map_values(at)[k] == at(r@[k]));
        all.lemma_filter_pred(pick, k);
    }
    assert forall|i: int|
        0 <= i < discovered.len() && (#[trigger] discovered@[i]).backend@ == b.name@ implies exists|
            k: int,
        |
            0 <= k < r.len() && discovered@[#[trigger] r@[k] as int]@ == discovered@[i]@ by {
        assert(all[i] == discovered@[i]@);
        all.lemma_filter_contains(pick, i);
        assert(got.contains(all[i]));
        let k = choose|k: int| 0 <= k < got.len() && got[k] == all[i];
        assert(r@.map_values(at)[k] == at(r@[k]));
    }
}

/// Only a GigE camera has an address to remember, its own, and that address is
/// what its field starts with at the next launch.
pub proof fn law_opened_address_fills_the_field(
    device: SourceInfo,
    ip: Option<String>,
    last: Option<&str>,
    r: Vec<(&'static str, String)>,
)
    requires
        call_ensures(address_to_remember, (&device,), ip),
        device matches SourceInfo::Gev(d) ==> sources::is_ipv4(d.ip@),
        last is Some <==> ip is Some,
        last matches Some(t) ==> t@ == ip->0@,
        call_ensures(initial_inputs, (last,), r),
    ensures
        match device {
            SourceInfo::Gev(d) => ip matches Some(t) && t@ == d.ip@,
            _ => ip is None,
        },
        r.len() == 2,
        r@[0].0@ == "gev"@ && r@[1].0@ == "indi"@,
        match device {
            SourceInfo::Gev(d) => r@[0].1@ == d.ip@,
            _ => r@[0].1@ == ""@,
        },
        r@[1].1@ == "localhost"@,
{
    if let SourceInfo::Gev(d) = device {
        law_remembered_address_comes_back(d.ip@);
    }
}

/// A new session is idle: nothing is selected, captured, recorded or waited
/// for, and the discovered devices are those it was given.
pub proof fn law_new_session_is_idle(discovered: Vec<DiscoveredSource>, r: Session)
    requires
        call_ensures(Session::new, (discovered,), r),
    ensures
        r.source is NoSource,
        r.capture == CaptureKind::Stopped,
        !r.running && r.recording is None && r.camera_error is None && r.drain_drops == 0,
        !r.connect_open && !r.fits_pending && !r.dialog_pending,
        r.tab == BottomTab::Histogram && r.bottom_open && r.side_open,
        !r.background.enabled && r.background.percent == 35 && r.background.frames == 0
            && r.background.computed is None && r.background.pending is None,
        r.discovered.len() == discovered.len(),
        forall|i: int|
            0 <= i < discovered.len() ==> (#[trigger] r.discovered@[i])@ == discovered@[i]@,
{
    assert(sources::rows(r.discovered@).len() == r.discovered.len());
    assert(sources::rows(discovered@).len() == discovered.len());
    assert forall|i: int| 0 <= i < discovered.len() implies (#[trigger] r.discovered@[i])@
        == discovered@[i]@ by {
        assert(sources::rows(r.discovered@)[i] == r.discovered@[i]@);
        assert(sources::rows(discovered@)[i] == discovered@[i]@);
    }
}

/// The descriptor that is remembered is that of the selected source.
pub proof fn law_selected_source_is_remembered(s: Session, r: Option<String>, d: Option<String>)
    requires
        call_ensures(Session::descriptor_to_remember, (&s,), r),
        call_ensures(CameraSource::descriptor, (&s.source,), d),
    ensures
        r is Some <==> s.source !is NoSource,
        r is Some <==> d is Some,
        r matches Some(t) ==> t@ == d->0@,
{
}

/// At startup a descriptor that was read is opened, and one that was not is
/// reported. A remembered source is announced, one from the command line is
/// not.
pub proof fn law_startup_opens_or_reports(
    origin: Origin,
    descriptor: &str,
    parsed: Result<CameraSource, String>,
    r: Startup,
)
    requires
        call_ensures(startup_with, (origin, descriptor, parsed), r),
    ensures
        match parsed {
            Ok(s) => r.open matches Some(t) && sources::names_same(s, t),
            Err(_) => r.open is None,
        },
        parsed is Ok && origin == Origin::CommandLine ==> r.note is None,
        parsed is Ok && origin == Origin::Remembered ==> (r.note matches Some(n) && n.level
            == LogLevel::Info && n.text@ == "Reconnecting to last source: "@ + descriptor@),
        parsed matches Err(e) ==> (r.note matches Some(n) && n.level == LogLevel::Error && n.text@
            == (if origin == Origin::CommandLine {
            "Command-line source: "@
        } else {
            "Remembered source: "@
        }) + e@),
{
}

/// A source given on the command line wins over the remembered one. Without
/// either, or with a blank one, startup does nothing.
pub proof fn law_command_line_wins(
    arg: Option<&str>,
    remembered: Option<&str>,
    other: Option<&str>,
    a: Startup,
    b: Startup,
)
    requires
        call_ensures(startup, (arg, remembered), a),
        call_ensures(startup, (arg, other), b),
    ensures
        arg is None && remembered is None ==> a.note is None && a.open is None,
        arg is None ==> (remembered matches Some(d) ==> (text::trimmed(d@).len() == 0
            ==> a.note is None && a.open is None)),
        arg is None ==> (remembered matches Some(d) ==> (text::trimmed(d@).len() > 0
            ==> a.note is Some)),
        arg matches Some(t) ==> (text::begins_with(text::trimmed(t@), "file:"@) ==> (
        a.open matches Some(CameraSource::FitsFile(p)) && p@ == text::trimmed(t@).skip(5)
            && a.note is None && b.note is None && (b.open matches Some(s) && sources::names_same(
            s,
            a.open->0,
        )))),
{
    reveal_strlit("file:");
}

/// A full enumeration replaces what was discovered and touches nothing else.
pub proof fn law_refresh_replaces_the_devices(
    s: &mut Session,
    found: Vec<Vec<SourceInfo>>,
    all: Vec<DiscoveredSource>,
)
    requires
        old(s)@.wf(),
        call_ensures(Session::refresh_sources, (s, &found), ()),
        call_ensures(sources::discover_all, (&found,), all),
    ensures
        sources::rows(final(s).discovered@) == sources::rows(all@),
        final(s)@ == (SessionState { discovered: final(s)@.discovered, ..old(s)@ }),
        final(s).running == old(s).running && final(s).capture == old(s).capture,
{
}

/// The enumeration of one backend replaces that backend's devices and touches
/// nothing else.
pub proof fn law_backend_refresh_replaces_its_devices(
    s: &mut Session,
    b: Backend,
    found: Vec<SourceInfo>,
    all: Vec<DiscoveredSource>,
)
    requires
        old(s)@.wf(),
        call_ensures(Session::refresh_backend, (s, &b, &found), ()),
        call_ensures(sources::splice_rows, (&old(s).discovered, &b, &found), all),
    ensures
        sources::rows(final(s).discovered@) == sources::rows(all@),
        final(s)@ == (SessionState { discovered: final(s)@.discovered, ..old(s)@ }),
        final(s).running == old(s).running && final(s).capture == old(s).capture,
{
}

} // verus!
