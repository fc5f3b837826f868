//! Decisions of the ToupTek capture thread. The thread itself only performs
//! what the functions here return and hands back what happened.

use crate::frames;
use crate::frames::RawImage;
use crate::text;
use crate::toupcam_camera as camera;
use crate::toupcam_camera::{SdkCall, ToupCmd};
use vstd::prelude::*;
use vstd::string::*;

verus! {

/// State of a capture thread.
#[derive(PartialEq, Eq, Debug)]
pub struct CaptureLoop {
    pub cam_name: String,
    /// Samples are pulled as 16 bits.
    pub sixteen: bool,
    pub bit_depth: u8,
    /// Bayer pattern for color sensors (`None` = mono or unrecognized).
    pub cfa: Option<&'static str>,
    /// Software 2 by 2 superpixel averaging.
    pub superpixel: bool,
    /// Hardware binning is off. The SDK's binning modes are not pattern-aware,
    /// so binned color frames carry no usable mosaic.
    pub hw_bin_1x1: bool,
    /// How far 16-bit samples are shifted right, once they are known to arrive
    /// left-justified. The SDK does not document this and it varies by model:
    /// any sample above the native range proves it.
    pub shift_bits: u8,
}

/// What the thread does with a command.
#[derive(PartialEq, Eq, Debug)]
pub enum CmdStep {
    /// Stop the stream and leave.
    Leave,
    /// Stop the stream, select the resolution at this index, start again.
    Restart(u32),
    /// The command was for the loop itself.
    Absorbed,
    /// Make this SDK call.
    Call(SdkCall),
}

/// What happened while the thread waited for the camera.
#[derive(Clone, Copy, PartialEq, Eq, Structural, Debug)]
pub enum CameraEvent {
    Image,
    Disconnected,
    Error,
    /// Exposure, white-balance and still notifications: not used.
    Notice,
    /// Nothing within the polling interval.
    Timeout,
    /// The SDK closed the event channel.
    Closed,
}

/// What the thread does about an event.
#[derive(PartialEq, Eq, Debug)]
pub enum EventStep {
    Pull,
    Wait,
    /// Leave, with an error message for the log where there is one.
    Leave { stop_stream: bool, error: Option<String> },
}

/// How the mosaic of the current frame is to be treated.
#[derive(Clone, Copy, PartialEq, Eq, Debug)]
pub struct MosaicPlan {
    /// Pattern by which per-channel histograms are computed.
    pub histograms: Option<&'static str>,
    /// Average 2 by 2 cells after that.
    pub average: bool,
    /// Pattern that the finished frame's pixels still carry.
    pub label: Option<&'static str>,
}

impl CaptureLoop {
    /// The depth fits the sample size, and the shift is none or that of
    /// left-justified samples.
    pub open spec fn wf(&self) -> bool {
        &&& 8 <= self.bit_depth <= 16
        &&& self.sixteen == (self.bit_depth > 8)
        &&& self.shift_bits == 0 || (self.justifiable() && self.shift_bits == 16 - self.bit_depth)
    }

    /// Samples have more bits than the sensor.
    pub open spec fn justifiable(&self) -> bool {
        self.sixteen && self.bit_depth < 16
    }

    /// The state of a thread that starts.
    pub fn start(
        cam_name: String,
        sixteen: bool,
        bit_depth: u8,
        cfa: Option<&'static str>,
    ) -> (r: CaptureLoop)
        requires
            8 <= bit_depth <= 16,
            sixteen == (bit_depth > 8),
        ensures
            r.wf(),
            r.cam_name == cam_name,
            r.sixteen == sixteen,
            r.bit_depth == bit_depth,
            r.cfa == cfa,
            !r.superpixel,
            r.hw_bin_1x1,
            r.shift_bits == 0,
    {
        CaptureLoop {
            cam_name,
            sixteen,
            bit_depth,
            cfa,
            superpixel: false,
            hw_bin_1x1: true,
            shift_bits: 0,
        }
    }

    /// Takes a command. Superpixel averaging is the loop's own; a change of
    /// the binning option is noted on its way to the camera: the bin factor is
    /// the low nibble of the mode value.
    pub fn on_command(&mut self, cmd: ToupCmd) -> (r: CmdStep)
        requires
            old(self).wf(),
        ensures
            final(self).wf(),
            *final(self) == (CaptureLoop {
                superpixel: match cmd {
                    ToupCmd::SetSuperpixel(on) => on,
                    _ => old(self).superpixel,
                },
                hw_bin_1x1: match cmd {
                    ToupCmd::SetOption(opt, v) => if opt.0 == camera::OPTION_BINNING {
                        (v as int) % 16 <= 1
                    } else {
                        old(self).hw_bin_1x1
                    },
                    _ => old(self).hw_bin_1x1,
                },
                ..*old(self)
            }),
            r == (match cmd {
                ToupCmd::Stop => CmdStep::Leave,
                ToupCmd::SetResolution(i) => CmdStep::Restart(i),
                ToupCmd::SetSuperpixel(_) => CmdStep::Absorbed,
                _ => CmdStep::Call(camera::call_for(cmd)->Some_0),
            }),
    {
        match cmd {
            ToupCmd::Stop => { return CmdStep::Leave; },
            ToupCmd::SetResolution(i) => { return CmdStep::Restart(i); },
            ToupCmd::SetSuperpixel(on) => {
                self.superpixel = on;
                return CmdStep::Absorbed;
            },
            ToupCmd::SetOption(opt, v) => {
                if opt.0 == camera::OPTION_BINNING {
                    assert((v & 0x0f) as int == (v as int) % 16) by (bit_vector);
                    self.hw_bin_1x1 = (v & 0x0f) <= 1;
                }
            },
            _ => {},
        }
        CmdStep::Call(camera::apply_cmd(cmd))
    }

    /// Takes an event.
    pub fn on_event(&self, event: CameraEvent) -> (r: EventStep)
        ensures
            match event {
                CameraEvent::Image => r == EventStep::Pull,
                CameraEvent::Notice => r == EventStep::Wait,
                CameraEvent::Timeout => r == EventStep::Wait,
                CameraEvent::Closed => r == (EventStep::Leave { stop_stream: false, error: None }),
                CameraEvent::Disconnected => r matches EventStep::Leave {
                    stop_stream: false,
                    error: Some(m),
                } && m@ == self.cam_name@ + ": camera disconnected"@,
                CameraEvent::Error => r matches EventStep::Leave {
                    stop_stream: true,
                    error: Some(m),
                } && m@ == self.cam_name@
                    + ": camera reported an error, stopping capture"@,
            },
    {
        match event {
            CameraEvent::Image => EventStep::Pull,
            CameraEvent::Notice => EventStep::Wait,
            CameraEvent::Timeout => EventStep::Wait,
            CameraEvent::Closed => EventStep::Leave { stop_stream: false, error: None },
            CameraEvent::Disconnected => {
                let m: String = text::join2(self.cam_name.as_str(), ": camera disconnected");
                EventStep::Leave { stop_stream: false, error: Some(m) }
            },
            CameraEvent::Error => {
                let m: String = text::join2(
                    self.cam_name.as_str(),
                    ": camera reported an error, stopping capture",
                );
                EventStep::Leave { stop_stream: true, error: Some(m) }
            },
        }
    }

    /// The shift after seeing `img`: found out by the first sample above the
    /// native range, and kept from then on.
    pub open spec fn shift_after(&self, img: RawImage) -> u8 {
        if self.justifiable() && self.shift_bits == 0 && (img matches RawImage::Luma16 {
            data,
            ..
        } && exists|i: int|
            0 <= i < data@.len() && data@[i] > frames::native_max_of(self.bit_depth)) {
            (16 - self.bit_depth) as u8
        } else {
            self.shift_bits
        }
    }

    /// Brings an image into the sensor's native range: watches for
    /// left-justified samples and shifts them down. The second result is the
    /// log line on finding them.
    pub fn on_image(&mut self, img: RawImage) -> (r: (RawImage, Option<String>))
        requires
            old(self).wf(),
            img.wf(),
        ensures
            final(self).wf(),
            *final(self) == (CaptureLoop { shift_bits: old(self).shift_after(img), ..*old(self) }),
            if final(self).shift_bits > 0 {
                frames::shifted(img, final(self).shift_bits, r.0)
            } else {
                r.0 == img
            },
            r.0.wf(),
            old(self).justifiable() ==> (r.0 matches RawImage::Luma16 { data, .. } ==> forall|
                i: int,
            |
                0 <= i < data@.len() ==> #[trigger] data@[i] <= frames::native_max_of(
                    old(self).bit_depth,
                )),
            match r.1 {
                Some(m) => old(self).shift_bits == 0 && final(self).shift_bits > 0 && m@ == old(
                    self,
                ).cam_name@ + ": 16-bit samples are left-justified, shifting right by "@
                    + text::decimal(final(self).shift_bits as int),
                None => final(self).shift_bits == old(self).shift_bits,
            },
    {
        let ghost given = img;
        let mut note: Option<String> = None;
        let mut out: RawImage = img;
        if self.sixteen && self.bit_depth < 16 {
            let native: u16 = frames::native_max(self.bit_depth);
            if self.shift_bits == 0 && frames::image_exceeds(&out, native) {
                self.shift_bits = 16 - self.bit_depth;
                let n: String = text::int_text(self.shift_bits as i128);
                note =
                Some(
                    text::join3(
                        self.cam_name.as_str(),
                        ": 16-bit samples are left-justified, shifting right by ",
                        n.as_str(),
                    ),
                );
            }
            if self.shift_bits > 0 {
                out = frames::shift_image_right(out, self.shift_bits);
                let ghost made = out;
                proof {
                    if let RawImage::Luma16 { data, .. } = given {
                        if let RawImage::Luma16 { data: d, .. } = made {
                            assert forall|i: int| 0 <= i < d@.len() implies #[trigger] d@[i]
                                <= frames::native_max_of(self.bit_depth) by {
                                frames::law_shift_lands_in_native_range(self.bit_depth, data@[i]);
                                assert(self.shift_bits == (16 - self.bit_depth) as u8);
                                assert(d@[i] == frames::sample_shifted(data@[i], self.shift_bits));
                            }
                        }
                    }
                }
            }
        }
        (out, note)
    }

    /// How the current frame's mosaic is to be treated. Per-channel histograms
    /// come from the raw mosaic; superpixel averaging is applied after, so
    /// that display, statistics and recording see the binned frame.
    pub fn mosaic_plan(&self) -> (r: MosaicPlan)
        ensures
            r.histograms == (if self.hw_bin_1x1 {
                self.cfa
            } else {
                None
            }),
            r.average == (self.superpixel && r.histograms is Some),
            r.label == (if self.superpixel {
                None
            } else {
                r.histograms
            }),
    {
        let live: Option<&'static str> = if self.hw_bin_1x1 {
            self.cfa
        } else {
            None
        };
        let label: Option<&'static str> = if self.superpixel {
            None
        } else {
            live
        };
        MosaicPlan { histograms: live, average: self.superpixel && live.is_some(), label }
    }

    /// The log line on a command that the camera refused.
    pub fn refused_note(&self, error: &str) -> (r: String)
        ensures
            r@ == self.cam_name@ + ": set control failed: "@ + error@,
    {
        text::join3(self.cam_name.as_str(), ": set control failed: ", error)
    }

    /// The log line on an image that could not be pulled.
    pub fn pull_failed_note(&self, error: &str) -> (r: String)
        ensures
            r@ == self.cam_name@ + ": pull image failed: "@ + error@,
    {
        text::join3(self.cam_name.as_str(), ": pull image failed: ", error)
    }

    /// The log line on a restart that failed, after which the thread leaves.
    pub fn restart_failed_note(&self, error: &str) -> (r: String)
        ensures
            r@ == self.cam_name@ + ": resolution change failed: "@ + error@,
    {
        text::join3(self.cam_name.as_str(), ": resolution change failed: ", error)
    }

    /// The log line on a new resolution.
    pub fn restarted_note(&self, width: u32, height: u32) -> (r: String)
        ensures
            r@ == self.cam_name@ + ": resolution changed to "@ + text::decimal(width as int)
                + " \u{d7} "@ + text::decimal(height as int),
    {
        let w: String = text::int_text(width as i128);
        let h: String = text::int_text(height as i128);
        text::join5(
            self.cam_name.as_str(),
            ": resolution changed to ",
            w.as_str(),
            " \u{d7} ",
            h.as_str(),
        )
    }
}

/// Is nobody left to take frames? A frame that could not be sent although the
/// channel is empty means that its other end is gone.
pub fn receiver_gone(sent: bool, channel_empty: bool) -> (r: bool)
    ensures
        r == (!sent && channel_empty),
{
    !sent && channel_empty
}

// ---------------------------------------------------------------------------
// What the thread keeps to

/// Every command is carried out: the three that are the thread's own by the
/// thread, each other by the call that sets what the command names.
pub proof fn law_commands_are_carried_out(
    c: &mut CaptureLoop,
    cmd: ToupCmd,
    r: CmdStep,
    call: SdkCall,
)
    requires
        old(c).wf(),
        call_ensures(CaptureLoop::on_command, (c, cmd), r),
        cmd !is Stop && cmd !is SetResolution && cmd !is SetSuperpixel ==> call_ensures(
            camera::apply_cmd,
            (cmd,),
            call,
        ),
    ensures
        cmd is Stop <==> r is Leave,
        cmd matches ToupCmd::SetResolution(i) ==> r == CmdStep::Restart(i),
        cmd matches ToupCmd::SetSuperpixel(on) ==> r is Absorbed && final(c).superpixel == on,
        cmd !is Stop && cmd !is SetResolution && cmd !is SetSuperpixel ==> r == CmdStep::Call(call),
        cmd !is SetSuperpixel ==> final(c).superpixel == old(c).superpixel,
        final(c).bit_depth == old(c).bit_depth && final(c).shift_bits == old(c).shift_bits && final(c).cfa == old(c).cfa && final(c).sixteen == old(c).sixteen && final(c).cam_name == old(
            c,
        ).cam_name,
{
    if cmd !is Stop && cmd !is SetResolution && cmd !is SetSuperpixel {
        camera::law_command_sets_what_it_names(cmd, call, arbitrary());
    }
}

/// Hardware binning is known from the last binning command, by the low four
/// bits of its value, and from no other command.
pub proof fn law_binning_is_noted(c: &mut CaptureLoop, cmd: ToupCmd, r: CmdStep)
    requires
        old(c).wf(),
        call_ensures(CaptureLoop::on_command, (c, cmd), r),
    ensures
        match cmd {
            ToupCmd::SetOption(opt, v) => if opt.0 == 0x17 {
                final(c).hw_bin_1x1 <==> (v as int) % 16 == 0 || (v as int) % 16 == 1
            } else {
                final(c).hw_bin_1x1 == old(c).hw_bin_1x1
            },
            _ => final(c).hw_bin_1x1 == old(c).hw_bin_1x1,
        },
{
}

/// An image is pulled, silence is waited out, and everything else ends the
/// thread. The stream is stopped only where the camera is still there, and the
/// two ends that are failures are logged with the camera's name.
pub proof fn law_events_lead_on_or_out(c: CaptureLoop, event: CameraEvent, r: EventStep)
    requires
        call_ensures(CaptureLoop::on_event, (&c, event), r),
    ensures
        r is Pull <==> event == CameraEvent::Image,
        r is Wait <==> event == CameraEvent::Notice || event == CameraEvent::Timeout,
        r matches EventStep::Leave { stop_stream, error } ==> {
            &&& stop_stream <==> event == CameraEvent::Error
            &&& error is None <==> event == CameraEvent::Closed
            &&& error matches Some(m) ==> m@.len() > c.cam_name@.len() && m@.take(
                c.cam_name@.len() as int,
            ) == c.cam_name@
        },
{
    reveal_strlit(": camera disconnected");
    reveal_strlit(": camera reported an error, stopping capture");
    if let EventStep::Leave { stop_stream, error } = r {
        if let Some(m) = error {
            assert(m@.take(c.cam_name@.len() as int) =~= c.cam_name@);
        }
    }
}

/// Per-channel histograms need a mosaic that hardware binning left alone; a
/// frame whose mosaic was averaged away is not labeled with it.
pub proof fn law_mosaic_is_used_once(c: CaptureLoop, r: MosaicPlan)
    requires
        call_ensures(CaptureLoop::mosaic_plan, (&c,), r),
    ensures
        c.hw_bin_1x1 ==> r.histograms == c.cfa,
        !c.hw_bin_1x1 ==> r.histograms is None && !r.average && r.label is None,
        r.average <==> c.superpixel && c.hw_bin_1x1 && c.cfa is Some,
        c.superpixel ==> r.label is None,
        !c.superpixel && c.hw_bin_1x1 ==> r.label == c.cfa,
{
}

/// Samples are shifted once one was seen above the native range, by what the
/// depth lacks to 16 bits, and from then on always. Until then images pass as
/// they are.
pub proof fn law_left_justified_samples_are_shifted(
    c: &mut CaptureLoop,
    img: RawImage,
    r: (RawImage, Option<String>),
)
    requires
        old(c).wf(),
        img.wf(),
        call_ensures(CaptureLoop::on_image, (c, img), r),
    ensures
        old(c).shift_bits > 0 ==> final(c).shift_bits == old(c).shift_bits,
        final(c).shift_bits == 0 ==> r.0 == img,
        final(c).shift_bits > 0 ==> final(c).shift_bits + old(c).bit_depth == 16,
        old(c).bit_depth == 8 || old(c).bit_depth == 16 ==> r.0 == img,
        r.1 is Some <==> old(c).shift_bits == 0 && final(c).shift_bits > 0,
        final(c).bit_depth == old(c).bit_depth && final(c).cfa == old(c).cfa && final(c).superpixel
            == old(c).superpixel && final(c).hw_bin_1x1 == old(c).hw_bin_1x1,
        img matches RawImage::Luma16 { width, height, data } ==> (r.0 matches RawImage::Luma16 {
            width: w,
            height: h,
            data: d,
        } && w == width && h == height && d@.len() == data@.len()),
{
}

/// A new thread neither shifts nor averages, and takes the camera as unbinned.
pub proof fn law_thread_starts_plain(
    name: String,
    sixteen: bool,
    depth: u8,
    cfa: Option<&'static str>,
    r: CaptureLoop,
)
    requires
        8 <= depth <= 16,
        sixteen == (depth > 8),
        call_ensures(CaptureLoop::start, (name, sixteen, depth, cfa), r),
    ensures
        r.shift_bits == 0 && !r.superpixel && r.hw_bin_1x1,
        r.bit_depth == depth && r.sixteen == sixteen && r.cfa == cfa && r.cam_name == name,
{
}

/// A full channel is no reason to leave; one that is empty and still takes
/// nothing is.
pub proof fn law_full_channel_is_no_end(sent: bool, empty: bool, r: bool)
    requires
        call_ensures(receiver_gone, (sent, empty), r),
    ensures
        sent ==> !r,
        !empty ==> !r,
        !sent && empty ==> r,
{
}

/// The log lines of a capture begin with the camera's name and end with what
/// happened.
pub proof fn law_capture_notes_name_the_camera(
    c: CaptureLoop,
    error: &str,
    width: u32,
    height: u32,
    a: String,
    b: String,
    d: String,
    e: String,
)
    requires
        call_ensures(CaptureLoop::refused_note, (&c, error), a),
        call_ensures(CaptureLoop::pull_failed_note, (&c, error), b),
        call_ensures(CaptureLoop::restart_failed_note, (&c, error), d),
        call_ensures(CaptureLoop::restarted_note, (&c, width, height), e),
    ensures
        a@ == c.cam_name@ + ": set control failed: "@ + error@,
        b@ == c.cam_name@ + ": pull image failed: "@ + error@,
        d@ == c.cam_name@ + ": resolution change failed: "@ + error@,
        e@ == c.cam_name@ + ": resolution changed to "@ + text::decimal(width as int)
            + " \u{d7} "@ + text::decimal(height as int),
{
}

/// Shifting begins with the first sample above what the depth can hold, and not
/// before; each sample is then divided by the power of two that the depth lacks
/// to 16 bits, and the log says by how many bits.
pub proof fn law_shifting_begins_with_an_excess(
    c: &mut CaptureLoop,
    img: RawImage,
    r: (RawImage, Option<String>),
    max: u16,
    exceeds: bool,
    i: int,
)
    requires
        old(c).wf(),
        img.wf(),
        call_ensures(CaptureLoop::on_image, (c, img), r),
        call_ensures(frames::native_max, (old(c).bit_depth,), max),
        call_ensures(frames::image_exceeds, (&img, max), exceeds),
    ensures
        old(c).shift_bits == 0 ==> (final(c).shift_bits > 0 <==> old(c).sixteen && old(c).bit_depth
            < 16 && exceeds),
        r.1 matches Some(m) ==> m@ == old(c).cam_name@
            + ": 16-bit samples are left-justified, shifting right by "@ + text::decimal(
            16 - old(c).bit_depth,
        ),
        final(c).shift_bits > 0 ==> (img matches RawImage::Luma16 { data, .. } ==> (
        r.0 matches RawImage::Luma16 { data: d, .. } && (0 <= i < data@.len() ==> d@[i] as int
            == data@[i] as int / vstd::arithmetic::power2::pow2(
            (16 - old(c).bit_depth) as nat,
        ) as int))),
        final(c).shift_bits > 0 && img !is Luma16 ==> r.0 == img,
{
    if final(c).shift_bits > 0 {
        let k = (16 - old(c).bit_depth) as nat;
        vstd::arithmetic::power2::lemma2_to64();
        vstd::arithmetic::power2::lemma_pow2_pos(k);
        vstd::arithmetic::power2::lemma_pow2_strictly_increases(k, 16);
        if let RawImage::Luma16 { data, .. } = img {
            if let RawImage::Luma16 { data: d, .. } = r.0 {
                if 0 <= i < data@.len() {
                    assert(d@[i] == frames::sample_shifted(data@[i], final(c).shift_bits));
                    assert(final(c).shift_bits == 16 - old(c).bit_depth);
                }
            }
        }
    }
}

/// A camera that was unplugged is told apart from one that reported an error.
pub proof fn law_ends_are_told_apart(c: CaptureLoop, a: EventStep, b: EventStep, d: EventStep)
    requires
        call_ensures(CaptureLoop::on_event, (&c, CameraEvent::Disconnected), a),
        call_ensures(CaptureLoop::on_event, (&c, CameraEvent::Error), b),
        call_ensures(CaptureLoop::on_event, (&c, CameraEvent::Closed), d),
    ensures
        a matches EventStep::Leave { stop_stream, error } && !stop_stream && (error matches Some(m)
            && m@ == c.cam_name@ + ": camera disconnected"@),
        b matches EventStep::Leave { stop_stream, error } && stop_stream && (error matches Some(m)
            && m@ == c.cam_name@ + ": camera reported an error, stopping capture"@),
        d matches EventStep::Leave { stop_stream, error } && !stop_stream && error is None,
{
}

} // verus!
