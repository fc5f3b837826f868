//! Recording frames to a FITS file: the stored pixels, the cards of a frame,
//! and the life of the writer.

use crate::fits_header;
use crate::fits_header::{Card, CardSpec, CardValue, ValueSpec};
use crate::pixels::Pixels;
use crate::playback;
use crate::sources;
use crate::sources::{CameraSource, DiscoveredSource};
use crate::svbony_controls;
use crate::svbony_controls::{ControlType, ControlValue};
use crate::text;
use crate::toupcam_camera as toupcam;
use crate::toupcam_camera::{AdvControl, ToupControls};
use crate::wcs;
use crate::wcs::WcsKeys;
use vstd::prelude::*;
use vstd::string::*;

verus! {

// ---------------------------------------------------------------------------
// Stored pixels

/// Offset of stored samples: unsigned 16-bit values are stored as signed ones
/// less this.
pub const BZERO: i32 = 32768;

/// How a sample is stored.
pub open spec fn stored(px: u16) -> i16 {
    (px - BZERO) as i16
}

/// What a reader makes of a stored sample.
pub open spec fn read_back(v: i16) -> int {
    v + BZERO
}

/// Stores a sample as unsigned 16-bit.
pub fn store_sample(px: u16) -> (r: i16)
    ensures
        r == stored(px),
        r == px - BZERO,
{
    (px as i32 - BZERO) as i16
}

/// Reading back a stored sample gives the sample.
pub proof fn law_stored_sample_reads_back(px: u16)
    ensures
        read_back(stored(px)) == px,
{
}

/// Are `out` the stored samples of the pixels, where `quantize` turns a
/// floating-point pixel into a sample?
pub open spec fn are_stored<F, Q: Fn(F) -> u16>(
    pixels: Pixels<F>,
    quantize: Q,
    out: Seq<i16>,
) -> bool {
    match pixels {
        Pixels::U16(v) => out == v@.map_values(|px: u16| stored(px)),
        Pixels::F32(v) => out.len() == v@.len() && forall|i: int|
            0 <= i < v@.len() ==> call_ensures(
                quantize,
                (v@[i],),
                read_back(#[trigger] out[i]) as u16,
            ),
    }
}

/// The samples that a frame is stored as. An integer frame converts straight
/// from its native buffer.
pub fn store_pixels<F: Copy, Q: Fn(F) -> u16>(pixels: &Pixels<F>, quantize: Q) -> (r: Vec<i16>)
    requires
        forall|x: F| call_requires(quantize, (x,)),
    ensures
        are_stored(*pixels, quantize, r@),
{
    let mut out: Vec<i16> = Vec::new();
    match pixels {
        Pixels::U16(v) => {
            let ghost f = |px: u16| stored(px);
            for i in 0..v.len()
                invariant
                    f == (|px: u16| stored(px)),
                    out@ == v@.map_values(f).take(i as int),
            {
                out.push(store_sample(v[i]));
                assert(out@ =~= v@.map_values(f).take(i as int + 1));
            }
            assert(v@.map_values(f).take(v@.len() as int) =~= v@.map_values(f));
        },
        Pixels::F32(v) => {
            for i in 0..v.len()
                invariant
                    forall|x: F| call_requires(quantize, (x,)),
                    out.len() == i,
                    forall|j: int|
                        0 <= j < i ==> call_ensures(
                            quantize,
                            (v@[j],),
                            read_back(#[trigger] out@[j]) as u16,
                        ),
            {
                let px: u16 = quantize(v[i]);
                out.push(store_sample(px));
            }
        },
    }
    out
}

// ---------------------------------------------------------------------------
// Cards of a frame

/// What is known of a frame besides its pixels, with `F` for floating-point
/// numbers.
#[derive(PartialEq, Eq, Debug)]
pub struct FrameMeta<F> {
    /// Estimated mid-exposure time.
    pub date_obs: String,
    /// Exposure time, seconds.
    pub exptime: F,
    /// Sensor depth, so that playback scales the file as the live view did.
    pub bit_depth: u8,
    /// Bayer pattern of the pixel data, when it carries an intact mosaic.
    pub cfa: Option<&'static str>,
    /// Camera gain setting, in the camera's native units.
    pub gain: Option<F>,
    /// Black level or bias offset setting.
    pub offset: Option<F>,
    /// Sensor temperature, degrees Celsius.
    pub ccd_temp: Option<F>,
    /// Cooler setpoint, degrees Celsius (only when the cooler is on).
    pub set_temp: Option<F>,
    /// Sky mapping from the last plate solve, when one is locked.
    pub wcs: Option<WcsKeys<F>>,
}

/// The cards that name the mosaic. They are only written when the pixels still
/// carry one, so that calibration software never demosaics mono data.
pub open spec fn mosaic_cards<F>(cfa: Option<&'static str>) -> Seq<CardSpec<F>> {
    match cfa {
        Some(p) => seq![
            fits_header::card("BAYERPAT"@, ValueSpec::Text(p@), "CFA order of pixel (0,0)"@),
            fits_header::card("XBAYROFF"@, ValueSpec::Integer(0), "CFA X phase offset"@),
            fits_header::card("YBAYROFF"@, ValueSpec::Integer(0), "CFA Y phase offset"@),
        ],
        None => Seq::empty(),
    }
}

/// A card for a value that may be missing.
pub open spec fn optional_card<F>(
    name: Seq<char>,
    value: Option<F>,
    comment: Seq<char>,
) -> Seq<CardSpec<F>> {
    match value {
        Some(x) => seq![fits_header::card(name, ValueSpec::Real(x), comment)],
        None => Seq::empty(),
    }
}

/// The cards that every frame has.
pub open spec fn base_cards<F>(m: FrameMeta<F>) -> Seq<CardSpec<F>> {
    seq![
        fits_header::card("BZERO"@, ValueSpec::Whole(BZERO as int), "unsigned 16-bit offset"@),
        fits_header::card("BSCALE"@, ValueSpec::Whole(1), "default scaling"@),
        fits_header::card(
            "DATE-OBS"@,
            ValueSpec::Text(m.date_obs@),
            "estimated mid-exposure UTC"@,
        ),
        fits_header::card("EXPTIME"@, ValueSpec::Real(m.exptime), "exposure time in seconds"@),
        fits_header::card(
            "BITDEPTH"@,
            ValueSpec::Integer(m.bit_depth as int),
            "sensor ADC bit depth"@,
        ),
    ]
}

/// The cards of a frame, in the order in which they are written.
pub open spec fn frame_card_specs<F>(m: FrameMeta<F>) -> Seq<CardSpec<F>> {
    base_cards(m) + mosaic_cards(m.cfa) + optional_card("GAIN"@, m.gain, "camera gain setting"@)
        + optional_card("OFFSET"@, m.offset, "black level / bias offset (ADU)"@) + optional_card(
        "CCD-TEMP"@,
        m.ccd_temp,
        "sensor temperature (C)"@,
    ) + optional_card("SET-TEMP"@, m.set_temp, "cooler setpoint (C)"@) + (match m.wcs {
        Some(k) => wcs::wcs_cards(k),
        None => Seq::empty(),
    })
}

proof fn lemma_frame_keywords()
    ensures
        fits_header::is_keyword("BZERO"@),
        fits_header::is_keyword("BSCALE"@),
        fits_header::is_keyword("DATE-OBS"@),
        fits_header::is_keyword("EXPTIME"@),
        fits_header::is_keyword("BITDEPTH"@),
        fits_header::is_keyword("BAYERPAT"@),
        fits_header::is_keyword("XBAYROFF"@),
        fits_header::is_keyword("YBAYROFF"@),
        fits_header::is_keyword("GAIN"@),
        fits_header::is_keyword("OFFSET"@),
        fits_header::is_keyword("CCD-TEMP"@),
        fits_header::is_keyword("SET-TEMP"@),
        fits_header::is_keyword("OBJECT"@),
        fits_header::is_keyword("INSTRUME"@),
{
    reveal_strlit("BZERO");
    reveal_strlit("BSCALE");
    reveal_strlit("DATE-OBS");
    reveal_strlit("EXPTIME");
    reveal_strlit("BITDEPTH");
    reveal_strlit("BAYERPAT");
    reveal_strlit("XBAYROFF");
    reveal_strlit("YBAYROFF");
    reveal_strlit("GAIN");
    reveal_strlit("OFFSET");
    reveal_strlit("CCD-TEMP");
    reveal_strlit("SET-TEMP");
    reveal_strlit("OBJECT");
    reveal_strlit("INSTRUME");
}

fn push_optional<F: Copy>(
    list: &mut Vec<Card<F>>,
    name: &'static str,
    value: Option<F>,
    comment: &'static str,
)
    requires
        fits_header::is_keyword(name@),
        fits_header::all_keywords(old(list)@),
    ensures
        fits_header::all_keywords(final(list)@),
        fits_header::card_specs(final(list)@) == fits_header::card_specs(old(list)@)
            + optional_card(name@, value, comment@),
{
    let ghost before = fits_header::card_specs(list@);
    match value {
        Some(x) => {
            fits_header::push_card(list, name, CardValue::Real(x), Some(comment));
        },
        None => {},
    }
    assert(fits_header::card_specs(list@) =~= before + optional_card(name@, value, comment@));
}

/// The cards of a frame, in the order in which they are written.
pub fn frame_cards<F: Copy>(m: &FrameMeta<F>) -> (r: Vec<Card<F>>)
    ensures
        fits_header::all_keywords(r@),
        fits_header::card_specs(r@) == frame_card_specs(*m),
{
    proof {
        lemma_frame_keywords();
    }
    let mut c: Vec<Card<F>> = Vec::new();
    fits_header::push_card(
        &mut c,
        "BZERO",
        CardValue::Whole(BZERO),
        Some("unsigned 16-bit offset"),
    );
    fits_header::push_card(&mut c, "BSCALE", CardValue::Whole(1), Some("default scaling"));
    fits_header::push_card(
        &mut c,
        "DATE-OBS",
        CardValue::Text(m.date_obs.clone()),
        Some("estimated mid-exposure UTC"),
    );
    fits_header::push_card(
        &mut c,
        "EXPTIME",
        CardValue::Real(m.exptime),
        Some("exposure time in seconds"),
    );
    fits_header::push_card(
        &mut c,
        "BITDEPTH",
        CardValue::Integer(m.bit_depth as i64),
        Some("sensor ADC bit depth"),
    );
    assert(fits_header::card_specs(c@) =~= base_cards(*m));
    match m.cfa {
        Some(p) => {
            fits_header::push_card(
                &mut c,
                "BAYERPAT",
                CardValue::Text(p.to_string()),
                Some("CFA order of pixel (0,0)"),
            );
            fits_header::push_card(
                &mut c,
                "XBAYROFF",
                CardValue::Integer(0),
                Some("CFA X phase offset"),
            );
            fits_header::push_card(
                &mut c,
                "YBAYROFF",
                CardValue::Integer(0),
                Some("CFA Y phase offset"),
            );
        },
        None => {},
    }
    assert(fits_header::card_specs(c@) =~= base_cards(*m) + mosaic_cards(m.cfa));
    push_optional(&mut c, "GAIN", m.gain, "camera gain setting");
    push_optional(&mut c, "OFFSET", m.offset, "black level / bias offset (ADU)");
    push_optional(&mut c, "CCD-TEMP", m.ccd_temp, "sensor temperature (C)");
    push_optional(&mut c, "SET-TEMP", m.set_temp, "cooler setpoint (C)");
    match m.wcs {
        Some(k) => {
            k.push_cards(&mut c);
        },
        None => {
            assert(fits_header::card_specs(c@) + Seq::<CardSpec<F>>::empty()
                =~= fits_header::card_specs(c@));
        },
    }
    c
}

/// The cards of the file's primary header.
pub open spec fn primary_card_specs<F>(instrume: Option<Seq<char>>) -> Seq<CardSpec<F>> {
    seq![CardSpec { name: "OBJECT"@, value: ValueSpec::Text("Recording"@), comment: None }] + (
    match instrume {
        Some(name) => seq![
            fits_header::card("INSTRUME"@, ValueSpec::Text(name), "camera"@),
        ],
        None => Seq::empty(),
    })
}

/// The cards of the file's primary header.
pub fn primary_cards<F>(instrume: &Option<String>) -> (r: Vec<Card<F>>)
    ensures
        fits_header::all_keywords(r@),
        fits_header::card_specs(r@) == primary_card_specs::<F>(
            match instrume {
                Some(n) => Some(n@),
                None => None,
            },
        ),
{
    proof {
        lemma_frame_keywords();
    }
    let mut c: Vec<Card<F>> = Vec::new();
    fits_header::push_card(&mut c, "OBJECT", CardValue::Text("Recording".to_string()), None);
    match instrume {
        Some(n) => {
            fits_header::push_card(
                &mut c,
                "INSTRUME",
                CardValue::Text(n.clone()),
                Some("camera"),
            );
        },
        None => {},
    }
    assert(fits_header::card_specs(c@) =~= primary_card_specs::<F>(
        match instrume {
            Some(n) => Some(n@),
            None => None,
        },
    ));
    c
}

/// The name of the instrument that recorded frames come from; file playback is
/// none.
pub fn instrument(source: &CameraSource, discovered: &Vec<DiscoveredSource>) -> (r: Option<String>)
    ensures
        r is None <==> (source@ is NoSource || source@ is FitsFile),
        r matches Some(n) ==> n@ == sources::source_label_of(
            source@,
            sources::rows(discovered@),
            ""@,
        ),
{
    match source {
        CameraSource::NoSource => None,
        CameraSource::FitsFile(_) => None,
        _ => Some(sources::label_with_file_name(source, discovered, "")),
    }
}

// ---------------------------------------------------------------------------
// Settings of a shot

/// Exposure, gain and temperatures of the active camera, in its own units:
/// microseconds, native gain and offset, tenths of a degree. The setpoint is in
/// degrees, with `F` for floating-point numbers.
#[derive(PartialEq, Eq, Debug)]
pub struct Shot<F> {
    pub exposure_us: i64,
    pub gain: Option<i64>,
    pub offset: Option<i64>,
    pub ccd_temp: Option<i32>,
    pub set_temp: Option<F>,
}

/// The value of the first advanced row for an option.
pub open spec fn advanced_value(rows: Seq<AdvControl>, key: u32) -> Option<i32>
    decreases rows.len(),
{
    if rows.len() == 0 {
        None
    } else if rows[0].opt.0 == key {
        Some(rows[0].value)
    } else {
        advanced_value(rows.skip(1), key)
    }
}

fn find_advanced(rows: &Vec<AdvControl>, key: u32) -> (r: Option<i32>)
    ensures
        r == advanced_value(rows@, key),
{
    assert(rows@.skip(0) =~= rows@);
    let mut i: usize = 0;
    while i < rows.len()
        invariant
            i <= rows.len(),
            advanced_value(rows@.skip(i as int), key) == advanced_value(rows@, key),
        decreases rows.len() - i,
    {
        if rows[i].opt.0 == key {
            return Some(rows[i].value);
        }
        assert(rows@.skip(i as int).skip(1) =~= rows@.skip(i + 1));
        i = i + 1;
    }
    None
}

/// The settings of a ToupTek camera. The pedestal lives in the advanced table;
/// the setpoint only counts while the cooler is on.
pub fn toupcam_shot<F: Copy>(c: &ToupControls<F>) -> (r: Shot<F>)
    ensures
        r.exposure_us == c.exposure_us,
        r.gain == Some(c.gain as i64),
        r.offset == (match advanced_value(c.advanced@, toupcam::OPTION_BLACKLEVEL) {
            Some(v) => Some(v as i64),
            None => None,
        }),
        r.ccd_temp == c.temperature,
        r.set_temp == (if c.tec_on {
            Some(c.tec_target)
        } else {
            None
        }),
{
    let offset: Option<i64> = match find_advanced(&c.advanced, toupcam::OPTION_BLACKLEVEL) {
        Some(v) => Some(v as i64),
        None => None,
    };
    let set_temp: Option<F> = if c.tec_on {
        Some(c.tec_target)
    } else {
        None
    };
    Shot {
        exposure_us: c.exposure_us as i64,
        gain: Some(c.gain as i64),
        offset,
        ccd_temp: c.temperature,
        set_temp,
    }
}

/// The settings of an SVBony camera.
pub fn svbony_shot<F>(values: &Vec<ControlValue>) -> (r: Shot<F>)
    ensures
        r.exposure_us == (match svbony_controls::value_of(values@, ControlType::Exposure) {
            Some(v) => v,
            None => 0,
        }),
        r.gain == svbony_controls::value_of(values@, ControlType::Gain),
        r.offset == svbony_controls::value_of(values@, ControlType::BlackLevel),
        r.ccd_temp is None,
        r.set_temp is None,
{
    let exposure_us: i64 = match svbony_controls::find_value(values, ControlType::Exposure) {
        Some(v) => v,
        None => 0,
    };
    Shot {
        exposure_us,
        gain: svbony_controls::find_value(values, ControlType::Gain),
        offset: svbony_controls::find_value(values, ControlType::BlackLevel),
        ccd_temp: None,
        set_temp: None,
    }
}

// ---------------------------------------------------------------------------
// Times

/// A time as ISO 8601 text in milliseconds, from its microseconds since the
/// epoch; none for a time out of range.
pub uninterp spec fn date_text(micros: i64) -> Option<Seq<char>>;

/// Is this a date and a time as ISO 8601 has them, down to milliseconds:
/// `YYYY-MM-DDThh:mm:ss.sss`? A year of more than four digits, or one before
/// the year 0, takes more room in front.
pub open spec fn is_iso_time(s: Seq<char>) -> bool {
    let start = s.len() - 23;
    &&& start >= 0
    &&& s[start + 4] == '-' && s[start + 7] == '-' && s[start + 10] == 'T'
    &&& s[start + 13] == ':' && s[start + 16] == ':' && s[start + 19] == '.'
    &&& forall|i: int|
        start <= i < s.len() && i != start + 4 && i != start + 7 && i != start + 10 && i != start
            + 13 && i != start + 16 && i != start + 19 ==> text::is_digit(#[trigger] s[i])
}

/// The first microsecond that has a date: the year -262143 begins.
pub const FIRST_DATED_US: i64 = -8_334_601_228_800_000_000;

/// The last microsecond that has a date: the year 262142 ends.
pub const LAST_DATED_US: i64 = 8_210_266_876_799_999_999;

/// Calls [`chrono::DateTime::from_timestamp_micros`], which gives a time for
/// every microsecond of the years from -262143 to 262142 and for no other, and
/// [`chrono::DateTime::format`] with a pattern of year, month, day, hours,
/// minutes, seconds and milliseconds. Which date stands for a time is left
/// unsaid.
#[verifier::external_body]
fn format_micros(micros: i64) -> (r: Option<String>)
    ensures
        sources::string_view(r) == date_text(micros),
        r is Some <==> FIRST_DATED_US <= micros <= LAST_DATED_US,
        r matches Some(s) ==> is_iso_time(s@),
{
    chrono::DateTime::from_timestamp_micros(micros).map(
        |t| t.format("%Y-%m-%dT%H:%M:%S%.3f").to_string(),
    )
}

/// Calls [`chrono::Utc::now`] and [`chrono::DateTime::timestamp_micros`]:
/// the current time in microseconds since the epoch, which is a time that has a
/// date and does not lie before the epoch. Which time it is is left unsaid.
#[verifier::external_body]
fn utc_micros() -> (r: i64)
    ensures
        0 <= r <= LAST_DATED_US,
{
    chrono::Utc::now().timestamp_micros()
}

/// The middle of an exposure that ends now: readout is taken to be over.
pub open spec fn mid_exposure(now: i64, exposure_us: i64) -> int {
    if exposure_us >= 0 {
        now - exposure_us / 2
    } else {
        now + (-exposure_us) / 2
    }
}

/// The mid-exposure time as text, for an exposure that ends at `now`; none
/// where the time is out of range.
pub fn date_obs_at(now: i64, exposure_us: i64) -> (r: Option<String>)
    ensures
        sources::string_view(r) == (if i64::MIN <= mid_exposure(now, exposure_us) <= i64::MAX {
            date_text(mid_exposure(now, exposure_us) as i64)
        } else {
            None
        }),
        r is Some <==> FIRST_DATED_US <= mid_exposure(now, exposure_us) <= LAST_DATED_US,
        r matches Some(s) ==> is_iso_time(s@),
{
    let half: i128 = if exposure_us >= 0 {
        exposure_us as i128 / 2
    } else {
        -((-(exposure_us as i128)) / 2)
    };
    let mid: i128 = now as i128 - half;
    if mid < i64::MIN as i128 || mid > i64::MAX as i128 {
        None
    } else {
        format_micros(mid as i64)
    }
}

/// The mid-exposure time as text, for an exposure that ends now. Every exposure
/// has one; only one of less than no length could lie too far ahead.
pub fn date_obs(exposure_us: i64) -> (r: Option<String>)
    ensures
        exposure_us >= 0 ==> r is Some,
        exists|now: i64|
            0 <= now <= LAST_DATED_US && sources::string_view(r) == (if i64::MIN
                <= #[trigger] mid_exposure(now, exposure_us) <= i64::MAX {
                date_text(mid_exposure(now, exposure_us) as i64)
            } else {
                None
            }),
        r matches Some(s) ==> is_iso_time(s@),
{
    let now: i64 = utc_micros();
    date_obs_at(now, exposure_us)
}

/// Is this a date and a time as they stand in a file name: year, month and day,
/// a dash, then hours, minutes and seconds? A year of more than four digits
/// takes more room.
pub open spec fn is_stamp(s: Seq<char>) -> bool {
    let dash = s.len() - 7;
    &&& dash >= 8
    &&& s[dash] == '-'
    &&& forall|i: int|
        dash - 8 <= i < s.len() && i != dash ==> text::is_digit(#[trigger] s[i])
}

/// Calls [`chrono::Local::now`] and [`chrono::DateTime::format`]: the local
/// date and time as they stand in a file name. The time itself is left unsaid.
#[verifier::external_body]
fn local_stamp() -> (r: String)
    ensures
        is_stamp(r@),
{
    chrono::Local::now().format("%Y%m%d-%H%M%S").to_string()
}

/// The name of a recording made at a local date and time.
pub open spec fn recording_name_of(stamp: Seq<char>) -> Seq<char> {
    "astroviewer-"@ + stamp + ".fits"@
}

/// The name of a recording made at a local date and time.
pub fn recording_name(stamp: &str) -> (r: String)
    ensures
        r@ == recording_name_of(stamp@),
{
    text::join3("astroviewer-", stamp, ".fits")
}

/// The name of a recording that starts now.
pub fn new_recording_name() -> (r: String)
    ensures
        exists|stamp: Seq<char>| is_stamp(stamp) && r@ == #[trigger] recording_name_of(stamp),
{
    let stamp: String = local_stamp();
    recording_name(stamp.as_str())
}

// ---------------------------------------------------------------------------
// The writer

/// State of the writer of one recording. After the first error it keeps
/// draining frames but stops writing; the error is reported at the end.
#[derive(PartialEq, Eq, Debug)]
pub struct Recorder {
    pub path: String,
    pub write_err: Option<String>,
    pub frame_count: u32,
}

/// How a recording ended.
#[derive(PartialEq, Eq, Debug)]
pub enum RecordingEnd {
    /// Saved, with the message that says so.
    Saved(String),
    /// Not a single frame: the empty file is to be removed.
    Cancelled(String),
    /// Failed, with the message that says so.
    Failed(String),
}

impl Recorder {
    /// A writer whose primary header was written, or could not be.
    pub fn start(path: String, primary_err: Option<String>) -> (r: Recorder)
        ensures
            r.path == path,
            r.write_err == primary_err,
            r.frame_count == 0,
    {
        Recorder { path, write_err: primary_err, frame_count: 0 }
    }

    /// What is logged where the file could not be created; frames are then
    /// drained until the recording is stopped.
    pub fn create_failed_note(path: &str, err: &str) -> (r: String)
        ensures
            r@ == "Failed to create "@ + path@ + ": "@ + err@,
    {
        text::join4("Failed to create ", path, ": ", err)
    }

    /// Is the next frame to be written?
    pub fn wants_frame(&self) -> (r: bool)
        ensures
            r == (self.write_err is None),
    {
        self.write_err.is_none()
    }

    /// Notes the outcome of writing a frame.
    pub fn frame_written(&mut self, error: Option<String>)
        requires
            old(self).write_err is None,
            old(self).frame_count < u32::MAX,
        ensures
            final(self).path == old(self).path,
            final(self).write_err == error,
            final(self).frame_count == old(self).frame_count + (if error is None {
                1int
            } else {
                0
            }),
    {
        if error.is_none() {
            self.frame_count = self.frame_count + 1;
        }
        self.write_err = error;
    }

    /// Ends the recording, where `flush_err` is what flushing the file to disk
    /// met with. An earlier error comes first.
    pub fn finish(self, flush_err: Option<String>) -> (r: RecordingEnd)
        ensures
            ({
                let err = if self.write_err is Some {
                    self.write_err
                } else {
                    flush_err
                };
                let count = text::decimal(self.frame_count as int);
                match err {
                    Some(e) => r matches RecordingEnd::Failed(m) && m@ == "Failed to write "@
                        + self.path@ + ": "@ + e@ + " ("@ + count + " frames written)"@,
                    None => if self.frame_count > 0 {
                        r matches RecordingEnd::Saved(m) && m@ == "Recording saved: "@ + self.path@
                            + " ("@ + count + " frames)"@
                    } else {
                        r matches RecordingEnd::Cancelled(m) && m@
                            == "Recording cancelled (no frames)"@
                    },
                }
            }),
    {
        let count: String = text::int_text(self.frame_count as i128);
        let err: Option<String> = match self.write_err {
            Some(e) => Some(e),
            None => flush_err,
        };
        match err {
            Some(e) => {
                let head: String = text::join5(
                    "Failed to write ",
                    self.path.as_str(),
                    ": ",
                    e.as_str(),
                    " (",
                );
                RecordingEnd::Failed(
                    text::join3(head.as_str(), count.as_str(), " frames written)"),
                )
            },
            None => {
                if self.frame_count > 0 {
                    RecordingEnd::Saved(
                        text::join5(
                            "Recording saved: ",
                            self.path.as_str(),
                            " (",
                            count.as_str(),
                            " frames)",
                        ),
                    )
                } else {
                    RecordingEnd::Cancelled("Recording cancelled (no frames)".to_string())
                }
            },
        }
    }
}

// ---------------------------------------------------------------------------
// What is written is found

/// The place of a keyword in the order in which a frame's keywords are written,
/// told by its length and four of its letters, whatever their case.
spec fn slot(n: Seq<char>) -> int {
    let l = n.len();
    let a = text::ascii_lower(n[0]);
    let b = text::ascii_lower(n[1]);
    let c = text::ascii_lower(n[2]);
    let z = text::ascii_lower(n.last());
    if l == 5 && a == 'b' {
        0
    } else if l == 6 && a == 'b' {
        1
    } else if l == 8 && a == 'd' {
        2
    } else if l == 7 && a == 'e' && b == 'x' {
        3
    } else if l == 8 && a == 'b' && b == 'i' {
        4
    } else if l == 8 && a == 'b' {
        5
    } else if l == 8 && a == 'x' {
        6
    } else if l == 8 && a == 'y' {
        7
    } else if l == 4 {
        8
    } else if l == 6 && a == 'o' {
        9
    } else if l == 8 && a == 'c' {
        10
    } else if l == 8 && a == 's' {
        11
    } else if l == 7 && a == 'w' {
        12
    } else if l == 6 && b == 't' && z == '1' {
        13
    } else if l == 6 && b == 't' {
        14
    } else if l == 6 && b == 'u' && z == '1' {
        15
    } else if l == 6 && b == 'u' {
        16
    } else if l == 6 && b == 'r' && c == 'p' && z == '1' {
        17
    } else if l == 6 && b == 'r' && c == 'p' {
        18
    } else if l == 6 && b == 'r' && z == '1' {
        19
    } else if l == 6 && b == 'r' {
        20
    } else if l == 5 && c == '1' && z == '1' {
        21
    } else if l == 5 && c == '1' {
        22
    } else if l == 5 && c == '2' && z == '1' {
        23
    } else if l == 5 && c == '2' {
        24
    } else if l == 7 && a == 'r' {
        25
    } else if l == 7 && a == 'e' {
        26
    } else {
        27
    }
}

/// Do cards stand in the order of their slots, from `lo` up to below `hi`?
spec fn in_slots<F>(s: Seq<CardSpec<F>>, lo: int, hi: int) -> bool {
    &&& forall|i: int|
        0 <= i < s.len() ==> (#[trigger] s[i]).name.len() >= 4 && lo <= slot(s[i].name) < hi
    &&& forall|i: int, j: int|
        #![trigger s[i], s[j]]
        0 <= i < j < s.len() ==> slot(s[i].name) < slot(s[j].name)
}

proof fn lemma_slots_join<F>(x: Seq<CardSpec<F>>, y: Seq<CardSpec<F>>, lo: int, mid: int, hi: int)
    requires
        in_slots(x, lo, mid),
        in_slots(y, mid, hi),
        lo <= mid <= hi,
    ensures
        in_slots(x + y, lo, hi),
{
    let s = x + y;
    assert forall|i: int| 0 <= i < s.len() implies (#[trigger] s[i]).name.len() >= 4 && lo <= slot(
        s[i].name,
    ) < hi by {
        if i < x.len() {
            assert(s[i] == x[i]);
        } else {
            assert(s[i] == y[i - x.len()]);
        }
    }
    assert forall|i: int, j: int|
        #![trigger s[i], s[j]]
        0 <= i < j < s.len() implies slot(s[i].name) < slot(s[j].name) by {
        if j < x.len() {
            assert(s[i] == x[i] && s[j] == x[j]);
        } else if i < x.len() {
            assert(s[i] == x[i] && s[j] == y[j - x.len()]);
        } else {
            assert(s[i] == y[i - x.len()] && s[j] == y[j - x.len()]);
        }
    }
}

proof fn lemma_base_slots<F>(m: FrameMeta<F>)
    ensures
        in_slots(base_cards(m), 0, 5),
        in_slots(mosaic_cards::<F>(m.cfa), 5, 8),
        in_slots(optional_card("GAIN"@, m.gain, "camera gain setting"@), 8, 9),
        in_slots(optional_card("OFFSET"@, m.offset, "black level / bias offset (ADU)"@), 9, 10),
        in_slots(optional_card("CCD-TEMP"@, m.ccd_temp, "sensor temperature (C)"@), 10, 11),
        in_slots(optional_card("SET-TEMP"@, m.set_temp, "cooler setpoint (C)"@), 11, 12),
{
    reveal_strlit("BZERO");
    reveal_strlit("BSCALE");
    reveal_strlit("DATE-OBS");
    reveal_strlit("EXPTIME");
    reveal_strlit("BITDEPTH");
    reveal_strlit("BAYERPAT");
    reveal_strlit("XBAYROFF");
    reveal_strlit("YBAYROFF");
    reveal_strlit("GAIN");
    reveal_strlit("OFFSET");
    reveal_strlit("CCD-TEMP");
    reveal_strlit("SET-TEMP");
    assert(slot("BZERO"@) == 0 && slot("BSCALE"@) == 1 && slot("DATE-OBS"@) == 2);
    assert(slot("EXPTIME"@) == 3 && slot("BITDEPTH"@) == 4 && slot("BAYERPAT"@) == 5);
    assert(slot("XBAYROFF"@) == 6 && slot("YBAYROFF"@) == 7 && slot("GAIN"@) == 8);
    assert(slot("OFFSET"@) == 9 && slot("CCD-TEMP"@) == 10 && slot("SET-TEMP"@) == 11);
}

proof fn lemma_wcs_slots<F>(k: WcsKeys<F>)
    ensures
        in_slots(wcs::wcs_cards(k), 12, 28),
{
    reveal_strlit("WCSAXES");
    reveal_strlit("CTYPE1");
    reveal_strlit("CTYPE2");
    reveal_strlit("CUNIT1");
    reveal_strlit("CUNIT2");
    reveal_strlit("CRPIX1");
    reveal_strlit("CRPIX2");
    reveal_strlit("CRVAL1");
    reveal_strlit("CRVAL2");
    reveal_strlit("CD1_1");
    reveal_strlit("CD1_2");
    reveal_strlit("CD2_1");
    reveal_strlit("CD2_2");
    reveal_strlit("RADESYS");
    reveal_strlit("EQUINOX");
    reveal_strlit("PLTSOLVD");
    let s = wcs::wcs_cards(k);
    assert(s.len() == 16);
    assert(slot("WCSAXES"@) == 12 && slot("CTYPE1"@) == 13 && slot("CTYPE2"@) == 14);
    assert(slot("CUNIT1"@) == 15 && slot("CUNIT2"@) == 16);
    assert(slot("CRPIX1"@) == 17 && slot("CRPIX2"@) == 18);
    assert(slot("CRVAL1"@) == 19 && slot("CRVAL2"@) == 20);
    assert(slot("CD1_1"@) == 21 && slot("CD1_2"@) == 22);
    assert(slot("CD2_1"@) == 23 && slot("CD2_2"@) == 24);
    assert(slot("RADESYS"@) == 25 && slot("EQUINOX"@) == 26 && slot("PLTSOLVD"@) == 27);
    assert forall|i: int| 0 <= i < s.len() implies slot((#[trigger] s[i]).name) == 12 + i
        && s[i].name.len() >= 4 by {}
}

/// The cards of a frame but those of a solve.
spec fn unsolved_cards<F>(m: FrameMeta<F>) -> Seq<CardSpec<F>> {
    frame_card_specs(FrameMeta { wcs: None, ..m })
}

proof fn lemma_unsolved_slots<F>(m: FrameMeta<F>)
    ensures
        in_slots(unsolved_cards(m), 0, 12),
        frame_card_specs(m) == unsolved_cards(m) + (match m.wcs {
            Some(k) => wcs::wcs_cards(k),
            None => Seq::empty(),
        }),
{
    lemma_base_slots(m);
    let mosaic = mosaic_cards(m.cfa);
    let gain = optional_card("GAIN"@, m.gain, "camera gain setting"@);
    let offset = optional_card("OFFSET"@, m.offset, "black level / bias offset (ADU)"@);
    let temp = optional_card("CCD-TEMP"@, m.ccd_temp, "sensor temperature (C)"@);
    let set = optional_card("SET-TEMP"@, m.set_temp, "cooler setpoint (C)"@);
    let a = base_cards(m);
    lemma_slots_join(a, mosaic, 0, 5, 8);
    lemma_slots_join(a + mosaic, gain, 0, 8, 9);
    lemma_slots_join(a + mosaic + gain, offset, 0, 9, 10);
    lemma_slots_join(a + mosaic + gain + offset, temp, 0, 10, 11);
    lemma_slots_join(a + mosaic + gain + offset + temp, set, 0, 11, 12);
    assert(base_cards(FrameMeta { wcs: None, ..m }) == a);
    assert(unsolved_cards(m) =~= a + mosaic + gain + offset + temp + set);
}

proof fn lemma_frame_slots<F>(m: FrameMeta<F>)
    ensures
        in_slots(frame_card_specs(m), 0, 28),
{
    lemma_unsolved_slots(m);
    match m.wcs {
        Some(k) => {
            lemma_wcs_slots(k);
            lemma_slots_join(unsolved_cards(m), wcs::wcs_cards(k), 0, 12, 28);
        },
        None => {
            lemma_slots_join(unsolved_cards(m), Seq::empty(), 0, 12, 28);
        },
    }
}

/// After the keywords of a frame were written into a header, each of them is
/// found there with its value: no two of them are the same.
pub proof fn law_frame_keywords_are_found<F>(
    m: FrameMeta<F>,
    before: Seq<(Seq<char>, Option<fitskit::HeaderValue>, Option<Seq<char>>)>,
    cards: Seq<Card<F>>,
    values: Seq<fitskit::HeaderValue>,
    i: int,
)
    requires
        fits_header::card_specs(cards) == frame_card_specs(m),
        values.len() == cards.len(),
        0 <= i < cards.len(),
    ensures
        ({
            let after = fits_header::with_all(before, cards, values);
            let j = fits_header::card_index(after, cards[i].name@);
            &&& j < after.len()
            &&& fits_header::same_keyword(after[j].0, cards[i].name@)
            &&& after[j].1 == Some(values[i])
        }),
{
    lemma_frame_slots(m);
    let s = frame_card_specs(m);
    assert forall|a: int, b: int|
        #![trigger cards[a], cards[b]]
        0 <= a < b < cards.len() implies !fits_header::same_keyword(
        cards[a].name@,
        cards[b].name@,
    ) by {
        let x = cards[a].name@;
        let y = cards[b].name@;
        assert(fits_header::card_specs(cards)[a].name == x);
        assert(fits_header::card_specs(cards)[b].name == y);
        assert(slot(s[a].name) < slot(s[b].name));
        if fits_header::same_keyword(x, y) {
            assert(text::ascii_lower(x[0]) == text::ascii_lower(y[0]));
            assert(text::ascii_lower(x[1]) == text::ascii_lower(y[1]));
            assert(text::ascii_lower(x[2]) == text::ascii_lower(y[2]));
            assert(text::ascii_lower(x[x.len() - 1]) == text::ascii_lower(y[y.len() - 1]));
            assert(slot(x) == slot(y));
        }
    }
    fits_header::law_written_cards_are_found(before, cards, values, i);
}

/// A frame without a solve that fits it carries none of the keywords of one.
pub proof fn law_unsolved_frame_has_no_wcs<F>(m: FrameMeta<F>, k: WcsKeys<F>, i: int, j: int)
    requires
        m.wcs is None,
        0 <= i < frame_card_specs(m).len(),
        0 <= j < wcs::wcs_cards(k).len(),
    ensures
        frame_card_specs(m)[i].name != wcs::wcs_cards(k)[j].name,
{
    lemma_wcs_slots(k);
    lemma_unsolved_slots(m);
    assert(frame_card_specs(m) =~= unsolved_cards(m));
}

/// A recorded frame plays back at the bit depth it was recorded with: its
/// header says so, and what the header says goes before anything else.
pub proof fn law_recorded_depth_is_played_back<F>(
    m: FrameMeta<F>,
    integer_bits: Option<u8>,
    inferred: u8,
)
    ensures
        exists|i: int|
            0 <= i < frame_card_specs(m).len() && #[trigger] frame_card_specs(m)[i].name
                == "BITDEPTH"@ && frame_card_specs(m)[i].value == ValueSpec::<F>::Integer(
                m.bit_depth as int,
            ),
        playback::depth_of_file(Some(m.bit_depth), integer_bits, inferred) == m.bit_depth,
{
    assert(frame_card_specs(m)[4].name == "BITDEPTH"@);
}

/// A sample is stored less the offset that the header names.
pub proof fn law_samples_are_stored_with_the_offset<F: Copy, Q: Fn(F) -> u16>(
    pixels: Pixels<F>,
    quantize: Q,
    r: Vec<i16>,
    px: u16,
    sample: i16,
)
    requires
        forall|x: F| call_requires(quantize, (x,)),
        call_ensures(store_pixels::<F, Q>, (&pixels, quantize), r),
        call_ensures(store_sample, (px,), sample),
    ensures
        sample + 32768 == px,
        match pixels {
            Pixels::U16(v) => r.len() == v@.len() && (forall|i: int|
                0 <= i < v@.len() ==> (#[trigger] r@[i]) + 32768 == v@[i]),
            Pixels::F32(v) => r.len() == v@.len() && (forall|i: int|
                0 <= i < v@.len() ==> call_ensures(
                    quantize,
                    (v@[i],),
                    ((#[trigger] r@[i]) + 32768) as u16,
                )),
        },
{
}

/// A card stands in two lists behind each other if it stands in one of them.
proof fn lemma_joined_contains<F>(a: Seq<CardSpec<F>>, b: Seq<CardSpec<F>>, c: CardSpec<F>)
    ensures
        (a + b).contains(c) <==> a.contains(c) || b.contains(c),
{
    let s = a + b;
    if a.contains(c) {
        let i = choose|i: int| 0 <= i < a.len() && a[i] == c;
        assert(s[i] == c);
    }
    if b.contains(c) {
        let i = choose|i: int| 0 <= i < b.len() && b[i] == c;
        assert(s[a.len() + i] == c);
    }
    if s.contains(c) {
        let i = choose|i: int| 0 <= i < s.len() && s[i] == c;
        if i < a.len() {
            assert(a[i] == c);
        } else {
            assert(b[i - a.len()] == c);
        }
    }
}

/// The parts that a frame's cards are made of, in their order.
spec fn frame_part<F>(m: FrameMeta<F>, k: int) -> Seq<CardSpec<F>> {
    if k == 0 {
        base_cards(m)
    } else if k == 1 {
        mosaic_cards::<F>(m.cfa)
    } else if k == 2 {
        optional_card("GAIN"@, m.gain, "camera gain setting"@)
    } else if k == 3 {
        optional_card("OFFSET"@, m.offset, "black level / bias offset (ADU)"@)
    } else if k == 4 {
        optional_card("CCD-TEMP"@, m.ccd_temp, "sensor temperature (C)"@)
    } else if k == 5 {
        optional_card("SET-TEMP"@, m.set_temp, "cooler setpoint (C)"@)
    } else {
        match m.wcs {
            Some(k) => wcs::wcs_cards(k),
            None => Seq::empty(),
        }
    }
}

/// A card is one of a frame's if it stands in one of the parts.
proof fn lemma_frame_contains<F>(m: FrameMeta<F>, c: CardSpec<F>)
    ensures
        frame_card_specs(m).contains(c) <==> exists|k: int|
            0 <= k < 7 && (#[trigger] frame_part(m, k)).contains(c),
{
    let x0 = frame_part(m, 0);
    let x1 = frame_part(m, 1);
    let x2 = frame_part(m, 2);
    let x3 = frame_part(m, 3);
    let x4 = frame_part(m, 4);
    let x5 = frame_part(m, 5);
    let x6 = frame_part(m, 6);
    assert(frame_card_specs(m) == x0 + x1 + x2 + x3 + x4 + x5 + x6);
    lemma_joined_contains(x0, x1, c);
    lemma_joined_contains(x0 + x1, x2, c);
    lemma_joined_contains(x0 + x1 + x2, x3, c);
    lemma_joined_contains(x0 + x1 + x2 + x3, x4, c);
    lemma_joined_contains(x0 + x1 + x2 + x3 + x4, x5, c);
    lemma_joined_contains(x0 + x1 + x2 + x3 + x4 + x5, x6, c);
    assert(frame_card_specs(m).contains(c) <==> x0.contains(c) || x1.contains(c) || x2.contains(c)
        || x3.contains(c) || x4.contains(c) || x5.contains(c) || x6.contains(c));
}

/// Where the slots of a part begin.
spec fn part_start(k: int) -> int {
    if k == 0 {
        0
    } else if k == 1 {
        5
    } else if k <= 6 {
        6 + k
    } else {
        28
    }
}

proof fn lemma_part_slots<F>(m: FrameMeta<F>, k: int)
    requires
        0 <= k < 7,
    ensures
        in_slots(frame_part(m, k), part_start(k), part_start(k + 1)),
{
    lemma_base_slots(m);
    if let Some(w) = m.wcs {
        lemma_wcs_slots(w);
    }
}

/// What stands in a part stands in the list.
proof fn lemma_part_says<F>(list: Seq<Card<F>>, m: FrameMeta<F>, k: int, i: int)
    requires
        fits_header::card_specs(list) == frame_card_specs(m),
        0 <= k < 7,
        0 <= i < frame_part(m, k).len(),
    ensures
        fits_header::says(list, frame_part(m, k)[i].name, frame_part(m, k)[i].value),
{
    let c = frame_part(m, k)[i];
    lemma_frame_contains(m, c);
    assert(frame_part(m, k).contains(c));
    let s = fits_header::card_specs(list);
    let j = choose|j: int| 0 <= j < s.len() && s[j] == c;
    fits_header::lemma_card_says(list, j);
}

/// A keyword of an empty part is not in the list.
proof fn lemma_part_lacks<F>(list: Seq<Card<F>>, m: FrameMeta<F>, k: int, name: Seq<char>)
    requires
        fits_header::card_specs(list) == frame_card_specs(m),
        0 <= k < 7,
        frame_part(m, k).len() == 0,
        part_start(k) <= slot(name) < part_start(k + 1),
    ensures
        fits_header::lacks(list, name),
{
    let s = fits_header::card_specs(list);
    assert forall|i: int| 0 <= i < list.len() implies (#[trigger] list[i]).name@ != name by {
        let c = s[i];
        assert(c == list[i]@);
        assert(s.contains(c));
        lemma_frame_contains(m, c);
        let p = choose|p: int| 0 <= p < 7 && (#[trigger] frame_part(m, p)).contains(c);
        lemma_part_slots(m, p);
        let x = frame_part(m, p);
        let j = choose|j: int| 0 <= j < x.len() && x[j] == c;
        assert(part_start(p) <= slot(x[j].name) < part_start(p + 1));
        assert(p < k || p > k);
    }
}

/// A frame's header says under each keyword what is known of the frame, and
/// leaves out what is not known: no gain, offset or temperature that the
/// camera did not give, and no mosaic that the pixels do not carry.
pub proof fn law_frame_header_says_what_is_known<F: Copy>(m: FrameMeta<F>, r: Vec<Card<F>>)
    requires
        call_ensures(frame_cards::<F>, (&m,), r),
    ensures
        fits_header::says(r@, "BZERO"@, ValueSpec::Whole(32768)),
        fits_header::says(r@, "BSCALE"@, ValueSpec::Whole(1)),
        fits_header::says(r@, "DATE-OBS"@, ValueSpec::Text(m.date_obs@)),
        fits_header::says(r@, "EXPTIME"@, ValueSpec::Real(m.exptime)),
        fits_header::says(r@, "BITDEPTH"@, ValueSpec::Integer(m.bit_depth as int)),
        m.cfa matches Some(p) ==> fits_header::says(r@, "BAYERPAT"@, ValueSpec::Text(p@))
            && fits_header::says(r@, "XBAYROFF"@, ValueSpec::Integer(0)) && fits_header::says(
            r@,
            "YBAYROFF"@,
            ValueSpec::Integer(0),
        ),
        m.cfa is None ==> fits_header::lacks(r@, "BAYERPAT"@) && fits_header::lacks(
            r@,
            "XBAYROFF"@,
        ) && fits_header::lacks(r@, "YBAYROFF"@),
        m.gain matches Some(x) ==> fits_header::says(r@, "GAIN"@, ValueSpec::Real(x)),
        m.gain is None ==> fits_header::lacks(r@, "GAIN"@),
        m.offset matches Some(x) ==> fits_header::says(r@, "OFFSET"@, ValueSpec::Real(x)),
        m.offset is None ==> fits_header::lacks(r@, "OFFSET"@),
        m.ccd_temp matches Some(x) ==> fits_header::says(r@, "CCD-TEMP"@, ValueSpec::Real(x)),
        m.ccd_temp is None ==> fits_header::lacks(r@, "CCD-TEMP"@),
        m.set_temp matches Some(x) ==> fits_header::says(r@, "SET-TEMP"@, ValueSpec::Real(x)),
        m.set_temp is None ==> fits_header::lacks(r@, "SET-TEMP"@),
{
    lemma_frame_name_slots();
    let base = frame_part(m, 0);
    assert(base[0].name == "BZERO"@ && base[1].name == "BSCALE"@ && base[2].name == "DATE-OBS"@);
    assert(base[3].name == "EXPTIME"@ && base[4].name == "BITDEPTH"@);
    lemma_part_says(r@, m, 0, 0);
    lemma_part_says(r@, m, 0, 1);
    lemma_part_says(r@, m, 0, 2);
    lemma_part_says(r@, m, 0, 3);
    lemma_part_says(r@, m, 0, 4);
    if m.cfa is Some {
        let mosaic = frame_part(m, 1);
        assert(mosaic[0].name == "BAYERPAT"@ && mosaic[1].name == "XBAYROFF"@);
        assert(mosaic[2].name == "YBAYROFF"@);
        lemma_part_says(r@, m, 1, 0);
        lemma_part_says(r@, m, 1, 1);
        lemma_part_says(r@, m, 1, 2);
    } else {
        lemma_part_lacks(r@, m, 1, "BAYERPAT"@);
        lemma_part_lacks(r@, m, 1, "XBAYROFF"@);
        lemma_part_lacks(r@, m, 1, "YBAYROFF"@);
    }
    if m.gain is Some {
        lemma_part_says(r@, m, 2, 0);
    } else {
        lemma_part_lacks(r@, m, 2, "GAIN"@);
    }
    if m.offset is Some {
        lemma_part_says(r@, m, 3, 0);
    } else {
        lemma_part_lacks(r@, m, 3, "OFFSET"@);
    }
    if m.ccd_temp is Some {
        lemma_part_says(r@, m, 4, 0);
    } else {
        lemma_part_lacks(r@, m, 4, "CCD-TEMP"@);
    }
    if m.set_temp is Some {
        lemma_part_says(r@, m, 5, 0);
    } else {
        lemma_part_lacks(r@, m, 5, "SET-TEMP"@);
    }
}

proof fn lemma_frame_name_slots()
    ensures
        slot("BAYERPAT"@) == 5,
        slot("XBAYROFF"@) == 6,
        slot("YBAYROFF"@) == 7,
        slot("GAIN"@) == 8,
        slot("OFFSET"@) == 9,
        slot("CCD-TEMP"@) == 10,
        slot("SET-TEMP"@) == 11,
{
    reveal_strlit("BAYERPAT");
    reveal_strlit("XBAYROFF");
    reveal_strlit("YBAYROFF");
    reveal_strlit("GAIN");
    reveal_strlit("OFFSET");
    reveal_strlit("CCD-TEMP");
    reveal_strlit("SET-TEMP");
}

/// A frame with a solve that fits it carries the solve's own cards behind all
/// the others.
pub proof fn law_solved_frame_carries_its_solve<F: Copy>(
    m: FrameMeta<F>,
    k: WcsKeys<F>,
    r: Vec<Card<F>>,
    sky: Vec<Card<F>>,
)
    requires
        m.wcs == Some(k),
        call_ensures(frame_cards::<F>, (&m,), r),
        call_ensures(WcsKeys::<F>::cards, (&k,), sky),
    ensures
        r.len() >= sky.len(),
        fits_header::card_specs(r@).skip(r.len() - sky.len()) == fits_header::card_specs(sky@),
{
    let all = fits_header::card_specs(r@);
    let tail = fits_header::card_specs(sky@);
    lemma_unsolved_slots(m);
    assert(all.len() == r.len());
    assert(tail.len() == sky.len());
    assert(all.skip(r.len() - sky.len()) =~= tail);
}

/// The primary header names the recording, and the camera where there is one.
pub proof fn law_primary_header_names_the_camera<F>(instrume: Option<String>, r: Vec<Card<F>>)
    requires
        call_ensures(primary_cards::<F>, (&instrume,), r),
    ensures
        fits_header::says(r@, "OBJECT"@, ValueSpec::Text("Recording"@)),
        instrume matches Some(n) ==> fits_header::says(r@, "INSTRUME"@, ValueSpec::Text(n@)),
        instrume is None ==> fits_header::lacks(r@, "INSTRUME"@),
{
    let s = fits_header::card_specs(r@);
    assert(s.len() == r.len());
    fits_header::lemma_card_says(r@, 0);
    if instrume is Some {
        fits_header::lemma_card_says(r@, 1);
    } else {
        reveal_strlit("OBJECT");
        reveal_strlit("INSTRUME");
        assert(s[0] == r@[0]@);
        assert("OBJECT"@.len() == 6 && "INSTRUME"@.len() == 8);
    }
}

/// The instrument is the label of the camera or server; a file has none.
pub proof fn law_instrument_is_the_camera(
    source: CameraSource,
    discovered: Vec<DiscoveredSource>,
    r: Option<String>,
    empty: &str,
    label: String,
)
    requires
        empty@ == ""@,
        call_ensures(instrument, (&source, &discovered), r),
        call_ensures(sources::label_with_file_name, (&source, &discovered, empty), label),
    ensures
        source is NoSource || source is FitsFile ==> r is None,
        !(source is NoSource || source is FitsFile) ==> (r matches Some(n) && n@ == label@),
{
}

/// The value of an option is that of the first row that has it.
proof fn lemma_advanced_value(rows: Seq<AdvControl>, key: u32)
    ensures
        match advanced_value(rows, key) {
            Some(v) => exists|i: int|
                0 <= i < rows.len() && (#[trigger] rows[i]).opt.0 == key && rows[i].value == v && (
                forall|j: int| 0 <= j < i ==> (#[trigger] rows[j]).opt.0 != key),
            None => forall|j: int| 0 <= j < rows.len() ==> (#[trigger] rows[j]).opt.0 != key,
        },
    decreases rows.len(),
{
    if rows.len() > 0 {
        if rows[0].opt.0 == key {
            assert(rows[0].value == rows[0].value);
        } else {
            let rest = rows.skip(1);
            lemma_advanced_value(rest, key);
            match advanced_value(rows, key) {
                Some(v) => {
                    let i = choose|i: int|
                        0 <= i < rest.len() && (#[trigger] rest[i]).opt.0 == key && rest[i].value
                            == v && (forall|j: int|
                            0 <= j < i ==> (#[trigger] rest[j]).opt.0 != key);
                    assert(rows[i + 1] == rest[i]);
                    assert forall|j: int| 0 <= j < i + 1 implies (#[trigger] rows[j]).opt.0
                        != key by {
                        if j > 0 {
                            assert(rows[j] == rest[j - 1]);
                        }
                    }
                },
                None => {
                    assert forall|j: int| 0 <= j < rows.len() implies (#[trigger] rows[j]).opt.0
                        != key by {
                        if j > 0 {
                            assert(rows[j] == rest[j - 1]);
                        }
                    }
                },
            }
        }
    }
}

/// A ToupTek frame is recorded with the exposure, the gain and the temperature
/// of its camera, with the black level of the advanced table, and with the
/// setpoint of a cooler that is on.
pub proof fn law_toupcam_shot_is_the_cameras<F: Copy>(c: ToupControls<F>, r: Shot<F>)
    requires
        call_ensures(toupcam_shot::<F>, (&c,), r),
    ensures
        r.exposure_us == c.exposure_us,
        r.gain matches Some(g) && g == c.gain,
        r.ccd_temp == c.temperature,
        c.tec_on ==> r.set_temp == Some(c.tec_target),
        !c.tec_on ==> r.set_temp is None,
        match r.offset {
            Some(v) => exists|i: int|
                0 <= i < c.advanced.len() && (#[trigger] c.advanced@[i]).opt.0 == 0x15
                    && c.advanced@[i].value == v && (forall|j: int|
                    0 <= j < i ==> (#[trigger] c.advanced@[j]).opt.0 != 0x15),
            None => forall|j: int|
                0 <= j < c.advanced.len() ==> (#[trigger] c.advanced@[j]).opt.0 != 0x15,
        },
{
    lemma_advanced_value(c.advanced@, 0x15);
}

/// An SVBony frame is recorded with the values of its exposure, gain and black
/// level controls, and without temperatures.
pub proof fn law_svbony_shot_is_the_cameras<F>(
    values: Vec<ControlValue>,
    r: Shot<F>,
    exposure: Option<i64>,
    gain: Option<i64>,
    offset: Option<i64>,
)
    requires
        call_ensures(svbony_shot::<F>, (&values,), r),
        call_ensures(svbony_controls::find_value, (&values, ControlType::Exposure), exposure),
        call_ensures(svbony_controls::find_value, (&values, ControlType::Gain), gain),
        call_ensures(svbony_controls::find_value, (&values, ControlType::BlackLevel), offset),
    ensures
        exposure matches Some(v) ==> r.exposure_us == v,
        exposure is None ==> r.exposure_us == 0,
        r.gain == gain,
        r.offset == offset,
        r.ccd_temp is None && r.set_temp is None,
{
}

/// An exposure is dated by its middle: one that ends at `now` has the date of
/// one without length at half its length before.
pub proof fn law_exposure_is_dated_by_its_middle(
    now: i64,
    exposure_us: i64,
    middle: i64,
    a: Option<String>,
    b: Option<String>,
)
    requires
        0 <= exposure_us,
        middle == now - exposure_us / 2,
        call_ensures(date_obs_at, (now, exposure_us), a),
        call_ensures(date_obs_at, (middle, 0), b),
    ensures
        a is Some <==> b is Some,
        a matches Some(s) ==> s@ == b->0@,
        a is Some <==> -8_334_601_228_800_000_000 <= middle <= 8_210_266_876_799_999_999,
        b matches Some(s) ==> date_text(middle) == Some(s@),
{
}

/// A recording is named by the time it was made.
pub proof fn law_recording_is_named_by_its_time(stamp: &str, r: String)
    requires
        call_ensures(recording_name, (stamp,), r),
    ensures
        r@ == "astroviewer-"@ + stamp@ + ".fits"@,
{
}

/// A writer counts the frames it wrote. Once an error was met it asks for no
/// more, and that error is reported even if the file was flushed.
pub proof fn law_first_error_ends_the_writing(
    path: String,
    w: &mut Recorder,
    start: Recorder,
    err: Option<String>,
    flush_err: Option<String>,
    before: bool,
    after: bool,
    end: RecordingEnd,
)
    requires
        call_ensures(Recorder::start, (path, None::<String>), start),
        *old(w) == start,
        call_ensures(Recorder::wants_frame, (&start,), before),
        call_ensures(Recorder::frame_written, (w, err), ()),
        call_ensures(Recorder::wants_frame, (&*final(w),), after),
        call_ensures(Recorder::finish, (*final(w), flush_err), end),
    ensures
        before,
        after <==> err is None,
        final(w).frame_count == (if err is None {
            1u32
        } else {
            0u32
        }),
        final(w).path@ == path@,
        err matches Some(e) ==> (end matches RecordingEnd::Failed(t) && t@ == "Failed to write "@
            + path@ + ": "@ + e@ + " ("@ + text::decimal(0) + " frames written)"@),
        err is None ==> (flush_err matches Some(e) ==> (end matches RecordingEnd::Failed(t) && t@
            == "Failed to write "@ + path@ + ": "@ + e@ + " ("@ + text::decimal(1)
            + " frames written)"@)),
        err is None && flush_err is None ==> (end matches RecordingEnd::Saved(t) && t@
            == "Recording saved: "@ + path@ + " ("@ + text::decimal(1) + " frames)"@),
{
}

/// A recording without a frame is cancelled, unless an error was met.
pub proof fn law_empty_recording_is_cancelled(
    path: String,
    primary_err: Option<String>,
    start: Recorder,
    wants: bool,
    flush_err: Option<String>,
    end: RecordingEnd,
)
    requires
        call_ensures(Recorder::start, (path, primary_err), start),
        call_ensures(Recorder::wants_frame, (&start,), wants),
        call_ensures(Recorder::finish, (start, flush_err), end),
    ensures
        wants <==> primary_err is None,
        primary_err is None && flush_err is None ==> (end matches RecordingEnd::Cancelled(t) && t@
            == "Recording cancelled (no frames)"@),
        primary_err matches Some(e) ==> (end matches RecordingEnd::Failed(t) && t@
            == "Failed to write "@ + path@ + ": "@ + e@ + " ("@ + text::decimal(0)
            + " frames written)"@),
        primary_err is None ==> (flush_err matches Some(e) ==> (end matches RecordingEnd::Failed(t)
            && t@ == "Failed to write "@ + path@ + ": "@ + e@ + " ("@ + text::decimal(0)
            + " frames written)"@)),
{
}

/// Each frame that was written counts once, however many there are.
pub proof fn law_each_written_frame_counts_once(w: &mut Recorder, err: Option<String>)
    requires
        old(w).write_err is None,
        old(w).frame_count < 0xffff_ffff,
        call_ensures(Recorder::frame_written, (w, err), ()),
    ensures
        err is None ==> final(w).frame_count == old(w).frame_count + 1 && final(w).write_err
            is None,
        err is Some ==> final(w).frame_count == old(w).frame_count && final(w).write_err == err,
        final(w).path == old(w).path,
{
}

/// What a recording of some frames ends with.
pub proof fn law_recording_end_tells_the_count(
    w: Recorder,
    flush_err: Option<String>,
    end: RecordingEnd,
    path: &str,
    err: &str,
    note: String,
)
    requires
        call_ensures(Recorder::finish, (w, flush_err), end),
        call_ensures(Recorder::create_failed_note, (path, err), note),
    ensures
        w.write_err is None && flush_err is None && w.frame_count > 0 ==> (
        end matches RecordingEnd::Saved(t) && t@ == "Recording saved: "@ + w.path@ + " ("@
            + text::decimal(w.frame_count as int) + " frames)"@),
        w.write_err is Some || flush_err is Some ==> (end matches RecordingEnd::Failed(t) && t@
            == "Failed to write "@ + w.path@ + ": "@ + (if w.write_err is Some {
            w.write_err->0@
        } else {
            flush_err->0@
        }) + " ("@ + text::decimal(w.frame_count as int) + " frames written)"@),
        note@ == "Failed to create "@ + path@ + ": "@ + err@,
{
}

/// A recording that starts now is named as one: its name is made of a prefix, a
/// date of eight digits or more, a dash, six digits of the time, and the
/// extension.
pub proof fn law_new_recording_is_named_as_one(r: String)
    requires
        call_ensures(new_recording_name, (), r),
    ensures
        text::begins_with(r@, "astroviewer-"@),
        text::ends_with(r@, ".fits"@),
        r@.len() >= 32,
        r@[r@.len() - 12] == '-',
        forall|i: int|
            r@.len() - 11 <= i < r@.len() - 5 ==> 48 <= (#[trigger] r@[i]) as u32 <= 57,
{
    reveal_strlit("astroviewer-");
    reveal_strlit(".fits");
    let stamp = choose|stamp: Seq<char>|
        is_stamp(stamp) && r@ == #[trigger] recording_name_of(stamp);
    assert(r@.take(12) =~= "astroviewer-"@);
    assert(r@.skip(r@.len() - 5) =~= ".fits"@);
    let dash = stamp.len() - 7;
    assert(r@[r@.len() - 12] == stamp[dash]);
    assert forall|i: int| r@.len() - 11 <= i < r@.len() - 5 implies 48 <= (
    #[trigger] r@[i]) as u32 <= 57 by {
        assert(r@[i] == stamp[i - 12]);
        assert(text::is_digit(stamp[i - 12]));
    }
}

/// Every exposure is dated, down to milliseconds.
pub proof fn law_every_exposure_is_dated(exposure_us: i64, r: Option<String>)
    requires
        exposure_us >= 0,
        call_ensures(date_obs, (exposure_us,), r),
    ensures
        r matches Some(s) && s@.len() >= 23 && s@[s@.len() - 19] == '-' && s@[s@.len() - 16] == '-'
            && s@[s@.len() - 13] == 'T' && s@[s@.len() - 10] == ':' && s@[s@.len() - 7] == ':'
            && s@[s@.len() - 4] == '.',
{
}

} // verus!
