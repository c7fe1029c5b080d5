//! The export of a benchmark: its charts are drawn one after the other, each
//! is captured by a screenshot and kept as a PNG file.

use vstd::prelude::*;

use crate::text;
use crate::text::concat;

verus! {

broadcast use vstd::string::group_string_axioms;

/// Frames the window gets to settle before each capture (no fade-in, but the
/// first frame only measures the content).
pub const SETTLE_FRAMES: u32 = 3;

/// Frames to wait for a screenshot before giving up on that chart, so a
/// backend that never answers cannot leave the export hanging.
pub const SCREENSHOT_TIMEOUT_FRAMES: u32 = 180;

// ---------------------------------------------------------------------------
// Images
// ---------------------------------------------------------------------------

/// A picture: four bytes for each pixel, row by row.
#[derive(Debug)]
pub struct ChartImage {
    pub width: u32,
    pub height: u32,
    pub rgba: Vec<u8>,
}

impl ChartImage {
    /// Whether there are as many bytes as the size says.
    pub open spec fn wf(&self) -> bool {
        self.rgba@.len() == 4 * self.width * self.height
    }

    /// Whether there are as many bytes as the size says.
    pub fn is_whole(&self) -> (r: bool)
        ensures
            r == self.wf(),
    {
        proof {
            let (w, h) = (self.width, self.height);
            assert(w as int * h as int <= 0xffff_ffff * 0xffff_ffff) by (nonlinear_arith)
                requires
                    w <= 0xffff_ffff,
                    h <= 0xffff_ffff,
            ;
            assert(4 * (w as int * h as int) == 4 * w * h) by (nonlinear_arith);
        }
        let pixels: u128 = self.width as u128 * self.height as u128;
        self.rgba.len() as u128 == 4 * pixels
    }
}

/// The PNG file that `image::write_buffer_with_format` writes for `rgba`, a
/// picture of `width` by `height` pixels with eight bits for each of red,
/// green, blue and alpha, or the text of the error that it gives.
pub uninterp spec fn png_of(rgba: Seq<u8>, width: u32, height: u32) -> Result<Seq<u8>, Seq<char>>;

/// What an encoder gave.
pub open spec fn encoded(r: Result<Vec<u8>, String>) -> Result<Seq<u8>, Seq<char>> {
    match r {
        Ok(bytes) => Ok(bytes@),
        Err(cause) => Err(cause@),
    }
}

/// `image::write_buffer_with_format` with the format PNG, into memory. It
/// panics unless there are four bytes for each pixel. The bytes and the size
/// alone decide what it writes, and whether it fails; nothing more is claimed
/// of either.
#[verifier::external_body]
fn write_png(rgba: &Vec<u8>, width: u32, height: u32) -> (r: Result<Vec<u8>, String>)
    requires
        rgba@.len() == 4 * width * height,
    ensures
        encoded(r) == png_of(rgba@, width, height),
{
    let mut buffer = std::io::Cursor::new(Vec::new());
    let (color, format) = (image::ColorType::Rgba8, image::ImageFormat::Png);
    match image::write_buffer_with_format(&mut buffer, rgba, width, height, color, format) {
        Ok(()) => Ok(buffer.into_inner()),
        Err(cause) => Err(cause.to_string()),
    }
}

/// A picture as a PNG file.
pub fn encode_png(image: &ChartImage) -> (r: Result<Vec<u8>, String>)
    requires
        image.wf(),
    ensures
        encoded(r) == png_of(image.rgba@, image.width, image.height),
{
    write_png(&image.rgba, image.width, image.height)
}

/// What came of the request for a screenshot.
#[derive(Debug)]
pub enum Shot {
    /// Nothing has come yet.
    Waiting,
    /// A screenshot came, in which the chart is too small to be used or that
    /// could not be encoded.
    Unusable,
    /// A screenshot came; this is the PNG file of the chart.
    Encoded(Vec<u8>),
}

/// What comes of a screenshot, given what the encoder made of the chart in it.
pub open spec fn shot_of(made: Option<Result<Seq<u8>, Seq<char>>>) -> Option<Seq<u8>> {
    match made {
        Some(Ok(bytes)) => Some(bytes),
        _ => None,
    }
}

/// The PNG file in a shot.
pub open spec fn shot_bytes(shot: Shot) -> Option<Seq<u8>> {
    match shot {
        Shot::Encoded(bytes) => Some(bytes@),
        _ => None,
    }
}

/// What comes of a screenshot. `chart` is the chart in it, `None` if it is too
/// small to be used.
pub fn take_screenshot(chart: &Option<ChartImage>) -> (r: Shot)
    requires
        chart matches Some(image) ==> image.wf(),
    ensures
        r !is Waiting,
        shot_bytes(r) == match *chart {
            Some(image) => shot_of(Some(png_of(image.rgba@, image.width, image.height))),
            None => None,
        },
{
    match chart {
        Some(image) => match encode_png(image) {
            Ok(bytes) => Shot::Encoded(bytes),
            Err(_) => Shot::Unusable,
        },
        None => Shot::Unusable,
    }
}

// ---------------------------------------------------------------------------
// The job
// ---------------------------------------------------------------------------

/// A file of the export.
#[derive(Debug)]
pub struct ExportImage {
    pub file_name: String,
    pub png: Vec<u8>,
}

/// What files of the export are.
pub open spec fn image_models(v: Seq<ExportImage>) -> Seq<(Seq<char>, Seq<u8>)> {
    Seq::new(v.len(), |i: int| (v[i].file_name@, v[i].png@))
}

/// A running export.
#[derive(Debug)]
pub struct BenchmarkExportJob {
    pub id: String,
    /// The chart that is being captured.
    pub chart_index: usize,
    pub chart_count: usize,
    /// For how many frames it has been drawn.
    pub frames_rendered: u32,
    pub screenshot_requested: bool,
    /// The key of the chart that the last frame drew.
    pub drawn: Option<String>,
    pub images: Vec<ExportImage>,
}

/// What a running export is.
#[verifier::ext_equal]
pub struct JobModel {
    pub id: Seq<char>,
    pub index: nat,
    pub count: nat,
    pub frames: nat,
    pub requested: bool,
    pub drawn: Option<Seq<char>>,
    pub images: Seq<(Seq<char>, Seq<u8>)>,
}

impl View for BenchmarkExportJob {
    type V = JobModel;

    open spec fn view(&self) -> JobModel {
        JobModel {
            id: self.id@,
            index: self.chart_index as nat,
            count: self.chart_count as nat,
            frames: self.frames_rendered as nat,
            requested: self.screenshot_requested,
            drawn: match self.drawn {
                Some(key) => Some(key@),
                None => None,
            },
            images: image_models(self.images@),
        }
    }
}

/// What keeps the counts of an export in bounds: a chart is drawn a few times
/// before its screenshot is asked for, and not much longer than that is waited
/// for. No more charts are captured than there are.
pub open spec fn job_wf(j: JobModel) -> bool {
    &&& j.index <= j.count
    &&& !j.requested ==> j.frames < SETTLE_FRAMES
    &&& j.frames <= SCREENSHOT_TIMEOUT_FRAMES + 1
    &&& j.images.len() <= j.index
}

/// What a frame of an export does.
#[derive(Debug, Clone, Copy, PartialEq, Eq, Structural)]
pub enum ExportStep {
    /// Every chart has been captured: the files are to be written.
    Finish,
    /// The chart is to be drawn.
    Draw(usize),
}

/// Whether waiting is over: a screenshot came, or none came in time.
pub open spec fn settled(j: JobModel, arrived: bool) -> bool {
    j.requested && (arrived || j.frames > SCREENSHOT_TIMEOUT_FRAMES)
}

/// The export once waiting for a chart is over.
pub open spec fn captured(j: JobModel, png: Option<Seq<u8>>) -> JobModel {
    JobModel {
        index: j.index + 1,
        frames: 0,
        requested: false,
        drawn: None,
        images: match (j.drawn, png) {
            (Some(key), Some(bytes)) => j.images.push((key + ".png"@, bytes)),
            _ => j.images,
        },
        ..j
    }
}

/// What the beginning of a frame does.
pub open spec fn begun(j: JobModel, arrived: bool, png: Option<Seq<u8>>) -> (JobModel, ExportStep) {
    if j.index >= j.count {
        (j, ExportStep::Finish)
    } else if settled(j, arrived) {
        (
            captured(j, png),
            if j.index + 1 >= j.count {
                ExportStep::Finish
            } else {
                ExportStep::Draw(j.index as usize)
            },
        )
    } else {
        (j, ExportStep::Draw(j.index as usize))
    }
}

/// What the end of a frame does, given the chart that it drew. The second part
/// says whether a screenshot is asked for.
pub open spec fn ended(j: JobModel, drawn: Option<Seq<char>>) -> (JobModel, bool) {
    let asks = !j.requested && j.frames + 1 >= SETTLE_FRAMES;
    (JobModel { frames: j.frames + 1, drawn, requested: j.requested || asks, ..j }, asks)
}

impl BenchmarkExportJob {
    /// An export that has not drawn anything.
    pub fn new(id: String, chart_count: usize) -> (r: BenchmarkExportJob)
        ensures
            r@ == (JobModel {
                id: id@,
                index: 0,
                count: chart_count as nat,
                frames: 0,
                requested: false,
                drawn: None,
                images: Seq::empty(),
            }),
            job_wf(r@),
    {
        let r: BenchmarkExportJob = BenchmarkExportJob {
            id,
            chart_index: 0,
            chart_count,
            frames_rendered: 0,
            screenshot_requested: false,
            drawn: None,
            images: Vec::new(),
        };
        assert(image_models(r.images@) =~= Seq::empty());
        r
    }

    /// The beginning of a frame. Once a screenshot has come, or none has come
    /// in time, the next chart is up. The frame still draws the chart that was
    /// up when it began.
    pub fn begin_frame(&mut self, shot: Shot) -> (r: ExportStep)
        requires
            job_wf(old(self)@),
        ensures
            (final(self)@, r) == begun(old(self)@, shot !is Waiting, shot_bytes(shot)),
            job_wf(final(self)@),
    {
        let index: usize = self.chart_index;
        if index >= self.chart_count {
            return ExportStep::Finish;
        }
        let arrived: bool = match &shot {
            Shot::Waiting => false,
            _ => true,
        };
        if self.screenshot_requested && (arrived || self.frames_rendered
            > SCREENSHOT_TIMEOUT_FRAMES) {
            let ghost before = self@;
            let mut drawn: Option<String> = None;
            std::mem::swap(&mut drawn, &mut self.drawn);
            if let Some(key) = drawn {
                if let Shot::Encoded(png) = shot {
                    let ghost kept = image_models(self.images@);
                    let ghost bytes = png@;
                    let file_name: String = concat(key.as_str(), ".png");
                    self.images.push(ExportImage { file_name, png });
                    assert(image_models(self.images@) =~= kept.push((key@ + ".png"@, bytes)));
                }
            }
            self.chart_index = index + 1;
            self.frames_rendered = 0;
            self.screenshot_requested = false;
            proof {
                assert(self@ =~= captured(before, shot_bytes(shot)));
            }
            if index + 1 >= self.chart_count {
                return ExportStep::Finish;
            }
        }
        ExportStep::Draw(index)
    }

    /// The end of a frame. `drawn` is the key of the chart that it drew. The
    /// result says whether a screenshot is to be asked for.
    pub fn end_frame(&mut self, drawn: Option<String>) -> (asks: bool)
        requires
            job_wf(old(self)@),
            old(self)@.frames <= SCREENSHOT_TIMEOUT_FRAMES,
        ensures
            (final(self)@, asks) == ended(
                old(self)@,
                match drawn {
                    Some(key) => Some(key@),
                    None => None,
                },
            ),
            job_wf(final(self)@),
    {
        self.frames_rendered = self.frames_rendered + 1;
        self.drawn = drawn;
        if !self.screenshot_requested && self.frames_rendered >= SETTLE_FRAMES {
            self.screenshot_requested = true;
            return true;
        }
        false
    }
}

/// How much an export has left, at most: frames until the last chart is
/// captured, whether screenshots come or not.
pub open spec fn frames_left(j: JobModel) -> int {
    (j.count - j.index) * (SCREENSHOT_TIMEOUT_FRAMES + 20) + (SCREENSHOT_TIMEOUT_FRAMES + 1
        - j.frames)
}

/// An export ends, whatever comes: every frame that draws leaves less to do,
/// and there is never less than nothing left.
pub proof fn law_export_ends(
    j: JobModel,
    arrived: bool,
    png: Option<Seq<u8>>,
    drawn: Option<Seq<char>>,
)
    requires
        job_wf(j),
        begun(j, arrived, png).1 is Draw,
    ensures
        ({
            let next = ended(begun(j, arrived, png).0, drawn).0;
            &&& job_wf(next)
            &&& 0 <= frames_left(next) < frames_left(j)
        }),
{
    let b = begun(j, arrived, png).0;
    let next = ended(b, drawn).0;
    let k = SCREENSHOT_TIMEOUT_FRAMES + 20;
    if settled(j, arrived) {
        assert((j.count - j.index - 1) * k == (j.count - j.index) * k - k) by (nonlinear_arith);
    }
    let left = next.count - next.index;
    assert(left * k >= 0) by (nonlinear_arith)
        requires
            left >= 0,
            k >= 0,
    ;
}

/// Charts are captured in order, each once: a frame leaves the chart that is
/// up, or goes on to the next one, and then keeps at most one more file. Files
/// that were kept stay.
pub proof fn law_charts_are_captured_in_order(j: JobModel, arrived: bool, png: Option<Seq<u8>>)
    requires
        job_wf(j),
    ensures
        ({
            let next = begun(j, arrived, png).0;
            &&& next.index == j.index || next.index == j.index + 1
            &&& next.index == j.index ==> next.images == j.images
            &&& next.images.len() <= j.images.len() + 1
            &&& next.images.take(j.images.len() as int) == j.images
        }),
{
    let next = begun(j, arrived, png).0;
    assert(next.images.take(j.images.len() as int) =~= j.images);
}

/// The name that the archive of an export is offered under.
pub fn export_file_name(id: &str) -> (r: String)
    ensures
        r@ == id@ + ".zip"@,
{
    concat(id, ".zip")
}

/// The label of the window that draws chart `index`.
pub open spec fn export_label_of(name: Seq<char>, index: nat, count: nat) -> Seq<char> {
    name + "  ("@ + text::decimal(index + 1) + "/"@ + text::decimal(count) + ")"@
}

/// The label of the window that draws chart `index`.
pub fn export_label(name: &str, index: usize, count: usize) -> (r: String)
    ensures
        r@ == export_label_of(name@, index as nat, count as nat),
{
    let mut s: String = concat(name, "  (");
    s.append(text::decimal_text(index as u128 + 1).as_str());
    s.append("/");
    s.append(text::decimal_text(count as u128).as_str());
    s.append(")");
    s
}

} // verus!
