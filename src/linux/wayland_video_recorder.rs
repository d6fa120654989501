use vstd::prelude::*;

use crate::error::XCapError;
use crate::linux::utils::{check_session_handle, response_result};
use crate::pixel::{
    all_opaque, chan, expand_rgb, pixel_count, expands_rgb, lemma_strip_padding_len, made_opaque, set_opaque,
    strip_row_padding, swaps_red_blue,
};
use crate::video_recorder::{decode_bgrx_rows, packed_rows, rgba_len, rows_fit, rows_prefix, Frame};

verus! {

/// The raw video formats the stream accepts, in order of preference.
#[derive(Debug, Clone, Copy, PartialEq, Eq, Structural)]
pub enum VideoFormat {
    /// Three bytes per pixel: red, green, blue.
    RGB,
    /// Four bytes per pixel with alpha.
    RGBA,
    /// Red, green, blue and an undefined byte.
    RGBx,
    /// Blue, green, red and an undefined byte.
    BGRx,
}

pub open spec fn bytes_per_pixel(format: VideoFormat) -> int {
    match format {
        VideoFormat::RGB => 3,
        _ => 4,
    }
}

/// `f` is the frame of `height` rows of `stride` bytes of `format` pixels in `data`.
pub open spec fn portal_frame(
    format: VideoFormat,
    width: u32,
    height: u32,
    stride: usize,
    data: Seq<u8>,
    f: Frame,
) -> bool {
    let packed = packed_rows(data, bytes_per_pixel(format) * width, height, stride);
    &&& f.wf()
    &&& f.width == width
    &&& f.height == height
    &&& match format {
        VideoFormat::RGB => expands_rgb(packed, f.raw@),
        VideoFormat::RGBA => f.raw@ == packed,
        VideoFormat::RGBx => made_opaque(packed, f.raw@),
        VideoFormat::BGRx => swaps_red_blue(packed, f.raw@) && all_opaque(f.raw@),
    }
}

/// Picks the first format of `offered` that the stream accepts; `None` aborts the
/// stream setup.
pub fn negotiate_format(offered: &[Option<VideoFormat>]) -> (r: Option<VideoFormat>)
    ensures
        r is None <==> forall|i: int| 0 <= i < offered@.len() ==> #[trigger] offered@[i] is None,
        r matches Some(f) ==> exists|i: int|
            0 <= i < offered@.len() && #[trigger] offered@[i] == Some(f) && forall|j: int|
                0 <= j < i ==> #[trigger] offered@[j] is None,
{
    let mut i: usize = 0;
    while i < offered.len()
        invariant
            i <= offered@.len(),
            forall|j: int| 0 <= j < i ==> #[trigger] offered@[j] is None,
        decreases offered@.len() - i,
    {
        if let Some(f) = offered[i] {
            assert(offered@[i as int] == Some(f));
            return Some(f);
        }
        i = i + 1;
    }
    None
}

/// The body of the stream's buffer listener. While the recorder is stopped the
/// buffer is dropped unread; otherwise `height` rows of `stride` bytes of the
/// negotiated format become an RGBA frame (alpha 255 for the formats without
/// one). `None` also when the buffer is too short for its description.
pub fn process_buffer(
    armed: bool,
    format: VideoFormat,
    width: u32,
    height: u32,
    stride: usize,
    data: &[u8],
) -> (r: Option<Frame>)
    ensures
        r.is_some() <==> armed && rows_fit(bytes_per_pixel(format), width, height, stride, data@.len() as int),
        r matches Some(f) ==> portal_frame(format, width, height, stride, data@, f),
{
    if !armed {
        return None;
    }
    match format {
        VideoFormat::BGRx => decode_bgrx_rows(width, height, stride, data),
        VideoFormat::RGB => {
            let rows = match rows_prefix(3, width, height, stride, data) {
                Some(rows) => rows,
                None => return None,
            };
            let row_len: usize = 3 * (width as usize);
            let packed = strip_row_padding(row_len, stride, rows);
            let raw = expand_rgb(packed.as_slice());
            proof {
                lemma_strip_padding_len(rows@, row_len as nat, stride as nat, height as nat);
                assert((height as int) * (row_len as int) == 3 * ((width as int) * (height as int)))
                    by (nonlinear_arith)
                    requires
                        row_len == 3 * (width as int),
                ;
                vstd::arithmetic::div_mod::lemma_div_multiples_vanish(
                    (width as int) * (height as int),
                    3,
                );
                assert(4 * ((width as int) * (height as int)) == rgba_len(width as int, height as int))
                    by (nonlinear_arith);
            }
            Some(Frame::new(width, height, raw))
        },
        _ => {
            let rows = match rows_prefix(4, width, height, stride, data) {
                Some(rows) => rows,
                None => return None,
            };
            let row_len: usize = 4 * (width as usize);
            let packed = strip_row_padding(row_len, stride, rows);
            proof {
                lemma_strip_padding_len(rows@, row_len as nat, stride as nat, height as nat);
                assert((height as int) * (row_len as int) == rgba_len(width as int, height as int))
                    by (nonlinear_arith)
                    requires
                        row_len == 4 * (width as int),
                ;
            }
            let raw = if let VideoFormat::RGBx = format {
                set_opaque(packed)
            } else {
                packed
            };
            Some(Frame::new(width, height, raw))
        },
    }
}

/// Frames of one format and description have one shape, whatever the pixels.
pub proof fn lemma_portal_shape_stable(
    format: VideoFormat,
    width: u32,
    height: u32,
    stride: usize,
    d1: Seq<u8>,
    d2: Seq<u8>,
    f1: Frame,
    f2: Frame,
)
    requires
        portal_frame(format, width, height, stride, d1, f1),
        portal_frame(format, width, height, stride, d2, f2),
    ensures
        f1.width == f2.width,
        f1.height == f2.height,
        f1.raw@.len() == f2.raw@.len(),
{
}

/// Every format but RGBA has no alpha of its own, and its frames are opaque.
pub proof fn lemma_portal_opaque(
    format: VideoFormat,
    width: u32,
    height: u32,
    stride: usize,
    data: Seq<u8>,
    f: Frame,
)
    requires
        portal_frame(format, width, height, stride, data, f),
        format != VideoFormat::RGBA,
    ensures
        all_opaque(f.raw@),
{
    if format == VideoFormat::RGB {
        let packed = packed_rows(data, bytes_per_pixel(format) * width, height, stride);
        let k = packed.len() as int / 3;
        assert(f.raw@.len() as int / 4 == k) by {
            vstd::arithmetic::div_mod::lemma_div_multiples_vanish(k, 4);
        }
        assert forall|p: int| 0 <= p < pixel_count(f.raw@) implies #[trigger] chan(f.raw@, p, 3)
            == 255u8 by {
            assert(chan(f.raw@, p, 0) == packed[3 * p]);
        }
    }
}

/// Reply to a screencast `CreateSession` request.
#[derive(Debug)]
pub struct ScreenCastCreateSessionResponse {
    pub session_handle: String,
}

/// One stream of a screencast `Start` reply.
#[derive(Debug, Clone)]
pub struct ScreenCastStartStream {
    pub id: Option<String>,
    pub position: Option<(i32, i32)>,
    pub size: Option<(i32, i32)>,
    pub source_type: Option<u32>,
    pub mapping_id: Option<String>,
}

/// Reply to a screencast `Start` request: the streams, each with its node id.
#[derive(Debug)]
pub struct ScreenCastStartResponse {
    pub streams: Option<Vec<(u32, ScreenCastStartStream)>>,
    pub restore_token: Option<String>,
}

/// The node id of the first stream of a `Start` reply.
pub open spec fn first_stream(response: ScreenCastStartResponse) -> Option<u32> {
    match response.streams {
        Some(streams) => if streams@.len() > 0 {
            Some(streams@[0].0)
        } else {
            None
        },
        None => None,
    }
}

/// The stream to connect to: the first one the portal started.
pub fn stream_id(response: &ScreenCastStartResponse) -> (r: Result<u32, XCapError>)
    ensures
        r.is_ok() <==> first_stream(*response) is Some,
        r matches Ok(id) ==> first_stream(*response) == Some(id),
        r matches Err(e) ==> e matches XCapError::Error(m) && m@ == "Stream ID not found"@,
{
    match &response.streams {
        Some(streams) => {
            if streams.len() > 0 {
                Ok(streams[0].0)
            } else {
                Err(XCapError::new("Stream ID not found"))
            }
        },
        None => Err(XCapError::new("Stream ID not found")),
    }
}

/// Where the screencast session setup stands.
#[derive(Debug, Clone, Copy, PartialEq, Eq, Structural)]
pub enum PortalStep {
    /// Waiting for the reply to `CreateSession`.
    CreateSession,
    /// Waiting for the reply to `SelectSources`.
    SelectSources,
    /// Waiting for the reply to `Start`.
    Start,
    /// The stream with this node id is ready to connect to.
    Streaming(u32),
    /// A reply failed; the setup is over.
    Failed,
}

/// The screencast session setup: three request/response round trips, each of
/// which must succeed before the next request is sent.
#[derive(Debug)]
pub struct PortalNegotiation {
    step: PortalStep,
}

impl PortalNegotiation {
    pub closed spec fn spec_step(&self) -> PortalStep {
        self.step
    }

    pub fn new() -> (r: PortalNegotiation)
        ensures
            r.spec_step() == PortalStep::CreateSession,
    {
        PortalNegotiation { step: PortalStep::CreateSession }
    }

    pub fn step(&self) -> (r: PortalStep)
        ensures
            r == self.spec_step(),
    {
        self.step
    }

    /// Takes the reply to `CreateSession`: it must succeed and name the session
    /// path the request asked for.
    pub fn on_create_session(&mut self, code: u32, expected_session: &[u8], session_handle: &[u8]) -> (r: Result<(), XCapError>)
        requires
            old(self).spec_step() == PortalStep::CreateSession,
        ensures
            r.is_ok() <==> code == 0 && expected_session@ == session_handle@,
            final(self).spec_step() == if r.is_ok() {
                PortalStep::SelectSources
            } else {
                PortalStep::Failed
            },
    {
        let r = match response_result(code, ()) {
            Ok(()) => check_session_handle(expected_session, session_handle),
            Err(e) => Err(e),
        };
        self.step = if r.is_ok() { PortalStep::SelectSources } else { PortalStep::Failed };
        r
    }

    /// Takes the reply to `SelectSources`.
    pub fn on_select_sources(&mut self, code: u32) -> (r: Result<(), XCapError>)
        requires
            old(self).spec_step() == PortalStep::SelectSources,
        ensures
            r.is_ok() <==> code == 0,
            final(self).spec_step() == if code == 0 {
                PortalStep::Start
            } else {
                PortalStep::Failed
            },
    {
        let r = response_result(code, ());
        self.step = if r.is_ok() { PortalStep::Start } else { PortalStep::Failed };
        r
    }

    /// Takes the reply to `Start`: it must succeed and name at least one stream,
    /// the first of which is the one recorded.
    pub fn on_start(&mut self, code: u32, response: &ScreenCastStartResponse) -> (r: Result<u32, XCapError>)
        requires
            old(self).spec_step() == PortalStep::Start,
        ensures
            r.is_ok() <==> code == 0 && first_stream(*response) is Some,
            r matches Ok(id) ==> first_stream(*response) == Some(id)
                && final(self).spec_step() == PortalStep::Streaming(id),
            r is Err ==> final(self).spec_step() == PortalStep::Failed,
    {
        let r = match response_result(code, ()) {
            Ok(()) => stream_id(response),
            Err(e) => Err(e),
        };
        self.step = match r {
            Ok(id) => PortalStep::Streaming(id),
            Err(_) => PortalStep::Failed,
        };
        r
    }
}

} // verus!
