use vstd::prelude::*;

use crate::pixel::{
    all_opaque, chan, lemma_strip_padding_index, lemma_strip_padding_len, pixel_count,
    strip_padding, strip_row_padding, swap_red_blue, swaps_red_blue,
};

verus! {

/// One decoded frame: `width * height` pixels, row-major, R, G, B, A per pixel.
#[derive(Debug, Clone)]
pub struct Frame {
    pub width: u32,
    pub height: u32,
    pub raw: Vec<u8>,
}

/// Byte length of a tightly packed RGBA8 image.
pub open spec fn rgba_len(width: int, height: int) -> int {
    width * height * 4
}

impl Frame {
    /// A frame holds exactly four bytes per pixel.
    pub open spec fn wf(&self) -> bool {
        self.raw@.len() == rgba_len(self.width as int, self.height as int)
    }

    pub fn new(width: u32, height: u32, raw: Vec<u8>) -> (r: Frame)
        requires
            raw@.len() == rgba_len(width as int, height as int),
        ensures
            r.width == width,
            r.height == height,
            r.raw@ == raw@,
            r.wf(),
    {
        Frame { width, height, raw }
    }
}

/// Whether `height` rows of `stride` bytes, each starting with `width` pixels of
/// `bpp` bytes, can be read from a buffer of `len` bytes.
pub open spec fn rows_fit(bpp: int, width: u32, height: u32, stride: usize, len: int) -> bool {
    &&& 0 < stride
    &&& bpp * (width as int) <= stride
    &&& (height as int) * (stride as int) <= len
}

/// `rows_fit` for four-byte pixels.
pub open spec fn rows_readable(width: u32, height: u32, stride: usize, len: int) -> bool {
    rows_fit(4, width, height, stride, len)
}

/// The pixel bytes of `height` rows of `stride` bytes, padding dropped.
pub open spec fn packed_rows(data: Seq<u8>, row_len: int, height: u32, stride: usize) -> Seq<u8> {
    strip_padding(data.subrange(0, (height as int) * (stride as int)), row_len as nat, stride as nat)
}

/// `f` is the opaque RGBA frame of `height` rows of `stride` bytes of BGRx pixels in `data`.
pub open spec fn bgrx_frame(width: u32, height: u32, stride: usize, data: Seq<u8>, f: Frame) -> bool {
    &&& f.wf()
    &&& f.width == width
    &&& f.height == height
    &&& swaps_red_blue(packed_rows(data, 4 * width as int, height, stride), f.raw@)
    &&& all_opaque(f.raw@)
}

/// Decodes `height` rows of `stride` bytes of BGRx pixels from an opaque source:
/// the row padding is dropped, red and blue are exchanged and alpha is 255.
/// `None` when the rows cannot be read from `data`.
pub fn decode_bgrx_rows(width: u32, height: u32, stride: usize, data: &[u8]) -> (r: Option<Frame>)
    ensures
        r.is_some() <==> rows_readable(width, height, stride, data@.len() as int),
        r matches Some(f) ==> bgrx_frame(width, height, stride, data@, f),
{
    let rows = match rows_prefix(4, width, height, stride, data) {
        Some(rows) => rows,
        None => return None,
    };
    let row_len: usize = 4 * (width as usize);
    let packed = strip_row_padding(row_len, stride, rows);
    proof {
        lemma_strip_padding_len(rows@, row_len as nat, stride as nat, height as nat);
        assert((height as int) * (row_len as int) == rgba_len(width as int, height as int))
            by (nonlinear_arith)
            requires
                row_len == 4 * (width as int),
        ;
    }
    let raw = swap_red_blue(packed, true);
    Some(Frame::new(width, height, raw))
}

/// The first `height * stride` bytes of `data`, when rows of `width` pixels of
/// `bpp` bytes can be read.
pub fn rows_prefix(bpp: u32, width: u32, height: u32, stride: usize, data: &[u8]) -> (r: Option<&[u8]>)
    ensures
        r.is_some() <==> rows_fit(bpp as int, width, height, stride, data@.len() as int),
        r matches Some(rows) ==> rows@ == data@.subrange(0, (height as int) * (stride as int))
            && rows@.len() == (height as int) * (stride as int),
{
    let b: u128 = bpp as u128;
    let w: u128 = width as u128;
    assert((b as int) * (w as int) <= 0xffff_ffff_ffff_ffff) by (nonlinear_arith)
        requires
            b <= 0xffff_ffff,
            w <= 0xffff_ffff,
    ;
    if stride == 0 || (stride as u128) < b * w {
        return None;
    }
    let h: u128 = height as u128;
    let st: u128 = stride as u128;
    assert((h as int) * (st as int) <= 0xffff_ffff_ffff_ffff_ffff_ffff_ffff) by (nonlinear_arith)
        requires
            h <= 0xffff_ffff,
            st <= 0xffff_ffff_ffff_ffff,
    ;
    let total: u128 = h * st;
    if total > data.len() as u128 {
        return None;
    }
    let end: usize = total as usize;
    Some(&data[0..end])
}

/// Pixel `(x, y)` of a decoded frame is the pixel at column `x` of row `y` of the
/// source, red and blue exchanged, with alpha 255.
pub proof fn lemma_bgrx_pixel(
    width: u32,
    height: u32,
    stride: usize,
    data: Seq<u8>,
    f: Frame,
    x: int,
    y: int,
)
    requires
        bgrx_frame(width, height, stride, data, f),
        rows_readable(width, height, stride, data.len() as int),
        0 <= x < width,
        0 <= y < height,
    ensures
        ({
            let p = y * width + x;
            let at = y * stride + 4 * x;
            &&& chan(f.raw@, p, 0) == data[at + 2]
            &&& chan(f.raw@, p, 1) == data[at + 1]
            &&& chan(f.raw@, p, 2) == data[at]
            &&& chan(f.raw@, p, 3) == 255u8
        }),
{
    let row_len = 4 * (width as int);
    let rows = data.subrange(0, (height as int) * (stride as int));
    let packed = packed_rows(data, row_len, height, stride);
    let p = y * width + x;
    let at = y * stride + 4 * x;
    lemma_strip_padding_len(rows, row_len as nat, stride as nat, height as nat);
    assert((y + 1) * stride <= (height as int) * (stride as int)) by (nonlinear_arith)
        requires
            y < height,
            0 < stride,
    ;
    assert(p < (width as int) * (height as int)) by (nonlinear_arith)
        requires
            0 <= x < width,
            0 <= y < height,
            p == y * width + x,
    ;
    assert(0 <= p) by (nonlinear_arith)
        requires
            0 <= x,
            0 <= y,
            p == y * width + x,
    ;
    assert((height as int) * row_len == 4 * ((width as int) * (height as int))) by (nonlinear_arith)
        requires
            row_len == 4 * (width as int),
    ;
    vstd::arithmetic::div_mod::lemma_div_multiples_vanish((width as int) * (height as int), 4);
    assert(p < pixel_count(packed));
    assert(at + 4 <= (height as int) * (stride as int)) by (nonlinear_arith)
        requires
            (y + 1) * stride <= (height as int) * (stride as int),
            4 * x + 4 <= row_len,
            row_len <= stride,
            at == y * stride + 4 * x,
    ;
    assert forall|c: int| 0 <= c < 4 implies #[trigger] packed[4 * p + c] == data[at + c] by {
        assert(4 * p + c == y * row_len + (4 * x + c)) by (nonlinear_arith)
            requires
                p == y * width + x,
                row_len == 4 * (width as int),
        ;
        lemma_strip_padding_index(rows, row_len as nat, stride as nat, y, 4 * x + c);
        assert(y * stride + (4 * x + c) == at + c);
    }
    assert(chan(f.raw@, p, 0) == chan(packed, p, 2));
    assert(packed[4 * p + 2] == data[at + 2]);
    assert(packed[4 * p + 1] == data[at + 1]);
    assert(packed[4 * p + 0] == data[at + 0]);
}

/// Frames decoded from buffers of one description have one shape, whatever the
/// pixels: no drift in size between consecutive frames of an unchanged target.
pub proof fn lemma_bgrx_shape_stable(
    width: u32,
    height: u32,
    stride: usize,
    d1: Seq<u8>,
    d2: Seq<u8>,
    f1: Frame,
    f2: Frame,
)
    requires
        bgrx_frame(width, height, stride, d1, f1),
        bgrx_frame(width, height, stride, d2, f2),
    ensures
        f1.width == f2.width,
        f1.height == f2.height,
        f1.raw@.len() == f2.raw@.len(),
{
}

/// Whether the recording producer may run: opened by `wake`, closed by `sleep`,
/// and released for good by `terminate`.
#[derive(Debug)]
pub struct RecorderWaker {
    parking: bool,
    terminated: bool,
}

impl RecorderWaker {
    /// The waker is closed.
    pub closed spec fn is_parked(&self) -> bool {
        self.parking
    }

    /// The owning recorder has been torn down.
    pub closed spec fn is_terminated(&self) -> bool {
        self.terminated
    }

    /// A closed waker: the producer starts idle.
    pub fn new() -> (r: RecorderWaker)
        ensures
            r.is_parked(),
            !r.is_terminated(),
    {
        RecorderWaker { parking: true, terminated: false }
    }

    /// Opens the waker. Returns whether a parked waiter must be notified, which is
    /// so only when the waker was closed and the recorder is live.
    pub fn wake(&mut self) -> (notify: bool)
        ensures
            !final(self).is_parked(),
            final(self).is_terminated() == old(self).is_terminated(),
            notify == (old(self).is_parked() && !old(self).is_terminated()),
    {
        let notify = self.parking && !self.terminated;
        self.parking = false;
        notify
    }

    /// Closes the waker; a waiter re-checks it on its next wake, so no notification.
    pub fn sleep(&mut self)
        ensures
            final(self).is_parked(),
            final(self).is_terminated() == old(self).is_terminated(),
    {
        self.parking = true;
    }

    /// The waker is open and the recorder is live.
    pub fn is_armed_and_live(&self) -> (r: bool)
        ensures
            r == (!self.is_parked() && !self.is_terminated()),
    {
        !self.parking && !self.terminated
    }

    /// The recorder has been torn down.
    pub fn is_terminated_now(&self) -> (r: bool)
        ensures
            r == self.is_terminated(),
    {
        self.terminated
    }

    /// Whether the producer must keep blocking: the waker is closed and the
    /// recorder is live.
    pub fn must_wait(&self) -> (r: bool)
        ensures
            r == (self.is_parked() && !self.is_terminated()),
    {
        self.parking && !self.terminated
    }

    /// Releases the producer for good. Returns whether a parked waiter must be
    /// notified: exactly on the first call while the waker is closed.
    pub fn terminate(&mut self) -> (notify: bool)
        ensures
            final(self).is_terminated(),
            final(self).is_parked() == old(self).is_parked(),
            notify == (old(self).is_parked() && !old(self).is_terminated()),
    {
        let notify = self.parking && !self.terminated;
        self.terminated = true;
        notify
    }
}

/// The capture primitive behind a recorder, fixed when it is built.
#[derive(Debug, Clone, Copy, PartialEq, Eq, Structural)]
pub enum Backend {
    /// GPU output duplication, polled on a producer thread.
    Duplication,
    /// Frames pushed by the OS compositor into a callback.
    Push,
    /// A portal-negotiated screencast stream.
    Portal,
    /// Repeated still captures on a producer thread.
    RawPoll,
}

/// What the caller of `start` or `stop` must do next.
#[derive(Debug, Clone, Copy, PartialEq, Eq, Structural)]
pub enum ControlEffect {
    Nothing,
    /// Notify the producer parked at the waker.
    NotifyProducer,
    /// Post this activity to the stream's event loop (a pause also flushes).
    SetStreamActive(bool),
}

/// What a producer thread does after consulting the waker.
#[derive(Debug, Clone, Copy, PartialEq, Eq, Structural)]
pub enum ProducerStep {
    /// Block until notified.
    Park,
    /// Capture and send one frame.
    Produce,
    /// The recorder is gone: leave the loop.
    Exit,
}

/// The observable control state of a recorder.
pub struct RecorderModel {
    pub backend: Backend,
    pub session: u64,
    pub armed: bool,
    pub live: bool,
}

/// Whether the backend runs a producer thread of its own that parks at the waker.
pub open spec fn has_producer(backend: Backend) -> bool {
    backend == Backend::Duplication || backend == Backend::RawPoll
}

impl RecorderModel {
    pub open spec fn started(self) -> RecorderModel {
        if self.live {
            RecorderModel { armed: true, ..self }
        } else {
            self
        }
    }

    pub open spec fn stopped(self) -> RecorderModel {
        if self.live {
            RecorderModel { armed: false, ..self }
        } else {
            self
        }
    }

    pub open spec fn torn_down(self) -> RecorderModel {
        RecorderModel { live: false, ..self }
    }

    pub open spec fn start_effect(self) -> ControlEffect {
        if self.armed || !self.live {
            ControlEffect::Nothing
        } else {
            match self.backend {
                Backend::Duplication => ControlEffect::NotifyProducer,
                Backend::RawPoll => ControlEffect::NotifyProducer,
                Backend::Push => ControlEffect::Nothing,
                Backend::Portal => ControlEffect::SetStreamActive(true),
            }
        }
    }

    pub open spec fn stop_effect(self) -> ControlEffect {
        if !self.armed || !self.live {
            ControlEffect::Nothing
        } else {
            match self.backend {
                Backend::Portal => ControlEffect::SetStreamActive(false),
                _ => ControlEffect::Nothing,
            }
        }
    }

    /// Whether a frame that arrives now is forwarded to the consumer.
    pub open spec fn delivers(self) -> bool {
        self.armed && self.live
    }

    pub open spec fn producer_step(self) -> ProducerStep {
        if !self.live {
            ProducerStep::Exit
        } else if !self.armed {
            ProducerStep::Park
        } else {
            ProducerStep::Produce
        }
    }

    /// Whether tearing down must notify a producer parked at the waker.
    pub open spec fn teardown_notifies(self) -> bool {
        has_producer(self.backend) && self.live && !self.armed
    }
}

/// The control state of one recorder: its backend and capture session, fixed at
/// construction, and the waker that `start` and `stop` toggle.
#[derive(Debug)]
pub struct RecorderControl {
    backend: Backend,
    session: u64,
    waker: RecorderWaker,
}

impl View for RecorderControl {
    type V = RecorderModel;

    closed spec fn view(&self) -> RecorderModel {
        RecorderModel {
            backend: self.backend,
            session: self.session,
            armed: !self.waker.is_parked(),
            live: !self.waker.is_terminated(),
        }
    }
}

impl RecorderControl {
    /// A live, stopped recorder over the given backend and session.
    pub fn new(backend: Backend, session: u64) -> (r: RecorderControl)
        ensures
            r@ == (RecorderModel { backend, session, armed: false, live: true }),
    {
        RecorderControl { backend, session, waker: RecorderWaker::new() }
    }

    pub fn backend(&self) -> (r: Backend)
        ensures
            r == self@.backend,
    {
        self.backend
    }

    pub fn session(&self) -> (r: u64)
        ensures
            r == self@.session,
    {
        self.session
    }

    /// Arms the recorder; idempotent.
    pub fn start(&mut self) -> (r: ControlEffect)
        ensures
            final(self)@ == old(self)@.started(),
            r == old(self)@.start_effect(),
    {
        if self.waker.must_wait() {
            let _ = self.waker.wake();
            match self.backend {
                Backend::Duplication => ControlEffect::NotifyProducer,
                Backend::RawPoll => ControlEffect::NotifyProducer,
                Backend::Push => ControlEffect::Nothing,
                Backend::Portal => ControlEffect::SetStreamActive(true),
            }
        } else {
            ControlEffect::Nothing
        }
    }

    /// Disarms the recorder; idempotent.
    pub fn stop(&mut self) -> (r: ControlEffect)
        ensures
            final(self)@ == old(self)@.stopped(),
            r == old(self)@.stop_effect(),
    {
        if self.waker.is_armed_and_live() {
            self.waker.sleep();
            match self.backend {
                Backend::Portal => ControlEffect::SetStreamActive(false),
                _ => ControlEffect::Nothing,
            }
        } else {
            ControlEffect::Nothing
        }
    }

    /// Whether a frame arriving in a push callback now is forwarded.
    pub fn accepts_frame(&self) -> (r: bool)
        ensures
            r == self@.delivers(),
    {
        self.waker.is_armed_and_live()
    }

    /// What the producer thread does next.
    pub fn producer_step(&self) -> (r: ProducerStep)
        ensures
            r == self@.producer_step(),
    {
        if self.waker.is_terminated_now() {
            ProducerStep::Exit
        } else if self.waker.must_wait() {
            ProducerStep::Park
        } else {
            ProducerStep::Produce
        }
    }

    /// Marks the recorder torn down. Returns whether the producer parked at the
    /// waker must be notified so that it can exit.
    pub fn teardown(&mut self) -> (notify: bool)
        ensures
            final(self)@ == old(self)@.torn_down(),
            notify == old(self)@.teardown_notifies(),
    {
        let parked = self.waker.terminate();
        parked && (matches!(self.backend, Backend::Duplication) || matches!(self.backend, Backend::RawPoll))
    }
}

/// Stopping a live recorder silences it at once, and starting it again resumes
/// delivery.
pub proof fn lemma_stop_then_start(m: RecorderModel)
    requires
        m.live,
    ensures
        !m.stopped().delivers(),
        m.stopped().producer_step() == ProducerStep::Park,
        m.stopped().started().delivers(),
        m.stopped().started().producer_step() == ProducerStep::Produce,
{
}

/// Starting twice is starting once: same state, and the second start asks for
/// nothing.
pub proof fn lemma_start_idempotent(m: RecorderModel)
    ensures
        m.started().started() == m.started(),
        m.started().start_effect() == ControlEffect::Nothing,
        m.stopped().stopped() == m.stopped(),
        m.stopped().stop_effect() == ControlEffect::Nothing,
{
}

/// Stopping and starting again keeps the backend and its capture session.
pub proof fn lemma_restart_keeps_session(m: RecorderModel)
    ensures
        m.stopped().started().backend == m.backend,
        m.stopped().started().session == m.session,
{
}

/// Tearing down a recorder that was never started releases its producer:
/// exactly one notification, after which the producer exits.
pub proof fn lemma_idle_teardown(backend: Backend, session: u64)
    ensures
        ({
            let m = RecorderModel { backend, session, armed: false, live: true };
            &&& m.teardown_notifies() == has_producer(backend)
            &&& m.torn_down().producer_step() == ProducerStep::Exit
            &&& !m.torn_down().teardown_notifies()
            &&& !m.torn_down().delivers()
        }),
{
}

} // verus!
