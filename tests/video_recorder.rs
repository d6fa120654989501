use xcap::linux::xorg_video_recorder::{raw_poll_step, FRAME_INTERVAL_MS, RETRY_INTERVAL_MS};
use xcap::macos::impl_video_recorder::{capture_sample, PIXEL_FORMAT_32BGRA};
use xcap::error::XCapError;
use xcap::rgba_image::RgbaImage;
use xcap::video_recorder::{
    decode_bgrx_rows, Backend, ControlEffect, Frame, ProducerStep, RecorderControl, RecorderWaker,
};
use xcap::windows::impl_video_recorder::texture_to_frame;

const BACKENDS: [Backend; 4] = [Backend::Duplication, Backend::Push, Backend::Portal, Backend::RawPoll];

fn bgrx_rows(width: usize, height: usize, stride: usize) -> Vec<u8> {
    let mut data = vec![0u8; stride * height];
    for y in 0..height {
        for x in 0..width {
            let i = y * stride + 4 * x;
            data[i] = (x % 251) as u8;
            data[i + 1] = (y % 251) as u8;
            data[i + 2] = 200;
            data[i + 3] = 0;
        }
    }
    data
}

#[test]
fn frame_new_keeps_fields() {
    let f = Frame::new(1, 2, vec![1, 2, 3, 4, 5, 6, 7, 8]);
    assert_eq!((f.width, f.height, f.raw.len()), (1, 2, 8));
}

#[test]
fn waker_open_close_cycle() {
    let mut w = RecorderWaker::new();
    assert!(w.must_wait());
    assert!(w.wake());
    assert!(!w.must_wait());
    assert!(!w.wake());
    w.sleep();
    assert!(w.must_wait());
    assert!(w.wake());
}

#[test]
fn waker_terminate_notifies_once() {
    let mut w = RecorderWaker::new();
    assert!(w.terminate());
    assert!(!w.terminate());
    assert!(!w.must_wait());
    assert!(!w.wake());
}

#[test]
fn stop_silences_and_start_resumes() {
    for backend in BACKENDS {
        let mut c = RecorderControl::new(backend, 7);
        c.start();
        c.stop();
        assert!(!c.accepts_frame());
        assert_eq!(c.producer_step(), ProducerStep::Park);
        assert!(capture_sample(c.accepts_frame(), PIXEL_FORMAT_32BGRA, 1, 1, 4, &[1, 2, 3, 4]).is_none());
        c.start();
        assert!(c.accepts_frame());
        assert_eq!(c.producer_step(), ProducerStep::Produce);
        assert!(capture_sample(c.accepts_frame(), PIXEL_FORMAT_32BGRA, 1, 1, 4, &[1, 2, 3, 4]).is_some());
    }
}

#[test]
fn start_is_idempotent() {
    let mut c = RecorderControl::new(Backend::Duplication, 1);
    assert_eq!(c.start(), ControlEffect::NotifyProducer);
    assert_eq!(c.start(), ControlEffect::Nothing);
    assert!(c.accepts_frame());
    let mut p = RecorderControl::new(Backend::Portal, 1);
    assert_eq!(p.start(), ControlEffect::SetStreamActive(true));
    assert_eq!(p.start(), ControlEffect::Nothing);
    assert_eq!(p.stop(), ControlEffect::SetStreamActive(false));
    assert_eq!(p.stop(), ControlEffect::Nothing);
    let mut push = RecorderControl::new(Backend::Push, 1);
    assert_eq!(push.start(), ControlEffect::Nothing);
    assert!(push.accepts_frame());
}

#[test]
fn restart_keeps_session() {
    let mut c = RecorderControl::new(Backend::Portal, 0xdead_beef);
    c.start();
    c.stop();
    c.start();
    assert_eq!(c.session(), 0xdead_beef);
    assert_eq!(c.backend(), Backend::Portal);
}

#[test]
fn idle_construct_and_drop_hundred_times() {
    for i in 0..100u64 {
        let mut c = RecorderControl::new(Backend::RawPoll, i);
        assert_eq!(c.producer_step(), ProducerStep::Park);
        assert!(c.teardown());
        assert_eq!(c.producer_step(), ProducerStep::Exit);
        assert!(!c.teardown());
    }
}

#[test]
fn teardown_after_start_needs_no_notification() {
    let mut c = RecorderControl::new(Backend::Duplication, 3);
    c.start();
    assert!(!c.teardown());
    assert_eq!(c.producer_step(), ProducerStep::Exit);
    assert_eq!(c.start(), ControlEffect::Nothing);
    assert!(!c.accepts_frame());
}

#[test]
fn decoded_frames_have_exact_length_and_opaque_alpha() {
    let data = bgrx_rows(3, 2, 16);
    let f = decode_bgrx_rows(3, 2, 16, &data).unwrap();
    assert_eq!(f.raw.len(), (f.width * f.height * 4) as usize);
    assert!(f.raw.chunks(4).all(|p| p[3] == 255));
    assert_eq!(&f.raw[0..4], &[200, 0, 0, 255]);
    // pixel (2, 1) comes from row 1, column 2 of the source
    let p = 4 * (1 * 3 + 2);
    assert_eq!(&f.raw[p..p + 4], &[200, 1, 2, 255]);
}

#[test]
fn consecutive_frames_keep_their_size() {
    let a = bgrx_rows(5, 4, 24);
    let mut b = bgrx_rows(5, 4, 24);
    b[0] = 99;
    let fa = decode_bgrx_rows(5, 4, 24, &a).unwrap();
    let fb = decode_bgrx_rows(5, 4, 24, &b).unwrap();
    assert_eq!((fa.width, fa.height, fa.raw.len()), (fb.width, fb.height, fb.raw.len()));
}

#[test]
fn region_recording_scenario() {
    let mut control = RecorderControl::new(Backend::Duplication, 1);
    assert_eq!(control.start(), ControlEffect::NotifyProducer);
    let mapped = bgrx_rows(400, 300, 1664);
    let mut frames = Vec::new();
    while frames.len() < 5 && control.producer_step() == ProducerStep::Produce {
        frames.push(texture_to_frame(400, 300, 1664, &mapped).unwrap());
    }
    control.stop();
    assert_eq!(control.producer_step(), ProducerStep::Park);
    assert_eq!(frames.len(), 5);
    for f in &frames {
        assert_eq!(f.width, 400);
        assert_eq!(f.height, 300);
        assert_eq!(f.raw.len(), 480000);
    }
}

#[test]
fn push_capture_rejects_other_formats() {
    assert!(capture_sample(true, 0x3234_7679, 1, 1, 4, &[1, 2, 3, 4]).is_none());
    let f = capture_sample(true, PIXEL_FORMAT_32BGRA, 1, 1, 8, &[1, 2, 3, 4, 9, 9, 9, 9]).unwrap();
    assert_eq!(f.raw, vec![3, 2, 1, 255]);
    assert!(capture_sample(true, PIXEL_FORMAT_32BGRA, 2, 1, 4, &[0; 8]).is_none());
}

#[test]
fn raw_poller_forwards_images_unmodified() {
    let img = RgbaImage::from_vec(1, 1, vec![1, 2, 3, 4]).unwrap();
    let action = raw_poll_step(Ok(img));
    assert_eq!(action.pause_ms, FRAME_INTERVAL_MS);
    assert_eq!(action.frame.unwrap().raw, vec![1, 2, 3, 4]);
    let action = raw_poll_step(Err(XCapError::new("capture failed")));
    assert_eq!(action.pause_ms, RETRY_INTERVAL_MS);
    assert!(action.frame.is_none());
    let oversized = RgbaImage::from_vec(1, 1, vec![0; 5]).unwrap();
    let action = raw_poll_step(Ok(oversized));
    assert_eq!(action.pause_ms, RETRY_INTERVAL_MS);
    assert!(action.frame.is_none());
}
