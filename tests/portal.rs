use xcap::linux::utils::{
    check_session_handle, decimal_bytes, is_wayland_session, random_token, request_path,
    response_result, session_path, str_contains, str_eq, unique_identifier, wayland_detect,
};
use xcap::linux::wayland_capture::ScreenshotResponse;
use xcap::linux::wayland_video_recorder::{
    negotiate_format, process_buffer, stream_id, PortalNegotiation, PortalStep,
    ScreenCastStartResponse, ScreenCastStartStream, VideoFormat,
};

fn stream(id: &str) -> ScreenCastStartStream {
    ScreenCastStartStream {
        id: Some(id.to_string()),
        position: Some((0, 0)),
        size: Some((400, 300)),
        source_type: Some(1),
        mapping_id: None,
    }
}

#[test]
fn unique_name_becomes_path_segment() {
    assert_eq!(unique_identifier(b":1.42"), b"1_42".to_vec());
    assert_eq!(unique_identifier(b"::a.b.c"), b"a_b_c".to_vec());
    assert_eq!(unique_identifier(b""), Vec::<u8>::new());
}

#[test]
fn portal_paths() {
    assert_eq!(
        request_path(b":1.7", b"123"),
        b"/org/freedesktop/portal/desktop/request/1_7/123".to_vec()
    );
    assert_eq!(
        session_path(b":1.7", b"99"),
        b"/org/freedesktop/portal/desktop/session/1_7/99".to_vec()
    );
}

#[test]
fn decimal_tokens() {
    assert_eq!(decimal_bytes(0), b"0".to_vec());
    assert_eq!(decimal_bytes(4_294_967_295), b"4294967295".to_vec());
    let t = random_token();
    assert!(!t.is_empty() && t.len() <= 10);
    assert!(t.iter().all(|c| c.is_ascii_digit()));
    assert!(t.len() == 1 || t[0] != b'0');
}

#[test]
fn session_handle_check() {
    assert!(check_session_handle(b"/a/b", b"/a/b").is_ok());
    let err = check_session_handle(b"/a/b", b"/a/c").unwrap_err();
    assert_eq!(err.message(), "Session handle mismatch");
    assert!(check_session_handle(b"/a/b", b"/a").is_err());
}

#[test]
fn response_codes() {
    assert_eq!(response_result(0, 5u8).unwrap(), 5);
    assert_eq!(response_result(1, 5u8).unwrap_err().message(), "Z-Bus canceled");
    assert_eq!(response_result(2, 5u8).unwrap_err().message(), "Response code is 2");
    assert_eq!(response_result(1234, ()).unwrap_err().message(), "Response code is 1234");
}

#[test]
fn stream_id_of_start_reply() {
    let r = ScreenCastStartResponse { streams: Some(vec![(41, stream("a")), (42, stream("b"))]), restore_token: None };
    assert_eq!(stream_id(&r).unwrap(), 41);
    let empty = ScreenCastStartResponse { streams: Some(vec![]), restore_token: None };
    assert_eq!(stream_id(&empty).unwrap_err().message(), "Stream ID not found");
    let none = ScreenCastStartResponse { streams: None, restore_token: None };
    assert!(stream_id(&none).is_err());
}

#[test]
fn format_negotiation() {
    assert_eq!(negotiate_format(&[None, Some(VideoFormat::BGRx), Some(VideoFormat::RGB)]), Some(VideoFormat::BGRx));
    assert_eq!(negotiate_format(&[None, None]), None);
    assert_eq!(negotiate_format(&[]), None);
}

#[test]
fn portal_formats_normalize_to_rgba() {
    let rgb = process_buffer(true, VideoFormat::RGB, 2, 1, 8, &[1, 2, 3, 4, 5, 6, 0, 0]).unwrap();
    assert_eq!(rgb.raw, vec![1, 2, 3, 255, 4, 5, 6, 255]);
    let rgba = process_buffer(true, VideoFormat::RGBA, 1, 1, 4, &[1, 2, 3, 4]).unwrap();
    assert_eq!(rgba.raw, vec![1, 2, 3, 4]);
    let rgbx = process_buffer(true, VideoFormat::RGBx, 1, 1, 4, &[1, 2, 3, 4]).unwrap();
    assert_eq!(rgbx.raw, vec![1, 2, 3, 255]);
    let bgrx = process_buffer(true, VideoFormat::BGRx, 1, 1, 4, &[1, 2, 3, 4]).unwrap();
    assert_eq!(bgrx.raw, vec![3, 2, 1, 255]);
}

#[test]
fn portal_buffers_rejected_when_stopped_or_short() {
    assert!(process_buffer(false, VideoFormat::RGBA, 1, 1, 4, &[1, 2, 3, 4]).is_none());
    assert!(process_buffer(true, VideoFormat::RGB, 2, 2, 6, &[0; 11]).is_none());
    assert!(process_buffer(true, VideoFormat::RGBA, 2, 1, 4, &[0; 8]).is_none());
}

#[test]
fn screenshot_response_uri() {
    let r = ScreenshotResponse::new("file:///tmp/a.png".to_string());
    assert_eq!(r.uri(), "file:///tmp/a.png");
}

#[test]
fn wayland_session_detection() {
    assert!(wayland_detect("wayland", ""));
    assert!(wayland_detect("x11", "WAYLAND-0"));
    assert!(wayland_detect("", "wayland-1"));
    assert!(!wayland_detect("x11", ""));
    assert!(!wayland_detect("Wayland", ":0"));
    assert!(!is_wayland_session("x11", "WAYLAND-0"));
    assert!(is_wayland_session("x11", "my-wayland"));
    assert!(str_contains("abc", ""));
    assert!(!str_contains("ab", "abc"));
    assert!(str_eq("", ""));
    assert!(!str_eq("a", "b"));
}

#[test]
fn negotiation_reaches_streaming() {
    let mut n = PortalNegotiation::new();
    assert_eq!(n.step(), PortalStep::CreateSession);
    let expected = session_path(b":1.5", b"77");
    let handle = b"/org/freedesktop/portal/desktop/session/1_5/77".to_vec();
    assert!(n.on_create_session(0, &expected, &handle).is_ok());
    assert_eq!(n.step(), PortalStep::SelectSources);
    assert!(n.on_select_sources(0).is_ok());
    assert_eq!(n.step(), PortalStep::Start);
    let reply = ScreenCastStartResponse { streams: Some(vec![(64, stream("s"))]), restore_token: None };
    assert_eq!(n.on_start(0, &reply).unwrap(), 64);
    assert_eq!(n.step(), PortalStep::Streaming(64));
}

#[test]
fn negotiation_failures() {
    let mut n = PortalNegotiation::new();
    assert_eq!(n.on_create_session(1, b"/a", b"/a").unwrap_err().message(), "Z-Bus canceled");
    assert_eq!(n.step(), PortalStep::Failed);
    let mut n = PortalNegotiation::new();
    assert!(n.on_create_session(0, b"/a", b"/b").is_err());
    assert_eq!(n.step(), PortalStep::Failed);
    let mut n = PortalNegotiation::new();
    n.on_create_session(0, b"/a", b"/a").unwrap();
    assert!(n.on_select_sources(2).is_err());
    assert_eq!(n.step(), PortalStep::Failed);
    let mut n = PortalNegotiation::new();
    n.on_create_session(0, b"/a", b"/a").unwrap();
    n.on_select_sources(0).unwrap();
    let none = ScreenCastStartResponse { streams: None, restore_token: None };
    assert!(n.on_start(0, &none).is_err());
    assert_eq!(n.step(), PortalStep::Failed);
}
