use webds::cap::{
    capture_global, capture_precheck, fill_rgb, frame_period_ms, should_send, BufferGeometry,
    BufferPlan, Cap, CaptureGlobal, Error, IntraRefresh, NsAction, RecvPoll, FORMAT_ABGR1555,
    FORMAT_XRGB8888, INTRA_CNT,
};

#[test]
fn capture_globals_and_versions() {
    assert_eq!(
        capture_global("zwlr_screencopy_manager_v1", 5),
        Some((CaptureGlobal::ScreencopyManager, 3))
    );
    assert_eq!(
        capture_global("zwlr_screencopy_manager_v1", 2),
        Some((CaptureGlobal::ScreencopyManager, 2))
    );
    assert_eq!(capture_global("wl_shm", 7), Some((CaptureGlobal::Shm, 7)));
    assert_eq!(capture_global("wl_output", 4), Some((CaptureGlobal::Output, 4)));
    assert_eq!(capture_global("wl_seat", 4), None);
    assert_eq!(capture_global("", 1), None);
}

#[test]
fn capture_needs_manager_then_output() {
    assert_eq!(capture_precheck(false, false), Err(Error::ScreenManager));
    assert_eq!(capture_precheck(false, true), Err(Error::ScreenManager));
    assert_eq!(capture_precheck(true, false), Err(Error::Output));
    assert_eq!(capture_precheck(true, true), Ok(()));
}

#[test]
fn buffer_is_set_up_once_per_layout() {
    let mut g = BufferGeometry::initial();
    assert_eq!(g, BufferGeometry { width: 0, height: 0, stride: 0, format: FORMAT_ABGR1555 });
    let d = BufferGeometry { width: 1920, height: 1080, stride: 7680, format: FORMAT_XRGB8888 };
    assert_eq!(
        g.on_buffer(d),
        BufferPlan::Allocate {
            size: 8294400,
            pool_size: 8294400,
            width: 1920,
            height: 1080,
            stride: 7680,
        }
    );
    assert_eq!(g, d);
    assert_eq!(g.on_buffer(d), BufferPlan::Keep);
    let e = BufferGeometry { width: 1280, ..d };
    assert_eq!(
        g.on_buffer(e),
        BufferPlan::Allocate { size: 8294400, pool_size: 8294400, width: 1280, height: 1080, stride: 7680 }
    );
    assert_eq!(g, e);
}

#[test]
fn large_sizes_wrap_as_protocol_integers() {
    let mut g = BufferGeometry::initial();
    let d = BufferGeometry { width: 0x8000_0000, height: 1, stride: 0xffff_fff0, format: FORMAT_XRGB8888 };
    assert_eq!(
        g.on_buffer(d),
        BufferPlan::Allocate {
            size: 0xffff_fff0,
            pool_size: -16,
            width: i32::MIN,
            height: 1,
            stride: -16,
        }
    );
}

#[test]
fn xrgb_pixels_become_rgb() {
    let mut rgb = vec![9, 9, 9, 9];
    fill_rgb(&mut rgb, &[1, 2, 3, 4, 5, 6, 7, 8, 10]);
    assert_eq!(rgb, vec![3, 2, 1, 7, 6, 5]);
    fill_rgb(&mut rgb, &[0xaa, 0xbb, 0xcc, 0xdd]);
    assert_eq!(rgb, vec![0xcc, 0xbb, 0xaa]);
    fill_rgb(&mut rgb, &[1, 2, 3]);
    assert!(rgb.is_empty());
}

#[test]
fn new_schedule_forces_the_first_frames() {
    let mut s = IntraRefresh::new();
    for i in 0..INTRA_CNT {
        assert!(s.step(false), "frame {i}");
    }
    assert!(!s.step(false));
    assert!(!s.step(false));
}

#[test]
fn refresh_restarts_the_key_frames() {
    let mut s = IntraRefresh::new();
    for _ in 0..100 {
        s.step(false);
    }
    assert!(s.step(true));
    for _ in 1..INTRA_CNT {
        assert!(s.step(false));
    }
    assert!(!s.step(false));
    for _ in 0..10 {
        s.step(false);
    }
    assert!(s.step(false) == false);
    for _ in 0..30 {
        s.step(false);
    }
    assert!(s.step(true));
    for _ in 0..20 {
        assert!(s.step(false));
    }
    assert!(s.step(true));
    for _ in 1..INTRA_CNT {
        assert!(s.step(false));
    }
    assert!(!s.step(false));
}

#[test]
fn first_client_starts_streaming_later_ones_refresh() {
    let mut cap: Cap<u32> = Cap::new();
    assert!(cap.is_idle());
    assert_eq!(cap.send_ns(1), NsAction::StartTask);
    assert!(!cap.is_idle());
    assert_eq!(cap.send_ns(2), NsAction::RefreshEncoder);
    assert_eq!(cap.send_ns(3), NsAction::RefreshEncoder);
    let all = cap.take_all();
    assert_eq!(all, vec![3, 2, 1]);
    assert!(cap.is_idle());
    cap.requeue(2);
    assert!(!cap.is_idle());
    assert_eq!(cap.send_ns(4), NsAction::RefreshEncoder);
    assert_eq!(cap.take_all(), vec![4, 2]);
    assert_eq!(cap.send_ns(5), NsAction::StartTask);
}

#[test]
fn frame_periods() {
    assert_eq!(frame_period_ms(30), 33);
    assert_eq!(frame_period_ms(1), 1000);
    assert_eq!(frame_period_ms(60), 16);
    assert_eq!(frame_period_ms(1000), 1);
    assert_eq!(frame_period_ms(1001), 0);
}

#[test]
fn frames_go_to_open_clients() {
    assert!(should_send(RecvPoll::Pending));
    assert!(should_send(RecvPoll::Received));
    assert!(!should_send(RecvPoll::Closed));
}

#[test]
fn a_round_keeps_the_clients_whose_send_succeeded() {
    let mut cap: Cap<u32> = Cap::new();
    cap.send_ns(1);
    cap.send_ns(2);
    cap.send_ns(3);
    let sent = cap.start_round().unwrap();
    assert_eq!(sent, vec![3, 2, 1]);
    cap.requeue_delivered(vec![Some(2), None, Some(3)]);
    assert_eq!(cap.send_ns(7), NsAction::RefreshEncoder);
    assert_eq!(cap.take_all(), vec![7, 3, 2]);
    cap.requeue_delivered(vec![None, None]);
    assert!(cap.is_idle());
    assert_eq!(cap.start_round(), None);
    assert_eq!(cap.send_ns(8), NsAction::StartTask);
}

#[test]
fn key_frames_follow_every_join() {
    // A client joins at frame 0 and another at frame 30: frames 0 to 89 are
    // key frames, frame 90 is not.
    let mut s = IntraRefresh::new();
    for _ in 0..INTRA_CNT {
        s.step(false);
    }
    for i in 0..120 {
        let forced = s.step(i == 0 || i == 30);
        assert_eq!(forced, i < 90, "frame {i}");
    }
}
