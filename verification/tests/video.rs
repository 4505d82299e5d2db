//! Video frame reassembly.

use tello::VideoSettings;
use tello::VideoMode;

fn settings() -> VideoSettings {
    VideoSettings {
        port: 11111,
        enabled: true,
        mode: VideoMode::M960x720,
        level: 1,
        encoding_rate: 4,
        last_video_poll_ms: 0,
        last_frame_id: 0,
        frame_counter_overflow: 0,
    }
}

fn datagram(id: u8, sqn: u8, payload: &[u8]) -> Vec<u8> {
    let mut d = vec![id, sqn];
    d.extend_from_slice(payload);
    d
}

#[test]
fn frame_completes_when_the_sequence_reaches_the_cutoff() {
    let mut video = settings();
    let mut acc = video.begin_frame(&datagram(5, 0, b"AA")).expect("cycle should open");
    assert!(!acc.is_complete());
    assert!(acc.push(&datagram(5, 1, b"BB")));
    assert!(!acc.is_complete());
    assert!(acc.push(&datagram(5, 120, b"CC")));
    assert!(acc.is_complete());
    let (frame_id, bytes) = acc.into_frame(video.frame_counter_overflow);
    assert_eq!(frame_id, 5);
    assert_eq!(bytes, b"AABBCC".to_vec());
}

#[test]
fn out_of_order_first_datagram_yields_no_frame() {
    let mut video = settings();
    assert!(video.begin_frame(&datagram(5, 1, b"AA")).is_none());
    // the id tracking still advanced
    assert_eq!(video.last_frame_id, 5);
}

#[test]
fn mid_stream_id_change_drops_the_partial_frame() {
    let mut video = settings();
    let mut acc = video.begin_frame(&datagram(5, 0, b"AA")).expect("cycle should open");
    assert!(acc.push(&datagram(5, 1, b"BB")));
    assert!(!acc.push(&datagram(6, 2, b"CC")));
}

#[test]
fn short_datagrams_are_dropped() {
    let mut video = settings();
    assert!(video.begin_frame(&vec![5]).is_none());
    assert_eq!(video.last_frame_id, 0);
    let mut acc = video.begin_frame(&datagram(5, 0, b"AA")).expect("cycle should open");
    assert!(!acc.push(&vec![5]));
}

#[test]
fn wraparound_of_the_8bit_id_advances_the_overflow_counter() {
    let mut video = settings();
    video.last_frame_id = 200;
    video.begin_frame(&datagram(5, 0, b"AA"));
    assert_eq!(video.frame_counter_overflow, 1);
    assert_eq!(video.last_frame_id, 5);
    // an id at or above the wrap bound does not count as a wraparound
    video.last_frame_id = 200;
    video.begin_frame(&datagram(150, 0, b"AA"));
    assert_eq!(video.frame_counter_overflow, 1);
}

#[test]
fn visible_frame_id_widens_by_255_per_overflow() {
    let mut video = settings();
    video.frame_counter_overflow = 2;
    let acc = video.begin_frame(&datagram(7, 0, b"AA")).expect("cycle should open");
    let (frame_id, _) = acc.into_frame(video.frame_counter_overflow);
    assert_eq!(frame_id, 7 + 255 * 2);
}
