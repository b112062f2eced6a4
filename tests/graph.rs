use noise_graph::capture::{capture_file_name, capture_file_name_now};
use noise_graph::geometry::{gridline_xs, polyline_xs};
use noise_graph::model::{Model, SamplePoint, DEFAULT_SEED, NOISE_STEP};
use noise_graph::seed::{generate_seed, pack_seed, seed_bytes, seed_label};

#[test]
fn packs_four_ascii_bytes_big_endian() {
    assert_eq!(pack_seed("ABCD".as_bytes()), 0x41424344);
}

#[test]
fn short_word_is_zero_filled() {
    assert_eq!(pack_seed("ab".as_bytes()), 0x61620000);
}

#[test]
fn long_word_keeps_first_four_bytes() {
    assert_eq!(pack_seed("rusty-nail".as_bytes()), pack_seed("rust".as_bytes()));
    assert_eq!(pack_seed("rusty-nail".as_bytes()), 0x72757374);
}

#[test]
fn empty_word_packs_to_zero() {
    assert_eq!(pack_seed(&[]), 0);
}

#[test]
fn seed_bytes_round_trip() {
    let word = *b"wxyz";
    assert_eq!(seed_bytes(pack_seed(&word)), word);
    assert_eq!(seed_bytes(0x41424344), *b"ABCD");
    assert_eq!(pack_seed(&seed_bytes(0xdeadbeef)), 0xdeadbeef);
}

#[test]
fn seed_label_decodes_text() {
    assert_eq!(seed_label(0x41424344), Some("ABCD".to_string()));
    assert_eq!(seed_label(0x61620000), Some("ab\0\0".to_string()));
}

#[test]
fn seed_label_rejects_invalid_utf8() {
    assert_eq!(seed_label(0xff000000), None);
    assert_eq!(seed_label(0x41c34142), None);
}

#[test]
fn new_model_starts_empty() {
    let m: Model<f32> = Model::new();
    assert_eq!(m.seed(), DEFAULT_SEED);
    assert_eq!(m.frame_start(), 0);
    assert_eq!(m.len(), 0);
    assert_eq!(m.latest(), None);
    assert_eq!(m.domain_frames(0), 0);
}

#[test]
fn three_updates_sample_first_steps() {
    let mut m: Model<f32> = Model::new();
    m.reseed(pack_seed("ABCD".as_bytes()), 0);
    assert_eq!(m.seed(), 0x41424344);
    let mut positions = Vec::new();
    for frame in 0..3u64 {
        let d = m.domain_frames(frame);
        positions.push(d as f32 / NOISE_STEP as f32);
        m.on_frame(frame, frame as f32 * 10.0);
    }
    assert_eq!(positions, vec![0.0 / 500.0, 1.0 / 500.0, 2.0 / 500.0]);
    let frames: Vec<u64> = m.points().iter().map(|p| p.frames).collect();
    assert_eq!(frames, vec![0, 1, 2]);
    assert_eq!(NOISE_STEP, 500);
}

#[test]
fn history_grows_by_one_per_update() {
    let mut m: Model<i32> = Model::new();
    for n in 0..25u64 {
        assert_eq!(m.len(), n as usize);
        m.on_frame(n, n as i32);
    }
    assert_eq!(m.len(), 25);
    for (i, p) in m.points().iter().enumerate() {
        assert_eq!(*p, SamplePoint { frames: i as u64, y: i as i32 });
    }
    assert_eq!(m.latest(), Some(SamplePoint { frames: 24, y: 24 }));
}

#[test]
fn reseed_mid_session_restarts_epoch() {
    let mut m: Model<f32> = Model::new();
    for frame in 950..1000u64 {
        m.on_frame(frame, 1.0);
    }
    assert_eq!(m.len(), 50);
    m.reseed(0x61620000, 1000);
    assert_eq!(m.len(), 0);
    assert_eq!(m.frame_start(), 1000);
    assert_eq!(m.seed(), 0x61620000);
    assert_eq!(m.domain_frames(1000), 0);
    assert_eq!(m.domain_frames(1001) as f32 / NOISE_STEP as f32, 1.0 / 500.0);
    m.on_frame(1001, -2.0);
    assert_eq!(m.points(), &[SamplePoint { frames: 1, y: -2.0 }][..]);
}

#[test]
fn reseed_resets_next_position_to_zero() {
    let mut m: Model<f32> = Model::new();
    m.on_frame(0, 0.5);
    m.on_frame(7, 0.25);
    m.reseed(3, 7);
    assert_eq!(m.len(), 0);
    assert_eq!(m.domain_frames(7), 0);
    m.on_frame(7, 0.75);
    assert_eq!(m.latest(), Some(SamplePoint { frames: 0, y: 0.75 }));
}

#[test]
fn random_reseed_uses_a_word_seed() {
    let mut m: Model<f32> = Model::new();
    m.on_frame(4, 0.0);
    m.reseed_random(12);
    assert_eq!(m.len(), 0);
    assert_eq!(m.frame_start(), 12);
    assert!(seed_label(m.seed()).is_some());
    assert!(seed_label(generate_seed()).is_some());
    for _ in 0..20 {
        let bytes = seed_bytes(generate_seed());
        assert!(bytes[0].is_ascii_lowercase());
        assert!(bytes.iter().all(|b| b.is_ascii()));
    }
}

#[test]
fn ascii_seed_reads_back_as_its_bytes() {
    let word = *b"q-z~";
    let label = seed_label(pack_seed(&word)).unwrap();
    assert_eq!(label.as_bytes(), &word);
}

#[test]
fn polyline_is_shifted_left_by_its_length() {
    assert_eq!(polyline_xs(3), vec![-3, -2, -1]);
    assert_eq!(polyline_xs(0), Vec::<i128>::new());
}

#[test]
fn gridlines_follow_the_scrolling_frame() {
    assert_eq!(gridline_xs(1200, 50), vec![-50, 450]);
    assert_eq!(gridline_xs(499, 0), Vec::<i128>::new());
    assert_eq!(gridline_xs(500, 0), vec![0]);
}

#[test]
fn capture_name_joins_parts() {
    assert_eq!(
        capture_file_name("graph", "2024-05-01 10:00:00 +00:00"),
        "graph2024-05-01 10:00:00 +00:00.png"
    );
    assert_eq!(capture_file_name("", ""), ".png");
}

#[test]
fn capture_name_now_has_a_timestamp() {
    let name = capture_file_name_now("graph");
    assert!(name.starts_with("graph"));
    assert!(name.ends_with(".png"));
    assert!(name.len() > "graph.png".len());
}
