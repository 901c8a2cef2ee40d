use miku_overlay::animation::{MikuPaintable, DEFAULT_HEIGHT, DEFAULT_WIDTH};
use miku_overlay::sprite::{
    apply_color_key, decode_apng, frame_delay_ms, frames_from_decoded, RawFrame, SpriteError,
    HARD_THRESHOLD_SQ, SOFT_BAND,
};

/// The alpha of partly transparent pixels as the sprite's float formula gives it.
fn soft_alpha_table() -> Vec<u8> {
    (0..SOFT_BAND)
        .map(|i| {
            let dist = ((i as u32 + HARD_THRESHOLD_SQ) as f32).sqrt();
            let t = (dist - 12.0) / (35.0 - 12.0);
            (t * 255.0) as u8
        })
        .collect()
}

fn crc32(bytes: &[u8]) -> u32 {
    let mut crc: u32 = 0xffff_ffff;
    for &b in bytes {
        crc ^= b as u32;
        for _ in 0..8 {
            let mask = (!(crc & 1)).wrapping_add(1);
            crc = (crc >> 1) ^ (0xedb8_8320 & mask);
        }
    }
    !crc
}

fn adler32(bytes: &[u8]) -> u32 {
    let (mut a, mut b) = (1u32, 0u32);
    for &x in bytes {
        a = (a + x as u32) % 65521;
        b = (b + a) % 65521;
    }
    (b << 16) | a
}

fn zlib_stored(data: &[u8]) -> Vec<u8> {
    let len = data.len() as u16;
    let mut out = vec![0x78, 0x01, 0x01];
    out.extend_from_slice(&len.to_le_bytes());
    out.extend_from_slice(&(!len).to_le_bytes());
    out.extend_from_slice(data);
    out.extend_from_slice(&adler32(data).to_be_bytes());
    out
}

fn chunk(out: &mut Vec<u8>, kind: &[u8; 4], data: &[u8]) {
    out.extend_from_slice(&(data.len() as u32).to_be_bytes());
    let mut body = kind.to_vec();
    body.extend_from_slice(data);
    out.extend_from_slice(&body);
    out.extend_from_slice(&crc32(&body).to_be_bytes());
}

fn fctl(seq: u32, delay_num: u16, delay_den: u16) -> Vec<u8> {
    let mut d = Vec::new();
    d.extend_from_slice(&seq.to_be_bytes());
    d.extend_from_slice(&2u32.to_be_bytes());
    d.extend_from_slice(&1u32.to_be_bytes());
    d.extend_from_slice(&0u32.to_be_bytes());
    d.extend_from_slice(&0u32.to_be_bytes());
    d.extend_from_slice(&delay_num.to_be_bytes());
    d.extend_from_slice(&delay_den.to_be_bytes());
    d.push(0);
    d.push(0);
    d
}

/// A 2x1 RGBA APNG whose frames hold the given pixels and delays.
fn apng(frames: &[([u8; 8], u16, u16)]) -> Vec<u8> {
    let mut out = vec![0x89, b'P', b'N', b'G', 0x0d, 0x0a, 0x1a, 0x0a];
    let mut ihdr = Vec::new();
    ihdr.extend_from_slice(&2u32.to_be_bytes());
    ihdr.extend_from_slice(&1u32.to_be_bytes());
    ihdr.extend_from_slice(&[8, 6, 0, 0, 0]);
    chunk(&mut out, b"IHDR", &ihdr);
    let mut actl = Vec::new();
    actl.extend_from_slice(&(frames.len() as u32).to_be_bytes());
    actl.extend_from_slice(&0u32.to_be_bytes());
    chunk(&mut out, b"acTL", &actl);
    let mut seq = 0u32;
    for (i, (pixels, num, den)) in frames.iter().enumerate() {
        chunk(&mut out, b"fcTL", &fctl(seq, *num, *den));
        seq += 1;
        let mut scanline = vec![0u8];
        scanline.extend_from_slice(pixels);
        let z = zlib_stored(&scanline);
        if i == 0 {
            chunk(&mut out, b"IDAT", &z);
        } else {
            let mut d = seq.to_be_bytes().to_vec();
            d.extend_from_slice(&z);
            chunk(&mut out, b"fdAT", &d);
            seq += 1;
        }
    }
    chunk(&mut out, b"IEND", &[]);
    out
}

fn static_png() -> Vec<u8> {
    let mut out = vec![0x89, b'P', b'N', b'G', 0x0d, 0x0a, 0x1a, 0x0a];
    let mut ihdr = Vec::new();
    ihdr.extend_from_slice(&2u32.to_be_bytes());
    ihdr.extend_from_slice(&1u32.to_be_bytes());
    ihdr.extend_from_slice(&[8, 6, 0, 0, 0]);
    chunk(&mut out, b"IHDR", &ihdr);
    chunk(&mut out, b"IDAT", &zlib_stored(&[0, 1, 2, 3, 4, 5, 6, 7, 8]));
    chunk(&mut out, b"IEND", &[]);
    out
}

const FRAME_A: [u8; 8] = [32, 39, 47, 255, 255, 0, 0, 255];
const FRAME_B: [u8; 8] = [40, 39, 47, 255, 52, 39, 47, 255];

#[test]
fn frame_delay_rounds_down() {
    assert_eq!(frame_delay_ms(1000, 25), 40);
    assert_eq!(frame_delay_ms(100, 3), 33);
}

#[test]
fn frame_delay_has_a_floor() {
    assert_eq!(frame_delay_ms(5, 1), 10);
    assert_eq!(frame_delay_ms(0, 7), 10);
}

#[test]
fn frame_delay_zero_denominator_uses_default() {
    assert_eq!(frame_delay_ms(1000, 0), 33);
}

#[test]
fn color_key_makes_background_transparent_black() {
    let table = soft_alpha_table();
    let mut raw = vec![32, 39, 47, 255, 40, 39, 47, 200];
    apply_color_key(&mut raw, &table);
    assert_eq!(raw, vec![0, 0, 0, 0, 0, 0, 0, 0]);
}

#[test]
fn color_key_band_takes_table_alpha() {
    let table = soft_alpha_table();
    // squared distance 400: alpha from the table entry 400 - 144
    let mut raw = vec![52, 39, 47, 255];
    apply_color_key(&mut raw, &table);
    assert_eq!(raw, vec![52, 39, 47, table[400 - 144]]);
    assert_eq!(table[400 - 144], 88);
}

#[test]
fn color_key_boundaries() {
    let table = soft_alpha_table();
    // squared distance 144 is in the band, 143 would not be reachable with a
    // single channel; 12 steps along red gives exactly 144
    let mut raw = vec![44, 39, 47, 255, 43, 39, 47, 255];
    apply_color_key(&mut raw, &table);
    assert_eq!(raw, vec![44, 39, 47, table[0], 0, 0, 0, 0]);
    // squared distance 1225 is outside the band: unchanged
    let mut far = vec![67, 39, 47, 255];
    apply_color_key(&mut far, &table);
    assert_eq!(far, vec![67, 39, 47, 255]);
}

#[test]
fn color_key_leaves_far_pixels_and_tail_bytes() {
    let table = soft_alpha_table();
    let mut raw = vec![255, 255, 255, 255, 32, 39, 47];
    apply_color_key(&mut raw, &table);
    assert_eq!(raw, vec![255, 255, 255, 255, 32, 39, 47]);
}

#[test]
fn color_key_is_idempotent() {
    let table = soft_alpha_table();
    let mut once = vec![32, 39, 47, 255, 52, 39, 47, 255, 1, 2, 3, 4, 60, 50, 40, 30];
    apply_color_key(&mut once, &table);
    let mut twice = once.clone();
    apply_color_key(&mut twice, &table);
    assert_eq!(once, twice);
}

#[test]
fn frames_from_decoded_passes_error_on() {
    let table = soft_alpha_table();
    match frames_from_decoded(Err("bad image".to_string()), &table) {
        Err(SpriteError::Decode(msg)) => assert_eq!(msg, "bad image"),
        other => panic!("unexpected {:?}", other),
    }
}

#[test]
fn frames_from_decoded_refuses_no_frames() {
    let table = soft_alpha_table();
    assert!(matches!(frames_from_decoded(Ok(vec![]), &table), Err(SpriteError::NoFrames)));
}

#[test]
fn frames_from_decoded_keys_and_times_frames() {
    let table = soft_alpha_table();
    let raw = vec![
        RawFrame { delay_numer: 1000, delay_denom: 25, width: 2, height: 1, rgba: FRAME_A.to_vec() },
        RawFrame { delay_numer: 5, delay_denom: 1, width: 2, height: 1, rgba: FRAME_B.to_vec() },
    ];
    let data = frames_from_decoded(Ok(raw), &table).unwrap();
    assert_eq!(data.delays_ms, vec![40, 10]);
    assert_eq!(data.frames.len(), 2);
    assert_eq!(data.frames[0].rgba, vec![0, 0, 0, 0, 255, 0, 0, 255]);
    assert_eq!(data.frames[1].rgba, vec![0, 0, 0, 0, 52, 39, 47, 88]);
    assert_eq!((data.frames[1].width, data.frames[1].height), (2, 1));
}

#[test]
fn decode_apng_reads_frames() {
    let table = soft_alpha_table();
    let bytes = apng(&[(FRAME_A, 1, 25), (FRAME_B, 1, 200)]);
    let data = decode_apng(&bytes, &table).unwrap();
    assert_eq!(data.delays_ms, vec![40, 10]);
    assert_eq!(data.frames[0].rgba, vec![0, 0, 0, 0, 255, 0, 0, 255]);
    assert_eq!(data.frames[1].rgba, vec![0, 0, 0, 0, 52, 39, 47, 88]);
}

#[test]
fn decode_apng_refuses_garbage() {
    let table = soft_alpha_table();
    assert!(matches!(decode_apng(b"not a png", &table), Err(SpriteError::Decode(_))));
}

#[test]
fn decode_apng_refuses_still_image() {
    let table = soft_alpha_table();
    assert!(matches!(decode_apng(&static_png(), &table), Err(SpriteError::NoFrames)));
}

#[test]
fn paintable_from_sprite() {
    let table = soft_alpha_table();
    let bytes = apng(&[(FRAME_A, 1, 25), (FRAME_B, 1, 200)]);
    let p = MikuPaintable::new(&bytes, &table).unwrap();
    assert_eq!(p.n_frames(), 2);
    assert_eq!(p.current_frame(), 0);
    assert!(!p.timer_pending());
    assert_eq!((p.width(), p.height()), (2, 1));
    assert_eq!(p.frames_ref()[1].rgba, vec![0, 0, 0, 0, 52, 39, 47, 88]);
}

#[test]
fn paintable_refuses_garbage() {
    let table = soft_alpha_table();
    assert!(matches!(MikuPaintable::new(b"garbage", &table), Err(SpriteError::Decode(_))));
    let _ = (DEFAULT_WIDTH, DEFAULT_HEIGHT);
}
