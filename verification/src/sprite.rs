//! Decoding of the animated sprite: frames and delays from an APNG image, with
//! the theme's background colour keyed out.
use vstd::prelude::*;
use std::io::Cursor;
use image::codecs::png::PngDecoder;
use image::AnimationDecoder;

verus! {

/// One frame as the APNG decoder hands it out: the frame delay as a fraction
/// of milliseconds, and the composited canvas as RGBA bytes.
#[derive(Debug)]
pub struct RawFrame {
    pub delay_numer: u32,
    pub delay_denom: u32,
    pub width: u32,
    pub height: u32,
    pub rgba: Vec<u8>,
}

/// A frame ready to be turned into a texture.
#[derive(Debug)]
pub struct SpriteFrame {
    pub width: u32,
    pub height: u32,
    pub rgba: Vec<u8>,
}

/// All frames of the sprite with the delay after each, in milliseconds.
#[derive(Debug)]
pub struct FrameData {
    pub frames: Vec<SpriteFrame>,
    pub delays_ms: Vec<u64>,
}

/// Why the sprite could not be decoded.
#[derive(Debug)]
pub enum SpriteError {
    /// The APNG decoder refused the data, with its message.
    Decode(String),
    /// The image holds no animation frame.
    NoFrames,
}

/// The plain values of a decoded frame: delay numerator and denominator (ms),
/// width, height and RGBA bytes.
pub type RawFrameValue = (u32, u32, u32, u32, Seq<u8>);

/// What the APNG decoder of the `image` crate makes of some bytes: the frames
/// in order, or the message of the first error.
pub uninterp spec fn apng_frames(data: Seq<u8>) -> Result<Seq<(u32, u32, u32, u32, Seq<u8>)>, Seq<char>>;

pub open spec fn raw_frame_value(f: RawFrame) -> RawFrameValue {
    (f.delay_numer, f.delay_denom, f.width, f.height, f.rgba@)
}

pub open spec fn decoded_value(r: Result<Vec<RawFrame>, String>) -> Result<Seq<RawFrameValue>, Seq<char>> {
    match r {
        Ok(frames) => Ok(frames@.map_values(|f: RawFrame| raw_frame_value(f))),
        Err(msg) => Err(msg@),
    }
}

/// Decodes APNG bytes with `image`'s `PngDecoder::new`, `apng` and
/// `into_frames`, reading each frame's `delay().numer_denom_ms()` and its RGBA
/// buffer. The result is named `apng_frames` of the bytes; nothing more is
/// claimed. Inputs on which the decoder's own internal assertions fail are not
/// characterised.
#[verifier::external_body]
fn decode_apng_frames(data: &[u8]) -> (res: Result<Vec<RawFrame>, String>)
    ensures
        decoded_value(res) == apng_frames(data@),
{
    let decoder = PngDecoder::new(Cursor::new(data)).map_err(|e| e.to_string())?;
    let frames = decoder.apng().map_err(|e| e.to_string())?.into_frames();
    frames.map(|frame| frame.map(|f| {
        let (delay_numer, delay_denom) = f.delay().numer_denom_ms();
        let buffer = f.into_buffer();
        RawFrame { delay_numer, delay_denom, width: buffer.width(), height: buffer.height(), rgba: buffer.into_raw() }
    }).map_err(|e| e.to_string())).collect()
}

/// Shortest delay between frames, in milliseconds.
pub const MIN_DELAY_MS: u64 = 10;

/// Delay used for a frame whose delay has a zero denominator.
pub const DEFAULT_DELAY_MS: u64 = 33;

/// Delay after a frame: the delay fraction rounded down, or the default when
/// its denominator is zero, and never under the minimum.
pub open spec fn frame_delay(numer: u32, denom: u32) -> u64 {
    let d: u64 = if denom == 0 { DEFAULT_DELAY_MS } else { (numer / denom) as u64 };
    if d < MIN_DELAY_MS { MIN_DELAY_MS } else { d }
}

/// Computes the delay after a frame from its delay fraction.
pub fn frame_delay_ms(numer: u32, denom: u32) -> (d: u64)
    ensures
        d == frame_delay(numer, denom),
        d >= MIN_DELAY_MS,
        denom > 0 ==> d as int == if (numer as int) / (denom as int) < 10 {
            10
        } else {
            (numer as int) / (denom as int)
        },
{
    let ms: u32 = if denom == 0 { 33 } else { numer / denom };
    let ms = ms as u64;
    if ms < MIN_DELAY_MS { MIN_DELAY_MS } else { ms }
}

/// Square of the distance below which a pixel becomes fully transparent.
pub const HARD_THRESHOLD_SQ: u32 = 144;

/// Square of the distance below which a pixel becomes partly transparent.
pub const SOFT_THRESHOLD_SQ: u32 = 1225;

/// Number of squared distances in the partly transparent band; an alpha table
/// has one entry for each, starting at `HARD_THRESHOLD_SQ`.
pub const SOFT_BAND: usize = 1081;

/// Squared distance of a colour from the theme background RGB(32, 39, 47).
pub open spec fn key_distance_sq(r: u8, g: u8, b: u8) -> int {
    (r - 32) * (r - 32) + (g - 39) * (g - 39) + (b - 47) * (b - 47)
}

/// A pixel after keying: close to the background it becomes transparent
/// black; in the band around it, it keeps its colour and takes the alpha that
/// the table gives for its squared distance; further away it is unchanged.
pub open spec fn keyed_pixel(p: (u8, u8, u8, u8), soft_alpha: Seq<u8>) -> (u8, u8, u8, u8) {
    let d = key_distance_sq(p.0, p.1, p.2);
    if d < HARD_THRESHOLD_SQ {
        (0u8, 0u8, 0u8, 0u8)
    } else if d < SOFT_THRESHOLD_SQ {
        (p.0, p.1, p.2, soft_alpha[d - HARD_THRESHOLD_SQ])
    } else {
        p
    }
}

/// Byte `j` of an RGBA buffer after keying each whole pixel; bytes after the
/// last whole pixel stay as they are.
pub open spec fn keyed_byte(raw: Seq<u8>, soft_alpha: Seq<u8>, j: int) -> u8 {
    let base = j - j % 4;
    if base + 4 <= raw.len() {
        let q = keyed_pixel((raw[base], raw[base + 1], raw[base + 2], raw[base + 3]), soft_alpha);
        if j % 4 == 0 {
            q.0
        } else if j % 4 == 1 {
            q.1
        } else if j % 4 == 2 {
            q.2
        } else {
            q.3
        }
    } else {
        raw[j]
    }
}

/// An RGBA buffer with the theme background keyed out.
pub open spec fn color_keyed(raw: Seq<u8>, soft_alpha: Seq<u8>) -> Seq<u8> {
    Seq::new(raw.len(), |j: int| keyed_byte(raw, soft_alpha, j))
}

fn distance_sq(r: u8, g: u8, b: u8) -> (d: u32)
    ensures
        d == key_distance_sq(r, g, b),
        d <= 3 * 255 * 255,
{
    let dr: i32 = r as i32 - 32;
    let dg: i32 = g as i32 - 39;
    let db: i32 = b as i32 - 47;
    assert(dr * dr <= 255 * 255) by (nonlinear_arith)
        requires -255 <= dr <= 255;
    assert(dg * dg <= 255 * 255) by (nonlinear_arith)
        requires -255 <= dg <= 255;
    assert(db * db <= 255 * 255) by (nonlinear_arith)
        requires -255 <= db <= 255;
    assert(dr * dr >= 0 && dg * dg >= 0 && db * db >= 0) by (nonlinear_arith);
    (dr * dr + dg * dg + db * db) as u32
}

/// Keys the theme background out of an RGBA buffer, pixel by pixel; the alpha
/// of partly transparent pixels comes from `soft_alpha`, indexed by squared
/// distance minus `HARD_THRESHOLD_SQ`.
pub fn apply_color_key(raw: &mut Vec<u8>, soft_alpha: &Vec<u8>)
    requires
        soft_alpha.len() == SOFT_BAND,
    ensures
        final(raw)@ == color_keyed(old(raw)@, soft_alpha@),
{
    let ghost orig = raw@;
    let n = raw.len();
    let mut base: usize = 0;
    while 4 <= n - base
        invariant
            n == raw.len(),
            orig.len() == n,
            soft_alpha.len() == SOFT_BAND,
            base <= n,
            base % 4 == 0,
            forall|j: int| 0 <= j < base ==> raw@[j] == keyed_byte(orig, soft_alpha@, j),
            forall|j: int| base <= j < n ==> raw@[j] == orig[j],
        decreases n - base,
    {
        let r = raw[base];
        let g = raw[base + 1];
        let b = raw[base + 2];
        let d = distance_sq(r, g, b);
        if d < HARD_THRESHOLD_SQ {
            raw.set(base, 0);
            raw.set(base + 1, 0);
            raw.set(base + 2, 0);
            raw.set(base + 3, 0);
        } else if d < SOFT_THRESHOLD_SQ {
            let alpha = soft_alpha[(d - HARD_THRESHOLD_SQ) as usize];
            raw.set(base + 3, alpha);
        }
        proof {
            let b0 = base as int;
            assert(b0 % 4 == 0 && (b0 + 1) % 4 == 1 && (b0 + 2) % 4 == 2 && (b0 + 3) % 4 == 3);
            assert(keyed_byte(orig, soft_alpha@, b0) == raw@[b0]);
            assert(keyed_byte(orig, soft_alpha@, b0 + 1) == raw@[b0 + 1]);
            assert(keyed_byte(orig, soft_alpha@, b0 + 2) == raw@[b0 + 2]);
            assert(keyed_byte(orig, soft_alpha@, b0 + 3) == raw@[b0 + 3]);
        }
        base = base + 4;
    }
    proof {
        assert forall|j: int| base <= j < n implies raw@[j] == keyed_byte(orig, soft_alpha@, j) by {
            assert(j - j % 4 == base);
        }
        assert(raw@ =~= color_keyed(orig, soft_alpha@));
    }
}

proof fn lemma_keyed_pixel_idempotent(p: (u8, u8, u8, u8), soft_alpha: Seq<u8>)
    ensures
        keyed_pixel(keyed_pixel(p, soft_alpha), soft_alpha) == keyed_pixel(p, soft_alpha),
{
    assert(key_distance_sq(0, 0, 0) == 4754);
}

/// Keying the background out twice gives the same buffer as keying it once:
/// transparent black is far from the background colour, and partly
/// transparent pixels keep the colour that their alpha was chosen by.
pub proof fn lemma_color_key_idempotent(raw: Seq<u8>, soft_alpha: Seq<u8>)
    ensures
        color_keyed(color_keyed(raw, soft_alpha), soft_alpha) == color_keyed(raw, soft_alpha),
{
    let k = color_keyed(raw, soft_alpha);
    assert forall|j: int| 0 <= j < k.len() implies #[trigger] keyed_byte(k, soft_alpha, j) == k[j] by {
        let base = j - j % 4;
        if base + 4 <= raw.len() {
            assert(base % 4 == 0);
            assert((base + 1) % 4 == 1 && (base + 2) % 4 == 2 && (base + 3) % 4 == 3);
            assert((base + 1) - (base + 1) % 4 == base);
            assert((base + 2) - (base + 2) % 4 == base);
            assert((base + 3) - (base + 3) % 4 == base);
            let p = (raw[base], raw[base + 1], raw[base + 2], raw[base + 3]);
            let q = keyed_pixel(p, soft_alpha);
            assert(k[base] == q.0);
            assert(k[base + 1] == q.1);
            assert(k[base + 2] == q.2);
            assert(k[base + 3] == q.3);
            lemma_keyed_pixel_idempotent(p, soft_alpha);
        }
    }
    assert(color_keyed(k, soft_alpha) =~= k);
}

/// The delay of a frame is its delay fraction divided out and raised to the
/// minimum, with nothing else changed; a zero denominator gives the default.
pub proof fn lemma_frame_delay_is_quotient(numer: u32, denom: u32)
    ensures
        denom > 0 ==> frame_delay(numer, denom) as int == if (numer as int) / (denom as int) < 10 {
            10
        } else {
            (numer as int) / (denom as int)
        },
        denom == 0 ==> frame_delay(numer, denom) == 33,
        denom == 1 && numer >= 10 ==> frame_delay(numer, denom) == numer,
{
}

/// Keying acts on each whole pixel by its squared distance from RGB(32, 39, 47)
/// over all three channels: under 144 the pixel becomes transparent black; from
/// 144 to under 1225 it keeps its colour and takes the table's alpha for that
/// distance; from 1225 on it is left as it is. The buffer keeps its length.
pub proof fn lemma_color_key_by_distance(raw: Seq<u8>, soft_alpha: Seq<u8>, base: int)
    requires
        0 <= base,
        base % 4 == 0,
        base + 4 <= raw.len(),
    ensures
        color_keyed(raw, soft_alpha).len() == raw.len(),
        ({
            let r = raw[base] as int;
            let g = raw[base + 1] as int;
            let b = raw[base + 2] as int;
            let sq = (r - 32) * (r - 32) + (g - 39) * (g - 39) + (b - 47) * (b - 47);
            let k = color_keyed(raw, soft_alpha);
            &&& sq < 144 ==> k[base] == 0 && k[base + 1] == 0 && k[base + 2] == 0 && k[base + 3] == 0
            &&& 144 <= sq < 1225 ==> k[base] == raw[base] && k[base + 1] == raw[base + 1] && k[base
                + 2] == raw[base + 2] && k[base + 3] == soft_alpha[sq - 144]
            &&& sq >= 1225 ==> k[base] == raw[base] && k[base + 1] == raw[base + 1] && k[base + 2]
                == raw[base + 2] && k[base + 3] == raw[base + 3]
        }),
{
    assert((base + 1) % 4 == 1 && (base + 2) % 4 == 2 && (base + 3) % 4 == 3);
    assert((base + 1) - (base + 1) % 4 == base);
    assert((base + 2) - (base + 2) % 4 == base);
    assert((base + 3) - (base + 3) % 4 == base);
    let k = color_keyed(raw, soft_alpha);
    assert(k[base] == keyed_byte(raw, soft_alpha, base));
    assert(k[base + 1] == keyed_byte(raw, soft_alpha, base + 1));
    assert(k[base + 2] == keyed_byte(raw, soft_alpha, base + 2));
    assert(k[base + 3] == keyed_byte(raw, soft_alpha, base + 3));
}

/// Bytes after the last whole pixel are never changed by keying.
pub proof fn lemma_color_key_keeps_tail(raw: Seq<u8>, soft_alpha: Seq<u8>, j: int)
    requires
        4 * (raw.len() / 4) <= j < raw.len(),
    ensures
        color_keyed(raw, soft_alpha)[j] == raw[j],
{
    assert(j - j % 4 + 4 > raw.len());
}

/// Frames and delays made from decoded frames: same count and sizes, each
/// buffer keyed, each delay computed from the frame's delay fraction.
pub open spec fn frames_made_from(
    frames: Seq<SpriteFrame>,
    delays_ms: Seq<u64>,
    decoded: Seq<RawFrameValue>,
    soft_alpha: Seq<u8>,
) -> bool {
    &&& frames.len() == decoded.len()
    &&& delays_ms.len() == decoded.len()
    &&& forall|i: int|
        0 <= i < decoded.len() ==> {
            &&& #[trigger] frames[i].width == decoded[i].2
            &&& frames[i].height == decoded[i].3
            &&& frames[i].rgba@ == color_keyed(decoded[i].4, soft_alpha)
            &&& delays_ms[i] == frame_delay(decoded[i].0, decoded[i].1)
        }
}

/// What decoding the sprite gives for a decoder outcome: the decoder's error,
/// an error when there is no frame, or the keyed frames with their delays.
pub open spec fn sprite_outcome(
    res: Result<FrameData, SpriteError>,
    decoded: Result<Seq<RawFrameValue>, Seq<char>>,
    soft_alpha: Seq<u8>,
) -> bool {
    match decoded {
        Err(msg) => match res {
            Err(SpriteError::Decode(m)) => m@ == msg,
            _ => false,
        },
        Ok(fs) => if fs.len() == 0 {
            res matches Err(SpriteError::NoFrames)
        } else {
            match res {
                Ok(data) => frames_made_from(data.frames@, data.delays_ms@, fs, soft_alpha),
                Err(_) => false,
            }
        },
    }
}

/// Turns the decoder's outcome into sprite frames: keys each frame's buffer,
/// computes each delay, and refuses an image without frames.
pub fn frames_from_decoded(decoded: Result<Vec<RawFrame>, String>, soft_alpha: &Vec<u8>) -> (res:
    Result<FrameData, SpriteError>)
    requires
        soft_alpha.len() == SOFT_BAND,
    ensures
        sprite_outcome(res, decoded_value(decoded), soft_alpha@),
{
    let raw_frames = match decoded {
        Ok(fs) => fs,
        Err(msg) => return Err(SpriteError::Decode(msg)),
    };
    let ghost values = raw_frames@.map_values(|f: RawFrame| raw_frame_value(f));
    let mut frames: Vec<SpriteFrame> = Vec::new();
    let mut delays_ms: Vec<u64> = Vec::new();
    for raw in it: raw_frames.into_iter()
        invariant
            soft_alpha.len() == SOFT_BAND,
            values == it.seq().map_values(|f: RawFrame| raw_frame_value(f)),
            frames_made_from(frames@, delays_ms@, values.take(it.index() as int), soft_alpha@),
    {
        let ghost k = it.index() as int;
        assert(raw == it.seq()[k]);
        let mut rgba = raw.rgba;
        apply_color_key(&mut rgba, soft_alpha);
        frames.push(SpriteFrame { width: raw.width, height: raw.height, rgba });
        delays_ms.push(frame_delay_ms(raw.delay_numer, raw.delay_denom));
        proof {
            assert(values.take(k + 1).drop_last() =~= values.take(k));
            assert(frames@[k].width == values[k].2);
            assert(frames@[k].height == values[k].3);
            assert(frames@[k].rgba@ == color_keyed(values[k].4, soft_alpha@));
            assert(delays_ms@[k] == frame_delay(values[k].0, values[k].1));
            assert(frames@.len() == k + 1);
            assert forall|i: int| 0 <= i < k + 1 implies {
                &&& #[trigger] frames@[i].width == values.take(k + 1)[i].2
                &&& frames@[i].height == values.take(k + 1)[i].3
                &&& frames@[i].rgba@ == color_keyed(values.take(k + 1)[i].4, soft_alpha@)
                &&& delays_ms@[i] == frame_delay(values.take(k + 1)[i].0, values.take(k + 1)[i].1)
            } by {
                if i < k {
                    assert(values.take(k + 1)[i] == values.take(k)[i]);
                } else {
                    assert(values.take(k + 1)[i] == values[k]);
                    assert(values[k] == raw_frame_value(it.seq()[k]));
                }
            }
        }
    }
    if frames.len() == 0 {
        return Err(SpriteError::NoFrames);
    }
    proof {
        assert(values.take(values.len() as int) =~= values);
    }
    Ok(FrameData { frames, delays_ms })
}

/// Decodes the APNG sprite and keys its background out; the alpha table gives
/// the alpha of partly transparent pixels.
pub fn decode_apng(data: &[u8], soft_alpha: &Vec<u8>) -> (res: Result<FrameData, SpriteError>)
    requires
        soft_alpha.len() == SOFT_BAND,
    ensures
        sprite_outcome(res, apng_frames(data@), soft_alpha@),
{
    let decoded = decode_apng_frames(data);
    frames_from_decoded(decoded, soft_alpha)
}

} // verus!
