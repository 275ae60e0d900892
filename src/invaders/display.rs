//! The cabinet's picture: video memory holds one bit per pixel, in columns
//! that run from the bottom of the screen to the top (the monitor is turned
//! on its side). This paints those bits into an RGB24 frame.
use vstd::prelude::*;
use vstd::arithmetic::power2::pow2;

verus! {

/// Black, for pixels whose bit is clear.
pub const BLACK: (u8, u8, u8) = (0, 0, 0);

/// Whether bit `index` of video memory is set (bit 0 of each byte first).
pub open spec fn lit(video: Seq<u8>, index: int) -> bool {
    (video[index / 8] as int / pow2((index % 8) as nat) as int) % 2 == 1
}

/// Where in a frame of `height` rows of `pitch` bytes the pixel for video bit
/// `index` starts: column `index / height`, row `height - 1 - index % height`.
pub open spec fn pixel_offset(index: int, height: int, pitch: int) -> int {
    (height - 1 - index % height) * pitch + (index / height) * 3
}

/// `pixels` with the three bytes at `offset` set to `rgb`, if they lie inside.
pub open spec fn with_color_at(pixels: Seq<u8>, offset: int, rgb: (u8, u8, u8)) -> Seq<u8> {
    if 0 <= offset && offset + 3 <= pixels.len() {
        pixels.update(offset, rgb.0).update(offset + 1, rgb.1).update(offset + 2, rgb.2)
    } else {
        pixels
    }
}

/// `pixels` after painting the first `count` video bits in order.
pub open spec fn painted(
    pixels: Seq<u8>,
    video: Seq<u8>,
    height: int,
    pitch: int,
    color: (u8, u8, u8),
    count: nat,
) -> Seq<u8>
    decreases count,
{
    if count == 0 {
        pixels
    } else {
        let k = count - 1;
        with_color_at(
            painted(pixels, video, height, pitch, color, k as nat),
            pixel_offset(k, height, pitch),
            if lit(video, k) { color } else { BLACK },
        )
    }
}

proof fn lemma_painted_len(
    pixels: Seq<u8>,
    video: Seq<u8>,
    height: int,
    pitch: int,
    color: (u8, u8, u8),
    count: nat,
)
    ensures
        painted(pixels, video, height, pitch, color, count).len() == pixels.len(),
    decreases count,
{
    if count > 0 {
        lemma_painted_len(pixels, video, height, pitch, color, (count - 1) as nat);
    }
}

fn set_color_at(bytes: &mut Vec<u8>, rgb: (u8, u8, u8), index: usize)
    requires
        index + 3 <= old(bytes)@.len(),
    ensures
        final(bytes)@ == with_color_at(old(bytes)@, index as int, rgb),
{
    let _ = bytes.len();
    bytes.set(index, rgb.0);
    bytes.set(index + 1, rgb.1);
    bytes.set(index + 2, rgb.2);
}

/// Paints every bit of `video` into `pixels`, a frame of rows of `pitch`
/// bytes: `color` where the bit is set, black where it is clear.
pub fn paint_frame(pixels: &mut Vec<u8>, pitch: usize, video: &[u8], color: (u8, u8, u8))
    requires
        pitch > 0,
        old(pixels)@.len() >= pitch,
        video@.len() * 8 <= usize::MAX,
    ensures
        final(pixels)@ == painted(
            old(pixels)@,
            video@,
            old(pixels)@.len() as int / pitch as int,
            pitch as int,
            color,
            (8 * video@.len()) as nat,
        ),
{
    let len = pixels.len();
    let height = len / pitch;
    let ghost initial = pixels@;
    assert(height * pitch <= len && height >= 1) by (nonlinear_arith)
        requires height == len / pitch, len >= pitch, pitch > 0;
    let mut byte_index: usize = 0;
    let mut index: usize = 0;
    while byte_index < video.len()
        invariant
            len == initial.len(),
            pixels@.len() == len,
            height == len / pitch,
            height * pitch <= len,
            height >= 1,
            pitch > 0,
            video@.len() * 8 <= usize::MAX,
            byte_index <= video@.len(),
            index == 8 * byte_index,
            pixels@ == painted(initial, video@, height as int, pitch as int, color, index as nat),
        decreases video@.len() - byte_index,
    {
        let mut b = video[byte_index];
        let mut bit: usize = 0;
        proof {
            vstd::arithmetic::power2::lemma2_to64();
        }
        while bit < 8
            invariant
                len == initial.len(),
                pixels@.len() == len,
                height == len / pitch,
                height * pitch <= len,
                height >= 1,
                pitch > 0,
                video@.len() * 8 <= usize::MAX,
                byte_index < video@.len(),
                bit <= 8,
                index == 8 * byte_index + bit,
                b as int == video@[byte_index as int] as int / pow2(bit as nat) as int,
                pixels@ == painted(initial, video@, height as int, pitch as int, color, index as nat),
            decreases 8 - bit,
        {
            let ghost before = pixels@;
            let is_lit = b % 2 == 1;
            proof {
                vstd::arithmetic::power2::lemma_pow2_unfold((bit + 1) as nat);
                vstd::arithmetic::power2::lemma_pow2_pos(bit as nat);
                vstd::arithmetic::div_mod::lemma_div_denominator(
                    video@[byte_index as int] as int,
                    pow2(bit as nat) as int,
                    2,
                );
                assert(index as int / 8 == byte_index as int && index as int % 8 == bit as int);
                assert(is_lit == lit(video@, index as int));
            }
            b = b / 2;
            let x = index / height;
            let y = height - 1 - index % height;
            assert(y * pitch + pitch <= len) by (nonlinear_arith)
                requires y < height, height * pitch <= len;
            let row = y * pitch;
            let rgb = if is_lit { color } else { BLACK };
            proof {
                lemma_painted_len(initial, video@, height as int, pitch as int, color, index as nat);
            }
            if x <= (len - row) / 3 {
                let offset = row + 3 * x;
                if offset <= len && len - offset >= 3 {
                    set_color_at(pixels, rgb, offset);
                }
            }
            index = index + 1;
            bit = bit + 1;
            assert(pixels@ == painted(initial, video@, height as int, pitch as int, color, index as nat));
        }
        byte_index = byte_index + 1;
    }
}

} // verus!
