use vstd::prelude::*;
use crate::integrator::MAX_DEPTH;

verus! {

/// Fixed configuration of a render: image size, samples per pixel and the
/// integrator's depth cap.
#[derive(Clone, Copy, Debug, PartialEq, Eq, Structural)]
pub struct RenderParams {
    pub width: usize,
    pub height: usize,
    pub samples: usize,
    pub max_depth: usize,
}

impl Default for RenderParams {
    fn default() -> (r: Self)
        ensures
            r == (RenderParams { width: 1920, height: 1080, samples: 100, max_depth: MAX_DEPTH }),
    {
        RenderParams { width: 1920, height: 1080, samples: 100, max_depth: MAX_DEPTH }
    }
}

impl RenderParams {
    /// Number of pixels of the image, when it fits in `usize`.
    pub fn pixel_count(&self) -> (r: Option<usize>)
        ensures
            match r {
                Some(n) => n == self.width * self.height,
                None => self.width * self.height > usize::MAX,
            },
    {
        self.width.checked_mul(self.height)
    }
}

/// Where pixel `n` of a row-major framebuffer (rows from the top) lies on the
/// image plane: its column and its row counted from the bottom.
pub open spec fn pixel_position_spec(n: nat, width: nat, height: nat) -> (nat, nat) {
    ((n % width) as nat, (height - 1 - n / width) as nat)
}

/// Column and bottom-up row of pixel `n` of a `width` by `height` image whose
/// framebuffer holds rows from the top.
pub fn pixel_position(n: usize, width: usize, height: usize) -> (r: (usize, usize))
    requires
        width > 0,
        n < width * height,
    ensures
        r.0 == (n as nat % width as nat),
        r.1 == height - 1 - n as nat / width as nat,
        r.0 < width,
        r.1 < height,
        n == (height - 1 - r.1) * width + r.0,
{
    let col = n % width;
    let row = n / width;
    assert(row < height) by (nonlinear_arith)
        requires
            row == n / width,
            n < width * height,
            width > 0,
    ;
    assert(n == row * width + col) by (nonlinear_arith)
        requires
            row == n / width,
            col == n % width,
            width > 0,
    ;
    (col, height - 1 - row)
}

/// Decimal digits of `n` in ASCII, without leading zeros.
pub open spec fn decimal(n: nat) -> Seq<u8>
    decreases n,
{
    if n < 10 {
        seq![(48 + n) as u8]
    } else {
        decimal(n / 10).push((48 + n % 10) as u8)
    }
}

/// The plain-text PPM header: magic `P3`, width and height, maximum value 255.
pub open spec fn ppm_header(width: nat, height: nat) -> Seq<u8> {
    seq![80u8, 51u8, 10u8] + decimal(width) + seq![32u8] + decimal(height) + seq![10u8] + seq![
        50u8,
        53u8,
        53u8,
        10u8,
    ]
}

/// One pixel line of a plain-text PPM body: `r g b` and a newline.
pub open spec fn ppm_pixel(p: (u32, u32, u32)) -> Seq<u8> {
    decimal(p.0 as nat) + seq![32u8] + decimal(p.1 as nat) + seq![32u8] + decimal(p.2 as nat)
        + seq![10u8]
}

/// The pixel lines of a plain-text PPM body, in framebuffer order.
pub open spec fn ppm_body(ps: Seq<(u32, u32, u32)>) -> Seq<u8>
    decreases ps.len(),
{
    if ps.len() == 0 {
        Seq::empty()
    } else {
        ppm_body(ps.drop_last()) + ppm_pixel(ps.last())
    }
}

fn push_decimal(out: &mut Vec<u8>, n: usize)
    ensures
        final(out)@ == old(out)@ + decimal(n as nat),
    decreases n,
{
    if n >= 10 {
        push_decimal(out, n / 10);
    }
    let digit: u8 = (n % 10) as u8;
    out.push(48u8 + digit);
    assert(final(out)@ =~= old(out)@ + decimal(n as nat));
}

/// Encodes a framebuffer of 0..=255 channel values as a plain-text PPM image.
pub fn encode_ppm(width: usize, height: usize, pixels: &Vec<(u32, u32, u32)>) -> (r: Vec<u8>)
    requires
        pixels@.len() == width * height,
    ensures
        r@ == ppm_header(width as nat, height as nat) + ppm_body(pixels@),
{
    let mut out: Vec<u8> = Vec::new();
    out.push(80u8);
    out.push(51u8);
    out.push(10u8);
    push_decimal(&mut out, width);
    out.push(32u8);
    push_decimal(&mut out, height);
    out.push(10u8);
    out.push(50u8);
    out.push(53u8);
    out.push(53u8);
    out.push(10u8);
    let ghost header = ppm_header(width as nat, height as nat);
    assert(out@ =~= header);
    let mut i: usize = 0;
    assert(pixels@.take(0) =~= Seq::<(u32, u32, u32)>::empty());
    assert(out@ =~= header + ppm_body(pixels@.take(0)));
    while i < pixels.len()
        invariant
            i <= pixels@.len(),
            header == ppm_header(width as nat, height as nat),
            out@ == header + ppm_body(pixels@.take(i as int)),
        decreases pixels@.len() - i,
    {
        let (r, g, b) = pixels[i];
        push_decimal(&mut out, r as usize);
        out.push(32u8);
        push_decimal(&mut out, g as usize);
        out.push(32u8);
        push_decimal(&mut out, b as usize);
        out.push(10u8);
        assert(pixels@.take(i + 1).drop_last() =~= pixels@.take(i as int));
        assert(pixels@.take(i + 1).last() == (r, g, b));
        assert(out@ =~= header + ppm_body(pixels@.take(i + 1)));
        i = i + 1;
    }
    assert(pixels@.take(pixels@.len() as int) =~= pixels@);
    out
}

} // verus!
