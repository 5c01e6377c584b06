use vstd::prelude::*;

verus! {

/// Bytes per pixel of an 8-bit RGBA image.
pub const RGBA_BYTES_PER_PIXEL: usize = 4;

/// `pixels` read as `height` rows of `row_bytes` bytes each, with the order of
/// the rows reversed: row `r` of the result is row `height - 1 - r` of `pixels`.
pub open spec fn rows_flipped(pixels: Seq<u8>, row_bytes: nat, height: nat) -> Seq<u8> {
    Seq::new(
        pixels.len(),
        |i: int| pixels[(height - 1 - i / (row_bytes as int)) * row_bytes + i % (row_bytes as int)],
    )
}

/// An 8-bit RGBA image as it is uploaded to a texture: `width * height` pixels,
/// row by row from the first row of the image, four bytes per pixel.
pub struct RgbaTexture {
    width: u32,
    height: u32,
    pixels: Vec<u8>,
}

impl View for RgbaTexture {
    /// Width, height and pixel bytes.
    type V = (u32, u32, Seq<u8>);

    closed spec fn view(&self) -> (u32, u32, Seq<u8>) {
        (self.width, self.height, self.pixels@)
    }
}

/// The image of `v` mirrored top to bottom.
pub open spec fn flipped_vertically(v: (u32, u32, Seq<u8>)) -> (u32, u32, Seq<u8>) {
    (v.0, v.1, rows_flipped(v.2, (v.0 * 4) as nat, v.1 as nat))
}

/// Calls `image::DynamicImage::flipv` on the 8-bit RGBA image of the given size
/// whose bytes are `pixels`, and returns the bytes of the flipped image.
/// The image crate builds a new buffer of the same size and puts the pixel at
/// `(x, y)` of the input at `(x, height - 1 - y)`; the contract states that
/// row-reversal over the raw bytes.
#[verifier::external_body]
fn flipv_rgba8(width: u32, height: u32, pixels: Vec<u8>) -> (flipped: Vec<u8>)
    requires
        pixels@.len() == width * height * 4,
    ensures
        flipped@ == rows_flipped(pixels@, (width * 4) as nat, height as nat),
{
    match image::RgbaImage::from_raw(width, height, pixels) {
        Some(buffer) => image::DynamicImage::ImageRgba8(buffer).flipv().into_rgba8().into_raw(),
        None => Vec::new(),
    }
}

impl RgbaTexture {
    /// Whether the pixel bytes fill exactly `width * height` RGBA pixels.
    pub open spec fn wf(&self) -> bool {
        self@.2.len() == self@.0 * self@.1 * 4
    }

    /// Wraps raw RGBA bytes of a `width` by `height` image; `None` when the
    /// number of bytes is not `width * height * 4`.
    pub fn from_raw(width: u32, height: u32, pixels: Vec<u8>) -> (r: Option<RgbaTexture>)
        ensures
            r is Some <==> pixels@.len() == width * height * 4,
            r matches Some(t) ==> t@ == (width, height, pixels@) && t.wf(),
    {
        let n = pixels.len();
        let w = width as usize;
        let h = height as usize;
        match w.checked_mul(h) {
            Some(wh) => match wh.checked_mul(RGBA_BYTES_PER_PIXEL) {
                Some(len) => {
                    if pixels.len() == len {
                        Some(RgbaTexture { width, height, pixels })
                    } else {
                        None
                    }
                },
                None => {
                    assert(pixels@.len() != width * height * 4) by (nonlinear_arith)
                        requires
                            pixels@.len() == n,
                            n <= usize::MAX,
                            wh == width * height,
                            wh * 4 > usize::MAX,
                    ;
                    None
                },
            },
            None => {
                assert(pixels@.len() != width * height * 4) by (nonlinear_arith)
                    requires
                        pixels@.len() == n,
                        n <= usize::MAX,
                        width * height > usize::MAX,
                ;
                None
            },
        }
    }

    /// The image mirrored top to bottom, as `image`'s `flipv` gives it: the
    /// first row becomes the last.
    pub fn flip_vertical(self) -> (r: RgbaTexture)
        requires
            self.wf(),
        ensures
            r@ == flipped_vertically(self@),
            r.wf(),
            r@.0 == self@.0,
            r@.1 == self@.1,
            forall|row: int, c: int|
                0 <= row < self@.1 && 0 <= c < self@.0 * 4 ==> #[trigger] r@.2[row * (self@.0 * 4)
                    + c] == self@.2[(self@.1 - 1 - row) * (self@.0 * 4) + c],
    {
        let RgbaTexture { width, height, pixels } = self;
        let ghost before = (width, height, pixels@);
        let flipped = flipv_rgba8(width, height, pixels);
        proof {
            assert forall|row: int, c: int|
                0 <= row < height && 0 <= c < width * 4 implies #[trigger] flipped@[row * (width * 4)
                + c] == before.2[(height - 1 - row) * (width * 4) + c] by {
                lemma_flip_moves_rows(before, row, c);
            }
        }
        RgbaTexture { width, height, pixels: flipped }
    }

    /// Width in pixels.
    pub fn width(&self) -> (w: u32)
        ensures
            w == self@.0,
    {
        self.width
    }

    /// Height in pixels.
    pub fn height(&self) -> (h: u32)
        ensures
            h == self@.1,
    {
        self.height
    }

    /// The pixel bytes, row by row.
    pub fn pixels(&self) -> (p: &Vec<u8>)
        ensures
            p@ == self@.2,
    {
        &self.pixels
    }
}

/// Mirroring an image top to bottom twice gives back the image.
pub proof fn lemma_flip_twice_is_identity(v: (u32, u32, Seq<u8>))
    requires
        v.2.len() == v.0 * v.1 * 4,
    ensures
        flipped_vertically(flipped_vertically(v)) == v,
{
    let rb: int = v.0 * 4;
    let h: int = v.1 as int;
    let p = v.2;
    let q = rows_flipped(p, rb as nat, h as nat);
    let qq = rows_flipped(q, rb as nat, h as nat);
    assert(p.len() == rb * h) by (nonlinear_arith)
        requires
            p.len() == v.0 * v.1 * 4,
            rb == v.0 * 4,
            h == v.1,
    ;
    assert forall|i: int| 0 <= i < p.len() implies #[trigger] qq[i] == p[i] by {
        lemma_flip_index(rb, h, i);
        let j = (h - 1 - i / rb) * rb + i % rb;
        lemma_flip_index(rb, h, j);
    }
    assert(qq =~= p);
}

/// Mirroring top to bottom keeps the size and moves row `h - 1 - r` of the
/// image to row `r`, byte for byte, for every well-formed image, square or not.
pub proof fn lemma_flip_moves_rows(v: (u32, u32, Seq<u8>), r: int, c: int)
    requires
        v.2.len() == v.0 * v.1 * 4,
        0 <= r < v.1,
        0 <= c < v.0 * 4,
    ensures
        flipped_vertically(v).0 == v.0,
        flipped_vertically(v).1 == v.1,
        flipped_vertically(v).2.len() == v.2.len(),
        0 <= r * (v.0 * 4) + c < v.2.len(),
        0 <= (v.1 - 1 - r) * (v.0 * 4) + c < v.2.len(),
        flipped_vertically(v).2[r * (v.0 * 4) + c] == v.2[(v.1 - 1 - r) * (v.0 * 4) + c],
{
    let rb: int = v.0 * 4;
    let h: int = v.1 as int;
    let i = r * rb + c;
    assert(v.2.len() == rb * h) by (nonlinear_arith)
        requires
            v.2.len() == v.0 * v.1 * 4,
            rb == v.0 * 4,
            h == v.1,
    ;
    assert(0 <= i < rb * h && 0 <= (h - 1 - r) * rb + c < rb * h) by (nonlinear_arith)
        requires
            i == r * rb + c,
            0 <= r < h,
            0 <= c < rb,
    ;
    vstd::arithmetic::div_mod::lemma_fundamental_div_mod_converse(i, rb, r, c);
}

/// For an index `i` into `h` rows of `rb` bytes, the index that row reversal
/// reads from lies in the same range, and reading back from it returns to `i`.
proof fn lemma_flip_index(rb: int, h: int, i: int)
    requires
        0 <= i < rb * h,
        rb >= 0,
        h >= 0,
    ensures
        rb > 0,
        0 <= (h - 1 - i / rb) * rb + i % rb < rb * h,
        ({
            let j = (h - 1 - i / rb) * rb + i % rb;
            (h - 1 - j / rb) * rb + j % rb == i
        }),
{
    assert(rb > 0) by (nonlinear_arith)
        requires
            0 <= i < rb * h,
            rb >= 0,
            h >= 0,
    ;
    let r = i / rb;
    let c = i % rb;
    vstd::arithmetic::div_mod::lemma_fundamental_div_mod(i, rb);
    assert(0 <= c < rb);
    assert(0 <= r < h) by (nonlinear_arith)
        requires
            i == rb * r + c,
            0 <= c < rb,
            0 <= i < rb * h,
            rb > 0,
    ;
    let j = (h - 1 - r) * rb + c;
    assert(0 <= j < rb * h) by (nonlinear_arith)
        requires
            j == (h - 1 - r) * rb + c,
            0 <= r < h,
            0 <= c < rb,
            rb > 0,
    ;
    vstd::arithmetic::div_mod::lemma_fundamental_div_mod_converse(j, rb, h - 1 - r, c);
    assert(i == r * rb + c) by (nonlinear_arith)
        requires
            i == rb * r + c,
    ;
}

} // verus!
