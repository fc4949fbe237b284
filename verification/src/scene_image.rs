//! A painted scene, handed to a renderer that cannot replay one: the
//! byte formats the rasterized pixels travel in, and the surface that
//! serves the latest frame under a revision.
use base64::Engine;
use vstd::prelude::*;

verus! {

/// The character of a six-bit value in the standard base64 alphabet:
/// `A`-`Z`, `a`-`z`, `0`-`9`, `+`, `/`.
pub open spec fn base64_digit(v: int) -> char {
    if v < 26 {
        ('A' as int + v) as char
    } else if v < 52 {
        ('a' as int + (v - 26)) as char
    } else if v < 62 {
        ('0' as int + (v - 52)) as char
    } else if v == 62 {
        '+'
    } else {
        '/'
    }
}

/// The standard-alphabet, padded base64 text of `bytes`: every three bytes
/// become four characters of six bits each, and a final group of one or
/// two bytes is padded with `=` to four.
pub open spec fn base64_standard(b: Seq<u8>) -> Seq<char>
    decreases b.len(),
{
    if b.len() == 0 {
        Seq::empty()
    } else if b.len() == 1 {
        seq![base64_digit(b[0] as int / 4), base64_digit((b[0] as int % 4) * 16), '=', '=']
    } else if b.len() == 2 {
        seq![
            base64_digit(b[0] as int / 4),
            base64_digit((b[0] as int % 4) * 16 + b[1] as int / 16),
            base64_digit((b[1] as int % 16) * 4),
            '=',
        ]
    } else {
        seq![
            base64_digit(b[0] as int / 4),
            base64_digit((b[0] as int % 4) * 16 + b[1] as int / 16),
            base64_digit((b[1] as int % 16) * 4 + b[2] as int / 64),
            base64_digit(b[2] as int % 64),
        ] + base64_standard(b.subrange(3, b.len() as int))
    }
}

/// The bytes of the PNG the `png` crate writes for a `w` x `h` RGBA8
/// image at `Compression::Fast`, or `None` when its encoder refuses.
pub uninterp spec fn png_rgba8_fast(rgba: Seq<u8>, w: u32, h: u32) -> Option<Seq<u8>>;

/// Calls `base64::engine::general_purpose::STANDARD.encode`. Trusted to
/// return the standard-alphabet, padded encoding of `bytes`, which is
/// what that engine is configured to write.
#[verifier::external_body]
fn base64_encode(bytes: &[u8]) -> (s: String)
    ensures
        s@ == base64_standard(bytes@),
{
    base64::engine::general_purpose::STANDARD.encode(bytes)
}

/// Runs one `png::Encoder` over an in-memory buffer: `Encoder::new`,
/// `set_color(Rgba)`, `set_depth(Eight)`, `set_compression(Fast)`,
/// `write_header`, `Writer::write_image_data`, then drops the writer,
/// which finishes the stream. `write_image_data` computes the expected
/// buffer length as `w * 4 * h` in a `usize` without checking for
/// overflow, so the call is only made where that product fits. Trusted to
/// return the named bytes; and, as the crate's source shows
/// (`Writer::init` refuses a zero width or height, `write_image_data` a
/// buffer whose length is not `w * h * 4`), to fail exactly on those
/// inputs: every other step writes into the in-memory buffer, which
/// never refuses a write, and splits the compressed stream into chunks
/// the chunk writer accepts.
#[verifier::external_body]
fn png_encode(rgba: &[u8], w: u32, h: u32) -> (r: Option<Vec<u8>>)
    requires
        w * h * 4 <= usize::MAX,
    ensures
        match r {
            Some(b) => png_rgba8_fast(rgba@, w, h) == Some(b@),
            None => png_rgba8_fast(rgba@, w, h) is None,
        },
        (w == 0 || h == 0 || rgba@.len() != w * h * 4) ==> r is None,
        (w > 0 && h > 0 && rgba@.len() == w * h * 4) ==> r is Some,
{
    let mut png: Vec<u8> = Vec::new();
    {
        let mut encoder = png::Encoder::new(&mut png, w, h);
        encoder.set_color(png::ColorType::Rgba);
        encoder.set_depth(png::BitDepth::Eight);
        encoder.set_compression(png::Compression::Fast);
        let mut writer = encoder.write_header().ok()?;
        writer.write_image_data(rgba).ok()?;
    }
    Some(png)
}

/// The `data:` URI the surface hands a WebView: the PNG's base64 behind
/// the image/png prefix, or empty when the PNG could not be written.
pub open spec fn png_data_uri(rgba: Seq<u8>, w: u32, h: u32) -> Seq<char> {
    match png_rgba8_fast(rgba, w, h) {
        Some(png) => "data:image/png;base64,"@ + base64_standard(png),
        None => Seq::empty(),
    }
}

/// RGBA8 to a `data:image/png;base64,…` URI.
///
/// `Fast` compression on purpose: this runs per frame, and the PNG is
/// decoded again on the other side of the attribute a moment later.
/// Empty when the encoder refuses the image. The image's byte size must
/// fit in a `usize`: the encoder computes it without an overflow check.
pub fn encode(rgba: &[u8], w: u32, h: u32) -> (uri: String)
    requires
        w * h * 4 <= usize::MAX,
    ensures
        uri@ == png_data_uri(rgba@, w, h),
        (w == 0 || h == 0 || rgba@.len() != w * h * 4) ==> uri@.len() == 0,
        (w > 0 && h > 0 && rgba@.len() == w * h * 4) ==> {
            &&& png_rgba8_fast(rgba@, w, h) is Some
            &&& uri@.len() >= 22
            &&& uri@.subrange(0, 22) == "data:image/png;base64,"@
        },
{
    proof {
        reveal_strlit("data:image/png;base64,");
    }
    match png_encode(rgba, w, h) {
        Some(png) => {
            let mut uri = String::from_str("data:image/png;base64,");
            let text = base64_encode(png.as_slice());
            uri.append(text.as_str());
            uri
        },
        None => String::new(),
    }
}

/// `x` as four little-endian bytes.
pub open spec fn le32(x: u32) -> Seq<u8> {
    seq![
        (x % 256) as u8,
        ((x / 256) % 256) as u8,
        ((x / 65536) % 256) as u8,
        (x / 16777216) as u8,
    ]
}

/// `x` as two little-endian bytes.
pub open spec fn le16(x: u16) -> Seq<u8> {
    seq![(x % 256) as u8, (x / 256) as u8]
}

/// The two's-complement bit pattern of `-(h as i32)`, read as a `u32`.
pub open spec fn negated_height(h: u32) -> u32 {
    if h == 0 {
        0
    } else {
        (0x1_0000_0000 - h) as u32
    }
}

/// The 54 bytes in front of the pixels of a `w` x `h` 32-bit BMP stored
/// top-down (negative height), uncompressed, at 72 dpi.
pub open spec fn bmp_header(w: u32, h: u32) -> Seq<u8> {
    let pixels = (w * h * 4) as u32;
    seq![0x42u8, 0x4Du8] + le32((54 + pixels) as u32) + le32(0) + le32(54) + le32(40) + le32(w)
        + le32(negated_height(h)) + le16(1) + le16(32) + le32(0) + le32(pixels) + le32(2835)
        + le32(2835) + le32(0) + le32(0)
}

/// The first `n` RGBA pixels of `rgba`, reordered to BGRA.
pub open spec fn bgra(rgba: Seq<u8>, n: int) -> Seq<u8>
    decreases n,
{
    if n <= 0 {
        Seq::empty()
    } else {
        bgra(rgba, n - 1) + seq![
            rgba[4 * (n - 1) + 2],
            rgba[4 * (n - 1) + 1],
            rgba[4 * (n - 1)],
            rgba[4 * (n - 1) + 3],
        ]
    }
}

/// The whole file: header, then every complete pixel of `rgba` in BGRA
/// order. A trailing partial pixel is not written.
pub open spec fn bmp_bytes(rgba: Seq<u8>, w: u32, h: u32) -> Seq<u8> {
    bmp_header(w, h) + bgra(rgba, (rgba.len() / 4) as int)
}

/// The reordered pixels: four bytes per pixel, pixel `k` in place `k`.
proof fn bgra_pixel(rgba: Seq<u8>, n: int, k: int)
    requires
        0 <= k < n,
        4 * n <= rgba.len(),
    ensures
        bgra(rgba, n).len() == 4 * n,
        bgra(rgba, n)[4 * k] == rgba[4 * k + 2],
        bgra(rgba, n)[4 * k + 1] == rgba[4 * k + 1],
        bgra(rgba, n)[4 * k + 2] == rgba[4 * k],
        bgra(rgba, n)[4 * k + 3] == rgba[4 * k + 3],
    decreases n,
{
    let prev = bgra(rgba, n - 1);
    assert(bgra(rgba, n) == prev + seq![
        rgba[4 * (n - 1) + 2],
        rgba[4 * (n - 1) + 1],
        rgba[4 * (n - 1)],
        rgba[4 * (n - 1) + 3],
    ]);
    if k < n - 1 {
        bgra_pixel(rgba, n - 1, k);
    } else if n > 1 {
        bgra_pixel(rgba, n - 1, 0);
    } else {
        assert(prev.len() == 0);
    }
}

/// A BMP is its 54-byte header and then every whole pixel of the image,
/// first to last and top row first, each turned from RGBA into BGRA:
/// pixel `k` of the input is bytes `54 + 4k` to `54 + 4k + 3` of the
/// file, and nothing else follows.
pub proof fn bmp_keeps_pixel_order(rgba: Seq<u8>, w: u32, h: u32, k: int)
    requires
        0 <= k < rgba.len() / 4,
    ensures
        bmp_bytes(rgba, w, h).len() == 54 + 4 * (rgba.len() / 4),
        bmp_bytes(rgba, w, h)[54 + 4 * k] == rgba[4 * k + 2],
        bmp_bytes(rgba, w, h)[54 + 4 * k + 1] == rgba[4 * k + 1],
        bmp_bytes(rgba, w, h)[54 + 4 * k + 2] == rgba[4 * k],
        bmp_bytes(rgba, w, h)[54 + 4 * k + 3] == rgba[4 * k + 3],
{
    let n = (rgba.len() / 4) as int;
    bgra_pixel(rgba, n, k);
    assert(bmp_header(w, h).len() == 54);
}

fn push_le32(out: &mut Vec<u8>, x: u32)
    ensures
        final(out)@ == old(out)@ + le32(x),
{
    out.push((x % 256) as u8);
    out.push(((x / 256) % 256) as u8);
    out.push(((x / 65536) % 256) as u8);
    out.push((x / 16777216) as u8);
    assert(out@ =~= old(out)@ + le32(x));
}

fn push_le16(out: &mut Vec<u8>, x: u16)
    ensures
        final(out)@ == old(out)@ + le16(x),
{
    out.push((x % 256) as u8);
    out.push((x / 256) as u8);
    assert(out@ =~= old(out)@ + le16(x));
}

/// RGBA8 to a 32-bit BMP.
///
/// Top-down via a negative height, so the rows go out in the order the
/// rasterizer produced them. 32bpp means every row is already 4-byte
/// aligned, so there is no padding to insert. The alpha byte rides
/// along untouched.
pub fn bmp(rgba: &[u8], w: u32, h: u32) -> (out: Vec<u8>)
    requires
        54 + w * h * 4 <= u32::MAX,
        h != 0x8000_0000,
    ensures
        out@ == bmp_bytes(rgba@, w, h),
        out@.len() == 54 + 4 * (rgba@.len() / 4),
{
    let pixels: u32 = w * h * 4;
    let size: u32 = 54 + pixels;
    let mut out: Vec<u8> = Vec::new();
    out.push(0x42);
    out.push(0x4D);
    push_le32(&mut out, size);
    push_le32(&mut out, 0);
    push_le32(&mut out, 54);
    push_le32(&mut out, 40);
    push_le32(&mut out, w);
    let neg: u32 = if h == 0 { 0 } else { (0xFFFF_FFFFu32 - h) + 1 };
    push_le32(&mut out, neg);
    push_le16(&mut out, 1);
    push_le16(&mut out, 32);
    push_le32(&mut out, 0);
    push_le32(&mut out, pixels);
    push_le32(&mut out, 2835);
    push_le32(&mut out, 2835);
    push_le32(&mut out, 0);
    push_le32(&mut out, 0);
    assert(out@ =~= bmp_header(w, h));
    let ghost head = out@;
    let len: usize = rgba.len();
    let n: usize = len / 4;
    let mut i: usize = 0;
    while i < n
        invariant
            n == rgba@.len() / 4,
            4 * n <= rgba@.len(),
            rgba@.len() <= usize::MAX,
            i <= n,
            head == bmp_header(w, h),
            head.len() == 54,
            out@ == head + bgra(rgba@, i as int),
            bgra(rgba@, i as int).len() == 4 * i,
        decreases n - i,
    {
        let at: usize = 4 * i;
        out.push(rgba[at + 2]);
        out.push(rgba[at + 1]);
        out.push(rgba[at]);
        out.push(rgba[at + 3]);
        i = i + 1;
        assert(out@ =~= head + bgra(rgba@, i as int));
    }
    out
}

/// The latest bytes for one surface, and how many times they have
/// changed.
///
/// The URL a frame is served under carries its revision, because a
/// stable URL is a cached image: the engine would never ask again.
#[derive(Debug)]
pub struct Surface {
    revision: u64,
    bytes: Vec<u8>,
}

impl Surface {
    /// The current revision.
    pub closed spec fn current(&self) -> u64 {
        self.revision
    }

    /// The bytes of the current frame.
    pub closed spec fn frame(&self) -> Seq<u8> {
        self.bytes@
    }

    /// Nothing published yet: revision 0, no bytes.
    pub fn new() -> (s: Self)
        ensures
            s.current() == 0,
            s.frame() == Seq::<u8>::empty(),
    {
        Surface { revision: 0, bytes: Vec::new() }
    }

    /// Publish a new frame. Returns the revision to put in the URL.
    pub fn put(&mut self, bytes: Vec<u8>) -> (r: u64)
        requires
            old(self).current() < u64::MAX,
        ensures
            r == old(self).current() + 1,
            final(self).current() == r,
            final(self).frame() == bytes@,
    {
        self.revision = self.revision + 1;
        self.bytes = bytes;
        self.revision
    }

    /// The current revision, without publishing.
    pub fn revision(&self) -> (r: u64)
        ensures
            r == self.current(),
    {
        self.revision
    }

    /// The bytes for `revision`, if that is still the current frame.
    ///
    /// A request for an older revision is answered `None`: the image it
    /// wanted has already been replaced.
    pub fn get(&self, revision: u64) -> (r: Option<Vec<u8>>)
        ensures
            revision == self.current() ==> r is Some && r->0@ == self.frame(),
            revision != self.current() ==> r is None,
    {
        if self.revision == revision {
            let mut copy: Vec<u8> = Vec::new();
            let mut i: usize = 0;
            while i < self.bytes.len()
                invariant
                    i <= self.bytes@.len(),
                    copy@ == self.bytes@.subrange(0, i as int),
                decreases self.bytes@.len() - i,
            {
                copy.push(self.bytes[i]);
                i = i + 1;
                assert(copy@ =~= self.bytes@.subrange(0, i as int));
            }
            assert(copy@ =~= self.bytes@);
            Some(copy)
        } else {
            None
        }
    }
}

impl Default for Surface {
    fn default() -> (s: Self)
        ensures
            s.current() == 0,
            s.frame() == Seq::<u8>::empty(),
    {
        Surface::new()
    }
}

} // verus!
