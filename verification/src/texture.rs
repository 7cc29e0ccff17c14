use vstd::prelude::*;
use vstd::arithmetic::div_mod::lemma_fundamental_div_mod_converse;
use vstd::arithmetic::div_mod::lemma_fundamental_div_mod;
use vstd::arithmetic::div_mod::lemma_mod_bound;

verus! {

/// One texel: red, green, blue and opacity.
#[derive(Clone, Copy, Debug, PartialEq, Eq, Structural)]
pub struct Rgba8 {
    pub r: u8,
    pub g: u8,
    pub b: u8,
    pub a: u8,
}

impl Rgba8 {
    pub open spec fn channels(self) -> Seq<u8> {
        seq![self.r, self.g, self.b, self.a]
    }
}

/// Index of the first byte of texel `(x, y)` in an image `width` texels
/// wide: rows from the top, four bytes a texel.
pub open spec fn texel_base(width: int, x: int, y: int) -> int {
    (y * width + x) * 4
}

/// Column of the texel that byte `i` belongs to.
pub open spec fn texel_x(width: int, i: int) -> int {
    (i / 4) % width
}

/// Row of the texel that byte `i` belongs to.
pub open spec fn texel_y(width: int, i: int) -> int {
    (i / 4) / width
}

/// `s` with the four bytes from `base` on replaced by `colour`.
pub open spec fn write_texel(s: Seq<u8>, base: int, colour: Rgba8) -> Seq<u8> {
    Seq::new(
        s.len(),
        |i: int|
            if base <= i < base + 4 {
                colour.channels()[i - base]
            } else {
                s[i]
            },
    )
}

/// An image of one colour.
pub open spec fn filled(width: int, height: int, colour: Rgba8) -> Seq<u8> {
    Seq::new((4 * width * height) as nat, |i: int| colour.channels()[i % 4])
}

/// `s` after the texels at `points` have been set to `colour`, one after
/// the other.
pub open spec fn stamped(s: Seq<u8>, width: int, points: Seq<(u32, u32)>, colour: Rgba8) -> Seq<
    u8,
>
    decreases points.len(),
{
    if points.len() == 0 {
        s
    } else {
        write_texel(
            stamped(s, width, points.drop_last(), colour),
            texel_base(width, points.last().0 as int, points.last().1 as int),
            colour,
        )
    }
}

/// An image in the making, kept in an `image::RgbaImage`.
#[verifier::external_body]
pub struct Canvas {
    inner: image::RgbaImage,
}

/// The bytes of a canvas: rows from the top, four bytes a texel.
pub uninterp spec fn canvas_texels(canvas: Canvas) -> Seq<u8>;

/// Width and height that a canvas was made with.
pub uninterp spec fn canvas_size(canvas: Canvas) -> (u32, u32);

/// `image::ImageBuffer::new`: an image of the given size with every byte
/// zero. The call multiplies four by the width and then by the height,
/// and panics when either product overflows `usize`.
#[verifier::external_body]
fn canvas_new(width: u32, height: u32) -> (canvas: Canvas)
    requires
        4 * width <= usize::MAX,
        4 * width * height <= usize::MAX,
    ensures
        canvas_size(canvas) == (width, height),
        canvas_texels(canvas) == Seq::new((4 * width * height) as nat, |i: int| 0u8),
{
    Canvas { inner: image::RgbaImage::new(width, height) }
}

/// `image::ImageBuffer::put_pixel`: overwrites the four bytes of texel
/// `(x, y)` and nothing else. The call panics outside the image.
#[verifier::external_body]
fn canvas_put_pixel(canvas: &mut Canvas, x: u32, y: u32, colour: Rgba8)
    requires
        x < canvas_size(*old(canvas)).0,
        y < canvas_size(*old(canvas)).1,
    ensures
        canvas_size(*final(canvas)) == canvas_size(*old(canvas)),
        canvas_texels(*final(canvas)) == write_texel(
            canvas_texels(*old(canvas)),
            texel_base(canvas_size(*old(canvas)).0 as int, x as int, y as int),
            colour,
        ),
{
    canvas.inner.put_pixel(x, y, image::Rgba([colour.r, colour.g, colour.b, colour.a]));
}

/// `image::ImageBuffer::into_raw`: the bytes of the image.
#[verifier::external_body]
fn canvas_into_raw(canvas: Canvas) -> (bytes: Vec<u8>)
    ensures
        bytes@ == canvas_texels(canvas),
{
    canvas.inner.into_raw()
}

/// A finished image: rows from the top, four bytes a texel.
#[derive(Debug)]
pub struct Raster {
    pub width: u32,
    pub height: u32,
    pub rgba: Vec<u8>,
}

impl Raster {
    /// There are four bytes for every texel.
    pub open spec fn well_formed(self) -> bool {
        self.rgba@.len() == 4 * self.width * self.height
    }

    /// Paints an image of `width` by `height` texels: `background`
    /// everywhere, then `ink` at each of `points`.
    pub fn paint(
        width: u32,
        height: u32,
        background: Rgba8,
        points: &Vec<(u32, u32)>,
        ink: Rgba8,
    ) -> (raster: Raster)
        requires
            4 * width <= usize::MAX,
            4 * width * height <= usize::MAX,
            forall|k: int| 0 <= k < points@.len() ==> points@[k].0 < width && points@[k].1 < height,
        ensures
            raster.well_formed(),
            raster.width == width,
            raster.height == height,
            raster.rgba@ == stamped(
                filled(width as int, height as int, background),
                width as int,
                points@,
                ink,
            ),
    {
        let mut canvas = canvas_new(width, height);
        let ghost w = width as int;
        let ghost h = height as int;
        let ghost len = 4 * w * h;
        let mut x: u32 = 0;
        while x < width
            invariant
                0 <= x <= width,
                w == width,
                h == height,
                len == 4 * w * h,
                canvas_size(canvas) == (width, height),
                canvas_texels(canvas).len() == len,
                forall|i: int|
                    0 <= i < len && texel_x(w, i) < x ==> #[trigger] canvas_texels(canvas)[i]
                        == background.channels()[i % 4],
            decreases width - x,
        {
            let mut y: u32 = 0;
            while y < height
                invariant
                    0 <= x < width,
                    0 <= y <= height,
                    w == width,
                    h == height,
                    len == 4 * w * h,
                    canvas_size(canvas) == (width, height),
                    canvas_texels(canvas).len() == len,
                    forall|i: int|
                        0 <= i < len && (texel_x(w, i) < x || (texel_x(w, i) == x && texel_y(w, i)
                            < y)) ==> #[trigger] canvas_texels(canvas)[i]
                            == background.channels()[i % 4],
                decreases height - y,
            {
                let ghost before = canvas_texels(canvas);
                canvas_put_pixel(&mut canvas, x, y, background);
                proof {
                    let base = texel_base(w, x as int, y as int);
                    assert forall|i: int|
                        0 <= i < len && (texel_x(w, i) < x || (texel_x(w, i) == x && texel_y(w, i)
                            < y + 1)) implies #[trigger] canvas_texels(canvas)[i]
                        == background.channels()[i % 4] by {
                        if base <= i < base + 4 {
                            assert(i % 4 == i - base);
                        } else {
                            assert(canvas_texels(canvas)[i] == before[i]);
                            if texel_x(w, i) == x && texel_y(w, i) == y {
                                lemma_fundamental_div_mod(i / 4, w);
                                assert(i / 4 == w * y + x);
                                assert(w * y == y * w) by (nonlinear_arith);
                                assert(false);
                            }
                        }
                    }
                }
                y += 1;
            }
            proof {
                assert forall|i: int| 0 <= i < len && texel_x(w, i) < x + 1 implies #[trigger] canvas_texels(
                    canvas,
                )[i] == background.channels()[i % 4] by {
                    if texel_x(w, i) == x {
                        lemma_texel_in_image(w, h, i);
                    }
                }
            }
            x += 1;
        }
        proof {
            assert forall|i: int| 0 <= i < len implies canvas_texels(canvas)[i]
                == background.channels()[i % 4] by {
                assert(0 < w) by (nonlinear_arith)
                    requires
                        0 <= w,
                        0 < 4 * w * h,
                ;
                lemma_texel_in_image(w, h, i);
            }
            assert(canvas_texels(canvas) =~= filled(w, h, background));
        }
        let mut k: usize = 0;
        while k < points.len()
            invariant
                0 <= k <= points@.len(),
                w == width,
                canvas_size(canvas) == (width, height),
                forall|j: int|
                    0 <= j < points@.len() ==> points@[j].0 < width && points@[j].1 < height,
                canvas_texels(canvas) == stamped(
                    filled(w, height as int, background),
                    w,
                    points@.take(k as int),
                    ink,
                ),
            decreases points@.len() - k,
        {
            let p = points[k];
            canvas_put_pixel(&mut canvas, p.0, p.1, ink);
            proof {
                let next = points@.take(k as int + 1);
                assert(next.drop_last() =~= points@.take(k as int));
                assert(next.last() == p);
            }
            k += 1;
        }
        proof {
            assert(points@.take(points@.len() as int) =~= points@);
            lemma_stamped_len(filled(w, height as int, background), w, points@, ink);
        }
        Raster { width, height, rgba: canvas_into_raw(canvas) }
    }
}

/// Stamping keeps the length of an image.
pub proof fn lemma_stamped_len(s: Seq<u8>, width: int, points: Seq<(u32, u32)>, colour: Rgba8)
    ensures
        stamped(s, width, points, colour).len() == s.len(),
    decreases points.len(),
{
    if points.len() > 0 {
        lemma_stamped_len(s, width, points.drop_last(), colour);
    }
}

/// Every byte of an image belongs to a texel inside the image.
pub proof fn lemma_texel_in_image(width: int, height: int, i: int)
    requires
        0 < width,
        0 <= height,
        0 <= i < 4 * width * height,
    ensures
        0 <= texel_x(width, i) < width,
        0 <= texel_y(width, i) < height,
        texel_base(width, texel_x(width, i), texel_y(width, i)) <= i < texel_base(
            width,
            texel_x(width, i),
            texel_y(width, i),
        ) + 4,
{
    let p = i / 4;
    assert(4 * width * height == 4 * (width * height)) by (nonlinear_arith);
    assert(0 <= p < width * height);
    lemma_fundamental_div_mod(p, width);
    lemma_mod_bound(p, width);
    assert(0 <= p / width) by (nonlinear_arith)
        requires
            0 <= p,
            0 < width,
    ;
    assert(p / width < height) by (nonlinear_arith)
        requires
            p == width * (p / width) + p % width,
            0 <= p % width,
            p < width * height,
            0 < width,
    ;
    assert(width * (p / width) == (p / width) * width) by (nonlinear_arith);
}

/// The texel of a byte index that lies in the four bytes of texel
/// `(x, y)` is `(x, y)`.
pub proof fn lemma_texel_of_base(width: int, x: int, y: int, j: int)
    requires
        0 <= x < width,
        0 <= y,
        0 <= j < 4,
    ensures
        texel_x(width, texel_base(width, x, y) + j) == x,
        texel_y(width, texel_base(width, x, y) + j) == y,
        (texel_base(width, x, y) + j) % 4 == j,
{
    let i = texel_base(width, x, y) + j;
    assert(i / 4 == y * width + x);
    lemma_fundamental_div_mod_converse(y * width + x, width, y, x);
}

/// After stamping, a texel inside the image holds the ink if it is one of
/// the points and is as it was before if it is not.
pub proof fn lemma_stamped_texel(
    s: Seq<u8>,
    width: int,
    height: int,
    points: Seq<(u32, u32)>,
    colour: Rgba8,
    x: u32,
    y: u32,
)
    requires
        s.len() == 4 * width * height,
        0 <= x < width,
        0 <= y < height,
        forall|k: int| 0 <= k < points.len() ==> points[k].0 < width && points[k].1 < height,
    ensures
        stamped(s, width, points, colour).len() == s.len(),
        0 <= texel_base(width, x as int, y as int),
        texel_base(width, x as int, y as int) + 4 <= s.len(),
        forall|j: int|
            0 <= j < 4 ==> #[trigger] stamped(s, width, points, colour)[texel_base(width, x as int, y as int)
                + j] == if (exists|k: int|
                0 <= k < points.len() && points[k] == (x, y)) {
                colour.channels()[j]
            } else {
                s[texel_base(width, x as int, y as int) + j]
            },
    decreases points.len(),
{
    let base = texel_base(width, x as int, y as int);
    assert(0 <= base && base + 4 <= s.len()) by (nonlinear_arith)
        requires
            base == (y * width + x) * 4,
            s.len() == 4 * width * height,
            0 <= x < width,
            0 <= y < height,
    ;
    if points.len() == 0 {
    } else {
        let rest = points.drop_last();
        let last = points.last();
        lemma_stamped_texel(s, width, height, rest, colour, x, y);
        let prev = stamped(s, width, rest, colour);
        let lb = texel_base(width, last.0 as int, last.1 as int);
        let hit_rest = exists|k: int| 0 <= k < rest.len() && rest[k] == (x, y);
        let hit = exists|k: int| 0 <= k < points.len() && points[k] == (x, y);
        assert(points[points.len() - 1] == last);
        if hit_rest {
            let k = choose|k: int| 0 <= k < rest.len() && rest[k] == (x, y);
            assert(points[k] == rest[k]);
            assert(hit);
        }
        if last == (x, y) {
            assert(hit);
            assert(lb == base);
        } else {
            if hit {
                let k = choose|k: int| 0 <= k < points.len() && points[k] == (x, y);
                assert(k < rest.len());
                assert(rest[k] == points[k]);
                assert(hit_rest);
            }
            assert forall|j: int| 0 <= j < 4 implies #[trigger] stamped(
                s,
                width,
                points,
                colour,
            )[base + j] == prev[base + j] by {
                if lb <= base + j < lb + 4 {
                    let d = base + j - lb;
                    lemma_texel_of_base(width, x as int, y as int, j);
                    lemma_texel_of_base(width, last.0 as int, last.1 as int, d);
                    assert(false);
                }
            }
        }
    }
}

/// How a texture is sampled between texels.
#[derive(Clone, Copy, Debug, PartialEq, Eq, Structural)]
pub enum FilterMode {
    Linear,
    Nearest,
}

/// Where the texels of a texture come from.
#[derive(Debug)]
pub enum TextureSource {
    /// An image that ships with the program, by its file name; the host
    /// decodes it.
    Asset(String),
    /// Texels given outright.
    Painted(Raster),
}

/// A texture to create: its texels and how it is sampled. Without a
/// filter the sampler keeps the device's own choice.
#[derive(Debug)]
pub struct Texture {
    pub label: String,
    pub source: TextureSource,
    pub filter: Option<FilterMode>,
}

} // verus!
