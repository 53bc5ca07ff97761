use vstd::prelude::*;
use vstd::arithmetic::div_mod::{
    lemma_div_pos_is_pos, lemma_fundamental_div_mod, lemma_mod_division_less_than_divisor,
    lemma_multiply_divide_lt,
};
use crate::Rgb;

verus! {

/// Construction-time configuration failure: rendering needs an image of at
/// least one pixel in each direction.
#[derive(Clone, Copy, PartialEq, Eq, Structural, Debug)]
pub enum ConfigError {
    NonPositiveDimensions,
    RaggedRows,
}

/// A row-major grid of 8-bit RGB pixels, the artifact a render produces and
/// hands to an external encoder.
pub struct PixelBuffer {
    width: u32,
    height: u32,
    data: Vec<Rgb>,
}

/// The all-black pixel a fresh buffer is filled with.
pub open spec fn black_pixel() -> Rgb {
    Rgb { r: 0, g: 0, b: 0 }
}

impl PixelBuffer {
    /// The pixels in row-major order: pixel (row, col) sits at index
    /// `row * width + col`.
    pub closed spec fn pixels(self) -> Seq<Rgb> {
        self.data@
    }

    pub closed spec fn width_spec(self) -> u32 {
        self.width
    }

    pub closed spec fn height_spec(self) -> u32 {
        self.height
    }

    /// A buffer is well formed when it holds exactly one pixel per
    /// coordinate of a `width` by `height` image.
    pub open spec fn wf(self) -> bool {
        self.pixels().len() == self.width_spec() * self.height_spec()
    }

    /// Position of pixel (row, col) in the row-major pixel sequence.
    pub open spec fn index_of(self, row: int, col: int) -> int {
        row * self.width_spec() + col
    }

    /// Allocates an all-black `width` by `height` buffer; fails exactly on a
    /// zero dimension.
    pub fn new(width: u32, height: u32) -> (r: Result<PixelBuffer, ConfigError>)
        requires
            width as int * height as int <= usize::MAX as int,
        ensures
            r is Ok <==> width > 0 && height > 0,
            (match r {
                Ok(buf) => {
                    &&& buf.wf()
                    &&& buf.width_spec() == width
                    &&& buf.height_spec() == height
                    &&& buf.pixels() == Seq::new((width * height) as nat, |i: int| black_pixel())
                },
                Err(e) => e == ConfigError::NonPositiveDimensions,
            }),
    {
        if width == 0 || height == 0 {
            return Err(ConfigError::NonPositiveDimensions);
        }
        let n: usize = (width as usize) * (height as usize);
        let mut data: Vec<Rgb> = Vec::new();
        let mut i: usize = 0;
        while i < n
            invariant
                i <= n,
                data@ =~= Seq::new(i as nat, |j: int| black_pixel()),
            decreases n - i,
        {
            data.push(Rgb { r: 0, g: 0, b: 0 });
            i = i + 1;
        }
        assert(data@ =~= Seq::new(n as nat, |j: int| black_pixel()));
        Ok(PixelBuffer { width, height, data })
    }

    pub fn width(&self) -> (w: u32)
        ensures
            w == self.width_spec(),
    {
        self.width
    }

    pub fn height(&self) -> (h: u32)
        ensures
            h == self.height_spec(),
    {
        self.height
    }

    /// Overwrites pixel (row, col) and nothing else.
    pub fn set_pixel(&mut self, row: u32, col: u32, value: Rgb)
        requires
            old(self).wf(),
            row < old(self).height_spec(),
            col < old(self).width_spec(),
        ensures
            final(self).wf(),
            final(self).width_spec() == old(self).width_spec(),
            final(self).height_spec() == old(self).height_spec(),
            final(self).pixels() == old(self).pixels().update(
                old(self).index_of(row as int, col as int),
                value,
            ),
    {
        let n: usize = self.data.len();
        proof {
            lemma_row_major_index_in_bounds(
                row as int,
                col as int,
                self.width as int,
                self.height as int,
            );
            assert(row as int * self.width as int + (col as int) < n as int);
        }
        let idx: usize = (row as usize) * (self.width as usize) + (col as usize);
        self.data.set(idx, value);
    }

    /// Reads pixel (row, col).
    pub fn get_pixel(&self, row: u32, col: u32) -> (p: Rgb)
        requires
            self.wf(),
            row < self.height_spec(),
            col < self.width_spec(),
        ensures
            p == self.pixels()[self.index_of(row as int, col as int)],
    {
        let n: usize = self.data.len();
        proof {
            lemma_row_major_index_in_bounds(
                row as int,
                col as int,
                self.width as int,
                self.height as int,
            );
            assert(row as int * self.width as int + (col as int) < n as int);
        }
        let idx: usize = (row as usize) * (self.width as usize) + (col as usize);
        self.data[idx]
    }

    /// Assembles a buffer from per-row pixel vectors, as the parallel
    /// scheduler produces them; succeeds exactly when the rows form a
    /// nonempty rectangle of the given width.
    pub fn from_rows(width: u32, rows: &Vec<Vec<Rgb>>) -> (r: Result<PixelBuffer, ConfigError>)
        requires
            rows@.len() <= u32::MAX,
        ensures
            r is Ok <==> width > 0 && rows@.len() > 0 && (forall|i: int|
                0 <= i < rows@.len() ==> rows@[i]@.len() == width),
            (match r {
                Ok(buf) => {
                    &&& buf.wf()
                    &&& buf.width_spec() == width
                    &&& buf.height_spec() == rows@.len()
                    &&& forall|i: int, j: int|
                        0 <= i < rows@.len() && 0 <= j < width
                            ==> buf.pixels()[i * width + j] == rows@[i]@[j]
                    &&& forall|n: int|
                        0 <= n < buf.pixels().len()
                            ==> #[trigger] buf.pixels()[n] == rows@[n / width as int]@[n
                            % width as int]
                },
                Err(e) => e == (if width == 0 || rows@.len() == 0 {
                    ConfigError::NonPositiveDimensions
                } else {
                    ConfigError::RaggedRows
                }),
            }),
    {
        let height: usize = rows.len();
        if width == 0 || height == 0 {
            return Err(ConfigError::NonPositiveDimensions);
        }
        let mut i: usize = 0;
        while i < height
            invariant
                i <= height,
                height == rows@.len(),
                width > 0,
                height > 0,
                forall|k: int| 0 <= k < i ==> rows@[k]@.len() == width,
            decreases height - i,
        {
            if rows[i].len() != width as usize {
                return Err(ConfigError::RaggedRows);
            }
            i = i + 1;
        }
        let mut data: Vec<Rgb> = Vec::new();
        let mut row: usize = 0;
        while row < height
            invariant
                row <= height,
                height == rows@.len(),
                forall|k: int| 0 <= k < height ==> rows@[k]@.len() == width,
                data@.len() == row * width as int,
                forall|k: int, j: int|
                    0 <= k < row && 0 <= j < width
                        ==> data@[k * width as int + j] == rows@[k]@[j],
            decreases height - row,
        {
            let mut col: usize = 0;
            while col < width as usize
                invariant
                    col <= width,
                    row < height,
                    height == rows@.len(),
                    forall|k: int| 0 <= k < height ==> rows@[k]@.len() == width,
                    data@.len() == row * width as int + col,
                    forall|k: int, j: int|
                        0 <= k < row && 0 <= j < width
                            ==> data@[k * width as int + j] == rows@[k]@[j],
                    forall|j: int|
                        0 <= j < col ==> data@[row * width as int + j] == rows@[row as int]@[j],
                decreases width - col,
            {
                let ghost pre = data@;
                data.push(rows[row][col]);
                proof {
                    assert forall|k: int, j: int|
                        0 <= k < row && 0 <= j < width implies data@[k * width as int + j]
                            == rows@[k]@[j] by {
                        lemma_row_major_index_in_bounds(k, j, width as int, row as int);
                        assert(data@[k * width as int + j] == pre[k * width as int + j]);
                    }
                    assert(data@[row * width as int + col] == rows@[row as int]@[col as int]);
                }
                col = col + 1;
            }
            proof {
                lemma_row_major_step_bounds(row as int, width as int, height as int);
                assert forall|k: int, j: int|
                    0 <= k < row + 1 && 0 <= j < width implies data@[k * width as int + j]
                        == rows@[k]@[j] by {
                    if k == row {
                        assert(data@[row * width as int + j] == rows@[row as int]@[j]);
                    }
                }
            }
            row = row + 1;
        }
        proof {
            assert(height as int * width as int == width as int * height as int)
                by (nonlinear_arith);
            assert forall|n: int| 0 <= n < data@.len() implies #[trigger] data@[n] == rows@[n
                / width as int]@[n % width as int] by {
                let w = width as int;
                let i = n / w;
                let j = n % w;
                lemma_fundamental_div_mod(n, w);
                lemma_mod_division_less_than_divisor(n, w);
                lemma_div_pos_is_pos(n, w);
                lemma_multiply_divide_lt(n, w, height as int);
                assert(w * i == i * w) by (nonlinear_arith);
                assert(data@[i * w + j] == rows@[i]@[j]);
            }
        }
        Ok(PixelBuffer { width, height: height as u32, data })
    }

    /// Flattens the buffer for an encoder: three bytes per pixel, in pixel
    /// order, channel order red, green, blue.
    pub fn as_bytes(&self) -> (bytes: Vec<u8>)
        ensures
            bytes@.len() == 3 * self.pixels().len(),
            forall|i: int|
                0 <= i < self.pixels().len() ==> {
                    &&& bytes@[3 * i] == self.pixels()[i].r
                    &&& bytes@[3 * i + 1] == self.pixels()[i].g
                    &&& bytes@[3 * i + 2] == self.pixels()[i].b
                },
    {
        let mut bytes: Vec<u8> = Vec::new();
        let mut i: usize = 0;
        while i < self.data.len()
            invariant
                i <= self.data.len(),
                bytes@.len() == 3 * i,
                forall|j: int|
                    0 <= j < i ==> {
                        &&& bytes@[3 * j] == self.pixels()[j].r
                        &&& bytes@[3 * j + 1] == self.pixels()[j].g
                        &&& bytes@[3 * j + 2] == self.pixels()[j].b
                    },
            decreases self.data.len() - i,
        {
            let p = self.data[i];
            bytes.push(p.r);
            bytes.push(p.g);
            bytes.push(p.b);
            i = i + 1;
        }
        bytes
    }
}

/// Appending one full row of `width` pixels moves the end of the row-major
/// sequence from `row * width` to `(row + 1) * width`, which stays within
/// the image.
proof fn lemma_row_major_step_bounds(row: int, width: int, height: int)
    requires
        0 <= row < height,
        0 <= width,
    ensures
        row * width + width == (row + 1) * width,
        (row + 1) * width <= width * height,
{
    assert(row * width + width == (row + 1) * width) by (nonlinear_arith);
    assert((row + 1) * width <= width * height) by (nonlinear_arith)
        requires
            0 <= row < height,
            0 <= width,
    ;
}

/// Distinct coordinates inside the image map to positions inside the
/// row-major pixel sequence.
proof fn lemma_row_major_index_in_bounds(row: int, col: int, width: int, height: int)
    requires
        0 <= row < height,
        0 <= col < width,
    ensures
        0 <= row * width + col < width * height,
        row * width + col < height * width,
{
    assert(0 <= row * width + col < width * height) by (nonlinear_arith)
        requires
            0 <= row < height,
            0 <= col < width,
    ;
    assert(row * width + col < height * width) by (nonlinear_arith)
        requires
            0 <= row < height,
            0 <= col < width,
    ;
}

} // verus!
