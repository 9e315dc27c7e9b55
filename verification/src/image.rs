//! The bitmap itself: dimensions and a row-major buffer of packed 32-bit
//! pixels, owned by the image for its whole life.

use vstd::prelude::*;

use vstd::slice::slice_to_vec;

use crate::error::ImageError;
use crate::grid::{lemma_cell_position, lemma_position_cell};

verus! {

/// The largest width or height that the pixel engine's signed 32-bit
/// integer can carry.
pub const MAX_DIMENSION: usize = 0x7fff_ffff;

/// The mathematical content of an image.
pub struct ImageView {
    pub width: nat,
    pub height: nat,
    /// Row-major: the pixel in column `x` of row `y` is `pixels[y * width + x]`.
    pub pixels: Seq<u32>,
}

impl ImageView {
    /// What holds of every live image: both dimensions are at least one
    /// and fit the engine's integer, and the buffer holds exactly
    /// `width * height` pixels, a count that fits a `usize`.
    pub open spec fn wf(self) -> bool {
        &&& 1 <= self.width <= MAX_DIMENSION
        &&& 1 <= self.height <= MAX_DIMENSION
        &&& self.width * self.height <= usize::MAX
        &&& self.pixels.len() == self.width * self.height
    }

    /// The pixel in column `x` of row `y`.
    pub open spec fn at(self, x: int, y: int) -> u32 {
        self.pixels[y * self.width + x]
    }
}

/// A `width` by `height` buffer in which every pixel is zero.
pub open spec fn blank(width: nat, height: nat) -> ImageView {
    ImageView { width, height, pixels: Seq::new(width * height, |i: int| 0u32) }
}

/// Whether an image of these dimensions can exist: neither is zero, each
/// fits the engine's integer, and the pixel count fits a `usize`.
pub open spec fn dimension_error(width: nat, height: nat) -> Option<ImageError> {
    if width == 0 || height == 0 {
        Some(ImageError::InvalidDimensions)
    } else if width > MAX_DIMENSION || height > MAX_DIMENSION || width * height > usize::MAX {
        Some(ImageError::DimensionOverflow)
    } else {
        None
    }
}

/// What making a new image gives: a blank one, if the dimensions are
/// acceptable.
pub open spec fn created(width: nat, height: nat) -> Result<ImageView, ImageError> {
    match dimension_error(width, height) {
        Some(e) => Err(e),
        None => Ok(blank(width, height)),
    }
}

/// Why `supplied` pixels cannot make an image of these dimensions, if they
/// cannot: there are too few of them, or else the dimensions themselves
/// are refused.
pub open spec fn from_pixels_error(width: nat, height: nat, supplied: nat) -> Option<ImageError> {
    if supplied < width * height {
        Some(ImageError::InsufficientPixelData)
    } else {
        dimension_error(width, height)
    }
}

/// What building an image from supplied pixels gives: the first
/// `width * height` of them, once there are enough and the dimensions are
/// acceptable.
pub open spec fn from_pixels(width: nat, height: nat, data: Seq<u32>) -> Result<
    ImageView,
    ImageError,
> {
    match from_pixels_error(width, height, data.len()) {
        Some(e) => Err(e),
        None => Ok(ImageView { width, height, pixels: data.subrange(0, (width * height) as int) }),
    }
}

/// A flattened canvas as the renderer hands it over: the dimensions it
/// reports, and the pixels row by row.
#[derive(Debug)]
pub struct FlatCanvas {
    pub width: usize,
    pub height: usize,
    pub pixels: Vec<u32>,
}

/// What adopting the renderer's answer gives: its failure is passed on
/// with the message it left, its canvas is read like supplied pixels.
pub open spec fn from_canvas(flattened: Result<FlatCanvas, String>) -> Result<
    ImageView,
    ImageError,
> {
    match flattened {
        Err(message) => Err(ImageError::EngineError(message)),
        Ok(canvas) => from_pixels(canvas.width as nat, canvas.height as nat, canvas.pixels@),
    }
}

/// One of the four bytes of a pixel, the least significant being byte 0.
pub open spec fn pixel_byte(pixel: u32, index: int) -> u8 {
    ((pixel >> ((8 * index) as u32)) & 0xff) as u8
}

/// The pixels as a flat stream of bytes: four for each pixel, least
/// significant first, and nothing before, between or after them.
pub open spec fn raw_bytes(pixels: Seq<u32>) -> Seq<u8> {
    Seq::new(4 * pixels.len(), |k: int| pixel_byte(pixels[k / 4], k % 4))
}

/// The pixel that a region with its corner at `(x, y)` of `source` shows in
/// its own column `column` and row `row`: the source pixel under it, or
/// zero where the region reaches past the source.
pub open spec fn region_pixel(source: ImageView, x: int, y: int, column: int, row: int) -> u32 {
    if 0 <= x + column < source.width && 0 <= y + row < source.height {
        source.at(x + column, y + row)
    } else {
        0
    }
}

/// The `width` by `height` region of `source` whose top-left corner lies at
/// `(x, y)`; the corner may lie outside the source on any side.
pub open spec fn region(source: ImageView, x: int, y: int, width: nat, height: nat) -> ImageView {
    ImageView {
        width,
        height,
        pixels: Seq::new(
            width * height,
            |k: int| region_pixel(source, x, y, k % (width as int), k / (width as int)),
        ),
    }
}

/// What extracting a region gives: the region, if its size is that of an
/// image.
pub open spec fn subimage(source: ImageView, x: int, y: int, width: nat, height: nat) -> Result<
    ImageView,
    ImageError,
> {
    match dimension_error(width, height) {
        Some(e) => Err(e),
        None => Ok(region(source, x, y, width, height)),
    }
}

/// What cropping gives: offsets and sizes must fit the engine's integer,
/// and the size must be that of an image.
pub open spec fn cropped(source: ImageView, x: nat, y: nat, width: nat, height: nat) -> Result<
    ImageView,
    ImageError,
> {
    if x > MAX_DIMENSION || y > MAX_DIMENSION || width > MAX_DIMENSION || height
        > MAX_DIMENSION {
        Err(ImageError::DimensionOverflow)
    } else {
        subimage(source, x as int, y as int, width, height)
    }
}

/// A new image of acceptable dimensions has exactly those dimensions, and
/// one pixel for each cell.
pub proof fn lemma_created_has_dimensions(width: nat, height: nat)
    requires
        dimension_error(width, height) is None,
    ensures
        created(width, height) matches Ok(image) && {
            &&& image.wf()
            &&& image.width == width
            &&& image.height == height
            &&& image.pixels.len() == width * height
        },
{
}

/// A width or a height of zero is refused as invalid, whatever the other
/// dimension is.
pub proof fn lemma_zero_dimension_refused(width: nat, height: nat)
    requires
        width == 0 || height == 0,
    ensures
        created(width, height) == Err::<ImageView, ImageError>(ImageError::InvalidDimensions),
{
}

/// For acceptable dimensions, supplied pixels are refused exactly when
/// there are fewer than `width * height` of them; otherwise the image
/// holds the first `width * height`, each in its place.
pub proof fn lemma_from_pixels_takes_front(width: nat, height: nat, data: Seq<u32>)
    requires
        dimension_error(width, height) is None,
    ensures
        from_pixels(width, height, data) is Err <==> data.len() < width * height,
        from_pixels(width, height, data) matches Ok(image) ==> {
            &&& image.wf()
            &&& image.width == width
            &&& image.height == height
            &&& image.pixels == data.take((width * height) as int)
            &&& forall|i: int| 0 <= i < width * height ==> image.pixels[i] == data[i]
        },
{
}

/// The raw bytes lose nothing: four bytes stand for each pixel, in the
/// order of the pixels, and put together again, least significant first,
/// they give the pixel back.
pub proof fn lemma_raw_bytes_keep_pixels(pixels: Seq<u32>, k: int)
    requires
        0 <= k < pixels.len(),
    ensures
        raw_bytes(pixels).len() == 4 * pixels.len(),
        pixels[k] == (raw_bytes(pixels)[4 * k] as u32) | (raw_bytes(pixels)[4 * k + 1] as u32) << 8
            | (raw_bytes(pixels)[4 * k + 2] as u32) << 16 | (raw_bytes(pixels)[4 * k + 3] as u32)
            << 24,
{
    let p = pixels[k];
    let b0 = pixel_byte(p, 0);
    let b1 = pixel_byte(p, 1);
    let b2 = pixel_byte(p, 2);
    let b3 = pixel_byte(p, 3);
    assert(p == (b0 as u32) | (b1 as u32) << 8 | (b2 as u32) << 16 | (b3 as u32) << 24)
        by (bit_vector)
        requires
            b0 == ((p >> 0u32) & 0xff) as u8,
            b1 == ((p >> 8u32) & 0xff) as u8,
            b2 == ((p >> 16u32) & 0xff) as u8,
            b3 == ((p >> 24u32) & 0xff) as u8,
    ;
}

/// Inside a region, the pixel in a given column and row is the one that
/// `region_pixel` names.
pub proof fn lemma_region_at(
    source: ImageView,
    x: int,
    y: int,
    width: nat,
    height: nat,
    column: int,
    row: int,
)
    requires
        0 <= column < width,
        0 <= row < height,
    ensures
        region(source, x, y, width, height).at(column, row) == region_pixel(
            source,
            x,
            y,
            column,
            row,
        ),
{
    lemma_cell_position(width as int, height as int, column, row);
}

/// Cropping an image at its own corner to its own size gives its pixels
/// back unchanged.
pub proof fn lemma_crop_whole(image: ImageView)
    requires
        image.wf(),
    ensures
        cropped(image, 0, 0, image.width, image.height) == Ok::<ImageView, ImageError>(image),
{
    let whole = region(image, 0, 0, image.width, image.height);
    assert forall|k: int| 0 <= k < image.pixels.len() implies whole.pixels[k]
        == image.pixels[k] by {
        lemma_position_cell(image.width as int, image.height as int, k);
    }
    assert(whole.pixels =~= image.pixels);
}

/// An image: its dimensions and its pixels.
#[derive(Debug)]
pub struct Image {
    width: usize,
    height: usize,
    pixels: Vec<u32>,
}

impl View for Image {
    type V = ImageView;

    closed spec fn view(&self) -> ImageView {
        ImageView { width: self.width as nat, height: self.height as nat, pixels: self.pixels@ }
    }
}

/// The view of a fallible result that carries an image.
pub open spec fn result_view(r: Result<Image, ImageError>) -> Result<ImageView, ImageError> {
    match r {
        Ok(image) => Ok(image@),
        Err(e) => Err(e),
    }
}

impl Image {
    #[verifier::type_invariant]
    closed spec fn inv(&self) -> bool {
        self@.wf()
    }

    /// Checks a pair of dimensions and gives the pixel count they call for.
    fn checked_area(width: usize, height: usize) -> (r: Result<usize, ImageError>)
        ensures
            match dimension_error(width as nat, height as nat) {
                Some(e) => r == Err::<usize, ImageError>(e),
                None => r == Ok::<usize, ImageError>((width * height) as usize),
            },
    {
        if width == 0 || height == 0 {
            return Err(ImageError::InvalidDimensions);
        }
        if width > MAX_DIMENSION || height > MAX_DIMENSION {
            return Err(ImageError::DimensionOverflow);
        }
        match width.checked_mul(height) {
            Some(count) => Ok(count),
            None => Err(ImageError::DimensionOverflow),
        }
    }

    /// A new image of the given size in which every pixel is zero.
    pub fn new(width: usize, height: usize) -> (r: Result<Image, ImageError>)
        ensures
            result_view(r) == created(width as nat, height as nat),
            r matches Ok(image) ==> image@.wf(),
    {
        let count = match Self::checked_area(width, height) {
            Ok(count) => count,
            Err(e) => { return Err(e); },
        };
        let pixels: Vec<u32> = vec![0u32; count];
        assert(pixels@ =~= blank(width as nat, height as nat).pixels);
        Ok(Image { width, height, pixels })
    }

    /// Checks dimensions against a number of supplied pixels and gives the
    /// pixel count that the dimensions call for.
    fn required_pixels(width: usize, height: usize, supplied: usize) -> (r: Result<
        usize,
        ImageError,
    >)
        ensures
            match from_pixels_error(width as nat, height as nat, supplied as nat) {
                Some(e) => r == Err::<usize, ImageError>(e),
                None => r == Ok::<usize, ImageError>((width * height) as usize),
            },
    {
        match width.checked_mul(height) {
            Some(count) => {
                if supplied < count {
                    return Err(ImageError::InsufficientPixelData);
                }
            },
            None => { return Err(ImageError::InsufficientPixelData); },
        }
        Self::checked_area(width, height)
    }

    /// A new image that holds the first `width * height` of `pixels`; what
    /// follows them is ignored.
    pub fn new_from_pixels(width: usize, height: usize, pixels: &[u32]) -> (r: Result<
        Image,
        ImageError,
    >)
        ensures
            result_view(r) == from_pixels(width as nat, height as nat, pixels@),
            r matches Ok(image) ==> image@.wf(),
    {
        let count = match Self::required_pixels(width, height, pixels.len()) {
            Ok(count) => count,
            Err(e) => { return Err(e); },
        };
        let copied = slice_to_vec(&pixels[0..count]);
        Ok(Image { width, height, pixels: copied })
    }

    /// A new image that takes over the first `width * height` of `pixels`
    /// without copying them.
    pub(crate) fn adopt(width: usize, height: usize, pixels: Vec<u32>) -> (r: Result<
        Image,
        ImageError,
    >)
        ensures
            result_view(r) == from_pixels(width as nat, height as nat, pixels@),
            r matches Ok(image) ==> image@.wf(),
    {
        let count = match Self::required_pixels(width, height, pixels.len()) {
            Ok(count) => count,
            Err(e) => { return Err(e); },
        };
        let mut pixels = pixels;
        pixels.truncate(count);
        Ok(Image { width, height, pixels })
    }

    /// The image that the canvas renderer produced by flattening a canvas:
    /// `Ok` with what it handed over, or `Err` with the message it left on
    /// failing.
    pub fn new_from_canvas_state(flattened: Result<FlatCanvas, String>) -> (r: Result<
        Image,
        ImageError,
    >)
        ensures
            result_view(r) == from_canvas(flattened),
            r matches Ok(image) ==> image@.wf(),
    {
        match flattened {
            Err(message) => Err(ImageError::EngineError(message)),
            Ok(canvas) => Self::adopt(canvas.width, canvas.height, canvas.pixels),
        }
    }

    /// A new image that shows the `width` by `height` region of `self`
    /// whose top-left corner lies at `(x, y)`. Where the region reaches
    /// past `self`, on any side, its pixels are zero.
    pub fn subimage(&self, x: i32, y: i32, width: usize, height: usize) -> (r: Result<
        Image,
        ImageError,
    >)
        ensures
            result_view(r) == subimage(self@, x as int, y as int, width as nat, height as nat),
            r matches Ok(image) ==> image@.wf(),
    {
        proof {
            use_type_invariant(self);
        }
        let count = match Self::checked_area(width, height) {
            Ok(count) => count,
            Err(e) => { return Err(e); },
        };
        let held = self.pixels.len();
        let mut out: Vec<u32> = Vec::with_capacity(count);
        let mut row: usize = 0;
        while row < height
            invariant
                self@.wf(),
                held == self.width * self.height,
                1 <= width <= MAX_DIMENSION,
                1 <= height <= MAX_DIMENSION,
                row <= height,
                out@.len() == row * width,
                forall|k: int|
                    0 <= k < out@.len() ==> out@[k] == region_pixel(
                        self@,
                        x as int,
                        y as int,
                        k % (width as int),
                        k / (width as int),
                    ),
            decreases height - row,
        {
            let source_row: i64 = y as i64 + row as i64;
            let row_inside = 0 <= source_row && source_row < self.height as i64;
            let mut column: usize = 0;
            while column < width
                invariant
                    self@.wf(),
                    held == self.width * self.height,
                    1 <= width <= MAX_DIMENSION,
                    1 <= height <= MAX_DIMENSION,
                    row < height,
                    column <= width,
                    source_row == y + row,
                    row_inside == (0 <= source_row < self@.height),
                    out@.len() == row * width + column,
                    forall|k: int|
                        0 <= k < out@.len() ==> out@[k] == region_pixel(
                            self@,
                            x as int,
                            y as int,
                            k % (width as int),
                            k / (width as int),
                        ),
                decreases width - column,
            {
                let source_column: i64 = x as i64 + column as i64;
                proof {
                    lemma_cell_position(width as int, height as int, column as int, row as int);
                }
                let pixel = if row_inside && 0 <= source_column && source_column
                    < self.width as i64 {
                    let from_row = source_row as usize;
                    let from_column = source_column as usize;
                    proof {
                        lemma_cell_position(
                            self.width as int,
                            self.height as int,
                            from_column as int,
                            from_row as int,
                        );
                        assert(0 <= from_row * self.width) by (nonlinear_arith);
                    }
                    self.pixels[from_row * self.width + from_column]
                } else {
                    0
                };
                out.push(pixel);
                column += 1;
            }
            row += 1;
            assert(row * width == (row - 1) * width + width) by (nonlinear_arith);
        }
        assert(out@.len() == width * height) by (nonlinear_arith)
            requires
                out@.len() == row * width,
                row == height,
        ;
        assert(out@ =~= region(
            self@,
            x as int,
            y as int,
            width as nat,
            height as nat,
        ).pixels);
        Ok(Image { width, height, pixels: out })
    }

    /// A new image that shows the `width` by `height` region of `self`
    /// whose top-left corner lies at `(x, y)`. Where the region reaches
    /// past the right or bottom edge of `self`, its pixels are zero.
    pub fn cropped(&self, x: usize, y: usize, width: usize, height: usize) -> (r: Result<
        Image,
        ImageError,
    >)
        ensures
            result_view(r) == cropped(self@, x as nat, y as nat, width as nat, height as nat),
            r matches Ok(image) ==> image@.wf(),
    {
        if x > MAX_DIMENSION || y > MAX_DIMENSION || width > MAX_DIMENSION || height
            > MAX_DIMENSION {
            return Err(ImageError::DimensionOverflow);
        }
        self.subimage(x as i32, y as i32, width, height)
    }

    /// The pixels as raw bytes, row by row, without a header: four bytes
    /// for each pixel, least significant first.
    pub fn dump(&self) -> (bytes: Vec<u8>)
        ensures
            bytes@ == raw_bytes(self@.pixels),
            bytes@.len() == 4 * (self@.width * self@.height),
    {
        proof {
            use_type_invariant(self);
        }
        let count = self.pixels.len();
        let mut bytes: Vec<u8> = Vec::new();
        let mut i: usize = 0;
        while i < count
            invariant
                count == self.pixels@.len(),
                i <= count,
                bytes@.len() == 4 * i,
                forall|k: int|
                    0 <= k < bytes@.len() ==> bytes@[k] == pixel_byte(self.pixels@[k / 4], k % 4),
            decreases count - i,
        {
            let pixel = self.pixels[i];
            let b0 = pixel & 0xff;
            let b1 = (pixel >> 8) & 0xff;
            let b2 = (pixel >> 16) & 0xff;
            let b3 = (pixel >> 24) & 0xff;
            assert(b0 <= 0xff && b1 <= 0xff && b2 <= 0xff && b3 <= 0xff) by (bit_vector)
                requires
                    b0 == pixel & 0xff,
                    b1 == (pixel >> 8) & 0xff,
                    b2 == (pixel >> 16) & 0xff,
                    b3 == (pixel >> 24) & 0xff,
            ;
            assert(b0 == pixel >> 0 & 0xff) by (bit_vector)
                requires
                    b0 == pixel & 0xff,
            ;
            bytes.push(b0 as u8);
            bytes.push(b1 as u8);
            bytes.push(b2 as u8);
            bytes.push(b3 as u8);
            i += 1;
        }
        assert(bytes@ =~= raw_bytes(self@.pixels));
        bytes
    }

    /// Takes `pixels` as the new content; the dimensions stay.
    pub(crate) fn store(&mut self, pixels: Vec<u32>)
        requires
            pixels@.len() == old(self)@.width * old(self)@.height,
        ensures
            final(self)@ == (ImageView {
                width: old(self)@.width,
                height: old(self)@.height,
                pixels: pixels@,
            }),
    {
        proof {
            use_type_invariant(&*self);
        }
        self.pixels = pixels;
    }

    /// The number of columns.
    pub fn width(&self) -> (w: usize)
        ensures
            w == self@.width,
            self@.wf(),
    {
        proof {
            use_type_invariant(self);
        }
        self.width
    }

    /// The number of rows.
    pub fn height(&self) -> (h: usize)
        ensures
            h == self@.height,
            self@.wf(),
    {
        proof {
            use_type_invariant(self);
        }
        self.height
    }

    /// The pixels, row by row.
    pub fn pixels(&self) -> (p: &[u32])
        ensures
            p@ == self@.pixels,
            self@.wf(),
    {
        proof {
            use_type_invariant(self);
        }
        self.pixels.as_slice()
    }
}

} // verus!
