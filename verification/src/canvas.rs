//! A rectangular buffer of pixels, addressed by column and row.

use vstd::prelude::*;

verus! {

/// A pixel was asked for at a place that the canvas does not have.
#[derive(Clone, Copy, Debug, PartialEq, Eq, Structural)]
pub struct OutOfBounds {
    /// The column that was asked for.
    pub x: usize,
    /// The row that was asked for.
    pub y: usize,
    /// The number of columns that the canvas has.
    pub width: usize,
    /// The number of rows that the canvas has.
    pub height: usize,
}

/// A canvas of `width` columns and `height` rows that owns one pixel of type
/// `P` for each place. The pixels are kept row by row: the view `canvas@` is
/// that sequence, and the pixel of column `x` and row `y` stands in it at
/// `y * width + x`. Writing replaces one pixel; the number of pixels never
/// changes.
#[derive(Debug)]
pub struct Canvas<P> {
    width: usize,
    height: usize,
    pixels: Vec<P>,
}

impl<P> View for Canvas<P> {
    type V = Seq<P>;

    closed spec fn view(&self) -> Seq<P> {
        self.pixels@
    }
}

/// In a grid of `width` columns, two places within a row's bounds that share
/// a row-major index are the same place.
pub proof fn lemma_row_major_index_is_injective(width: int, x1: int, y1: int, x2: int, y2: int)
    requires
        0 <= x1 < width,
        0 <= x2 < width,
        y1 * width + x1 == y2 * width + x2,
    ensures
        x1 == x2,
        y1 == y2,
{
    if y1 < y2 {
        assert((y2 - y1) * width >= width) by (nonlinear_arith)
            requires
                y2 - y1 >= 1,
                width > 0,
        ;
        assert((y2 - y1) * width == y2 * width - y1 * width) by (nonlinear_arith);
    } else if y2 < y1 {
        assert((y1 - y2) * width >= width) by (nonlinear_arith)
            requires
                y1 - y2 >= 1,
                width > 0,
        ;
        assert((y1 - y2) * width == y1 * width - y2 * width) by (nonlinear_arith);
    }
}

/// In a grid of `width` columns and `height` rows, the row-major index of a
/// place within bounds is an index into the `width * height` pixels.
pub proof fn lemma_row_major_index_in_range(width: int, height: int, x: int, y: int)
    requires
        0 <= x < width,
        0 <= y < height,
    ensures
        0 <= y * width + x < width * height,
{
    assert(y * width >= 0) by (nonlinear_arith)
        requires
            y >= 0,
            width > 0,
    ;
    assert((y + 1) * width <= height * width) by (nonlinear_arith)
        requires
            y + 1 <= height,
            width > 0,
    ;
    assert((y + 1) * width == y * width + width) by (nonlinear_arith);
    assert(height * width == width * height) by (nonlinear_arith);
}

/// Replacing the pixel of one place in a row-major grid changes the pixel
/// read at that place to the new one and leaves the pixel read at every
/// other place as it was.
pub proof fn lemma_update_changes_one_place<P>(
    width: int,
    height: int,
    pixels: Seq<P>,
    x: int,
    y: int,
    color: P,
)
    requires
        pixels.len() == width * height,
        0 <= x < width,
        0 <= y < height,
    ensures
        forall|i: int, j: int|
            0 <= i < width && 0 <= j < height ==> #[trigger] pixels.update(y * width + x, color)[j
                * width + i] == if i == x && j == y {
                color
            } else {
                pixels[j * width + i]
            },
{
    lemma_row_major_index_in_range(width, height, x, y);
    assert forall|i: int, j: int| 0 <= i < width && 0 <= j < height implies #[trigger] pixels.update(
        y * width + x,
        color,
    )[j * width + i] == if i == x && j == y {
        color
    } else {
        pixels[j * width + i]
    } by {
        lemma_row_major_index_in_range(width, height, i, j);
        if j * width + i == y * width + x {
            lemma_row_major_index_is_injective(width, i, j, x, y);
        }
    }
}

impl<P> Canvas<P> {
    /// The number of columns.
    pub closed spec fn spec_width(&self) -> usize {
        self.width
    }

    /// The number of rows.
    pub closed spec fn spec_height(&self) -> usize {
        self.height
    }

    /// There is exactly one pixel for each place. Every canvas that a
    /// program holds is well formed.
    #[verifier::type_invariant]
    pub open spec fn well_formed(&self) -> bool {
        self@.len() == self.spec_width() * self.spec_height()
    }

    /// Whether the canvas has a pixel at column `x`, row `y`.
    pub open spec fn contains(&self, x: int, y: int) -> bool {
        0 <= x < self.width() && 0 <= y < self.height()
    }

    /// Where in `self@` the pixel of column `x`, row `y` stands.
    pub open spec fn index_of(&self, x: int, y: int) -> int {
        y * self.width() + x
    }

    /// The pixel at column `x`, row `y`.
    pub open spec fn pixel(&self, x: int, y: int) -> P {
        self@[self.index_of(x, y)]
    }

    /// The error that an access at column `x`, row `y` of this canvas gets
    /// when the place is not on it.
    pub open spec fn out_of_bounds(&self, x: usize, y: usize) -> OutOfBounds {
        OutOfBounds { x, y, width: self.width(), height: self.height() }
    }

    /// A canvas of the given size over pixels that are already laid out row
    /// by row; `None` unless there is exactly one pixel for each place.
    pub fn from_pixels(width: usize, height: usize, pixels: Vec<P>) -> (made: Option<Self>)
        ensures
            made is Some <==> pixels@.len() == width * height,
            made matches Some(canvas) ==> canvas.well_formed() && canvas.width() == width
                && canvas.height() == height && canvas@ == pixels@,
    {
        assert(pixels.len() <= usize::MAX);
        match width.checked_mul(height) {
            Some(count) => {
                if pixels.len() == count {
                    Some(Canvas { width, height, pixels })
                } else {
                    None
                }
            },
            None => None,
        }
    }

    /// The number of columns.
    #[verifier::when_used_as_spec(spec_width)]
    pub fn width(&self) -> (width: usize)
        ensures
            width == self.spec_width(),
    {
        self.width
    }

    /// The number of rows.
    #[verifier::when_used_as_spec(spec_height)]
    pub fn height(&self) -> (height: usize)
        ensures
            height == self.spec_height(),
    {
        self.height
    }

    /// All the pixels, row by row.
    pub fn pixels(&self) -> (pixels: &Vec<P>)
        ensures
            pixels@ == self@,
            pixels@.len() == self.width() * self.height(),
    {
        proof {
            use_type_invariant(self);
        }
        &self.pixels
    }

    /// Where the pixel of a place on the canvas stands among the pixels.
    fn get_pixel_index(&self, x: usize, y: usize) -> (index: usize)
        requires
            self.contains(x as int, y as int),
        ensures
            index == self.index_of(x as int, y as int),
            index < self@.len(),
    {
        proof {
            use_type_invariant(self);
            lemma_row_major_index_in_range(
                self.width as int,
                self.height as int,
                x as int,
                y as int,
            );
            assert(self.pixels.len() <= usize::MAX);
            assert(0 <= y * self.width) by (nonlinear_arith)
                requires
                    0 <= y,
                    0 <= self.width,
            ;
        }
        y * self.width + x
    }

    /// Replaces the pixel at column `x`, row `y` by `color` and leaves every
    /// other pixel as it was; off the canvas, changes nothing and returns
    /// the error.
    pub fn write_pixel(&mut self, x: usize, y: usize, color: P) -> (result: Result<
        (),
        OutOfBounds,
    >)
        ensures
            final(self).well_formed(),
            final(self).width() == old(self).width(),
            final(self).height() == old(self).height(),
            result == if old(self).contains(x as int, y as int) {
                Ok(())
            } else {
                Err(old(self).out_of_bounds(x, y))
            },
            final(self)@ == if old(self).contains(x as int, y as int) {
                old(self)@.update(old(self).index_of(x as int, y as int), color)
            } else {
                old(self)@
            },
            forall|i: int, j: int| #[trigger]
                old(self).contains(i, j) ==> final(self).pixel(i, j) == if result is Ok && i == x
                    && j == y {
                    color
                } else {
                    old(self).pixel(i, j)
                },
    {
        proof {
            use_type_invariant(&*self);
        }
        if x >= self.width || y >= self.height {
            return Err(OutOfBounds { x, y, width: self.width, height: self.height });
        }
        let pixel_index = self.get_pixel_index(x, y);
        self.pixels[pixel_index] = color;
        proof {
            lemma_update_changes_one_place(
                self.width as int,
                self.height as int,
                old(self)@,
                x as int,
                y as int,
                color,
            );
        }
        Ok(())
    }
}

impl<P: Copy> Canvas<P> {
    /// A canvas of the given size with every pixel set to `fill`.
    pub fn new(width: usize, height: usize, fill: P) -> (canvas: Self)
        requires
            width * height <= usize::MAX,
        ensures
            canvas.well_formed(),
            canvas.width() == width,
            canvas.height() == height,
            canvas@ == Seq::new((width * height) as nat, |i: int| fill),
            forall|x: int, y: int| #[trigger] canvas.contains(x, y) ==> canvas.pixel(x, y) == fill,
    {
        let count: usize = width * height;
        let mut pixels: Vec<P> = Vec::with_capacity(count);
        let mut filled: usize = 0;
        while filled < count
            invariant
                filled <= count,
                pixels@ == Seq::new(filled as nat, |i: int| fill),
            decreases count - filled,
        {
            pixels.push(fill);
            filled = filled + 1;
            assert(pixels@ =~= Seq::new(filled as nat, |i: int| fill));
        }
        let canvas = Canvas { width, height, pixels };
        proof {
            assert forall|x: int, y: int| #[trigger] canvas.contains(x, y) implies canvas.pixel(
                x,
                y,
            ) == fill by {
                lemma_row_major_index_in_range(width as int, height as int, x, y);
            }
        }
        canvas
    }

    /// A canvas of the same size that holds, at each place, what `convert`
    /// makes of the pixel that this canvas has there. The pixels are
    /// converted one by one in row-major order, and this canvas is left as it
    /// is.
    pub fn map<Q, F: Fn(P) -> Q>(&self, convert: F) -> (mapped: Canvas<Q>)
        requires
            forall|i: int| 0 <= i < self@.len() ==> call_requires(convert, (#[trigger] self@[i],)),
        ensures
            mapped.well_formed(),
            mapped.width() == self.width(),
            mapped.height() == self.height(),
            mapped@.len() == self@.len(),
            forall|i: int|
                0 <= i < self@.len() ==> call_ensures(convert, (self@[i],), #[trigger] mapped@[i]),
    {
        proof {
            use_type_invariant(self);
        }
        let count: usize = self.pixels.len();
        let mut pixels: Vec<Q> = Vec::with_capacity(count);
        let mut converted: usize = 0;
        while converted < count
            invariant
                count == self.pixels@.len(),
                converted <= count,
                pixels@.len() == converted,
                forall|i: int|
                    0 <= i < count ==> call_requires(convert, (#[trigger] self.pixels@[i],)),
                forall|i: int|
                    0 <= i < converted ==> call_ensures(
                        convert,
                        (self.pixels@[i],),
                        #[trigger] pixels@[i],
                    ),
            decreases count - converted,
        {
            let pixel = convert(self.pixels[converted]);
            pixels.push(pixel);
            converted = converted + 1;
        }
        Canvas { width: self.width, height: self.height, pixels }
    }

    /// A copy of the pixel at column `x`, row `y`, or the error that says
    /// that the canvas has no such place.
    pub fn pixel_at(&self, x: usize, y: usize) -> (result: Result<P, OutOfBounds>)
        ensures
            result == if self.contains(x as int, y as int) {
                Ok(self.pixel(x as int, y as int))
            } else {
                Err(self.out_of_bounds(x, y))
            },
    {
        if x >= self.width || y >= self.height {
            return Err(OutOfBounds { x, y, width: self.width, height: self.height });
        }
        let pixel_index = self.get_pixel_index(x, y);
        Ok(self.pixels[pixel_index])
    }
}

impl<P: Copy> Clone for Canvas<P> {
    /// A canvas of the same size with the same pixels.
    fn clone(&self) -> (copy: Self)
        ensures
            copy.well_formed(),
            copy.width() == self.width(),
            copy.height() == self.height(),
            copy@ == self@,
    {
        proof {
            use_type_invariant(self);
        }
        let count: usize = self.pixels.len();
        let mut pixels: Vec<P> = Vec::with_capacity(count);
        let mut copied: usize = 0;
        while copied < count
            invariant
                count == self.pixels@.len(),
                copied <= count,
                pixels@ == self.pixels@.take(copied as int),
            decreases count - copied,
        {
            pixels.push(self.pixels[copied]);
            copied = copied + 1;
            assert(pixels@ =~= self.pixels@.take(copied as int));
        }
        assert(pixels@ =~= self.pixels@);
        Canvas { width: self.width, height: self.height, pixels }
    }
}

/// A pixel written to a place on the canvas is the pixel read there
/// afterwards, and every other place reads as before: if `after` is what
/// `write_pixel(x, y, color)` leaves of `before`, where the place is on the
/// canvas, then `pixel_at(x, y)` on `after` gives `color`, and `pixel_at` gives
/// the same on both at every other place.
pub proof fn lemma_write_then_read<P>(
    before: Canvas<P>,
    after: Canvas<P>,
    x: int,
    y: int,
    color: P,
)
    requires
        before.well_formed(),
        before.contains(x, y),
        after.width() == before.width(),
        after.height() == before.height(),
        after@ == before@.update(before.index_of(x, y), color),
    ensures
        after.pixel(x, y) == color,
        forall|i: int, j: int| #[trigger]
            before.contains(i, j) && !(i == x && j == y) ==> after.pixel(i, j) == before.pixel(
                i,
                j,
            ),
{
    lemma_update_changes_one_place(
        before.width() as int,
        before.height() as int,
        before@,
        x,
        y,
        color,
    );
}

} // verus!
