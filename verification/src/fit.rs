//! Aspect-preserving fit: the size to which a source must be resampled so
//! that it fills a target box as far as its proportions allow.
//!
//! The two scale ratios `box_width / width` and `box_height / height` are
//! rational numbers; everything here is decided on them exactly, by
//! cross-multiplication, and a product is cut to an integer by dropping its
//! fraction.

use vstd::prelude::*;

use crate::error::ImageError;

verus! {

/// Whether the two scale ratios differ by less than one hundredth, so that
/// the box counts as having the proportions of the source.
pub open spec fn same_aspect(width: int, height: int, box_width: int, box_height: int) -> bool {
    let cross = box_width * height - box_height * width;
    100 * (if cross < 0 { -cross } else { cross }) < width * height
}

/// The size to resample a `width` by `height` source to, for a box of
/// `box_width` by `box_height`: the whole box where the proportions agree,
/// else the box along the axis with the smaller ratio and the other
/// dimension scaled by that same ratio, its fraction dropped.
pub open spec fn fit_target(width: int, height: int, box_width: int, box_height: int) -> (
    int,
    int,
) {
    if same_aspect(width, height, box_width, box_height) {
        (box_width, box_height)
    } else if box_width * height <= box_height * width {
        (box_width, (height * box_width) / width)
    } else {
        ((width * box_height) / height, box_height)
    }
}

/// What `fit_within` answers: the fitted size, unless the source or the
/// box is empty.
pub open spec fn fit_within_result(
    width: usize,
    height: usize,
    box_width: usize,
    box_height: usize,
) -> Result<(usize, usize), ImageError> {
    if width == 0 || height == 0 {
        Err(ImageError::EmptySource)
    } else if box_width == 0 || box_height == 0 {
        Err(ImageError::EmptyTarget)
    } else {
        let target = fit_target(width as int, height as int, box_width as int, box_height as int);
        Ok((target.0 as usize, target.1 as usize))
    }
}

/// The fitted size never exceeds the box, and it meets the box along at
/// least one axis.
pub proof fn lemma_fit_stays_in_box(width: int, height: int, box_width: int, box_height: int)
    requires
        1 <= width,
        1 <= height,
        0 <= box_width,
        0 <= box_height,
    ensures
        ({
            let target = fit_target(width, height, box_width, box_height);
            &&& 0 <= target.0 <= box_width
            &&& 0 <= target.1 <= box_height
            &&& target.0 == box_width || target.1 == box_height
        }),
{
    if !same_aspect(width, height, box_width, box_height) {
        if box_width * height <= box_height * width {
            lemma_floor_quotient(height * box_width, width, box_height);
            assert(height * box_width == box_width * height) by (nonlinear_arith);
        } else {
            lemma_floor_quotient(width * box_height, height, box_width);
            assert(width * box_height == box_height * width) by (nonlinear_arith);
        }
    }
}

/// Where the proportions differ, the fitted size keeps those of the source
/// up to the dropped fraction: the scaled dimension is the largest integer
/// whose ratio to the box-bound one does not exceed the source's.
pub proof fn lemma_fit_keeps_proportions(
    width: int,
    height: int,
    box_width: int,
    box_height: int,
)
    requires
        1 <= width,
        1 <= height,
        0 <= box_width,
        0 <= box_height,
        !same_aspect(width, height, box_width, box_height),
    ensures
        ({
            let target = fit_target(width, height, box_width, box_height);
            if box_width * height <= box_height * width {
                &&& target.0 == box_width
                &&& target.1 * width <= height * target.0 < (target.1 + 1) * width
            } else {
                &&& target.1 == box_height
                &&& target.0 * height <= width * target.1 < (target.0 + 1) * height
            }
        }),
{
    if box_width * height <= box_height * width {
        lemma_quotient_brackets(height * box_width, width);
    } else {
        lemma_quotient_brackets(width * box_height, height);
    }
}

/// A box of the source's own size is filled exactly.
pub proof fn lemma_fit_same_size(width: int, height: int)
    requires
        1 <= width,
        1 <= height,
    ensures
        fit_target(width, height, width, height) == (width, height),
{
    assert(0 < width * height && width * height == height * width) by (nonlinear_arith)
        requires
            1 <= width,
            1 <= height,
    ;
}

/// A quotient is bracketed by its divisor: `(n / d) * d <= n < (n / d + 1) * d`.
proof fn lemma_quotient_brackets(n: int, d: int)
    requires
        0 <= n,
        0 < d,
    ensures
        0 <= n / d,
        (n / d) * d <= n < (n / d + 1) * d,
{
    vstd::arithmetic::div_mod::lemma_fundamental_div_mod(n, d);
    vstd::arithmetic::div_mod::lemma_mod_pos_bound(n, d);
    vstd::arithmetic::div_mod::lemma_div_pos_is_pos(n, d);
    let q = n / d;
    assert(d * q == q * d && (q + 1) * d == q * d + d) by (nonlinear_arith);
}

/// If `n <= bound * d` then `n / d <= bound`.
proof fn lemma_floor_quotient(n: int, d: int, bound: int)
    requires
        0 <= n,
        0 < d,
        n <= bound * d,
    ensures
        0 <= n / d <= bound,
{
    lemma_quotient_brackets(n, d);
    let q = n / d;
    assert(q <= bound) by (nonlinear_arith)
        requires
            q * d <= n,
            n <= bound * d,
            0 < d,
    ;
}

/// The size to resample a `width` by `height` source to so that it fits a
/// `box_width` by `box_height` box without changing its proportions.
pub fn fit_within(width: usize, height: usize, box_width: usize, box_height: usize) -> (r: Result<
    (usize, usize),
    ImageError,
>)
    ensures
        r == fit_within_result(width, height, box_width, box_height),
        r matches Ok(target) ==> target.0 <= box_width && target.1 <= box_height,
{
    if width == 0 || height == 0 {
        return Err(ImageError::EmptySource);
    }
    if box_width == 0 || box_height == 0 {
        return Err(ImageError::EmptyTarget);
    }
    proof {
        lemma_fit_stays_in_box(width as int, height as int, box_width as int, box_height as int);
        lemma_products_fit(width, height);
        lemma_products_fit(box_width, height);
        lemma_products_fit(box_height, width);
    }
    let across: u128 = box_width as u128 * height as u128;
    let down: u128 = box_height as u128 * width as u128;
    let gap: u128 = if across <= down { down - across } else { across - down };
    let area: u128 = width as u128 * height as u128;
    // 100 * gap < area, without forming 100 * gap
    let whole: u128 = area / 100;
    let rest: u128 = area % 100;
    let matches_box = gap < whole || (gap == whole && rest > 0);
    assert(matches_box == same_aspect(
        width as int,
        height as int,
        box_width as int,
        box_height as int,
    ));
    if matches_box {
        Ok((box_width, box_height))
    } else if across <= down {
        assert(height as int * box_width as int == across) by (nonlinear_arith)
            requires
                across == box_width as int * height as int,
        ;
        let scaled: u128 = across / (width as u128);
        Ok((box_width, scaled as usize))
    } else {
        assert(width as int * box_height as int == down) by (nonlinear_arith)
            requires
                down == box_height as int * width as int,
        ;
        let scaled: u128 = down / (height as u128);
        Ok((scaled as usize, box_height))
    }
}

/// The product of two machine words fits in 128 bits.
proof fn lemma_products_fit(a: usize, b: usize)
    ensures
        0 <= a * b <= u128::MAX,
{
    assert(0 <= a * b <= 0xffff_ffff_ffff_ffff * 0xffff_ffff_ffff_ffff) by (nonlinear_arith)
        requires
            0 <= a <= 0xffff_ffff_ffff_ffff,
            0 <= b <= 0xffff_ffff_ffff_ffff,
    ;
}

} // verus!
