//! Headings in whole degrees, and the steps a thing takes along them.

use vstd::prelude::*;

verus! {

/// The sine of one unit: sines and cosines are held as thousandths.
pub const TRIG_SCALE: i32 = 1000;

/// A thousand times the sine of 0, 1, ..., 90 degrees, to the nearest whole.
pub const QUARTER_SINE: [i32; 91] = [
    0, 17, 35, 52, 70, 87, 105, 122, 139, 156,
    174, 191, 208, 225, 242, 259, 276, 292, 309, 326,
    342, 358, 375, 391, 407, 423, 438, 454, 469, 485,
    500, 515, 530, 545, 559, 574, 588, 602, 616, 629,
    643, 656, 669, 682, 695, 707, 719, 731, 743, 755,
    766, 777, 788, 799, 809, 819, 829, 839, 848, 857,
    866, 875, 883, 891, 899, 906, 914, 921, 927, 934,
    940, 946, 951, 956, 961, 966, 970, 974, 978, 982,
    985, 988, 990, 993, 995, 996, 998, 999, 999, 1000,
    1000,
];

/// The heading in `[0, 360)` that points the same way as `degrees`.
pub open spec fn normal_angle(degrees: int) -> int {
    degrees % 360
}

/// A thousand times the sine of a heading in `[0, 360)`.
pub open spec fn sin_milli(degrees: int) -> int {
    if degrees <= 90 {
        QUARTER_SINE[degrees] as int
    } else if degrees <= 180 {
        QUARTER_SINE[180 - degrees] as int
    } else if degrees <= 270 {
        -(QUARTER_SINE[degrees - 180] as int)
    } else {
        -(QUARTER_SINE[360 - degrees] as int)
    }
}

/// A thousand times the cosine of a heading in `[0, 360)`.
pub open spec fn cos_milli(degrees: int) -> int {
    sin_milli((degrees + 90) % 360)
}

/// Brings any heading into `[0, 360)`.
pub fn normalize_angle(degrees: i32) -> (heading: i32)
    ensures
        heading == normal_angle(degrees as int),
        0 <= heading < 360,
{
    let r = degrees % 360;
    if r < 0 {
        r + 360
    } else {
        r
    }
}

/// A thousand times the sine of a heading in `[0, 360)`.
pub fn sine(degrees: i32) -> (s: i32)
    requires
        0 <= degrees < 360,
    ensures
        s == sin_milli(degrees as int),
        -TRIG_SCALE <= s <= TRIG_SCALE,
{
    if degrees <= 90 {
        QUARTER_SINE[degrees as usize]
    } else if degrees <= 180 {
        QUARTER_SINE[(180 - degrees) as usize]
    } else if degrees <= 270 {
        -QUARTER_SINE[(degrees - 180) as usize]
    } else {
        -QUARTER_SINE[(360 - degrees) as usize]
    }
}

/// A thousand times the cosine of a heading in `[0, 360)`.
pub fn cosine(degrees: i32) -> (c: i32)
    requires
        0 <= degrees < 360,
    ensures
        c == cos_milli(degrees as int),
        -TRIG_SCALE <= c <= TRIG_SCALE,
{
    sine((degrees + 90) % 360)
}

/// The table is that of a sine: on the quarter circle the squares of a
/// heading's sine and cosine add up to a thousand squared, within the
/// rounding of the entries.
pub proof fn lemma_quarter_is_unit_length(degrees: int)
    requires
        0 <= degrees <= 90,
    ensures
        998_800 <= QUARTER_SINE[degrees] * QUARTER_SINE[degrees] + QUARTER_SINE[90 - degrees]
            * QUARTER_SINE[90 - degrees] <= 1_001_200,
    decreases degrees,
{
    let s = QUARTER_SINE[degrees] as int;
    let c = QUARTER_SINE[90 - degrees] as int;
    if degrees > 45 {
        // The sum for a heading is that for its complement.
        lemma_quarter_is_unit_length(90 - degrees);
    } else {
        if degrees == 0 {
            assert(s * s + c * c == 1000000) by (nonlinear_arith)
                requires s == 0, c == 1000;
        }
        if degrees == 1 {
            assert(s * s + c * c == 1000289) by (nonlinear_arith)
                requires s == 17, c == 1000;
        }
        if degrees == 2 {
            assert(s * s + c * c == 999226) by (nonlinear_arith)
                requires s == 35, c == 999;
        }
        if degrees == 3 {
            assert(s * s + c * c == 1000705) by (nonlinear_arith)
                requires s == 52, c == 999;
        }
        if degrees == 4 {
            assert(s * s + c * c == 1000904) by (nonlinear_arith)
                requires s == 70, c == 998;
        }
        if degrees == 5 {
            assert(s * s + c * c == 999585) by (nonlinear_arith)
                requires s == 87, c == 996;
        }
        if degrees == 6 {
            assert(s * s + c * c == 1001050) by (nonlinear_arith)
                requires s == 105, c == 995;
        }
        if degrees == 7 {
            assert(s * s + c * c == 1000933) by (nonlinear_arith)
                requires s == 122, c == 993;
        }
        if degrees == 8 {
            assert(s * s + c * c == 999421) by (nonlinear_arith)
                requires s == 139, c == 990;
        }
        if degrees == 9 {
            assert(s * s + c * c == 1000480) by (nonlinear_arith)
                requires s == 156, c == 988;
        }
        if degrees == 10 {
            assert(s * s + c * c == 1000501) by (nonlinear_arith)
                requires s == 174, c == 985;
        }
        if degrees == 11 {
            assert(s * s + c * c == 1000805) by (nonlinear_arith)
                requires s == 191, c == 982;
        }
        if degrees == 12 {
            assert(s * s + c * c == 999748) by (nonlinear_arith)
                requires s == 208, c == 978;
        }
        if degrees == 13 {
            assert(s * s + c * c == 999301) by (nonlinear_arith)
                requires s == 225, c == 974;
        }
        if degrees == 14 {
            assert(s * s + c * c == 999464) by (nonlinear_arith)
                requires s == 242, c == 970;
        }
        if degrees == 15 {
            assert(s * s + c * c == 1000237) by (nonlinear_arith)
                requires s == 259, c == 966;
        }
        if degrees == 16 {
            assert(s * s + c * c == 999697) by (nonlinear_arith)
                requires s == 276, c == 961;
        }
        if degrees == 17 {
            assert(s * s + c * c == 999200) by (nonlinear_arith)
                requires s == 292, c == 956;
        }
        if degrees == 18 {
            assert(s * s + c * c == 999882) by (nonlinear_arith)
                requires s == 309, c == 951;
        }
        if degrees == 19 {
            assert(s * s + c * c == 1001192) by (nonlinear_arith)
                requires s == 326, c == 946;
        }
        if degrees == 20 {
            assert(s * s + c * c == 1000564) by (nonlinear_arith)
                requires s == 342, c == 940;
        }
        if degrees == 21 {
            assert(s * s + c * c == 1000520) by (nonlinear_arith)
                requires s == 358, c == 934;
        }
        if degrees == 22 {
            assert(s * s + c * c == 999954) by (nonlinear_arith)
                requires s == 375, c == 927;
        }
        if degrees == 23 {
            assert(s * s + c * c == 1001122) by (nonlinear_arith)
                requires s == 391, c == 921;
        }
        if degrees == 24 {
            assert(s * s + c * c == 1001045) by (nonlinear_arith)
                requires s == 407, c == 914;
        }
        if degrees == 25 {
            assert(s * s + c * c == 999765) by (nonlinear_arith)
                requires s == 423, c == 906;
        }
        if degrees == 26 {
            assert(s * s + c * c == 1000045) by (nonlinear_arith)
                requires s == 438, c == 899;
        }
        if degrees == 27 {
            assert(s * s + c * c == 999997) by (nonlinear_arith)
                requires s == 454, c == 891;
        }
        if degrees == 28 {
            assert(s * s + c * c == 999650) by (nonlinear_arith)
                requires s == 469, c == 883;
        }
        if degrees == 29 {
            assert(s * s + c * c == 1000850) by (nonlinear_arith)
                requires s == 485, c == 875;
        }
        if degrees == 30 {
            assert(s * s + c * c == 999956) by (nonlinear_arith)
                requires s == 500, c == 866;
        }
        if degrees == 31 {
            assert(s * s + c * c == 999674) by (nonlinear_arith)
                requires s == 515, c == 857;
        }
        if degrees == 32 {
            assert(s * s + c * c == 1000004) by (nonlinear_arith)
                requires s == 530, c == 848;
        }
        if degrees == 33 {
            assert(s * s + c * c == 1000946) by (nonlinear_arith)
                requires s == 545, c == 839;
        }
        if degrees == 34 {
            assert(s * s + c * c == 999722) by (nonlinear_arith)
                requires s == 559, c == 829;
        }
        if degrees == 35 {
            assert(s * s + c * c == 1000237) by (nonlinear_arith)
                requires s == 574, c == 819;
        }
        if degrees == 36 {
            assert(s * s + c * c == 1000225) by (nonlinear_arith)
                requires s == 588, c == 809;
        }
        if degrees == 37 {
            assert(s * s + c * c == 1000805) by (nonlinear_arith)
                requires s == 602, c == 799;
        }
        if degrees == 38 {
            assert(s * s + c * c == 1000400) by (nonlinear_arith)
                requires s == 616, c == 788;
        }
        if degrees == 39 {
            assert(s * s + c * c == 999370) by (nonlinear_arith)
                requires s == 629, c == 777;
        }
        if degrees == 40 {
            assert(s * s + c * c == 1000205) by (nonlinear_arith)
                requires s == 643, c == 766;
        }
        if degrees == 41 {
            assert(s * s + c * c == 1000361) by (nonlinear_arith)
                requires s == 656, c == 755;
        }
        if degrees == 42 {
            assert(s * s + c * c == 999610) by (nonlinear_arith)
                requires s == 669, c == 743;
        }
        if degrees == 43 {
            assert(s * s + c * c == 999485) by (nonlinear_arith)
                requires s == 682, c == 731;
        }
        if degrees == 44 {
            assert(s * s + c * c == 999986) by (nonlinear_arith)
                requires s == 695, c == 719;
        }
        if degrees == 45 {
            assert(s * s + c * c == 999698) by (nonlinear_arith)
                requires s == 707, c == 707;
        }
    }
}

/// Sine and cosine of any heading add up, squared, to a thousand squared,
/// within the rounding of the table.
pub proof fn lemma_unit_length(degrees: int)
    requires
        0 <= degrees < 360,
    ensures
        998_800 <= sin_milli(degrees) * sin_milli(degrees) + cos_milli(degrees) * cos_milli(
            degrees,
        ) <= 1_001_200,
{
    let s = sin_milli(degrees);
    let c = cos_milli(degrees);
    let q = if degrees <= 90 {
        degrees
    } else if degrees <= 180 {
        180 - degrees
    } else if degrees <= 270 {
        degrees - 180
    } else {
        360 - degrees
    };
    let a = QUARTER_SINE[q] as int;
    let b = QUARTER_SINE[90 - q] as int;
    lemma_quarter_is_unit_length(q);
    assert((degrees + 90) % 360 == if degrees < 270 {
        degrees + 90
    } else {
        degrees - 270
    });
    assert((s == a || s == -a) && (c == b || c == -b));
    assert(s * s + c * c == a * a + b * b) by (nonlinear_arith)
        requires
            s == a || s == -a,
            c == b || c == -b,
    ;
}

} // verus!
