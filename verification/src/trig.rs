//! Sine and cosine of angles in millionths of a degree.
//!
//! The sine of every fifth of a degree of the first quadrant is read from a
//! table; between two entries it is interpolated linearly. The other three
//! quadrants are folded onto the first, so the symmetries of the sine hold
//! exactly.

use vstd::prelude::*;

use crate::fixed::{div_round, lemma_round_div_bound, round_div, SCALE};

verus! {

/// A quarter turn, in millionths of a degree.
pub const QUARTER_TURN: i64 = 90_000_000;

/// A half turn, in millionths of a degree.
pub const HALF_TURN: i64 = 180_000_000;

/// Three quarters of a turn, in millionths of a degree.
pub const THREE_QUARTER_TURN: i64 = 270_000_000;

/// A full turn, in millionths of a degree.
pub const FULL_TURN: i64 = 360_000_000;

/// The distance between two entries of the sine table: a fifth of a degree.
pub const TABLE_STEP: i64 = 200_000;

/// The number of steps of the sine table from 0 to 90 degrees.
pub const TABLE_STEPS: usize = 450;

/// The sine at each step from 0 to 90 degrees, in millionths.
pub const SINE_TABLE: [i64; 451] = [
    0, 3491, 6981, 10472, 13962, 17452, 20942, 24432, 27922, 31411,
    34899, 38388, 41876, 45363, 48850, 52336, 55822, 59306, 62791, 66274,
    69756, 73238, 76719, 80199, 83678, 87156, 90633, 94108, 97583, 101056,
    104528, 107999, 111469, 114937, 118404, 121869, 125333, 128796, 132256, 135716,
    139173, 142629, 146083, 149535, 152986, 156434, 159881, 163326, 166769, 170209,
    173648, 177085, 180519, 183951, 187381, 190809, 194234, 197657, 201078, 204496,
    207912, 211325, 214735, 218143, 221548, 224951, 228351, 231748, 235142, 238533,
    241922, 245307, 248690, 252069, 255446, 258819, 262189, 265556, 268920, 272280,
    275637, 278991, 282341, 285688, 289032, 292372, 295708, 299041, 302370, 305695,
    309017, 312335, 315649, 318959, 322266, 325568, 328867, 332161, 335452, 338738,
    342020, 345298, 348572, 351842, 355107, 358368, 361625, 364877, 368125, 371368,
    374607, 377841, 381070, 384295, 387516, 390731, 393942, 397148, 400349, 403545,
    406737, 409923, 413104, 416281, 419452, 422618, 425779, 428935, 432086, 435231,
    438371, 441506, 444635, 447759, 450878, 453990, 457098, 460200, 463296, 466387,
    469472, 472551, 475624, 478692, 481754, 484810, 487860, 490904, 493942, 496974,
    500000, 503020, 506034, 509041, 512043, 515038, 518027, 521010, 523986, 526956,
    529919, 532876, 535827, 538771, 541708, 544639, 547563, 550481, 553392, 556296,
    559193, 562083, 564967, 567844, 570714, 573576, 576432, 579281, 582123, 584958,
    587785, 590606, 593419, 596225, 599024, 601815, 604599, 607376, 610145, 612907,
    615661, 618408, 621148, 623880, 626604, 629320, 632029, 634731, 637424, 640110,
    642788, 645458, 648120, 650774, 653421, 656059, 658689, 661312, 663926, 666532,
    669131, 671721, 674302, 676876, 679441, 681998, 684547, 687088, 689620, 692143,
    694658, 697165, 699663, 702153, 704634, 707107, 709571, 712026, 714473, 716911,
    719340, 721760, 724172, 726575, 728969, 731354, 733730, 736097, 738455, 740805,
    743145, 745476, 747798, 750111, 752415, 754710, 756995, 759271, 761538, 763796,
    766044, 768284, 770513, 772734, 774944, 777146, 779338, 781520, 783693, 785857,
    788011, 790155, 792290, 794415, 796530, 798636, 800731, 802817, 804894, 806960,
    809017, 811064, 813101, 815128, 817145, 819152, 821149, 823136, 825113, 827081,
    829038, 830984, 832921, 834848, 836764, 838671, 840567, 842452, 844328, 846193,
    848048, 849893, 851727, 853551, 855364, 857167, 858960, 860742, 862514, 864275,
    866025, 867765, 869495, 871214, 872922, 874620, 876307, 877983, 879649, 881303,
    882948, 884581, 886204, 887815, 889416, 891007, 892586, 894154, 895712, 897258,
    898794, 900319, 901833, 903335, 904827, 906308, 907777, 909236, 910684, 912120,
    913545, 914960, 916363, 917755, 919135, 920505, 921863, 923210, 924546, 925871,
    927184, 928486, 929776, 931056, 932324, 933580, 934826, 936060, 937282, 938493,
    939693, 940881, 942057, 943223, 944376, 945519, 946649, 947768, 948876, 949972,
    951057, 952129, 953191, 954240, 955278, 956305, 957319, 958323, 959314, 960294,
    961262, 962218, 963163, 964095, 965016, 965926, 966823, 967709, 968583, 969445,
    970296, 971134, 971961, 972776, 973579, 974370, 975149, 975917, 976672, 977416,
    978148, 978867, 979575, 980271, 980955, 981627, 982287, 982935, 983571, 984196,
    984808, 985408, 985996, 986572, 987136, 987688, 988228, 988756, 989272, 989776,
    990268, 990748, 991216, 991671, 992115, 992546, 992966, 993373, 993768, 994151,
    994522, 994881, 995227, 995562, 995884, 996195, 996493, 996779, 997053, 997314,
    997564, 997801, 998027, 998240, 998441, 998630, 998806, 998971, 999123, 999263,
    999391, 999507, 999610, 999701, 999781, 999848, 999903, 999945, 999976, 999994,
    1000000,
];

/// The angle brought into `[0, FULL_TURN)`.
pub open spec fn wrap_angle(angle: int) -> int {
    angle % (FULL_TURN as int)
}

/// The sine of an angle of the first quadrant, `0 <= a <= QUARTER_TURN`.
#[verifier::opaque]
pub open spec fn quadrant_sine(a: int) -> int {
    let entry = a / (TABLE_STEP as int);
    let part = a % (TABLE_STEP as int);
    if entry >= TABLE_STEPS {
        SCALE as int
    } else {
        SINE_TABLE[entry] + round_div(
            (SINE_TABLE[entry + 1] - SINE_TABLE[entry]) * part,
            TABLE_STEP as int,
        )
    }
}

/// The sine of an angle given in millionths of a degree, in millionths.
pub open spec fn sine(angle: int) -> int {
    let a = wrap_angle(angle);
    if a <= QUARTER_TURN {
        quadrant_sine(a)
    } else if a <= HALF_TURN {
        quadrant_sine(HALF_TURN - a)
    } else if a <= THREE_QUARTER_TURN {
        -quadrant_sine(a - HALF_TURN)
    } else {
        -quadrant_sine(FULL_TURN - a)
    }
}

/// The cosine of an angle given in millionths of a degree, in millionths.
pub open spec fn cosine(angle: int) -> int {
    sine(angle + QUARTER_TURN)
}

/// The table rises over its first fifth.
proof fn lemma_first_fifth_rises(i: int)
    requires
        0 <= i < 90,
    ensures
        0 <= SINE_TABLE[i] <= SINE_TABLE[i + 1] <= SCALE,
{
}

/// The table rises over its second fifth.
proof fn lemma_second_fifth_rises(i: int)
    requires
        90 <= i < 180,
    ensures
        0 <= SINE_TABLE[i] <= SINE_TABLE[i + 1] <= SCALE,
{
}

/// The table rises over its third fifth.
proof fn lemma_third_fifth_rises(i: int)
    requires
        180 <= i < 270,
    ensures
        0 <= SINE_TABLE[i] <= SINE_TABLE[i + 1] <= SCALE,
{
}

/// The table rises over its fourth fifth.
proof fn lemma_fourth_fifth_rises(i: int)
    requires
        270 <= i < 360,
    ensures
        0 <= SINE_TABLE[i] <= SINE_TABLE[i + 1] <= SCALE,
{
}

/// The table rises over its last fifth.
proof fn lemma_last_fifth_rises(i: int)
    requires
        360 <= i < 450,
    ensures
        0 <= SINE_TABLE[i] <= SINE_TABLE[i + 1] <= SCALE,
{
}

/// The table rises from 0 to one whole.
pub proof fn lemma_table_rises(i: int)
    requires
        0 <= i < TABLE_STEPS,
    ensures
        0 <= SINE_TABLE[i] <= SINE_TABLE[i + 1] <= SCALE,
{
    if i < 90 {
        lemma_first_fifth_rises(i);
    } else if i < 180 {
        lemma_second_fifth_rises(i);
    } else if i < 270 {
        lemma_third_fifth_rises(i);
    } else if i < 360 {
        lemma_fourth_fifth_rises(i);
    } else {
        lemma_last_fifth_rises(i);
    }
}

/// In the first quadrant the sine lies between 0 and one whole.
pub proof fn lemma_quadrant_sine_bounds(a: int)
    requires
        0 <= a <= QUARTER_TURN,
    ensures
        0 <= quadrant_sine(a) <= SCALE,
{
    reveal(quadrant_sine);
    let entry = a / (TABLE_STEP as int);
    let part = a % (TABLE_STEP as int);
    if entry < TABLE_STEPS {
        lemma_table_rises(entry);
        let rise = SINE_TABLE[entry + 1] - SINE_TABLE[entry];
        assert(0 <= rise * part <= rise * TABLE_STEP) by (nonlinear_arith)
            requires
                0 <= rise,
                0 <= part < TABLE_STEP,
        ;
        lemma_round_div_bound(rise * part, TABLE_STEP as int, rise);
    }
}

/// The sine lies between minus one whole and one whole.
pub proof fn lemma_sine_bounds(angle: int)
    ensures
        -SCALE <= sine(angle) <= SCALE,
{
    let a = wrap_angle(angle);
    if a <= QUARTER_TURN {
        lemma_quadrant_sine_bounds(a);
    } else if a <= HALF_TURN {
        lemma_quadrant_sine_bounds(HALF_TURN - a);
    } else if a <= THREE_QUARTER_TURN {
        lemma_quadrant_sine_bounds(a - HALF_TURN);
    } else {
        lemma_quadrant_sine_bounds(FULL_TURN - a);
    }
}

/// The cosine lies between minus one whole and one whole.
pub proof fn lemma_cosine_bounds(angle: int)
    ensures
        -SCALE <= cosine(angle) <= SCALE,
{
    lemma_sine_bounds(angle + QUARTER_TURN);
}

/// The first quadrant starts at 0 and ends at one whole.
proof fn lemma_quadrant_ends()
    ensures
        quadrant_sine(0) == 0,
        quadrant_sine(QUARTER_TURN as int) == SCALE,
{
    reveal(quadrant_sine);
}

/// The values at the four axes are exact.
pub proof fn lemma_axis_values()
    ensures
        sine(0) == 0,
        cosine(0) == SCALE,
        sine(QUARTER_TURN as int) == SCALE,
        cosine(QUARTER_TURN as int) == 0,
        sine(HALF_TURN as int) == 0,
        cosine(HALF_TURN as int) == -SCALE,
        sine(THREE_QUARTER_TURN as int) == -SCALE,
        cosine(THREE_QUARTER_TURN as int) == 0,
{
    lemma_quadrant_ends();
}

/// Adding less than a full turn to an angle moves its wrapped value by as
/// much, and takes one full turn off where it passes the end.
proof fn lemma_wrap_shift(angle: int, shift: int)
    requires
        0 <= shift < FULL_TURN,
    ensures
        wrap_angle(angle + shift) == if wrap_angle(angle) + shift < FULL_TURN {
            wrap_angle(angle) + shift
        } else {
            wrap_angle(angle) + shift - FULL_TURN
        },
{
}

/// The wrapped value of the opposite angle.
proof fn lemma_wrap_opposite(angle: int)
    ensures
        wrap_angle(-angle) == if wrap_angle(angle) == 0 {
            0
        } else {
            FULL_TURN - wrap_angle(angle)
        },
{
}

/// Angles that differ by whole turns have the same sine and cosine.
pub proof fn lemma_whole_turns(angle: int, turns: int)
    ensures
        sine(angle + turns * FULL_TURN) == sine(angle),
        cosine(angle + turns * FULL_TURN) == cosine(angle),
{
    vstd::arithmetic::div_mod::lemma_mod_multiples_vanish(turns, angle, FULL_TURN as int);
    vstd::arithmetic::div_mod::lemma_mod_multiples_vanish(
        turns,
        angle + QUARTER_TURN,
        FULL_TURN as int,
    );
    assert(angle + turns * FULL_TURN == FULL_TURN * turns + angle) by (nonlinear_arith);
    assert(angle + turns * FULL_TURN + QUARTER_TURN == FULL_TURN * turns + (angle + QUARTER_TURN))
        by (nonlinear_arith);
}

/// Wrapping an angle changes neither its sine nor its cosine.
pub proof fn lemma_wrap_keeps(angle: int)
    ensures
        sine(wrap_angle(angle)) == sine(angle),
        cosine(wrap_angle(angle)) == cosine(angle),
{
    let a = wrap_angle(angle);
    assert(wrap_angle(a) == a);
    lemma_wrap_shift(angle, QUARTER_TURN as int);
    lemma_wrap_shift(a, QUARTER_TURN as int);
}

proof fn lemma_sine_half_turn(angle: int)
    ensures
        sine(angle + HALF_TURN) == -sine(angle),
{
    lemma_quadrant_ends();
    lemma_wrap_shift(angle, HALF_TURN as int);
}

proof fn lemma_sine_odd(angle: int)
    ensures
        sine(-angle) == -sine(angle),
{
    lemma_quadrant_ends();
    lemma_wrap_opposite(angle);
}

/// Half a turn further the sine and the cosine change sign.
pub proof fn lemma_half_turn(angle: int)
    ensures
        sine(angle + HALF_TURN) == -sine(angle),
        cosine(angle + HALF_TURN) == -cosine(angle),
{
    lemma_sine_half_turn(angle);
    lemma_sine_half_turn(angle + QUARTER_TURN);
    assert(angle + HALF_TURN + QUARTER_TURN == angle + QUARTER_TURN + HALF_TURN);
}

/// A quarter turn further the sine becomes the cosine, and the cosine the
/// sine with its sign changed.
pub proof fn lemma_quarter_turn(angle: int)
    ensures
        sine(angle + QUARTER_TURN) == cosine(angle),
        cosine(angle + QUARTER_TURN) == -sine(angle),
{
    lemma_sine_half_turn(angle);
    assert(angle + QUARTER_TURN + QUARTER_TURN == angle + HALF_TURN);
}

/// The sine is odd and the cosine is even.
pub proof fn lemma_mirror(angle: int)
    ensures
        sine(-angle) == -sine(angle),
        cosine(-angle) == cosine(angle),
{
    lemma_sine_odd(angle);
    // cos(-a) = sin(90 - a) = -sin(a - 90) = sin(a - 90 + 180) = sin(a + 90)
    lemma_sine_odd(angle - QUARTER_TURN);
    assert(-(angle - QUARTER_TURN) == -angle + QUARTER_TURN);
    lemma_sine_half_turn(angle - QUARTER_TURN);
    assert(angle - QUARTER_TURN + HALF_TURN == angle + QUARTER_TURN);
}

/// The supplement of an angle has the same sine and the opposite cosine.
pub proof fn lemma_supplement(angle: int)
    ensures
        sine(HALF_TURN - angle) == sine(angle),
        cosine(HALF_TURN - angle) == -cosine(angle),
{
    lemma_mirror(angle);
    lemma_half_turn(-angle);
    assert(-angle + HALF_TURN == HALF_TURN - angle);
}

/// The angle brought into `[0, FULL_TURN)`.
pub fn wrap(angle: i64) -> (r: i64)
    ensures
        r == wrap_angle(angle as int),
        0 <= r < FULL_TURN,
{
    match angle.checked_rem_euclid(FULL_TURN) {
        Some(r) => r,
        None => 0,
    }
}

/// The angle brought into `[0, FULL_TURN)`.
pub fn wrap_wide(angle: i128) -> (r: i64)
    ensures
        r == wrap_angle(angle as int),
        0 <= r < FULL_TURN,
{
    match angle.checked_rem_euclid(FULL_TURN as i128) {
        Some(r) => r as i64,
        None => 0,
    }
}

/// The sine of an angle of the first quadrant.
fn quadrant_sin(a: i64) -> (r: i64)
    requires
        0 <= a <= QUARTER_TURN,
    ensures
        r == quadrant_sine(a as int),
        0 <= r <= SCALE,
{
    proof {
        reveal(quadrant_sine);
        lemma_quadrant_sine_bounds(a as int);
    }
    let entry: usize = (a / TABLE_STEP) as usize;
    let part: i64 = a % TABLE_STEP;
    if entry >= TABLE_STEPS {
        SCALE
    } else {
        let low: i64 = SINE_TABLE[entry];
        let high: i64 = SINE_TABLE[entry + 1];
        proof {
            lemma_table_rises(entry as int);
            assert(0 <= (high - low) * part <= SCALE * TABLE_STEP) by (nonlinear_arith)
                requires
                    0 <= high - low <= SCALE,
                    0 <= part < TABLE_STEP,
            ;
        }
        let rise: i128 = div_round(((high - low) * part) as i128, TABLE_STEP);
        (low as i128 + rise) as i64
    }
}

/// The sine of an angle given in millionths of a degree, in millionths.
pub fn sin(angle: i64) -> (r: i64)
    ensures
        r == sine(angle as int),
        -SCALE <= r <= SCALE,
{
    let a: i64 = wrap(angle);
    if a <= QUARTER_TURN {
        quadrant_sin(a)
    } else if a <= HALF_TURN {
        quadrant_sin(HALF_TURN - a)
    } else if a <= THREE_QUARTER_TURN {
        -quadrant_sin(a - HALF_TURN)
    } else {
        -quadrant_sin(FULL_TURN - a)
    }
}

/// The cosine of an angle given in millionths of a degree, in millionths.
pub fn cos(angle: i64) -> (r: i64)
    ensures
        r == cosine(angle as int),
        -SCALE <= r <= SCALE,
{
    let a: i64 = wrap(angle);
    sin(a + QUARTER_TURN)
}

} // verus!
