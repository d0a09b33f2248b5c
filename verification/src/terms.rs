//! The periodic-term tables of the lunar position model, with their
//! invariants, and the eccentricity-correction selector.
//!
//! The tables are the classical low-accuracy series for the Moon: sixty
//! rows feeding the ecliptic-longitude and distance sums followed by sixty
//! rows feeding the ecliptic-latitude sum, kept here in the single order
//! the solver walks them in. Amplitudes are exact integers: millionths of
//! a degree for the two sine series and thousandths of a kilometre for the
//! cosine series, so the constant data carries no rounding at all.

use vstd::prelude::*;

verus! {

/// One row of the periodic-term tables: four small integer multipliers
/// that build the argument angle from the fundamental arguments, and three
/// integer amplitudes.
#[derive(Clone, Copy, PartialEq, Eq, Structural, Debug)]
pub struct PeriodicTerm {
    /// Multiplier of the mean elongation of the Moon (D).
    pub d: i64,
    /// Multiplier of the Sun mean anomaly (M).
    pub m: i64,
    /// Multiplier of the Moon mean anomaly (M').
    pub mp: i64,
    /// Multiplier of the Moon argument of latitude (F).
    pub f: i64,
    /// Sine amplitude for ecliptic longitude, in millionths of a degree.
    pub lon_sin: i64,
    /// Cosine amplitude for the Earth-Moon distance, in thousandths of a kilometre.
    pub dist_cos: i64,
    /// Sine amplitude for ecliptic latitude, in millionths of a degree.
    pub lat_sin: i64,
}

/// Shorthand constructor for a table row.
pub open spec fn term(
    d: int,
    m: int,
    mp: int,
    f: int,
    lon_sin: int,
    dist_cos: int,
    lat_sin: int,
) -> PeriodicTerm {
    PeriodicTerm {
        d: d as i64,
        m: m as i64,
        mp: mp as i64,
        f: f as i64,
        lon_sin: lon_sin as i64,
        dist_cos: dist_cos as i64,
        lat_sin: lat_sin as i64,
    }
}

/// The table row at a given index; rows beyond the table are a zero row
/// that contributes nothing to any sum.
pub open spec fn moon_term(i: int) -> PeriodicTerm {
    if i == 0 {
        term(0, 0, 1, 0, 6288774, -20905355, 0)
    } else if i == 1 {
        term(2, 0, -1, 0, 1274027, -3699111, 0)
    } else if i == 2 {
        term(2, 0, 0, 0, 658314, -2955968, 0)
    } else if i == 3 {
        term(0, 0, 2, 0, 213618, -569925, 0)
    } else if i == 4 {
        term(0, 1, 0, 0, -185116, 48888, 0)
    } else if i == 5 {
        term(0, 0, 0, 2, -114332, -3149, 0)
    } else if i == 6 {
        term(2, 0, -2, 0, 58793, 246158, 0)
    } else if i == 7 {
        term(2, -1, -1, 0, 57066, -152138, 0)
    } else if i == 8 {
        term(2, 0, 1, 0, 53322, -170733, 0)
    } else if i == 9 {
        term(2, -1, 0, 0, 45758, -204586, 0)
    } else if i == 10 {
        term(0, 1, -1, 0, -40923, -129620, 0)
    } else if i == 11 {
        term(1, 0, 0, 0, -34720, 108743, 0)
    } else if i == 12 {
        term(0, 1, 1, 0, -30383, 104755, 0)
    } else if i == 13 {
        term(2, 0, 0, -2, 15327, 10321, 0)
    } else if i == 14 {
        term(0, 0, 1, 2, -12528, 0, 0)
    } else if i == 15 {
        term(0, 0, 1, -2, 10980, 79661, 0)
    } else if i == 16 {
        term(4, 0, -1, 0, 10675, -34782, 0)
    } else if i == 17 {
        term(0, 0, 3, 0, 10034, -23210, 0)
    } else if i == 18 {
        term(4, 0, -2, 0, 8548, -21636, 0)
    } else if i == 19 {
        term(2, 1, -1, 0, -7888, 24208, 0)
    } else if i == 20 {
        term(2, 1, 0, 0, -6766, 30824, 0)
    } else if i == 21 {
        term(1, 0, -1, 0, -5163, -8379, 0)
    } else if i == 22 {
        term(1, 1, 0, 0, 4987, -16675, 0)
    } else if i == 23 {
        term(2, -1, 1, 0, 4036, -12831, 0)
    } else if i == 24 {
        term(2, 0, 2, 0, 3994, -10445, 0)
    } else if i == 25 {
        term(4, 0, 0, 0, 3861, -11650, 0)
    } else if i == 26 {
        term(2, 0, -3, 0, 3665, 14403, 0)
    } else if i == 27 {
        term(0, 1, -2, 0, -2689, -7003, 0)
    } else if i == 28 {
        term(2, 0, -1, 2, -2602, 0, 0)
    } else if i == 29 {
        term(2, -1, -2, 0, 2390, 10056, 0)
    } else if i == 30 {
        term(1, 0, 1, 0, -2348, 6322, 0)
    } else if i == 31 {
        term(2, -2, 0, 0, 2236, -9884, 0)
    } else if i == 32 {
        term(0, 1, 2, 0, -2120, 5751, 0)
    } else if i == 33 {
        term(0, 2, 0, 0, -2069, 0, 0)
    } else if i == 34 {
        term(2, -2, -1, 0, 2048, -4950, 0)
    } else if i == 35 {
        term(2, 0, 1, -2, -1773, 4130, 0)
    } else if i == 36 {
        term(2, 0, 0, 2, -1595, 0, 0)
    } else if i == 37 {
        term(4, -1, -1, 0, 1215, -3958, 0)
    } else if i == 38 {
        term(0, 0, 2, 2, -1110, 0, 0)
    } else if i == 39 {
        term(3, 0, -1, 0, -892, 3258, 0)
    } else if i == 40 {
        term(2, 1, 1, 0, -810, 2616, 0)
    } else if i == 41 {
        term(4, -1, -2, 0, 759, -1897, 0)
    } else if i == 42 {
        term(0, 2, -1, 0, -713, -2117, 0)
    } else if i == 43 {
        term(2, 2, -1, 0, -700, 2354, 0)
    } else if i == 44 {
        term(2, 1, -2, 0, 691, 0, 0)
    } else if i == 45 {
        term(2, -1, 0, -2, 596, 0, 0)
    } else if i == 46 {
        term(4, 0, 1, 0, 549, -1423, 0)
    } else if i == 47 {
        term(0, 0, 4, 0, 537, -1117, 0)
    } else if i == 48 {
        term(4, -1, 0, 0, 520, -1571, 0)
    } else if i == 49 {
        term(1, 0, -2, 0, -487, -1739, 0)
    } else if i == 50 {
        term(2, 1, 0, -2, -399, 0, 0)
    } else if i == 51 {
        term(0, 0, 2, -2, -381, -4421, 0)
    } else if i == 52 {
        term(1, 1, 1, 0, 351, 0, 0)
    } else if i == 53 {
        term(3, 0, -2, 0, -340, 0, 0)
    } else if i == 54 {
        term(4, 0, -3, 0, 330, 0, 0)
    } else if i == 55 {
        term(2, -1, 2, 0, 327, 0, 0)
    } else if i == 56 {
        term(0, 2, 1, 0, -323, 1165, 0)
    } else if i == 57 {
        term(1, 1, -1, 0, 299, 0, 0)
    } else if i == 58 {
        term(2, 0, 3, 0, 294, 0, 0)
    } else if i == 59 {
        term(2, 0, -1, -2, 0, 8752, 0)
    } else if i == 60 {
        term(0, 0, 0, 1, 0, 0, 5128122)
    } else if i == 61 {
        term(0, 0, 1, 1, 0, 0, 280602)
    } else if i == 62 {
        term(0, 0, 1, -1, 0, 0, 277693)
    } else if i == 63 {
        term(2, 0, 0, -1, 0, 0, 173237)
    } else if i == 64 {
        term(2, 0, -1, 1, 0, 0, 55413)
    } else if i == 65 {
        term(2, 0, -1, -1, 0, 0, 46271)
    } else if i == 66 {
        term(2, 0, 0, 1, 0, 0, 32573)
    } else if i == 67 {
        term(0, 0, 2, 1, 0, 0, 17198)
    } else if i == 68 {
        term(2, 0, 1, -1, 0, 0, 9266)
    } else if i == 69 {
        term(0, 0, 2, -1, 0, 0, 8822)
    } else if i == 70 {
        term(2, -1, 0, -1, 0, 0, 8216)
    } else if i == 71 {
        term(2, 0, -2, -1, 0, 0, 4324)
    } else if i == 72 {
        term(2, 0, 1, 1, 0, 0, 4200)
    } else if i == 73 {
        term(2, 1, 0, -1, 0, 0, -3359)
    } else if i == 74 {
        term(2, -1, -1, 1, 0, 0, 2463)
    } else if i == 75 {
        term(2, -1, 0, 1, 0, 0, 2211)
    } else if i == 76 {
        term(2, -1, -1, -1, 0, 0, 2065)
    } else if i == 77 {
        term(0, 1, -1, -1, 0, 0, -1870)
    } else if i == 78 {
        term(4, 0, -1, -1, 0, 0, 1828)
    } else if i == 79 {
        term(0, 1, 0, 1, 0, 0, -1794)
    } else if i == 80 {
        term(0, 0, 0, 3, 0, 0, -1749)
    } else if i == 81 {
        term(0, 1, -1, 1, 0, 0, -1565)
    } else if i == 82 {
        term(1, 0, 0, 1, 0, 0, -1491)
    } else if i == 83 {
        term(0, 1, 1, 1, 0, 0, -1475)
    } else if i == 84 {
        term(0, 1, 1, -1, 0, 0, -1410)
    } else if i == 85 {
        term(0, 1, 0, -1, 0, 0, -1344)
    } else if i == 86 {
        term(1, 0, 0, -1, 0, 0, -1335)
    } else if i == 87 {
        term(0, 0, 3, 1, 0, 0, 1107)
    } else if i == 88 {
        term(4, 0, 0, -1, 0, 0, 1021)
    } else if i == 89 {
        term(4, 0, -1, 1, 0, 0, 833)
    } else if i == 90 {
        term(0, 0, 1, -3, 0, 0, 777)
    } else if i == 91 {
        term(4, 0, -2, 1, 0, 0, 671)
    } else if i == 92 {
        term(2, 0, 0, -3, 0, 0, 607)
    } else if i == 93 {
        term(2, 0, 2, -1, 0, 0, 596)
    } else if i == 94 {
        term(2, -1, 1, -1, 0, 0, 491)
    } else if i == 95 {
        term(2, 0, -2, 1, 0, 0, -451)
    } else if i == 96 {
        term(0, 0, 3, -1, 0, 0, 439)
    } else if i == 97 {
        term(2, 0, 2, 1, 0, 0, 422)
    } else if i == 98 {
        term(2, 0, -3, -1, 0, 0, 421)
    } else if i == 99 {
        term(2, 1, -1, 1, 0, 0, -366)
    } else if i == 100 {
        term(2, 1, 0, 1, 0, 0, -351)
    } else if i == 101 {
        term(4, 0, 0, 1, 0, 0, 331)
    } else if i == 102 {
        term(2, -1, 1, 1, 0, 0, 315)
    } else if i == 103 {
        term(2, -2, 0, -1, 0, 0, 302)
    } else if i == 104 {
        term(0, 0, 1, 3, 0, 0, -283)
    } else if i == 105 {
        term(2, 1, 1, -1, 0, 0, -229)
    } else if i == 106 {
        term(1, 1, 0, -1, 0, 0, 223)
    } else if i == 107 {
        term(1, 1, 0, 1, 0, 0, 223)
    } else if i == 108 {
        term(0, 1, -2, -1, 0, 0, -220)
    } else if i == 109 {
        term(2, 1, -1, -1, 0, 0, -220)
    } else if i == 110 {
        term(1, 0, 1, 1, 0, 0, -185)
    } else if i == 111 {
        term(2, -1, -2, -1, 0, 0, 181)
    } else if i == 112 {
        term(0, 1, 2, 1, 0, 0, -177)
    } else if i == 113 {
        term(4, 0, -2, -1, 0, 0, 176)
    } else if i == 114 {
        term(4, -1, -1, -1, 0, 0, 166)
    } else if i == 115 {
        term(1, 0, 1, -1, 0, 0, -164)
    } else if i == 116 {
        term(4, 0, 1, -1, 0, 0, 132)
    } else if i == 117 {
        term(1, 0, -1, -1, 0, 0, -119)
    } else if i == 118 {
        term(4, -1, 0, -1, 0, 0, 115)
    } else if i == 119 {
        term(2, -2, 0, 1, 0, 0, 107)
    } else {
        term(0, 0, 0, 0, 0, 0, 0)
    }
}

/// The number of rows the solver walks: sixty longitude/distance rows
/// followed by sixty latitude rows.
pub open spec fn table_len() -> int {
    120
}

/// The full table, in solver order.
pub open spec fn moon_table() -> Seq<PeriodicTerm> {
    Seq::new(table_len() as nat, |i: int| moon_term(i))
}


/// Executable constructor for a table row.
fn row(
    d: i64,
    m: i64,
    mp: i64,
    f: i64,
    lon_sin: i64,
    dist_cos: i64,
    lat_sin: i64,
) -> (t: PeriodicTerm)
    ensures
        t == term(
            d as int,
            m as int,
            mp as int,
            f as int,
            lon_sin as int,
            dist_cos as int,
            lat_sin as int,
        ),
{
    PeriodicTerm { d, m, mp, f, lon_sin, dist_cos, lat_sin }
}

/// The periodic-term tables as the solver consumes them: first the sixty
/// longitude/distance rows, then the sixty latitude rows, exactly the
/// spec-level table.
pub fn periodic_terms() -> (v: Vec<PeriodicTerm>)
    ensures
        v@ == moon_table(),
        v@.len() == 120,
        forall|i: int| 0 <= i < 120 ==> v@[i] == moon_term(i),
{
    let v: Vec<PeriodicTerm> = vec![
        row(0, 0, 1, 0, 6288774, -20905355, 0),
        row(2, 0, -1, 0, 1274027, -3699111, 0),
        row(2, 0, 0, 0, 658314, -2955968, 0),
        row(0, 0, 2, 0, 213618, -569925, 0),
        row(0, 1, 0, 0, -185116, 48888, 0),
        row(0, 0, 0, 2, -114332, -3149, 0),
        row(2, 0, -2, 0, 58793, 246158, 0),
        row(2, -1, -1, 0, 57066, -152138, 0),
        row(2, 0, 1, 0, 53322, -170733, 0),
        row(2, -1, 0, 0, 45758, -204586, 0),
        row(0, 1, -1, 0, -40923, -129620, 0),
        row(1, 0, 0, 0, -34720, 108743, 0),
        row(0, 1, 1, 0, -30383, 104755, 0),
        row(2, 0, 0, -2, 15327, 10321, 0),
        row(0, 0, 1, 2, -12528, 0, 0),
        row(0, 0, 1, -2, 10980, 79661, 0),
        row(4, 0, -1, 0, 10675, -34782, 0),
        row(0, 0, 3, 0, 10034, -23210, 0),
        row(4, 0, -2, 0, 8548, -21636, 0),
        row(2, 1, -1, 0, -7888, 24208, 0),
        row(2, 1, 0, 0, -6766, 30824, 0),
        row(1, 0, -1, 0, -5163, -8379, 0),
        row(1, 1, 0, 0, 4987, -16675, 0),
        row(2, -1, 1, 0, 4036, -12831, 0),
        row(2, 0, 2, 0, 3994, -10445, 0),
        row(4, 0, 0, 0, 3861, -11650, 0),
        row(2, 0, -3, 0, 3665, 14403, 0),
        row(0, 1, -2, 0, -2689, -7003, 0),
        row(2, 0, -1, 2, -2602, 0, 0),
        row(2, -1, -2, 0, 2390, 10056, 0),
        row(1, 0, 1, 0, -2348, 6322, 0),
        row(2, -2, 0, 0, 2236, -9884, 0),
        row(0, 1, 2, 0, -2120, 5751, 0),
        row(0, 2, 0, 0, -2069, 0, 0),
        row(2, -2, -1, 0, 2048, -4950, 0),
        row(2, 0, 1, -2, -1773, 4130, 0),
        row(2, 0, 0, 2, -1595, 0, 0),
        row(4, -1, -1, 0, 1215, -3958, 0),
        row(0, 0, 2, 2, -1110, 0, 0),
        row(3, 0, -1, 0, -892, 3258, 0),
        row(2, 1, 1, 0, -810, 2616, 0),
        row(4, -1, -2, 0, 759, -1897, 0),
        row(0, 2, -1, 0, -713, -2117, 0),
        row(2, 2, -1, 0, -700, 2354, 0),
        row(2, 1, -2, 0, 691, 0, 0),
        row(2, -1, 0, -2, 596, 0, 0),
        row(4, 0, 1, 0, 549, -1423, 0),
        row(0, 0, 4, 0, 537, -1117, 0),
        row(4, -1, 0, 0, 520, -1571, 0),
        row(1, 0, -2, 0, -487, -1739, 0),
        row(2, 1, 0, -2, -399, 0, 0),
        row(0, 0, 2, -2, -381, -4421, 0),
        row(1, 1, 1, 0, 351, 0, 0),
        row(3, 0, -2, 0, -340, 0, 0),
        row(4, 0, -3, 0, 330, 0, 0),
        row(2, -1, 2, 0, 327, 0, 0),
        row(0, 2, 1, 0, -323, 1165, 0),
        row(1, 1, -1, 0, 299, 0, 0),
        row(2, 0, 3, 0, 294, 0, 0),
        row(2, 0, -1, -2, 0, 8752, 0),
        row(0, 0, 0, 1, 0, 0, 5128122),
        row(0, 0, 1, 1, 0, 0, 280602),
        row(0, 0, 1, -1, 0, 0, 277693),
        row(2, 0, 0, -1, 0, 0, 173237),
        row(2, 0, -1, 1, 0, 0, 55413),
        row(2, 0, -1, -1, 0, 0, 46271),
        row(2, 0, 0, 1, 0, 0, 32573),
        row(0, 0, 2, 1, 0, 0, 17198),
        row(2, 0, 1, -1, 0, 0, 9266),
        row(0, 0, 2, -1, 0, 0, 8822),
        row(2, -1, 0, -1, 0, 0, 8216),
        row(2, 0, -2, -1, 0, 0, 4324),
        row(2, 0, 1, 1, 0, 0, 4200),
        row(2, 1, 0, -1, 0, 0, -3359),
        row(2, -1, -1, 1, 0, 0, 2463),
        row(2, -1, 0, 1, 0, 0, 2211),
        row(2, -1, -1, -1, 0, 0, 2065),
        row(0, 1, -1, -1, 0, 0, -1870),
        row(4, 0, -1, -1, 0, 0, 1828),
        row(0, 1, 0, 1, 0, 0, -1794),
        row(0, 0, 0, 3, 0, 0, -1749),
        row(0, 1, -1, 1, 0, 0, -1565),
        row(1, 0, 0, 1, 0, 0, -1491),
        row(0, 1, 1, 1, 0, 0, -1475),
        row(0, 1, 1, -1, 0, 0, -1410),
        row(0, 1, 0, -1, 0, 0, -1344),
        row(1, 0, 0, -1, 0, 0, -1335),
        row(0, 0, 3, 1, 0, 0, 1107),
        row(4, 0, 0, -1, 0, 0, 1021),
        row(4, 0, -1, 1, 0, 0, 833),
        row(0, 0, 1, -3, 0, 0, 777),
        row(4, 0, -2, 1, 0, 0, 671),
        row(2, 0, 0, -3, 0, 0, 607),
        row(2, 0, 2, -1, 0, 0, 596),
        row(2, -1, 1, -1, 0, 0, 491),
        row(2, 0, -2, 1, 0, 0, -451),
        row(0, 0, 3, -1, 0, 0, 439),
        row(2, 0, 2, 1, 0, 0, 422),
        row(2, 0, -3, -1, 0, 0, 421),
        row(2, 1, -1, 1, 0, 0, -366),
        row(2, 1, 0, 1, 0, 0, -351),
        row(4, 0, 0, 1, 0, 0, 331),
        row(2, -1, 1, 1, 0, 0, 315),
        row(2, -2, 0, -1, 0, 0, 302),
        row(0, 0, 1, 3, 0, 0, -283),
        row(2, 1, 1, -1, 0, 0, -229),
        row(1, 1, 0, -1, 0, 0, 223),
        row(1, 1, 0, 1, 0, 0, 223),
        row(0, 1, -2, -1, 0, 0, -220),
        row(2, 1, -1, -1, 0, 0, -220),
        row(1, 0, 1, 1, 0, 0, -185),
        row(2, -1, -2, -1, 0, 0, 181),
        row(0, 1, 2, 1, 0, 0, -177),
        row(4, 0, -2, -1, 0, 0, 176),
        row(4, -1, -1, -1, 0, 0, 166),
        row(1, 0, 1, -1, 0, 0, -164),
        row(4, 0, 1, -1, 0, 0, 132),
        row(1, 0, -1, -1, 0, 0, -119),
        row(4, -1, 0, -1, 0, 0, 115),
        row(2, -2, 0, 1, 0, 0, 107),
    ];
    proof {
        assert(v@ =~= moon_table());
    }
    v
}


/// Exponent applied to the eccentricity-correction base e for a given Sun
/// mean-anomaly multiplier: a term whose M-multiplier is plus or minus one
/// is scaled by e, one whose M-multiplier is plus or minus two by e
/// squared, and every other term is left unscaled. Total over every
/// integer, so the solver needs no further case.
pub open spec fn eccentricity_exponent_spec(m: int) -> int {
    if m == 1 || m == -1 {
        1
    } else if m == 2 || m == -2 {
        2
    } else {
        0
    }
}

/// Executable form of the eccentricity-correction exponent, pinned to the
/// specification.
pub fn eccentricity_exponent(m_multiplier: i64) -> (p: i32)
    ensures
        p == eccentricity_exponent_spec(m_multiplier as int),
{
    if m_multiplier == 1 || m_multiplier == -1 {
        1
    } else if m_multiplier == 2 || m_multiplier == -2 {
        2
    } else {
        0
    }
}

/// On the closed multiplier set the table is proved to stay within, the
/// eccentricity-correction exponent is exactly the absolute value of the
/// M-multiplier.
pub proof fn lemma_eccentricity_exponent_is_abs(m: int)
    requires
        -2 <= m <= 2,
    ensures
        eccentricity_exponent_spec(m) == vstd::math::abs(m),
{
}

/// Every row of the table keeps its M-multiplier in {-2, -1, 0, 1, 2}:
/// the set over which the eccentricity correction is the absolute-value
/// map, so no row ever falls into the unscaled default by accident.
pub proof fn lemma_m_multiplier_in_range()
    ensures
        forall|i: int|
            0 <= i < moon_table().len() ==> -2 <= (#[trigger] moon_table()[i]).m <= 2,
{
    assert forall|i: int|
        0 <= i < moon_table().len() implies -2 <= (#[trigger] moon_table()[i]).m <= 2 by {
        assert(moon_table()[i] == moon_term(i));
    }
}

/// Over the whole table, the eccentricity-correction exponent selected
/// for a row is exactly the absolute value of its M-multiplier: no row
/// reaches the unscaled default of the selector except through an
/// M-multiplier of zero.
pub proof fn lemma_table_correction_is_abs()
    ensures
        forall|i: int|
            0 <= i < moon_table().len() ==> eccentricity_exponent_spec(
                (#[trigger] moon_table()[i]).m as int,
            ) == vstd::math::abs(moon_table()[i].m as int),
{
    lemma_m_multiplier_in_range();
    assert forall|i: int|
        0 <= i < moon_table().len() implies eccentricity_exponent_spec(
        (#[trigger] moon_table()[i]).m as int,
    ) == vstd::math::abs(moon_table()[i].m as int) by {
        lemma_eccentricity_exponent_is_abs(moon_table()[i].m as int);
    }
}

/// The table is the two classical sixty-row series laid end to end: the
/// first sixty rows carry no latitude amplitude, the last sixty carry no
/// longitude or distance amplitude.
pub proof fn lemma_table_blocks()
    ensures
        moon_table().len() == 120,
        forall|i: int| 0 <= i < 60 ==> (#[trigger] moon_table()[i]).lat_sin == 0,
        forall|i: int|
            60 <= i < 120 ==> (#[trigger] moon_table()[i]).lon_sin == 0
                && moon_table()[i].dist_cos == 0,
{
    assert forall|i: int| 0 <= i < 60 implies (#[trigger] moon_table()[i]).lat_sin == 0 by {
        assert(moon_table()[i] == moon_term(i));
    }
    assert forall|i: int|
        60 <= i < 120 implies (#[trigger] moon_table()[i]).lon_sin == 0
            && moon_table()[i].dist_cos == 0 by {
        assert(moon_table()[i] == moon_term(i));
    }
}

} // verus!
