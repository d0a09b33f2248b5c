use moon_transit::event::{transit_offset_sign, Event};
use moon_transit::terms::{eccentricity_exponent, periodic_terms, PeriodicTerm};

fn row_values(t: PeriodicTerm) -> (i64, i64, i64, i64, i64, i64, i64) {
    (t.d, t.m, t.mp, t.f, t.lon_sin, t.dist_cos, t.lat_sin)
}

#[test]
fn table_has_one_hundred_twenty_rows() {
    assert_eq!(periodic_terms().len(), 120);
}

#[test]
fn table_first_longitude_row_exact() {
    let table = periodic_terms();
    assert_eq!(row_values(table[0]), (0, 0, 1, 0, 6_288_774, -20_905_355, 0));
}

#[test]
fn table_block_boundary_rows_exact() {
    let table = periodic_terms();
    // Last longitude/distance row.
    assert_eq!(row_values(table[59]), (2, 0, -1, -2, 0, 8_752, 0));
    // First latitude row.
    assert_eq!(row_values(table[60]), (0, 0, 0, 1, 0, 0, 5_128_122));
    // Last latitude row.
    assert_eq!(row_values(table[119]), (2, -2, 0, 1, 0, 0, 107));
}

#[test]
fn table_m_multiplier_always_in_closed_set() {
    for row in periodic_terms() {
        assert!(row.m == -2 || row.m == -1 || row.m == 0 || row.m == 1 || row.m == 2);
    }
}

#[test]
fn table_blocks_carry_disjoint_amplitudes() {
    let table = periodic_terms();
    for row in &table[..60] {
        assert_eq!(row.lat_sin, 0);
    }
    for row in &table[60..] {
        assert_eq!(row.lon_sin, 0);
        assert_eq!(row.dist_cos, 0);
    }
}

#[test]
fn eccentricity_exponent_on_the_closed_set() {
    assert_eq!(eccentricity_exponent(-2), 2);
    assert_eq!(eccentricity_exponent(-1), 1);
    assert_eq!(eccentricity_exponent(0), 0);
    assert_eq!(eccentricity_exponent(1), 1);
    assert_eq!(eccentricity_exponent(2), 2);
}

#[test]
fn eccentricity_exponent_defaults_to_zero_elsewhere() {
    assert_eq!(eccentricity_exponent(3), 0);
    assert_eq!(eccentricity_exponent(-3), 0);
    assert_eq!(eccentricity_exponent(17), 0);
}

#[test]
fn transit_offset_signs_are_opposite() {
    assert_eq!(transit_offset_sign(Event::Moonrise), -1);
    assert_eq!(transit_offset_sign(Event::Moonset), 1);
    assert_ne!(
        transit_offset_sign(Event::Moonrise),
        transit_offset_sign(Event::Moonset)
    );
}

#[test]
fn event_tags_compare_by_variant() {
    assert_eq!(Event::Moonrise, Event::Moonrise);
    assert_ne!(Event::Moonrise, Event::Moonset);
}
