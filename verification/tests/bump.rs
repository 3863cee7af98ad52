use rustcade::bump::{next_bump_mode, BumpAxis, BumpConfig};

#[test]
fn coefficients_of_every_size_sum_to_zero() {
    for size in [3usize, 4, 5] {
        let coeffs = BumpConfig::new(size, 0).coefficients();
        assert_eq!(coeffs.len(), size);
        assert_eq!(coeffs.iter().sum::<i64>(), 0);
    }
}

#[test]
fn coefficients_follow_the_patterns() {
    assert_eq!(BumpConfig::new(3, 7).coefficients(), vec![1, -2, 1]);
    assert_eq!(BumpConfig::new(4, 7).coefficients(), vec![1, -1, -1, 1]);
    assert_eq!(BumpConfig::new(5, 7).coefficients(), vec![1, -2, 2, -2, 1]);
}

#[test]
fn other_sizes_have_no_coefficients() {
    assert_eq!(BumpConfig::new(0, 0).coefficients(), Vec::<i64>::new());
    assert_eq!(BumpConfig::new(2, 0).coefficients(), Vec::<i64>::new());
    assert_eq!(BumpConfig::new(6, 0).coefficients(), Vec::<i64>::new());
    assert_eq!(BumpConfig::new(6, 3).coeff_for_section(3), None);
    assert_eq!(BumpConfig::new(6, 3).section_coefficients(), Vec::<(usize, i64)>::new());
}

#[test]
fn new_bump_is_horizontal() {
    let b = BumpConfig::new(4, 11);
    assert_eq!(b, BumpConfig { size: 4, start_section: 11, axis: BumpAxis::X });
}

#[test]
fn section_coefficients_name_consecutive_cells() {
    assert_eq!(BumpConfig::new(3, 5).section_coefficients(), vec![(5, 1), (6, -2), (7, 1)]);
}

#[test]
fn section_coefficients_wrap_round_the_ring() {
    assert_eq!(
        BumpConfig::new(5, 22).section_coefficients(),
        vec![(22, 1), (23, -2), (0, 2), (1, -2), (2, 1)]
    );
    assert_eq!(BumpConfig::new(4, 23).section_coefficients(), vec![(23, 1), (0, -1), (1, -1), (2, 1)]);
}

#[test]
fn contains_section_is_the_span() {
    let b = BumpConfig::new(3, 23);
    assert!(b.contains_section(23));
    assert!(b.contains_section(0));
    assert!(b.contains_section(1));
    assert!(!b.contains_section(2));
    assert!(!b.contains_section(22));
    assert!(!b.contains_section(24));
}

#[test]
fn coeff_for_section_finds_the_coefficient() {
    let b = BumpConfig::new(5, 22);
    assert_eq!(b.coeff_for_section(22), Some(1));
    assert_eq!(b.coeff_for_section(23), Some(-2));
    assert_eq!(b.coeff_for_section(0), Some(2));
    assert_eq!(b.coeff_for_section(1), Some(-2));
    assert_eq!(b.coeff_for_section(2), Some(1));
    assert_eq!(b.coeff_for_section(3), None);
    assert_eq!(b.coeff_for_section(21), None);
    assert_eq!(b.coeff_for_section(24), None);
}

#[test]
fn contains_and_coeff_agree_on_every_cell() {
    for size in [3usize, 4, 5] {
        for start in 0..24 {
            let b = BumpConfig::new(size, start);
            for sec in 0..30 {
                assert_eq!(b.contains_section(sec), b.coeff_for_section(sec).is_some());
            }
        }
    }
}

#[test]
fn trim_index_depends_on_the_axis() {
    let mut b = BumpConfig::new(3, 0);
    assert_eq!(b.trim_index_in_section(0), 5);
    assert_eq!(b.trim_index_in_section(23), 143);
    b.axis = b.axis.toggle();
    assert_eq!(b.axis, BumpAxis::Y);
    assert_eq!(b.trim_index_in_section(0), 4);
    assert_eq!(b.trim_index_in_section(23), 142);
}

#[test]
fn axis_labels_and_toggle() {
    assert_eq!(BumpAxis::X.label(), "X");
    assert_eq!(BumpAxis::Y.label(), "Y");
    assert_eq!(BumpAxis::X.toggle(), BumpAxis::Y);
    assert_eq!(BumpAxis::Y.toggle(), BumpAxis::X);
}

#[test]
fn shifting_wraps_round_the_ring() {
    assert_eq!(BumpConfig::new(3, 23).shifted_forward().start_section, 0);
    assert_eq!(BumpConfig::new(3, 4).shifted_forward().start_section, 5);
    assert_eq!(BumpConfig::new(3, 0).shifted_back().start_section, 23);
    assert_eq!(BumpConfig::new(3, 4).shifted_back().start_section, 3);
    assert_eq!(BumpConfig::new(5, 4).shifted_back().size, 5);
}

#[test]
fn bump_modes_cycle_off_three_four_five_off() {
    let three = next_bump_mode(None, 9);
    assert_eq!(three, Some(BumpConfig::new(3, 9)));
    let four = next_bump_mode(three, 0);
    assert_eq!(four, Some(BumpConfig::new(4, 9)));
    let five = next_bump_mode(four, 0);
    assert_eq!(five, Some(BumpConfig::new(5, 9)));
    assert_eq!(next_bump_mode(five, 0), None);
}
