use rustcade::lattice::{
    build_lattice, build_magnets, cell_element, section_magnet, ElementType, LatticeElement,
    MagnetType, ELEMENTS_PER_CELL, LONG_DRIFT, MAGNET_LENGTH, NUM_SECTIONS, SHORT_DRIFT,
    TOTAL_ELEMENTS,
};

#[test]
fn ring_has_twenty_four_cells_of_six() {
    assert_eq!(NUM_SECTIONS, 24);
    assert_eq!(ELEMENTS_PER_CELL, 6);
    assert_eq!(TOTAL_ELEMENTS, 144);
    assert_eq!(build_lattice().len(), 144);
    assert_eq!(build_magnets().len(), 144);
}

#[test]
fn every_cell_is_f_drift_f_d_drift_d() {
    let lattice = build_lattice();
    let pattern = [
        ElementType::FMagnet,
        ElementType::ShortDrift,
        ElementType::FMagnet,
        ElementType::DMagnet,
        ElementType::LongDrift,
        ElementType::DMagnet,
    ];
    for (i, e) in lattice.iter().enumerate() {
        assert_eq!(*e, LatticeElement { elem_type: pattern[i % 6], cell: i / 6, index: i % 6 });
        assert_eq!(cell_element(i % 6), pattern[i % 6]);
    }
}

#[test]
fn every_section_is_qf_d1_qd_d2_vt_ht() {
    let magnets = build_magnets();
    let pattern = [
        MagnetType::FocusQuad,
        MagnetType::Dipole1,
        MagnetType::DefocusQuad,
        MagnetType::Dipole2,
        MagnetType::VTrim,
        MagnetType::HTrim,
    ];
    for (i, m) in magnets.iter().enumerate() {
        assert_eq!(m.mag_type, pattern[i % 6]);
        assert_eq!(m.section, i / 6);
        assert_eq!(m.power, 0);
        assert_eq!(section_magnet(i % 6), pattern[i % 6]);
    }
}

#[test]
fn element_lengths_and_labels() {
    assert_eq!(ElementType::FMagnet.length(), 2_889_000);
    assert_eq!(ElementType::DMagnet.length(), MAGNET_LENGTH);
    assert_eq!(ElementType::ShortDrift.length(), SHORT_DRIFT);
    assert_eq!(ElementType::LongDrift.length(), LONG_DRIFT);
    assert_eq!(SHORT_DRIFT, 1_200_000);
    assert_eq!(LONG_DRIFT, 6_000_000);
    assert_eq!(ElementType::FMagnet.label(), "F");
    assert_eq!(ElementType::DMagnet.label(), "D");
    assert_eq!(ElementType::ShortDrift.label(), "Os");
    assert_eq!(ElementType::LongDrift.label(), "OL");
    assert!(ElementType::FMagnet.is_magnet());
    assert!(ElementType::DMagnet.is_magnet());
    assert!(!ElementType::ShortDrift.is_magnet());
    assert!(!ElementType::LongDrift.is_magnet());
}

#[test]
fn magnet_labels() {
    assert_eq!(MagnetType::FocusQuad.label(), "QF");
    assert_eq!(MagnetType::Dipole1.label(), "D1");
    assert_eq!(MagnetType::DefocusQuad.label(), "QD");
    assert_eq!(MagnetType::Dipole2.label(), "D2");
    assert_eq!(MagnetType::VTrim.label(), "VT");
    assert_eq!(MagnetType::HTrim.label(), "HT");
}
