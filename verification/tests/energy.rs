use rustcade::energy::{
    bucket_height, gamma_ratio, gamma_to_beta, gamma_to_brho, gamma_to_momentum, inverse_square,
    kinetic_energy, kinetic_to_gamma, root, slip_factor, sqrt, sqrt_fine, EnergyState,
    E_EXTRACTION, E_INJECTION, GAMMA_TRANSITION,
};
use rustcade::optics::{
    bare_tune, beta_max, corrector_sums, dispersion, is_stable, space_charge, CorrectorSums,
    OpticsState, PlaneOptics,
};
use rustcade::corrector::CorrectorPackage;

#[test]
fn integer_square_roots() {
    assert_eq!(root(0), 0);
    assert_eq!(root(1), 1);
    assert_eq!(root(3), 1);
    assert_eq!(root(4), 2);
    assert_eq!(root(99), 9);
    assert_eq!(root(100), 10);
    assert_eq!(root(1_000_000_000_000_000_000), 1_000_000_000);
    assert_eq!(root(u64::MAX), 4_294_967_295);
    for n in 0..10_000u64 {
        let r = root(n);
        assert!(r * r <= n && n < (r + 1) * (r + 1));
    }
}

#[test]
fn fixed_point_square_roots() {
    assert_eq!(sqrt(4_000_000), 2_000_000);
    assert_eq!(sqrt(2_000_000), 1_414_213);
    assert_eq!(sqrt(250_000), 500_000);
    assert_eq!(sqrt(1), 1_000);
    assert_eq!(sqrt(0), 0);
    assert_eq!(sqrt(-4_000_000), 0);
    assert_eq!(sqrt(i64::MAX), 1_000_000_000);
}

#[test]
fn the_ramp_goes_from_injection_to_extraction() {
    assert_eq!(kinetic_energy(1_000_000), E_INJECTION);
    assert_eq!(kinetic_energy(-1_000_000), E_EXTRACTION);
    assert_eq!(kinetic_energy(0), 4_200_000);
    assert_eq!(kinetic_energy(500_000), 2_300_000);
    // Beyond the ends of the cosine nothing changes.
    assert_eq!(kinetic_energy(2_000_000), E_INJECTION);
    assert_eq!(kinetic_energy(i64::MIN), E_EXTRACTION);
}

#[test]
fn energy_never_falls_over_the_cycle() {
    let mut last = 0;
    for turn in 0..=15_000u32 {
        let angle = std::f64::consts::PI * turn as f64 / 15_000.0;
        let ke = kinetic_energy((angle.cos() * 1e6).round() as i64);
        assert!(ke >= last);
        last = ke;
        let exact = 0.4 + 0.5 * 7.6 * (1.0 - angle.cos());
        assert!((ke as f64 / 1e6 - exact).abs() < 5e-6);
    }
    assert_eq!(last, E_EXTRACTION);
}

#[test]
fn kinematics_at_injection_transition_and_extraction() {
    let inj = EnergyState::injection();
    assert_eq!(inj, EnergyState { turn: 0, ke: 400_000, gamma: 1_426_316, beta: 713_056, brho: 3_183_094 });
    assert_eq!(inj, EnergyState::at(0, 1_000_000));
    assert_eq!(
        EnergyState::at(7_500, 0),
        EnergyState { turn: 7_500, ke: 4_200_000, gamma: 5_476_323, beta: 983_186, brho: 16_851_375 }
    );
    assert_eq!(
        EnergyState::at(15_000, -1_000_000),
        EnergyState { turn: 15_000, ke: 8_000_000, gamma: 9_526_330, beta: 994_475, brho: 29_650_371 }
    );
    assert_eq!(kinetic_to_gamma(400_000), 1_426_316);
    assert_eq!(gamma_to_beta(1_426_316), 713_056);
    assert_eq!(gamma_to_momentum(1_426_316), 954_260);
    assert_eq!(gamma_to_brho(1_426_316), 3_183_094);
    assert_eq!(gamma_to_beta(1_000_000), 0);
    assert_eq!(gamma_to_beta(0), 1_000_000);
}

#[test]
fn kinematics_follow_the_exact_formulas() {
    for c in [1.0f64, 0.7, 0.3, 0.0, -0.4, -1.0] {
        let e = EnergyState::at(0, (c * 1e6) as i64);
        let ke = 0.4 + 0.5 * 7.6 * (1.0 - c);
        let gamma = (ke + 0.93827) / 0.93827;
        let beta = (1.0 - 1.0 / (gamma * gamma)).sqrt();
        let brho = gamma * beta * 0.93827 / 0.29979;
        assert!((e.ke as f64 / 1e6 - ke).abs() < 1e-5);
        assert!((e.gamma as f64 / 1e6 - gamma).abs() < 1e-5);
        assert!((e.beta as f64 / 1e6 - beta).abs() < 1e-5);
        assert!((e.brho as f64 / 1e6 - brho).abs() < 1e-4);
        let eta = 1.0 / (5.446 * 5.446) - 1.0 / (gamma * gamma);
        assert!((slip_factor(e.gamma) as f64 / 1e6 - eta).abs() < 1e-5);
    }
}

#[test]
fn slip_factor_changes_sign_at_transition() {
    assert_eq!(inverse_square(GAMMA_TRANSITION), 33_716);
    assert_eq!(inverse_square(1_426_316), 491_550);
    assert_eq!(inverse_square(0), 0);
    assert_eq!(inverse_square(-5), 0);
    assert_eq!(slip_factor(1_426_316), -457_834);
    assert_eq!(slip_factor(GAMMA_TRANSITION), 0);
    assert_eq!(slip_factor(9_526_330), 22_697);
    assert!(slip_factor(GAMMA_TRANSITION - 10_000) < 0);
    assert!(slip_factor(GAMMA_TRANSITION + 10_000) > 0);
    assert_eq!(gamma_ratio(GAMMA_TRANSITION), 1_000_000);
    assert_eq!(gamma_ratio(1_426_316), 261_901);
    assert_eq!(gamma_ratio(9_526_330), 1_749_234);
}

#[test]
fn tune_comes_from_a_stable_cell_only() {
    let stable = PlaneOptics { cos_mu: -258_819, mu: 1_832_596, m12: 20_000_000 };
    assert!(is_stable(stable));
    assert_eq!(bare_tune(6_700_000, stable), 7_000_001);
    let edge = PlaneOptics { cos_mu: 1_000_000, mu: 0, m12: 19_000_000 };
    assert!(is_stable(edge));
    assert_eq!(bare_tune(6_700_000, edge), 0);
    let unstable = PlaneOptics { cos_mu: 1_000_001, mu: 5, m12: 7 };
    assert!(!is_stable(unstable));
    assert_eq!(bare_tune(6_700_000, unstable), 6_700_000);
    let unstable = PlaneOptics { cos_mu: -2_000_000, mu: 5, m12: 7 };
    assert_eq!(bare_tune(6_800_000, unstable), 6_800_000);
}

#[test]
fn beta_comes_from_a_strictly_stable_cell_only() {
    let stable = PlaneOptics { cos_mu: -258_819, mu: 1_832_596, m12: -20_000_000 };
    assert_eq!(beta_max(33_700_000, stable), 20_705_541);
    // A pure drift: the cosine is one, the sine zero, and nothing is divided.
    let drift = PlaneOptics { cos_mu: 1_000_000, mu: 0, m12: 19_756_000 };
    assert_eq!(beta_max(33_700_000, drift), 33_700_000);
    let nearly = PlaneOptics { cos_mu: 999_999, mu: 1_414, m12: 19_756_000 };
    assert_eq!(beta_max(33_700_000, nearly), 33_700_000);
    let small_sine = PlaneOptics { cos_mu: 999_000, mu: 44_725, m12: 7_000_000 };
    assert_eq!(beta_max(33_700_000, small_sine), 156_564_526);
    let unstable = PlaneOptics { cos_mu: 1_500_000, mu: 0, m12: 19_756_000 };
    assert_eq!(beta_max(33_700_000, unstable), 33_700_000);
}

#[test]
fn dispersion_is_capped_near_transition() {
    assert_eq!(dispersion(-457_834), 235_660);
    assert_eq!(dispersion(22_697), 4_753_642);
    assert_eq!(dispersion(-12_934), 8_341_848);
    assert_eq!(dispersion(10_000), 50_000_000);
    assert_eq!(dispersion(0), 50_000_000);
    assert_eq!(dispersion(-2_072), 50_000_000);
    assert_eq!(dispersion(i64::MAX), 64_000);
    for eta in (-500_000..500_000).step_by(997) {
        let d = dispersion(eta);
        assert!(0 < d && d <= 50_000_000);
    }
}

#[test]
fn sums_over_the_correctors() {
    let mut correctors = vec![CorrectorPackage::new(); 24];
    assert_eq!(corrector_sums(&correctors), CorrectorSums { trim_quad: 0, sext_a: 0, sext_b: 0 });
    correctors[0].trim_quad = 5;
    correctors[23].trim_quad = -2;
    correctors[7].sext_a = 11;
    correctors[8].sext_b = -13;
    correctors[8].h_trim = 99;
    assert_eq!(corrector_sums(&correctors), CorrectorSums { trim_quad: 3, sext_a: 11, sext_b: -13 });
}

#[test]
fn an_update_of_the_optics() {
    let x = PlaneOptics { cos_mu: -258_819, mu: 1_832_596, m12: 20_000_000 };
    let y = PlaneOptics { cos_mu: -258_819, mu: 1_832_595, m12: 12_000_000 };
    let energy = EnergyState::at(7_400, 7_487);
    let sums = CorrectorSums { trim_quad: 2_000_000, sext_a: 300_000, sext_b: -500_000 };
    let o = OpticsState::bare().updated(x, y, 0, sums, 900_000, energy);
    assert_eq!(
        o,
        OpticsState {
            tune_x: 7_100_001,
            tune_y: 6_899_997,
            beta_x_max: 20_705_541,
            beta_y_max: 12_423_324,
            dispersion_max: 50_000_000,
            chromaticity_x: -7_000_001,
            chromaticity_y: -8_199_997,
            sc_tune_shift: -4_709,
        }
    );
    assert_eq!(space_charge(7, 1_000_000, energy), -5_232);
    assert_eq!(space_charge(7, 1_000_000, EnergyState { turn: 0, ke: 0, gamma: 0, beta: 0, brho: 0 }), 7);
}

#[test]
fn an_unstable_cell_keeps_tunes_and_betas() {
    let x = PlaneOptics { cos_mu: 1_000_001, mu: 5, m12: 7 };
    let y = PlaneOptics { cos_mu: -2_000_000, mu: 5, m12: 7 };
    let energy = EnergyState::at(7_400, 7_487);
    let nothing = CorrectorSums { trim_quad: 0, sext_a: 0, sext_b: 0 };
    let o = OpticsState::bare().updated(x, y, 0, nothing, 1_000_000, energy);
    assert_eq!(o.tune_x, 6_700_000);
    assert_eq!(o.tune_y, 6_800_000);
    assert_eq!(o.beta_x_max, 33_700_000);
    assert_eq!(o.beta_y_max, 20_400_000);
    assert_eq!(o.chromaticity_x, -6_700_000);
    assert_eq!(o.chromaticity_y, -6_800_000);
    // The trim quadrupoles move the tunes all the same.
    let quads = CorrectorSums { trim_quad: 2_000_000, sext_a: 0, sext_b: 0 };
    let o = OpticsState::bare().updated(x, y, 0, quads, 1_000_000, energy);
    assert_eq!(o.tune_x, 6_800_000);
    assert_eq!(o.tune_y, 6_700_000);
}

#[test]
fn bucket_height_follows_voltage_energy_and_slip() {
    let inj = EnergyState::injection();
    assert_eq!(bucket_height(inj, 500_000), 2_372);
    assert_eq!(bucket_height(inj, 1_160_000), 3_614);
    assert_eq!(bucket_height(inj, 0), 0);
    assert_eq!(bucket_height(inj, -500_000), 0);
    assert_eq!(bucket_height(EnergyState::at(15_000, -1_000_000), 500_000), 38_416);
    assert_eq!(bucket_height(EnergyState::at(7_400, 20_000), 500_000), 170_662);
    assert_eq!(bucket_height(EnergyState::at(7_500, 0), 500_000), 224_935);
    // Where the slip factor vanishes, the bucket all but does.
    assert_eq!(slip_factor(EnergyState::at(7_460, 7_487).gamma), 0);
    assert_eq!(bucket_height(EnergyState::at(7_460, 7_487), 500_000), 1_000);
}

#[test]
fn bucket_height_follows_the_exact_formula() {
    for c in [1.0f64, 0.6, 0.2, -0.3, -1.0] {
        for v in [0.1f64, 0.5, 1.16] {
            let e = EnergyState::at(0, (c * 1e6) as i64);
            let eta = slip_factor(e.gamma) as f64 / 1e6;
            let beta = e.beta as f64 / 1e6;
            let total = e.ke as f64 / 1e6 + 0.93827;
            let exact =
                (2.0 * v * 1e-3 * beta * beta * total / (std::f64::consts::PI * 84.0 * eta.abs())).sqrt();
            let got = bucket_height(e, (v * 1e6) as i64) as f64 / 1e6;
            assert!((got - exact).abs() < 2e-6, "{} {} {} {}", c, v, got, exact);
        }
    }
}

#[test]
fn fine_square_roots() {
    assert_eq!(sqrt_fine(5_400), 2_323);
    assert_eq!(sqrt_fine(1_000_000_000), 1_000_000);
    assert_eq!(sqrt_fine(0), 0);
    assert_eq!(sqrt_fine(-1), 0);
    assert_eq!(sqrt_fine(i64::MAX), 31_622_776);
}
