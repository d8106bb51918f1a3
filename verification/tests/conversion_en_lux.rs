use utilitaires_peripheriques::instruction::{Gain, TempsIntegration};
use utilitaires_peripheriques::luminosite::{
    lux_dix_milliemes, resolution, RESOLUTION_REFERENCE, TEMPS_REFERENCE_MS,
};

const GAINS: [Gain; 4] = [Gain::AlsGain2, Gain::AlsGain1, Gain::AlsGain1_4, Gain::AlsGain1_8];

const TEMPS: [TempsIntegration; 6] = [
    TempsIntegration::AlsIt800MS,
    TempsIntegration::AlsIt400MS,
    TempsIntegration::AlsIt200MS,
    TempsIntegration::AlsIt100MS,
    TempsIntegration::AlsIt50MS,
    TempsIntegration::AlsIt25MS,
];

#[test]
fn lecture_nulle_donne_zero_lux() {
    let lux = lux_dix_milliemes(0, Gain::AlsGain1, TempsIntegration::AlsIt25MS);
    assert_eq!(lux, 0);
    assert_eq!(f64::from(lux) / 10_000.0, 0.0);
}

#[test]
fn lecture_nulle_donne_zero_lux_a_tout_reglage() {
    for gain in GAINS {
        for temps in TEMPS {
            assert_eq!(lux_dix_milliemes(0, gain, temps), 0);
        }
    }
}

#[test]
fn resolution_de_reference() {
    assert_eq!(RESOLUTION_REFERENCE, 4608);
    assert_eq!(TEMPS_REFERENCE_MS, 100);
    assert_eq!(resolution(Gain::AlsGain1_8, TempsIntegration::AlsIt100MS), 4608);
}

#[test]
fn table_des_resolutions() {
    let attendues: [[u32; 4]; 6] = [
        [36, 72, 288, 576],
        [72, 144, 576, 1152],
        [144, 288, 1152, 2304],
        [288, 576, 2304, 4608],
        [576, 1152, 4608, 9216],
        [1152, 2304, 9216, 18432],
    ];
    for (ligne, temps) in TEMPS.iter().enumerate() {
        for (colonne, gain) in GAINS.iter().enumerate() {
            assert_eq!(resolution(*gain, *temps), attendues[ligne][colonne]);
        }
    }
}

#[test]
fn resolution_inverse_du_gain_et_de_la_duree() {
    for gain in GAINS {
        for temps in TEMPS {
            let produit = u32::from(gain.huitiemes()) * u32::from(temps.millisecondes());
            assert_eq!(resolution(gain, temps) * produit, 460_800);
        }
    }
}

#[test]
fn lux_d_une_lecture() {
    assert_eq!(lux_dix_milliemes(1, Gain::AlsGain1_8, TempsIntegration::AlsIt100MS), 4608);
    assert_eq!(lux_dix_milliemes(1000, Gain::AlsGain1, TempsIntegration::AlsIt100MS), 576_000);
    assert_eq!(lux_dix_milliemes(100, Gain::AlsGain2, TempsIntegration::AlsIt800MS), 3600);
    assert_eq!(lux_dix_milliemes(2500, Gain::AlsGain1_4, TempsIntegration::AlsIt50MS), 11_520_000);
}

#[test]
fn lux_de_la_plus_grande_lecture() {
    assert_eq!(
        lux_dix_milliemes(65535, Gain::AlsGain1_8, TempsIntegration::AlsIt25MS),
        1_207_941_120
    );
    assert_eq!(lux_dix_milliemes(65535, Gain::AlsGain2, TempsIntegration::AlsIt800MS), 2_359_260);
}

#[test]
fn lux_croit_avec_la_lecture() {
    for gain in GAINS {
        for temps in TEMPS {
            let mut precedent = 0;
            for brut in [0u16, 1, 2, 99, 100, 101, 9999, 10000, 65534, 65535] {
                let lux = lux_dix_milliemes(brut, gain, temps);
                assert!(lux >= precedent);
                assert_eq!(lux, u32::from(brut) * resolution(gain, temps));
                precedent = lux;
            }
        }
    }
}
