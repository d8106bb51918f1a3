use utilitaires_peripheriques::instruction::{Gain, TempsIntegration};
use utilitaires_peripheriques::luminosite::{lux_dix_milliemes, resolution};
use utilitaires_peripheriques::reglage::{Consigne, Phase, Regulateur, Seuils, PAS_MAXIMUM};

struct Bilan {
    reglages: Vec<(Gain, TempsIntegration)>,
    rendu: Option<(u16, u32)>,
    lectures_consommees: usize,
}

fn derouler(regulateur: &mut Regulateur, lectures: &[u16]) -> Bilan {
    let mut bilan = Bilan { reglages: Vec::new(), rendu: None, lectures_consommees: 0 };
    let mut consigne = regulateur.demander();
    loop {
        match consigne {
            Consigne::Lire => {
                if bilan.lectures_consommees == lectures.len() {
                    return bilan;
                }
                let brut = lectures[bilan.lectures_consommees];
                bilan.lectures_consommees += 1;
                consigne = regulateur.recevoir(brut);
            }
            Consigne::Configurer { gain, temps_integration } => {
                bilan.reglages.push((gain, temps_integration));
                consigne = regulateur.reprendre();
            }
            Consigne::Rendre { brut, lux_dix_milliemes } => {
                bilan.rendu = Some((brut, lux_dix_milliemes));
                return bilan;
            }
            Consigne::Aucune => return bilan,
        }
    }
}

fn seuils(bas: u16, haut: u16) -> Seuils {
    match Seuils::new(bas, haut) {
        Some(seuils) => seuils,
        None => panic!("seuils refuses"),
    }
}

#[test]
fn seuils_en_ordre() {
    let seuils = seuils(100, 10_000);
    assert_eq!(seuils.bas(), 100);
    assert_eq!(seuils.haut(), 10_000);
    assert!(Seuils::new(0, 1).is_some());
}

#[test]
fn seuils_en_desordre_refuses() {
    assert!(Seuils::new(100, 100).is_none());
    assert!(Seuils::new(10_000, 100).is_none());
    assert!(Seuils::new(0, 0).is_none());
    assert!(Seuils::new(65535, 65535).is_none());
}

#[test]
fn seuils_sentinelles() {
    let seuils = Seuils::sentinelles();
    assert_eq!(seuils.bas(), 0);
    assert_eq!(seuils.haut(), 65535);
}

#[test]
fn plafond_des_pas() {
    assert_eq!(PAS_MAXIMUM, 10);
}

#[test]
fn regulateur_neuf_au_repos() {
    let regulateur =
        Regulateur::new(seuils(100, 10_000), Gain::AlsGain1_8, TempsIntegration::AlsIt100MS);
    assert_eq!(regulateur.phase(), Phase::Repos);
    assert_eq!(regulateur.gain(), Gain::AlsGain1_8);
    assert_eq!(regulateur.temps_integration(), TempsIntegration::AlsIt100MS);
    assert_eq!(regulateur.pas(), 0);
}

#[test]
fn demande_de_mesure() {
    let mut regulateur =
        Regulateur::new(seuils(100, 10_000), Gain::AlsGain1, TempsIntegration::AlsIt100MS);
    assert_eq!(regulateur.demander(), Consigne::Lire);
    assert_eq!(regulateur.phase(), Phase::Mesure);
    assert_eq!(regulateur.demander(), Consigne::Aucune);
    assert_eq!(regulateur.phase(), Phase::Mesure);
}

#[test]
fn appels_hors_phase_sans_effet() {
    let mut regulateur =
        Regulateur::new(seuils(100, 10_000), Gain::AlsGain1, TempsIntegration::AlsIt100MS);
    assert_eq!(regulateur.recevoir(65535), Consigne::Aucune);
    assert_eq!(regulateur.reprendre(), Consigne::Aucune);
    assert_eq!(regulateur.phase(), Phase::Repos);
    assert_eq!(regulateur.gain(), Gain::AlsGain1);
    assert_eq!(regulateur.pas(), 0);
    regulateur.demander();
    assert_eq!(regulateur.reprendre(), Consigne::Aucune);
    assert_eq!(regulateur.phase(), Phase::Mesure);
    assert_eq!(
        regulateur.recevoir(65535),
        Consigne::Configurer {
            gain: Gain::AlsGain1_4,
            temps_integration: TempsIntegration::AlsIt50MS,
        }
    );
    assert_eq!(regulateur.phase(), Phase::Sature);
    assert_eq!(regulateur.recevoir(5000), Consigne::Aucune);
    assert_eq!(regulateur.demander(), Consigne::Aucune);
    assert_eq!(regulateur.phase(), Phase::Sature);
}

#[test]
fn lecture_dans_la_plage_stabilise() {
    let mut regulateur =
        Regulateur::new(seuils(100, 10_000), Gain::AlsGain1, TempsIntegration::AlsIt100MS);
    let bilan = derouler(&mut regulateur, &[5000]);
    assert!(bilan.reglages.is_empty());
    assert_eq!(bilan.rendu, Some((5000, 2_880_000)));
    assert_eq!(regulateur.phase(), Phase::Stable);
    assert_eq!(regulateur.gain(), Gain::AlsGain1);
    assert_eq!(regulateur.temps_integration(), TempsIntegration::AlsIt100MS);
    assert_eq!(regulateur.pas(), 0);
}

#[test]
fn bornes_des_seuils() {
    for (brut, change) in [(100u16, true), (101, false), (9_999, false), (10_000, true)] {
        let mut regulateur =
            Regulateur::new(seuils(100, 10_000), Gain::AlsGain1, TempsIntegration::AlsIt100MS);
        let bilan = derouler(&mut regulateur, &[brut]);
        assert_eq!(bilan.reglages.len() == 1, change);
        assert_eq!(bilan.rendu.is_some(), !change);
    }
}

#[test]
fn saturation_au_reglage_initial_converge() {
    let mut regulateur =
        Regulateur::new(seuils(100, 10_000), Gain::AlsGain1_8, TempsIntegration::AlsIt100MS);
    let avant = resolution(regulateur.gain(), regulateur.temps_integration());
    let bilan = derouler(&mut regulateur, &[65535, 40_000, 9_000, 1, 2, 3, 4, 5, 6, 7, 8]);
    assert_eq!(
        bilan.reglages,
        vec![
            (Gain::AlsGain1_8, TempsIntegration::AlsIt50MS),
            (Gain::AlsGain1_8, TempsIntegration::AlsIt25MS),
        ]
    );
    assert!(resolution(bilan.reglages[0].0, bilan.reglages[0].1) > avant);
    assert_eq!(regulateur.phase(), Phase::Stable);
    assert!(regulateur.pas() >= 1);
    assert!(regulateur.pas() <= PAS_MAXIMUM);
    assert_eq!(regulateur.pas(), 2);
    assert_eq!(bilan.lectures_consommees, 3);
    assert_eq!(
        bilan.rendu,
        Some((9_000, lux_dix_milliemes(9_000, Gain::AlsGain1_8, TempsIntegration::AlsIt25MS)))
    );
    assert_eq!(bilan.rendu, Some((9_000, 165_888_000)));
}

#[test]
fn saturation_constante_descend_au_minimum() {
    let mut regulateur =
        Regulateur::new(Seuils::sentinelles(), Gain::AlsGain2, TempsIntegration::AlsIt800MS);
    let bilan = derouler(&mut regulateur, &[65535; 11]);
    assert_eq!(
        bilan.reglages,
        vec![
            (Gain::AlsGain1, TempsIntegration::AlsIt400MS),
            (Gain::AlsGain1_4, TempsIntegration::AlsIt200MS),
            (Gain::AlsGain1_8, TempsIntegration::AlsIt100MS),
            (Gain::AlsGain1_8, TempsIntegration::AlsIt50MS),
            (Gain::AlsGain1_8, TempsIntegration::AlsIt25MS),
        ]
    );
    assert_eq!(bilan.lectures_consommees, 6);
    assert_eq!(bilan.rendu, Some((65535, 1_207_941_120)));
    assert_eq!(regulateur.phase(), Phase::Stable);
    assert_eq!(regulateur.pas(), 5);
}

#[test]
fn sous_exposition_constante_monte_au_maximum() {
    let mut regulateur =
        Regulateur::new(Seuils::sentinelles(), Gain::AlsGain1_8, TempsIntegration::AlsIt25MS);
    let bilan = derouler(&mut regulateur, &[0; 11]);
    assert_eq!(
        bilan.reglages,
        vec![
            (Gain::AlsGain1_4, TempsIntegration::AlsIt50MS),
            (Gain::AlsGain1, TempsIntegration::AlsIt100MS),
            (Gain::AlsGain2, TempsIntegration::AlsIt200MS),
            (Gain::AlsGain2, TempsIntegration::AlsIt400MS),
            (Gain::AlsGain2, TempsIntegration::AlsIt800MS),
        ]
    );
    assert_eq!(bilan.lectures_consommees, 6);
    assert_eq!(bilan.rendu, Some((0, 0)));
    assert_eq!(regulateur.phase(), Phase::Stable);
    assert_eq!(regulateur.pas(), 5);
}

#[test]
fn sature_au_minimum_stabilise_sans_pas() {
    let mut regulateur =
        Regulateur::new(seuils(100, 10_000), Gain::AlsGain1_8, TempsIntegration::AlsIt25MS);
    let bilan = derouler(&mut regulateur, &[65535]);
    assert!(bilan.reglages.is_empty());
    assert_eq!(bilan.rendu, Some((65535, 1_207_941_120)));
    assert_eq!(regulateur.pas(), 0);
}

#[test]
fn sous_expose_au_maximum_stabilise_sans_pas() {
    let mut regulateur =
        Regulateur::new(seuils(100, 10_000), Gain::AlsGain2, TempsIntegration::AlsIt800MS);
    let bilan = derouler(&mut regulateur, &[0]);
    assert!(bilan.reglages.is_empty());
    assert_eq!(bilan.rendu, Some((0, 0)));
    assert_eq!(regulateur.pas(), 0);
}

#[test]
fn oscillation_arretee_au_plafond() {
    let mut regulateur =
        Regulateur::new(seuils(100, 10_000), Gain::AlsGain1, TempsIntegration::AlsIt100MS);
    let lectures: Vec<u16> = (0..40).map(|i| if i % 2 == 0 { 65535 } else { 0 }).collect();
    let bilan = derouler(&mut regulateur, &lectures);
    assert_eq!(bilan.reglages.len(), 10);
    assert_eq!(bilan.lectures_consommees, 11);
    assert_eq!(regulateur.pas(), PAS_MAXIMUM);
    assert_eq!(regulateur.phase(), Phase::Stable);
    assert_eq!(regulateur.gain(), Gain::AlsGain1);
    assert_eq!(regulateur.temps_integration(), TempsIntegration::AlsIt100MS);
    assert_eq!(bilan.rendu, Some((65535, 65535 * 576)));
}

#[test]
fn tout_cycle_se_termine_en_onze_lectures() {
    let motifs: [[u16; 3]; 6] = [
        [65535, 65535, 0],
        [0, 0, 65535],
        [65535, 0, 0],
        [0, 65535, 65535],
        [0, 65535, 0],
        [65535, 0, 65535],
    ];
    for motif in motifs {
        for gain in [Gain::AlsGain1, Gain::AlsGain2, Gain::AlsGain1_8, Gain::AlsGain1_4] {
            let lectures: Vec<u16> = (0..11).map(|i| motif[i % 3]).collect();
            let mut regulateur =
                Regulateur::new(Seuils::sentinelles(), gain, TempsIntegration::AlsIt100MS);
            let bilan = derouler(&mut regulateur, &lectures);
            assert!(bilan.rendu.is_some());
            assert!(bilan.reglages.len() <= 10);
            assert_eq!(regulateur.phase(), Phase::Stable);
        }
    }
}

#[test]
fn stable_est_terminal() {
    let mut regulateur =
        Regulateur::new(seuils(100, 10_000), Gain::AlsGain1, TempsIntegration::AlsIt100MS);
    derouler(&mut regulateur, &[5000]);
    assert_eq!(regulateur.demander(), Consigne::Aucune);
    assert_eq!(regulateur.recevoir(65535), Consigne::Aucune);
    assert_eq!(regulateur.reprendre(), Consigne::Aucune);
    assert_eq!(regulateur.phase(), Phase::Stable);
    assert_eq!(regulateur.gain(), Gain::AlsGain1);
}
