use utilitaires_peripheriques::configuration::{depuis_octets_le, octets_le, Configuration};
use utilitaires_peripheriques::instruction::{Gain, Persistance, TempsIntegration};

fn toutes_les_configurations() -> Vec<Configuration> {
    let gains = [Gain::AlsGain1, Gain::AlsGain2, Gain::AlsGain1_8, Gain::AlsGain1_4];
    let temps = [
        TempsIntegration::AlsIt25MS,
        TempsIntegration::AlsIt50MS,
        TempsIntegration::AlsIt100MS,
        TempsIntegration::AlsIt200MS,
        TempsIntegration::AlsIt400MS,
        TempsIntegration::AlsIt800MS,
    ];
    let persistances = [
        Persistance::AlsPers1,
        Persistance::AlsPers2,
        Persistance::AlsPers4,
        Persistance::AlsPers8,
    ];
    let mut toutes = Vec::new();
    for gain in gains {
        for temps_integration in temps {
            for persistance in persistances {
                for interruption in [false, true] {
                    for arret in [false, true] {
                        toutes.push(Configuration {
                            gain,
                            temps_integration,
                            persistance,
                            interruption,
                            arret,
                        });
                    }
                }
            }
        }
    }
    toutes
}

#[test]
fn mot_au_gain_un_huitieme_et_100_ms() {
    let configuration = Configuration {
        gain: Gain::AlsGain1_8,
        temps_integration: TempsIntegration::AlsIt100MS,
        persistance: Persistance::AlsPers1,
        interruption: false,
        arret: false,
    };
    assert_eq!(configuration.mot(), 0x02 << 11);
    assert_eq!(configuration.mot(), 0x1000);
}

#[test]
fn mot_avec_tous_les_champs() {
    let configuration = Configuration {
        gain: Gain::AlsGain2,
        temps_integration: TempsIntegration::AlsIt25MS,
        persistance: Persistance::AlsPers8,
        interruption: true,
        arret: true,
    };
    assert_eq!(configuration.mot(), 0x0B33);
}

#[test]
fn mot_champ_par_champ() {
    let base = Configuration {
        gain: Gain::AlsGain1,
        temps_integration: TempsIntegration::AlsIt100MS,
        persistance: Persistance::AlsPers1,
        interruption: false,
        arret: false,
    };
    assert_eq!(base.mot(), 0x0000);
    assert_eq!(Configuration { gain: Gain::AlsGain1_4, ..base }.mot(), 0x1800);
    assert_eq!(Configuration { gain: Gain::AlsGain2, ..base }.mot(), 0x0800);
    assert_eq!(
        Configuration { temps_integration: TempsIntegration::AlsIt800MS, ..base }.mot(),
        0x00C0
    );
    assert_eq!(
        Configuration { temps_integration: TempsIntegration::AlsIt50MS, ..base }.mot(),
        0x0200
    );
    assert_eq!(Configuration { persistance: Persistance::AlsPers4, ..base }.mot(), 0x0020);
    assert_eq!(Configuration { interruption: true, ..base }.mot(), 0x0002);
    assert_eq!(Configuration { arret: true, ..base }.mot(), 0x0001);
}

#[test]
fn mot_est_la_somme_des_champs_decales() {
    for configuration in toutes_les_configurations() {
        let attendu = u16::from(configuration.gain.adresse()) * 2048
            + u16::from(configuration.temps_integration.adresse()) * 64
            + u16::from(configuration.persistance.adresse()) * 16
            + u16::from(configuration.interruption) * 2
            + u16::from(configuration.arret);
        assert_eq!(configuration.mot(), attendu);
    }
}

#[test]
fn aller_retour_de_chaque_configuration() {
    let toutes = toutes_les_configurations();
    assert_eq!(toutes.len(), 384);
    for configuration in toutes {
        assert_eq!(Configuration::depuis_mot(configuration.mot()), configuration);
    }
}

#[test]
fn lecture_d_un_mot() {
    let configuration = Configuration::depuis_mot(0x0B33);
    assert_eq!(configuration.gain, Gain::AlsGain2);
    assert_eq!(configuration.temps_integration, TempsIntegration::AlsIt25MS);
    assert_eq!(configuration.persistance, Persistance::AlsPers8);
    assert!(configuration.interruption);
    assert!(configuration.arret);
}

#[test]
fn lecture_d_un_temps_d_integration_inconnu() {
    let configuration = Configuration::depuis_mot(0x4 << 6);
    assert_eq!(configuration.temps_integration, TempsIntegration::AlsIt100MS);
    let configuration = Configuration::depuis_mot(0xF << 6);
    assert_eq!(configuration.temps_integration, TempsIntegration::AlsIt100MS);
}

#[test]
fn lecture_sans_egard_aux_bits_reserves() {
    let reserves: u16 = 0xE40C;
    for configuration in toutes_les_configurations() {
        assert_eq!(Configuration::depuis_mot(configuration.mot() | reserves), configuration);
    }
}

#[test]
fn octets_dans_l_ordre_du_bus() {
    assert_eq!(octets_le(0x1234), [0x34, 0x12]);
    assert_eq!(octets_le(0x1000), [0x00, 0x10]);
    assert_eq!(octets_le(0x00FF), [0xFF, 0x00]);
    assert_eq!(octets_le(0xFFFF), [0xFF, 0xFF]);
}

#[test]
fn mot_depuis_les_octets_du_bus() {
    assert_eq!(depuis_octets_le([0x34, 0x12]), 0x1234);
    assert_eq!(depuis_octets_le([0x00, 0x00]), 0);
    assert_eq!(depuis_octets_le([0xFF, 0xFF]), 65535);
    assert_eq!(depuis_octets_le([0x01, 0x00]), 1);
    assert_eq!(depuis_octets_le([0x00, 0x01]), 256);
}

#[test]
fn aller_retour_des_octets() {
    for mot in 0..=u16::MAX {
        assert_eq!(depuis_octets_le(octets_le(mot)), mot);
        assert_eq!(octets_le(mot), mot.to_le_bytes());
    }
}
