//! The sensor driver without its bus: it keeps the configuration that was
//! last handed out for writing, and turns requests into bus writes and raw
//! counts into illuminance.

use crate::configuration::{
    loi_aller_retour_configuration, loi_aller_retour_octets, loi_champs_disjoints, mot_des_octets,
    octets_du_mot, octets_le, Configuration,
};
use crate::instruction::{
    AdresseCapteur, Gain, ModeEconomieEnergie, Persistance, Registre, TempsIntegration,
};
use crate::luminosite::{lux_dix_milliemes, spec_lux_dix_milliemes};
use vstd::prelude::*;

verus! {

/// A write that the caller performs on the bus: two bytes at a register of
/// the device.
#[derive(Copy, Clone, PartialEq, Eq, Debug)]
pub struct Ecriture {
    /// Bus address of the device that is written to.
    pub adresse: u16,
    /// Offset of the register that is written.
    pub registre: u8,
    /// The bytes in the order in which they go on the bus.
    pub octets: [u8; 2],
    /// Integration time of the configuration written, in milliseconds. The
    /// write starts a new measurement: a count read before this long has
    /// passed does not belong to the new configuration.
    pub integration_ms: u16,
}

/// A read that the caller performs on the bus: two bytes from a register of
/// the device, low byte first.
#[derive(Copy, Clone, PartialEq, Eq, Debug, Structural)]
pub struct Lecture {
    /// Bus address of the device that is read.
    pub adresse: u16,
    /// Offset of the register that is read.
    pub registre: u8,
}

/// Driver state of one sensor.
///
/// The caller owns the bus. Each method that changes the configuration
/// returns the write that puts it on the device; the caller performs that
/// write and, between a write and the next read, lets the integration time
/// elapse. Where the bus refuses the write, the caller keeps the driver value
/// that it had before the call.
#[derive(Copy, Clone, Debug)]
pub struct Veml7700 {
    configuration: Configuration,
    mode_economie: ModeEconomieEnergie,
}

impl Configuration {
    /// The configuration that the driver starts the device with: gain ×1/8,
    /// 100 ms, one sample of persistence, no interrupt, powered.
    pub open spec fn spec_demarrage() -> Configuration {
        Configuration {
            gain: Gain::AlsGain1_8,
            temps_integration: TempsIntegration::AlsIt100MS,
            persistance: Persistance::AlsPers1,
            interruption: false,
            arret: false,
        }
    }

    /// The configuration that the driver starts the device with.
    #[verifier::when_used_as_spec(spec_demarrage)]
    pub fn demarrage() -> (configuration: Configuration)
        ensures
            configuration == Configuration::spec_demarrage(),
    {
        Configuration {
            gain: Gain::AlsGain1_8,
            temps_integration: TempsIntegration::AlsIt100MS,
            persistance: Persistance::AlsPers1,
            interruption: false,
            arret: false,
        }
    }
}

impl Ecriture {
    /// Whether this is the write of a configuration to the configuration
    /// register: the register's offset, then the word's low and high byte.
    pub open spec fn porte(&self, configuration: Configuration) -> bool {
        &&& self.adresse == AdresseCapteur::I2cAddress.spec_adresse()
        &&& self.registre == Registre::AlsConfig.spec_adresse()
        &&& self.octets@ == octets_du_mot(configuration.spec_mot())
        &&& self.integration_ms == configuration.temps_integration.spec_millisecondes()
    }
}

impl Veml7700 {
    /// The configuration that was last handed out for writing.
    pub closed spec fn spec_configuration(&self) -> Configuration {
        self.configuration
    }

    /// The power-saving level that was last asked for.
    pub closed spec fn spec_mode_economie(&self) -> ModeEconomieEnergie {
        self.mode_economie
    }

    /// A driver for a device that has not been started: the start-up
    /// selection, with the device held shut down.
    pub fn new() -> (capteur: Veml7700)
        ensures
            capteur.spec_configuration() == (Configuration {
                arret: true,
                ..Configuration::spec_demarrage()
            }),
            capteur.spec_mode_economie() == ModeEconomieEnergie::AlsPowerSaveMode1,
    {
        Veml7700 {
            configuration: Configuration {
                gain: Gain::AlsGain1_8,
                temps_integration: TempsIntegration::AlsIt100MS,
                persistance: Persistance::AlsPers1,
                interruption: false,
                arret: true,
            },
            mode_economie: ModeEconomieEnergie::AlsPowerSaveMode1,
        }
    }

    /// The configuration that was last handed out for writing.
    #[verifier::when_used_as_spec(spec_configuration)]
    pub fn configuration(&self) -> (configuration: Configuration)
        ensures
            configuration == self.spec_configuration(),
    {
        self.configuration
    }

    /// The power-saving level that was last asked for.
    #[verifier::when_used_as_spec(spec_mode_economie)]
    pub fn mode_economie(&self) -> (mode: ModeEconomieEnergie)
        ensures
            mode == self.spec_mode_economie(),
    {
        self.mode_economie
    }

    /// The gain that the device measures with.
    pub fn gain(&self) -> (gain: Gain)
        ensures
            gain == self.spec_configuration().gain,
    {
        self.configuration.gain
    }

    /// The integration time that the device measures with.
    pub fn temps_integration(&self) -> (temps: TempsIntegration)
        ensures
            temps == self.spec_configuration().temps_integration,
    {
        self.configuration.temps_integration
    }

    /// Whether the device is shut down.
    pub fn est_arrete(&self) -> (arret: bool)
        ensures
            arret == self.spec_configuration().arret,
    {
        self.configuration.arret
    }

    /// Starts the device: the driver takes the start-up selection with the
    /// shutdown flag cleared, whatever it held before, and returns the write
    /// of that configuration, addressed to the device.
    pub fn demarrer(&mut self) -> (ecriture: Ecriture)
        ensures
            final(self).spec_configuration() == Configuration::spec_demarrage(),
            final(self).spec_mode_economie() == ModeEconomieEnergie::AlsPowerSaveMode1,
            ecriture.porte(Configuration::spec_demarrage()),
            ecriture.adresse == 0x10,
            ecriture.registre == 0x00,
            ecriture.octets@ == seq![0x00u8, 0x10u8],
            ecriture.integration_ms == 100,
    {
        let ecriture = self.ecrire_configuration(
            Gain::AlsGain1_8,
            TempsIntegration::AlsIt100MS,
            Persistance::AlsPers1,
            ModeEconomieEnergie::AlsPowerSaveMode1,
            false,
        );
        proof {
            loi_champs_disjoints(0x02, 0x00, 0x00, false, false);
        }
        ecriture
    }

    /// Takes a new configuration and returns the write that puts it on the
    /// device. The driver never enables the interrupt. The power-saving level
    /// is kept by the driver; the configuration word has no field for it.
    pub fn ecrire_configuration(
        &mut self,
        gain: Gain,
        temps_integration: TempsIntegration,
        persistance: Persistance,
        mode_economie: ModeEconomieEnergie,
        arret: bool,
    ) -> (ecriture: Ecriture)
        ensures
            final(self).spec_configuration() == (Configuration {
                gain,
                temps_integration,
                persistance,
                interruption: false,
                arret,
            }),
            final(self).spec_mode_economie() == mode_economie,
            ecriture.porte(final(self).spec_configuration()),
    {
        self.configuration = Configuration {
            gain,
            temps_integration,
            persistance,
            interruption: false,
            arret,
        };
        self.mode_economie = mode_economie;
        self.ecriture_courante()
    }

    /// Changes gain and integration time and leaves every other field as it
    /// is; returns the write of that configuration.
    pub fn changer_sensibilite(
        &mut self,
        gain: Gain,
        temps_integration: TempsIntegration,
    ) -> (ecriture: Ecriture)
        ensures
            final(self).spec_configuration() == (Configuration {
                gain,
                temps_integration,
                ..old(self).spec_configuration()
            }),
            final(self).spec_mode_economie() == old(self).spec_mode_economie(),
            ecriture.porte(final(self).spec_configuration()),
    {
        self.configuration.gain = gain;
        self.configuration.temps_integration = temps_integration;
        self.ecriture_courante()
    }

    /// Shuts the device down: the shutdown flag is set, every other field
    /// stays as it is, and the write of that configuration is returned.
    pub fn arreter(&mut self) -> (ecriture: Ecriture)
        ensures
            final(self).spec_configuration() == (Configuration {
                arret: true,
                ..old(self).spec_configuration()
            }),
            final(self).spec_mode_economie() == old(self).spec_mode_economie(),
            ecriture.porte(final(self).spec_configuration()),
    {
        self.configuration.arret = true;
        self.ecriture_courante()
    }

    /// The write of the configuration that the driver holds.
    pub fn ecriture_courante(&self) -> (ecriture: Ecriture)
        ensures
            ecriture.porte(self.spec_configuration()),
    {
        Ecriture {
            adresse: AdresseCapteur::I2cAddress.adresse(),
            registre: Registre::AlsConfig.adresse(),
            octets: octets_le(self.configuration.mot()),
            integration_ms: self.configuration.temps_integration.millisecondes(),
        }
    }

    /// The read of a register of the device. The two bytes that come back
    /// are a word with its low byte first.
    pub fn lire(&self, registre: Registre) -> (lecture: Lecture)
        ensures
            lecture.adresse == AdresseCapteur::I2cAddress.spec_adresse(),
            lecture.registre == registre.spec_adresse(),
    {
        Lecture { adresse: AdresseCapteur::I2cAddress.adresse(), registre: registre.adresse() }
    }

    /// Illuminance that a raw count of the ambient-light register stands for
    /// at the gain and integration time that the driver holds, in
    /// ten-thousandths of a lux.
    pub fn lux_dix_milliemes(&self, brut: u16) -> (lux: u32)
        ensures
            lux == spec_lux_dix_milliemes(
                brut,
                self.spec_configuration().gain,
                self.spec_configuration().temps_integration,
            ),
    {
        lux_dix_milliemes(brut, self.configuration.gain, self.configuration.temps_integration)
    }
}

/// The bytes of a configuration write, assembled into a word and read field
/// by field as the device reads them, give the configuration that was
/// written.
pub proof fn loi_ecriture_relue(ecriture: Ecriture, configuration: Configuration)
    requires
        ecriture.porte(configuration),
    ensures
        mot_des_octets(ecriture.octets[0], ecriture.octets[1]) == configuration.spec_mot(),
        Configuration::spec_depuis_mot(mot_des_octets(ecriture.octets[0], ecriture.octets[1]))
            == configuration,
{
    loi_aller_retour_configuration(configuration);
    loi_aller_retour_octets(configuration.spec_mot(), 0, 0);
}

} // verus!
