//! The 16-bit configuration word of the sensor and its two bytes on the bus.

use crate::instruction::{Gain, Persistance, TempsIntegration};
use vstd::prelude::*;

verus! {

/// The fields of the configuration register.
#[derive(Copy, Clone, PartialEq, Eq, Debug, Structural)]
pub struct Configuration {
    pub gain: Gain,
    pub temps_integration: TempsIntegration,
    pub persistance: Persistance,
    /// Whether the device raises its interrupt.
    pub interruption: bool,
    /// Whether the device is shut down.
    pub arret: bool,
}

/// A flag as the bit that stands for it.
pub open spec fn bit(drapeau: bool) -> u16 {
    if drapeau {
        1
    } else {
        0
    }
}

/// The word that holds the given field codes: gain in bits 11 and 12,
/// integration time in bits 6 to 9, persistence in bits 4 and 5, the interrupt
/// enable in bit 1 and the shutdown flag in bit 0.
pub open spec fn mot_des_codes(
    gain: u8,
    temps_integration: u8,
    persistance: u8,
    interruption: bool,
    arret: bool,
) -> u16 {
    ((gain as u16) << 11) | ((temps_integration as u16) << 6) | ((persistance as u16) << 4) | (bit(
        interruption,
    ) << 1) | bit(arret)
}

/// Bits 11 and 12 of a word: the code of the gain.
pub open spec fn code_gain(mot: u16) -> u8 {
    ((mot >> 11) & 0x3) as u8
}

/// Bits 6 to 9 of a word: the code of the integration time.
pub open spec fn code_temps_integration(mot: u16) -> u8 {
    ((mot >> 6) & 0xF) as u8
}

/// Bits 4 and 5 of a word: the code of the persistence setting.
pub open spec fn code_persistance(mot: u16) -> u8 {
    ((mot >> 4) & 0x3) as u8
}

/// Bit 1 of a word: the interrupt enable.
pub open spec fn bit_interruption(mot: u16) -> bool {
    (mot >> 1) & 0x1 == 1
}

/// Bit 0 of a word: the shutdown flag.
pub open spec fn bit_arret(mot: u16) -> bool {
    mot & 0x1 == 1
}

/// The two bytes of a word in the order of the bus, low byte first.
pub open spec fn octets_du_mot(mot: u16) -> Seq<u8> {
    seq![(mot % 256) as u8, (mot / 256) as u8]
}

/// The word that two bytes from the bus stand for, low byte first.
pub open spec fn mot_des_octets(bas: u8, haut: u8) -> u16 {
    (bas + 256 * haut) as u16
}

/// In a word packed from field codes that fit their fields, the fields do not
/// overlap: the word is the sum of the shifted codes, and each field reads
/// back as the code that went in.
pub proof fn loi_champs_disjoints(
    gain: u8,
    temps_integration: u8,
    persistance: u8,
    interruption: bool,
    arret: bool,
)
    requires
        gain <= 3,
        temps_integration <= 15,
        persistance <= 3,
    ensures
        mot_des_codes(gain, temps_integration, persistance, interruption, arret) == gain * 2048
            + temps_integration * 64 + persistance * 16 + bit(interruption) * 2 + bit(arret),
        code_gain(mot_des_codes(gain, temps_integration, persistance, interruption, arret))
            == gain,
        code_temps_integration(
            mot_des_codes(gain, temps_integration, persistance, interruption, arret),
        ) == temps_integration,
        code_persistance(mot_des_codes(gain, temps_integration, persistance, interruption, arret))
            == persistance,
        bit_interruption(mot_des_codes(gain, temps_integration, persistance, interruption, arret))
            == interruption,
        bit_arret(mot_des_codes(gain, temps_integration, persistance, interruption, arret))
            == arret,
{
    let g: u16 = gain as u16;
    let t: u16 = temps_integration as u16;
    let p: u16 = persistance as u16;
    let i: u16 = bit(interruption);
    let a: u16 = bit(arret);
    let mot: u16 = (g << 11) | (t << 6) | (p << 4) | (i << 1) | a;
    assert(mot == mot_des_codes(gain, temps_integration, persistance, interruption, arret));
    assert(mot == g * 2048 + t * 64 + p * 16 + i * 2 + a) by (bit_vector)
        requires
            g <= 3,
            t <= 15,
            p <= 3,
            i <= 1,
            a <= 1,
            mot == (g << 11) | (t << 6) | (p << 4) | (i << 1) | a,
    ;
    assert((mot >> 11) & 0x3 == g && (mot >> 6) & 0xF == t && (mot >> 4) & 0x3 == p && (mot >> 1)
        & 0x1 == i && mot & 0x1 == a) by (bit_vector)
        requires
            g <= 3,
            t <= 15,
            p <= 3,
            i <= 1,
            a <= 1,
            mot == (g << 11) | (t << 6) | (p << 4) | (i << 1) | a,
    ;
}

impl Configuration {
    /// The configuration word of these fields.
    pub open spec fn spec_mot(&self) -> u16 {
        mot_des_codes(
            self.gain.spec_adresse(),
            self.temps_integration.spec_adresse(),
            self.persistance.spec_adresse(),
            self.interruption,
            self.arret,
        )
    }

    /// The fields that a configuration word holds, each decoded from its bits.
    pub open spec fn spec_depuis_mot(mot: u16) -> Configuration {
        Configuration {
            gain: Gain::spec_determiner(code_gain(mot)),
            temps_integration: TempsIntegration::spec_determiner(code_temps_integration(mot)),
            persistance: Persistance::spec_determiner(code_persistance(mot)),
            interruption: bit_interruption(mot),
            arret: bit_arret(mot),
        }
    }

    /// Packs the fields into the configuration word.
    #[verifier::when_used_as_spec(spec_mot)]
    pub fn mot(&self) -> (mot: u16)
        ensures
            mot == self.spec_mot(),
            mot == self.gain.spec_adresse() * 2048 + self.temps_integration.spec_adresse() * 64
                + self.persistance.spec_adresse() * 16 + bit(self.interruption) * 2 + bit(
                self.arret,
            ),
    {
        let gain: u16 = self.gain.adresse() as u16;
        let temps: u16 = self.temps_integration.adresse() as u16;
        let persistance: u16 = self.persistance.adresse() as u16;
        let interruption: u16 = if self.interruption { 1 } else { 0 };
        let arret: u16 = if self.arret { 1 } else { 0 };
        proof {
            loi_champs_disjoints(
                self.gain.spec_adresse(),
                self.temps_integration.spec_adresse(),
                self.persistance.spec_adresse(),
                self.interruption,
                self.arret,
            );
        }
        (gain << 11) | (temps << 6) | (persistance << 4) | (interruption << 1) | arret
    }

    /// Reads the fields out of a configuration word. A field whose bits hold
    /// a code that the device does not define reads as that field's default.
    #[verifier::when_used_as_spec(spec_depuis_mot)]
    pub fn depuis_mot(mot: u16) -> (configuration: Configuration)
        ensures
            configuration == Configuration::spec_depuis_mot(mot),
    {
        let gain: u8 = ((mot >> 11) & 0x3) as u8;
        let temps: u8 = ((mot >> 6) & 0xF) as u8;
        let persistance: u8 = ((mot >> 4) & 0x3) as u8;
        Configuration {
            gain: Gain::determiner(gain),
            temps_integration: TempsIntegration::determiner(temps),
            persistance: Persistance::determiner(persistance),
            interruption: (mot >> 1) & 0x1 == 1,
            arret: mot & 0x1 == 1,
        }
    }
}

/// The two bytes of a word in the order of the bus. The device is
/// little-endian on the wire, whatever the byte order of the host.
pub fn octets_le(mot: u16) -> (octets: [u8; 2])
    ensures
        octets@ == octets_du_mot(mot),
        mot_des_octets(octets[0], octets[1]) == mot,
{
    let bas: u8 = (mot % 256) as u8;
    let haut: u8 = (mot / 256) as u8;
    [bas, haut]
}

/// The word that two bytes read from the bus stand for, the first being the
/// low byte.
pub fn depuis_octets_le(octets: [u8; 2]) -> (mot: u16)
    ensures
        mot == mot_des_octets(octets[0], octets[1]),
        mot == octets[0] + 256 * octets[1],
        octets_du_mot(mot) == octets@,
{
    let bas: u16 = octets[0] as u16;
    let haut: u16 = octets[1] as u16;
    haut * 256 + bas
}

/// Reading the fields out of the word that a configuration packs into gives
/// the configuration back.
pub proof fn loi_aller_retour_configuration(configuration: Configuration)
    ensures
        Configuration::spec_depuis_mot(configuration.spec_mot()) == configuration,
{
    loi_champs_disjoints(
        configuration.gain.spec_adresse(),
        configuration.temps_integration.spec_adresse(),
        configuration.persistance.spec_adresse(),
        configuration.interruption,
        configuration.arret,
    );
}

/// Splitting a word into its two bus bytes and assembling them again gives
/// the word back, and the other way round.
pub proof fn loi_aller_retour_octets(mot: u16, bas: u8, haut: u8)
    ensures
        mot_des_octets(octets_du_mot(mot)[0], octets_du_mot(mot)[1]) == mot,
        octets_du_mot(mot_des_octets(bas, haut)) == seq![bas, haut],
{
}

/// Setting the shutdown flag sets bit 0 of the word and clearing it clears
/// that bit; no other bit of the word moves.
pub proof fn loi_bit_d_arret(configuration: Configuration)
    ensures
        (Configuration { arret: true, ..configuration }).spec_mot() == configuration.spec_mot()
            | 0x0001,
        (Configuration { arret: false, ..configuration }).spec_mot() == configuration.spec_mot()
            & 0xFFFE,
{
    let g: u16 = configuration.gain.spec_adresse() as u16;
    let t: u16 = configuration.temps_integration.spec_adresse() as u16;
    let p: u16 = configuration.persistance.spec_adresse() as u16;
    let i: u16 = bit(configuration.interruption);
    let a: u16 = bit(configuration.arret);
    let haut: u16 = (g << 11) | (t << 6) | (p << 4) | (i << 1);
    assert(haut | 1 == (haut | a) | 0x0001 && haut | 0 == (haut | a) & 0xFFFE) by (bit_vector)
        requires
            a <= 1,
            i <= 1,
            haut == (g << 11) | (t << 6) | (p << 4) | (i << 1),
    ;
}

} // verus!
