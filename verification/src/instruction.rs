//! Register model: bus address, registers and configuration fields of the
//! sensor, each with its wire code.

use vstd::prelude::*;

verus! {

/// Bus address of the sensor.
#[derive(Copy, Clone, PartialEq, Eq, Debug, Structural)]
pub enum AdresseCapteur {
    I2cAddress,
    Vmel7700DefaultI2cAddress,
}

/// Registers of the sensor that the driver addresses.
#[derive(Copy, Clone, PartialEq, Eq, Debug, Structural)]
pub enum Registre {
    AlsConfig,
    Als,
    AlsWhite,
}

/// Sensitivity multiplier applied before the light is digitised.
#[derive(Copy, Clone, PartialEq, Eq, Debug, Structural)]
pub enum Gain {
    AlsGain1,
    AlsGain2,
    AlsGain1_8,
    AlsGain1_4,
}

/// Exposure duration of one measurement.
#[derive(Copy, Clone, PartialEq, Eq, Debug, Structural)]
pub enum TempsIntegration {
    AlsIt25MS,
    AlsIt50MS,
    AlsIt100MS,
    AlsIt200MS,
    AlsIt400MS,
    AlsIt800MS,
}

/// Number of consecutive out-of-window samples before the interrupt fires.
#[derive(Copy, Clone, PartialEq, Eq, Debug, Structural)]
pub enum Persistance {
    AlsPers1,
    AlsPers2,
    AlsPers4,
    AlsPers8,
}

/// Power-saving level.
#[derive(Copy, Clone, PartialEq, Eq, Debug, Structural)]
pub enum ModeEconomieEnergie {
    AlsPowerSaveMode1,
    AlsPowerSaveMode2,
    AlsPowerSaveMode3,
    AlsPowerSaveMode4,
}

impl AdresseCapteur {
    /// The address, which is the same fixed value for the whole device family.
    pub open spec fn spec_adresse(&self) -> u16 {
        0x10
    }

    /// The address of the device on the bus.
    #[verifier::when_used_as_spec(spec_adresse)]
    pub fn adresse(&self) -> (adresse: u16)
        ensures
            adresse == self.spec_adresse(),
            adresse == 0x10,
    {
        match self {
            AdresseCapteur::I2cAddress => 0x10,
            AdresseCapteur::Vmel7700DefaultI2cAddress => 0x10,
        }
    }
}

impl Registre {
    /// Offset of the register on the device.
    pub open spec fn spec_adresse(&self) -> u8 {
        match self {
            Registre::AlsConfig => 0x00,
            Registre::Als => 0x04,
            Registre::AlsWhite => 0x05,
        }
    }

    /// Offset of the register on the device.
    #[verifier::when_used_as_spec(spec_adresse)]
    pub fn adresse(&self) -> (adresse: u8)
        ensures
            adresse == self.spec_adresse(),
    {
        match self {
            Registre::AlsConfig => 0x00,
            Registre::Als => 0x04,
            Registre::AlsWhite => 0x05,
        }
    }
}

impl Gain {
    /// Two-bit wire code of the gain.
    pub open spec fn spec_adresse(&self) -> u8 {
        match self {
            Gain::AlsGain1 => 0x00,
            Gain::AlsGain2 => 0x01,
            Gain::AlsGain1_8 => 0x02,
            Gain::AlsGain1_4 => 0x03,
        }
    }

    /// The gain that a wire code stands for. A code that the device does not
    /// define stands for ×1.
    pub open spec fn spec_determiner(adresse: u8) -> Gain {
        if adresse == 0x01 {
            Gain::AlsGain2
        } else if adresse == 0x02 {
            Gain::AlsGain1_8
        } else if adresse == 0x03 {
            Gain::AlsGain1_4
        } else {
            Gain::AlsGain1
        }
    }

    /// Position in the order of sensitivity: 0 for ×1/8, the least sensitive,
    /// up to 3 for ×2, the most sensitive.
    pub open spec fn rang(&self) -> int {
        match self {
            Gain::AlsGain1_8 => 0,
            Gain::AlsGain1_4 => 1,
            Gain::AlsGain1 => 2,
            Gain::AlsGain2 => 3,
        }
    }

    /// The multiplier, counted in eighths: ×1/8 is 1 and ×2 is 16.
    pub open spec fn spec_huitiemes(&self) -> u8 {
        match self {
            Gain::AlsGain1_8 => 1,
            Gain::AlsGain1_4 => 2,
            Gain::AlsGain1 => 8,
            Gain::AlsGain2 => 16,
        }
    }

    /// The next gain toward lower sensitivity; ×1/8 is its own successor.
    pub open spec fn spec_suivant(&self) -> Gain {
        match self {
            Gain::AlsGain2 => Gain::AlsGain1,
            Gain::AlsGain1 => Gain::AlsGain1_4,
            Gain::AlsGain1_4 => Gain::AlsGain1_8,
            Gain::AlsGain1_8 => Gain::AlsGain1_8,
        }
    }

    /// The next gain toward higher sensitivity; ×2 is its own predecessor.
    pub open spec fn spec_precedent(&self) -> Gain {
        match self {
            Gain::AlsGain1_8 => Gain::AlsGain1_4,
            Gain::AlsGain1_4 => Gain::AlsGain1,
            Gain::AlsGain1 => Gain::AlsGain2,
            Gain::AlsGain2 => Gain::AlsGain2,
        }
    }

    /// `suivant` applied `n` times.
    pub open spec fn suivant_n(&self, n: nat) -> Gain
        decreases n,
    {
        if n == 0 {
            *self
        } else {
            self.spec_suivant().suivant_n((n - 1) as nat)
        }
    }

    /// `precedent` applied `n` times.
    pub open spec fn precedent_n(&self, n: nat) -> Gain
        decreases n,
    {
        if n == 0 {
            *self
        } else {
            self.spec_precedent().precedent_n((n - 1) as nat)
        }
    }

    /// Wire code of the gain.
    #[verifier::when_used_as_spec(spec_adresse)]
    pub fn adresse(&self) -> (adresse: u8)
        ensures
            adresse == self.spec_adresse(),
            adresse <= 3,
    {
        match self {
            Gain::AlsGain1 => 0x00,
            Gain::AlsGain2 => 0x01,
            Gain::AlsGain1_8 => 0x02,
            Gain::AlsGain1_4 => 0x03,
        }
    }

    /// The multiplier, counted in eighths.
    #[verifier::when_used_as_spec(spec_huitiemes)]
    pub fn huitiemes(&self) -> (huitiemes: u8)
        ensures
            huitiemes == self.spec_huitiemes(),
    {
        match self {
            Gain::AlsGain1 => 8,
            Gain::AlsGain2 => 16,
            Gain::AlsGain1_4 => 2,
            Gain::AlsGain1_8 => 1,
        }
    }

    /// The gain of a wire code; ×1 for a code that the device does not define.
    #[verifier::when_used_as_spec(spec_determiner)]
    pub fn determiner(adresse: u8) -> (gain: Gain)
        ensures
            gain == Gain::spec_determiner(adresse),
            adresse <= 3 ==> gain.spec_adresse() == adresse,
            adresse > 3 ==> gain == Gain::AlsGain1,
    {
        match adresse {
            0x00 => Gain::AlsGain1,
            0x01 => Gain::AlsGain2,
            0x02 => Gain::AlsGain1_8,
            0x03 => Gain::AlsGain1_4,
            _ => Gain::AlsGain1,
        }
    }

    /// The next gain toward lower sensitivity, ×1/8 being the last.
    #[verifier::when_used_as_spec(spec_suivant)]
    pub fn suivant(&self) -> (gain: Gain)
        ensures
            gain == self.spec_suivant(),
            gain.rang() == if self.rang() == 0 { 0 } else { self.rang() - 1 },
    {
        match self {
            Gain::AlsGain2 => Gain::AlsGain1,
            Gain::AlsGain1 => Gain::AlsGain1_4,
            Gain::AlsGain1_4 => Gain::AlsGain1_8,
            Gain::AlsGain1_8 => Gain::AlsGain1_8,
        }
    }

    /// The next gain toward higher sensitivity, ×2 being the last.
    #[verifier::when_used_as_spec(spec_precedent)]
    pub fn precedent(&self) -> (gain: Gain)
        ensures
            gain == self.spec_precedent(),
            gain.rang() == if self.rang() == 3 { 3 } else { self.rang() + 1 },
    {
        match self {
            Gain::AlsGain1_8 => Gain::AlsGain1_4,
            Gain::AlsGain1_4 => Gain::AlsGain1,
            Gain::AlsGain1 => Gain::AlsGain2,
            Gain::AlsGain2 => Gain::AlsGain2,
        }
    }
}

impl TempsIntegration {
    /// Four-bit wire code of the integration time.
    pub open spec fn spec_adresse(&self) -> u8 {
        match self {
            TempsIntegration::AlsIt25MS => 0x0C,
            TempsIntegration::AlsIt50MS => 0x08,
            TempsIntegration::AlsIt100MS => 0x00,
            TempsIntegration::AlsIt200MS => 0x01,
            TempsIntegration::AlsIt400MS => 0x02,
            TempsIntegration::AlsIt800MS => 0x03,
        }
    }

    /// The integration time that a wire code stands for. A code that the
    /// device does not define stands for 100 ms.
    pub open spec fn spec_determiner(adresse: u8) -> TempsIntegration {
        if adresse == 0x0C {
            TempsIntegration::AlsIt25MS
        } else if adresse == 0x08 {
            TempsIntegration::AlsIt50MS
        } else if adresse == 0x01 {
            TempsIntegration::AlsIt200MS
        } else if adresse == 0x02 {
            TempsIntegration::AlsIt400MS
        } else if adresse == 0x03 {
            TempsIntegration::AlsIt800MS
        } else {
            TempsIntegration::AlsIt100MS
        }
    }

    /// Whether the device defines the wire code.
    pub open spec fn code_defini(adresse: u8) -> bool {
        adresse <= 0x03 || adresse == 0x08 || adresse == 0x0C
    }

    /// Position in the order of duration: 0 for 25 ms up to 5 for 800 ms.
    pub open spec fn rang(&self) -> int {
        match self {
            TempsIntegration::AlsIt25MS => 0,
            TempsIntegration::AlsIt50MS => 1,
            TempsIntegration::AlsIt100MS => 2,
            TempsIntegration::AlsIt200MS => 3,
            TempsIntegration::AlsIt400MS => 4,
            TempsIntegration::AlsIt800MS => 5,
        }
    }

    /// The variant at a position of the order of duration.
    pub open spec fn de_rang(rang: int) -> TempsIntegration {
        if rang <= 0 {
            TempsIntegration::AlsIt25MS
        } else if rang == 1 {
            TempsIntegration::AlsIt50MS
        } else if rang == 2 {
            TempsIntegration::AlsIt100MS
        } else if rang == 3 {
            TempsIntegration::AlsIt200MS
        } else if rang == 4 {
            TempsIntegration::AlsIt400MS
        } else {
            TempsIntegration::AlsIt800MS
        }
    }

    /// The duration in milliseconds.
    pub open spec fn spec_millisecondes(&self) -> u16 {
        match self {
            TempsIntegration::AlsIt25MS => 25,
            TempsIntegration::AlsIt50MS => 50,
            TempsIntegration::AlsIt100MS => 100,
            TempsIntegration::AlsIt200MS => 200,
            TempsIntegration::AlsIt400MS => 400,
            TempsIntegration::AlsIt800MS => 800,
        }
    }

    /// The next shorter integration time; 25 ms is its own predecessor.
    pub open spec fn spec_precedent(&self) -> TempsIntegration {
        match self {
            TempsIntegration::AlsIt25MS => TempsIntegration::AlsIt25MS,
            TempsIntegration::AlsIt50MS => TempsIntegration::AlsIt25MS,
            TempsIntegration::AlsIt100MS => TempsIntegration::AlsIt50MS,
            TempsIntegration::AlsIt200MS => TempsIntegration::AlsIt100MS,
            TempsIntegration::AlsIt400MS => TempsIntegration::AlsIt200MS,
            TempsIntegration::AlsIt800MS => TempsIntegration::AlsIt400MS,
        }
    }

    /// The next longer integration time; 800 ms is its own successor.
    pub open spec fn spec_suivant(&self) -> TempsIntegration {
        match self {
            TempsIntegration::AlsIt25MS => TempsIntegration::AlsIt50MS,
            TempsIntegration::AlsIt50MS => TempsIntegration::AlsIt100MS,
            TempsIntegration::AlsIt100MS => TempsIntegration::AlsIt200MS,
            TempsIntegration::AlsIt200MS => TempsIntegration::AlsIt400MS,
            TempsIntegration::AlsIt400MS => TempsIntegration::AlsIt800MS,
            TempsIntegration::AlsIt800MS => TempsIntegration::AlsIt800MS,
        }
    }

    /// `suivant` applied `n` times.
    pub open spec fn suivant_n(&self, n: nat) -> TempsIntegration
        decreases n,
    {
        if n == 0 {
            *self
        } else {
            self.spec_suivant().suivant_n((n - 1) as nat)
        }
    }

    /// `precedent` applied `n` times.
    pub open spec fn precedent_n(&self, n: nat) -> TempsIntegration
        decreases n,
    {
        if n == 0 {
            *self
        } else {
            self.spec_precedent().precedent_n((n - 1) as nat)
        }
    }

    /// Wire code of the integration time.
    #[verifier::when_used_as_spec(spec_adresse)]
    pub fn adresse(&self) -> (adresse: u8)
        ensures
            adresse == self.spec_adresse(),
            TempsIntegration::code_defini(adresse),
    {
        match self {
            TempsIntegration::AlsIt25MS => 0x0C,
            TempsIntegration::AlsIt50MS => 0x08,
            TempsIntegration::AlsIt100MS => 0x00,
            TempsIntegration::AlsIt200MS => 0x01,
            TempsIntegration::AlsIt400MS => 0x02,
            TempsIntegration::AlsIt800MS => 0x03,
        }
    }

    /// The duration in milliseconds.
    #[verifier::when_used_as_spec(spec_millisecondes)]
    pub fn millisecondes(&self) -> (duree: u16)
        ensures
            duree == self.spec_millisecondes(),
    {
        match self {
            TempsIntegration::AlsIt25MS => 25,
            TempsIntegration::AlsIt50MS => 50,
            TempsIntegration::AlsIt100MS => 100,
            TempsIntegration::AlsIt200MS => 200,
            TempsIntegration::AlsIt400MS => 400,
            TempsIntegration::AlsIt800MS => 800,
        }
    }

    /// The integration time of a wire code; 100 ms for a code that the device does
    /// not define.
    #[verifier::when_used_as_spec(spec_determiner)]
    pub fn determiner(adresse: u8) -> (temps: TempsIntegration)
        ensures
            temps == TempsIntegration::spec_determiner(adresse),
            TempsIntegration::code_defini(adresse) ==> temps.spec_adresse() == adresse,
            !TempsIntegration::code_defini(adresse) ==> temps == TempsIntegration::AlsIt100MS,
    {
        match adresse {
            0x0C => TempsIntegration::AlsIt25MS,
            0x08 => TempsIntegration::AlsIt50MS,
            0x00 => TempsIntegration::AlsIt100MS,
            0x01 => TempsIntegration::AlsIt200MS,
            0x02 => TempsIntegration::AlsIt400MS,
            0x03 => TempsIntegration::AlsIt800MS,
            _ => TempsIntegration::AlsIt100MS,
        }
    }

    /// The next shorter integration time, 25 ms being the last.
    #[verifier::when_used_as_spec(spec_precedent)]
    pub fn precedent(&self) -> (temps: TempsIntegration)
        ensures
            temps == self.spec_precedent(),
            temps.rang() == if self.rang() == 0 { 0 } else { self.rang() - 1 },
    {
        match self {
            TempsIntegration::AlsIt25MS => TempsIntegration::AlsIt25MS,
            TempsIntegration::AlsIt50MS => TempsIntegration::AlsIt25MS,
            TempsIntegration::AlsIt100MS => TempsIntegration::AlsIt50MS,
            TempsIntegration::AlsIt200MS => TempsIntegration::AlsIt100MS,
            TempsIntegration::AlsIt400MS => TempsIntegration::AlsIt200MS,
            TempsIntegration::AlsIt800MS => TempsIntegration::AlsIt400MS,
        }
    }

    /// The next longer integration time, 800 ms being the last.
    #[verifier::when_used_as_spec(spec_suivant)]
    pub fn suivant(&self) -> (temps: TempsIntegration)
        ensures
            temps == self.spec_suivant(),
            temps.rang() == if self.rang() == 5 { 5 } else { self.rang() + 1 },
    {
        match self {
            TempsIntegration::AlsIt25MS => TempsIntegration::AlsIt50MS,
            TempsIntegration::AlsIt50MS => TempsIntegration::AlsIt100MS,
            TempsIntegration::AlsIt100MS => TempsIntegration::AlsIt200MS,
            TempsIntegration::AlsIt200MS => TempsIntegration::AlsIt400MS,
            TempsIntegration::AlsIt400MS => TempsIntegration::AlsIt800MS,
            TempsIntegration::AlsIt800MS => TempsIntegration::AlsIt800MS,
        }
    }
}

impl Persistance {
    /// Two-bit wire code of the persistence setting.
    pub open spec fn spec_adresse(&self) -> u8 {
        match self {
            Persistance::AlsPers1 => 0x00,
            Persistance::AlsPers2 => 0x01,
            Persistance::AlsPers4 => 0x02,
            Persistance::AlsPers8 => 0x03,
        }
    }

    /// The setting that a wire code stands for. A code that the device does
    /// not define stands for one sample.
    pub open spec fn spec_determiner(adresse: u8) -> Persistance {
        if adresse == 0x01 {
            Persistance::AlsPers2
        } else if adresse == 0x02 {
            Persistance::AlsPers4
        } else if adresse == 0x03 {
            Persistance::AlsPers8
        } else {
            Persistance::AlsPers1
        }
    }

    /// Wire code of the persistence setting.
    #[verifier::when_used_as_spec(spec_adresse)]
    pub fn adresse(&self) -> (adresse: u8)
        ensures
            adresse == self.spec_adresse(),
            adresse <= 3,
    {
        match self {
            Persistance::AlsPers1 => 0x00,
            Persistance::AlsPers2 => 0x01,
            Persistance::AlsPers4 => 0x02,
            Persistance::AlsPers8 => 0x03,
        }
    }

    /// The persistence setting of a wire code; one sample for a code that the
    /// device does not define.
    #[verifier::when_used_as_spec(spec_determiner)]
    pub fn determiner(adresse: u8) -> (persistance: Persistance)
        ensures
            persistance == Persistance::spec_determiner(adresse),
            adresse <= 3 ==> persistance.spec_adresse() == adresse,
            adresse > 3 ==> persistance == Persistance::AlsPers1,
    {
        match adresse {
            0x00 => Persistance::AlsPers1,
            0x01 => Persistance::AlsPers2,
            0x02 => Persistance::AlsPers4,
            0x03 => Persistance::AlsPers8,
            _ => Persistance::AlsPers1,
        }
    }
}

impl ModeEconomieEnergie {
    /// Two-bit wire code of the power-saving level.
    pub open spec fn spec_adresse(&self) -> u8 {
        match self {
            ModeEconomieEnergie::AlsPowerSaveMode1 => 0x00,
            ModeEconomieEnergie::AlsPowerSaveMode2 => 0x01,
            ModeEconomieEnergie::AlsPowerSaveMode3 => 0x02,
            ModeEconomieEnergie::AlsPowerSaveMode4 => 0x03,
        }
    }

    /// The level that a wire code stands for. A code that the device does not
    /// define stands for level 1.
    pub open spec fn spec_determiner(adresse: u8) -> ModeEconomieEnergie {
        if adresse == 0x01 {
            ModeEconomieEnergie::AlsPowerSaveMode2
        } else if adresse == 0x02 {
            ModeEconomieEnergie::AlsPowerSaveMode3
        } else if adresse == 0x03 {
            ModeEconomieEnergie::AlsPowerSaveMode4
        } else {
            ModeEconomieEnergie::AlsPowerSaveMode1
        }
    }

    /// Wire code of the power-saving level.
    #[verifier::when_used_as_spec(spec_adresse)]
    pub fn adresse(&self) -> (adresse: u8)
        ensures
            adresse == self.spec_adresse(),
            adresse <= 3,
    {
        match self {
            ModeEconomieEnergie::AlsPowerSaveMode1 => 0x00,
            ModeEconomieEnergie::AlsPowerSaveMode2 => 0x01,
            ModeEconomieEnergie::AlsPowerSaveMode3 => 0x02,
            ModeEconomieEnergie::AlsPowerSaveMode4 => 0x03,
        }
    }

    /// The power-saving level of a wire code; level 1 for a code that the device
    /// does not define.
    #[verifier::when_used_as_spec(spec_determiner)]
    pub fn determiner(adresse: u8) -> (mode: ModeEconomieEnergie)
        ensures
            mode == ModeEconomieEnergie::spec_determiner(adresse),
            adresse <= 3 ==> mode.spec_adresse() == adresse,
            adresse > 3 ==> mode == ModeEconomieEnergie::AlsPowerSaveMode1,
    {
        match adresse {
            0x00 => ModeEconomieEnergie::AlsPowerSaveMode1,
            0x01 => ModeEconomieEnergie::AlsPowerSaveMode2,
            0x02 => ModeEconomieEnergie::AlsPowerSaveMode3,
            0x03 => ModeEconomieEnergie::AlsPowerSaveMode4,
            _ => ModeEconomieEnergie::AlsPowerSaveMode1,
        }
    }
}

/// Decoding the wire code of a gain gives the gain back.
pub proof fn loi_aller_retour_gain(gain: Gain)
    ensures
        Gain::spec_determiner(gain.spec_adresse()) == gain,
{
}

/// Decoding the wire code of an integration time gives the integration time
/// back.
pub proof fn loi_aller_retour_temps_integration(temps: TempsIntegration)
    ensures
        TempsIntegration::spec_determiner(temps.spec_adresse()) == temps,
{
}

/// Decoding the wire code of a persistence setting gives the setting back.
pub proof fn loi_aller_retour_persistance(persistance: Persistance)
    ensures
        Persistance::spec_determiner(persistance.spec_adresse()) == persistance,
{
}

/// Decoding the wire code of a power-saving level gives the level back.
pub proof fn loi_aller_retour_mode_economie(mode: ModeEconomieEnergie)
    ensures
        ModeEconomieEnergie::spec_determiner(mode.spec_adresse()) == mode,
{
}

/// Encoding what a defined wire code decodes to gives the code back, for each
/// of the four fields.
pub proof fn loi_aller_retour_code(adresse: u8)
    ensures
        adresse <= 3 ==> Gain::spec_determiner(adresse).spec_adresse() == adresse,
        TempsIntegration::code_defini(adresse)
            ==> TempsIntegration::spec_determiner(adresse).spec_adresse() == adresse,
        adresse <= 3 ==> Persistance::spec_determiner(adresse).spec_adresse() == adresse,
        adresse <= 3 ==> ModeEconomieEnergie::spec_determiner(adresse).spec_adresse() == adresse,
{
}

/// The registers lie at distinct offsets, so an offset names one register.
pub proof fn loi_registres_distincts(a: Registre, b: Registre)
    ensures
        a.spec_adresse() == b.spec_adresse() <==> a == b,
{
}

/// Applying `suivant` to a gain `n` times lowers its rank by `n`, stopping at
/// ×1/8: after three applications or more every gain has become ×1/8, and
/// ×1/8 stays where it is.
pub proof fn loi_gain_suivant_converge(gain: Gain, n: nat)
    ensures
        gain.suivant_n(n).rang() == if gain.rang() <= n { 0 } else { gain.rang() - n },
        n >= 3 ==> gain.suivant_n(n) == Gain::AlsGain1_8,
        Gain::AlsGain1_8.spec_suivant() == Gain::AlsGain1_8,
        Gain::AlsGain1_8.suivant_n(n) == Gain::AlsGain1_8,
    decreases n,
{
    if n > 0 {
        loi_gain_suivant_converge(gain.spec_suivant(), (n - 1) as nat);
        loi_gain_suivant_converge(Gain::AlsGain1_8, (n - 1) as nat);
    }
}

/// Applying `precedent` to a gain `n` times raises its rank by `n`, stopping
/// at ×2: after three applications or more every gain has become ×2, and ×2
/// stays where it is.
pub proof fn loi_gain_precedent_converge(gain: Gain, n: nat)
    ensures
        gain.precedent_n(n).rang() == if gain.rang() + n >= 3 { 3 } else { gain.rang() + n },
        n >= 3 ==> gain.precedent_n(n) == Gain::AlsGain2,
        Gain::AlsGain2.spec_precedent() == Gain::AlsGain2,
        Gain::AlsGain2.precedent_n(n) == Gain::AlsGain2,
    decreases n,
{
    if n > 0 {
        loi_gain_precedent_converge(gain.spec_precedent(), (n - 1) as nat);
        loi_gain_precedent_converge(Gain::AlsGain2, (n - 1) as nat);
    }
}

/// A higher rank is a larger multiplier, and the rank tells the gains apart.
pub proof fn loi_gain_ordre(a: Gain, b: Gain)
    ensures
        0 <= a.rang() <= 3,
        a.rang() < b.rang() <==> a.spec_huitiemes() < b.spec_huitiemes(),
        a.rang() == b.rang() <==> a == b,
{
}

/// A higher rank is a longer duration, the rank tells the integration times
/// apart, and each of the six ranks is taken.
pub proof fn loi_temps_integration_ordre(a: TempsIntegration, b: TempsIntegration)
    ensures
        0 <= a.rang() <= 5,
        TempsIntegration::de_rang(a.rang()) == a,
        a.rang() < b.rang() <==> a.spec_millisecondes() < b.spec_millisecondes(),
        a.rang() == b.rang() <==> a == b,
{
}

/// Started at 25 ms, `suivant` walks through the six integration times in
/// order of duration, one new variant per step, and stays at 800 ms once it
/// is there.
pub proof fn loi_temps_integration_chaine_suivant(n: nat)
    ensures
        TempsIntegration::AlsIt25MS.suivant_n(n) == TempsIntegration::de_rang(
            if n <= 5 { n as int } else { 5 },
        ),
        TempsIntegration::AlsIt800MS.spec_suivant() == TempsIntegration::AlsIt800MS,
{
    loi_temps_integration_suivant_n(TempsIntegration::AlsIt25MS, n);
    loi_temps_integration_ordre(
        TempsIntegration::AlsIt25MS.suivant_n(n),
        TempsIntegration::AlsIt25MS,
    );
}

/// Started at 800 ms, `precedent` walks through the six integration times in
/// reverse order of duration, one new variant per step, and stays at 25 ms
/// once it is there.
pub proof fn loi_temps_integration_chaine_precedent(n: nat)
    ensures
        TempsIntegration::AlsIt800MS.precedent_n(n) == TempsIntegration::de_rang(
            if n <= 5 { 5 - n } else { 0 },
        ),
        TempsIntegration::AlsIt25MS.spec_precedent() == TempsIntegration::AlsIt25MS,
{
    loi_temps_integration_precedent_n(TempsIntegration::AlsIt800MS, n);
    loi_temps_integration_ordre(
        TempsIntegration::AlsIt800MS.precedent_n(n),
        TempsIntegration::AlsIt25MS,
    );
}

/// Applying `suivant` to an integration time `n` times raises its rank by
/// `n`, stopping at 800 ms.
pub proof fn loi_temps_integration_suivant_n(temps: TempsIntegration, n: nat)
    ensures
        temps.suivant_n(n).rang() == if temps.rang() + n >= 5 { 5 } else { temps.rang() + n },
    decreases n,
{
    if n > 0 {
        loi_temps_integration_suivant_n(temps.spec_suivant(), (n - 1) as nat);
    }
}

/// Applying `precedent` to an integration time `n` times lowers its rank by
/// `n`, stopping at 25 ms.
pub proof fn loi_temps_integration_precedent_n(temps: TempsIntegration, n: nat)
    ensures
        temps.precedent_n(n).rang() == if temps.rang() <= n { 0 } else { temps.rang() - n },
    decreases n,
{
    if n > 0 {
        loi_temps_integration_precedent_n(temps.spec_precedent(), (n - 1) as nat);
    }
}

} // verus!
