//! Auto-ranging: one measurement cycle that changes gain and integration
//! time until the raw count lies between two thresholds.
//!
//! The controller does no I/O. It tells the caller what to do next and is
//! told what came of it.

use crate::instruction::{Gain, TempsIntegration};
use crate::luminosite::{
    loi_resolution_monotone, lux_dix_milliemes, spec_lux_dix_milliemes, spec_resolution,
};
use vstd::prelude::*;

verus! {

/// The most changes of setting that one measurement cycle makes: the number
/// of gains plus the number of integration times.
pub const PAS_MAXIMUM: u8 = 10;

/// Where a measurement cycle stands.
#[derive(Copy, Clone, PartialEq, Eq, Debug, Structural)]
pub enum Phase {
    /// Nothing has been asked for yet.
    Repos,
    /// A raw count is awaited.
    Mesure,
    /// The last count was too high; a less sensitive setting is being written.
    Sature,
    /// The last count was too low; a more sensitive setting is being written.
    SousExpose,
    /// The cycle is over.
    Stable,
}

/// What the caller does next.
#[derive(Copy, Clone, PartialEq, Eq, Debug, Structural)]
pub enum Consigne {
    /// Read the ambient-light register and hand the count to `recevoir`.
    Lire,
    /// Write this setting to the device, let the integration time elapse,
    /// then call `reprendre`.
    Configurer { gain: Gain, temps_integration: TempsIntegration },
    /// The cycle is over: this count, taken at the controller's setting, is
    /// the measurement, and this is its illuminance in ten-thousandths of a
    /// lux.
    Rendre { brut: u16, lux_dix_milliemes: u32 },
    /// The call did not fit the phase; nothing changed.
    Aucune,
}

/// The two thresholds on the raw count, the low one strictly below the high
/// one.
#[derive(Copy, Clone, Debug)]
pub struct Seuils {
    bas: u16,
    haut: u16,
}

/// The controller as a plain value: what the contracts speak of.
pub struct EtatReglage {
    /// A count at or below this is too low.
    pub bas: u16,
    /// A count at or above this is too high.
    pub haut: u16,
    pub gain: Gain,
    pub temps_integration: TempsIntegration,
    pub phase: Phase,
    /// Changes of setting made in this cycle.
    pub pas: u8,
}

/// The controller of one measurement cycle.
#[derive(Copy, Clone, Debug)]
pub struct Regulateur {
    seuils: Seuils,
    gain: Gain,
    temps_integration: TempsIntegration,
    phase: Phase,
    pas: u8,
}

impl Seuils {
    #[verifier::type_invariant]
    spec fn ordonnes(&self) -> bool {
        self.bas < self.haut
    }

    /// The low threshold.
    pub closed spec fn spec_bas(&self) -> u16 {
        self.bas
    }

    /// The high threshold.
    pub closed spec fn spec_haut(&self) -> u16 {
        self.haut
    }

    /// Thresholds from a low and a high count, where the low one lies
    /// strictly below the high one, and nothing otherwise.
    pub fn new(bas: u16, haut: u16) -> (seuils: Option<Seuils>)
        ensures
            bas < haut <==> seuils is Some,
            seuils matches Some(s) ==> s.spec_bas() == bas && s.spec_haut() == haut,
    {
        if bas < haut {
            Some(Seuils { bas, haut })
        } else {
            None
        }
    }

    /// The widest thresholds: only a count of 0, at or below the floor, is
    /// too low, and only a count of 65535, the ceiling of the register, is
    /// too high.
    pub fn sentinelles() -> (seuils: Seuils)
        ensures
            seuils.spec_bas() == 0,
            seuils.spec_haut() == 65535,
    {
        Seuils { bas: 0, haut: 65535 }
    }

    /// The low threshold: a count at or below it is too low.
    #[verifier::when_used_as_spec(spec_bas)]
    pub fn bas(&self) -> (bas: u16)
        ensures
            bas == self.spec_bas(),
            bas < self.spec_haut(),
    {
        proof {
            use_type_invariant(self);
        }
        self.bas
    }

    /// The high threshold: a count at or above it is too high.
    #[verifier::when_used_as_spec(spec_haut)]
    pub fn haut(&self) -> (haut: u16)
        ensures
            haut == self.spec_haut(),
            self.spec_bas() < haut,
    {
        proof {
            use_type_invariant(self);
        }
        self.haut
    }
}

impl EtatReglage {
    /// What holds of every controller: the thresholds are in order and the
    /// count of changes is within its cap.
    pub open spec fn valide(&self) -> bool {
        &&& self.bas < self.haut
        &&& self.pas <= PAS_MAXIMUM
    }

    /// Whether a count is too high.
    pub open spec fn sature(&self, brut: u16) -> bool {
        brut >= self.haut
    }

    /// Whether a count is too low.
    pub open spec fn sous_expose(&self, brut: u16) -> bool {
        brut <= self.bas
    }

    /// Whether the setting is the least sensitive one: nothing can be lowered.
    pub open spec fn au_minimum(&self) -> bool {
        self.gain == Gain::AlsGain1_8 && self.temps_integration == TempsIntegration::AlsIt25MS
    }

    /// Whether the setting is the most sensitive one: nothing can be raised.
    pub open spec fn au_maximum(&self) -> bool {
        self.gain == Gain::AlsGain2 && self.temps_integration == TempsIntegration::AlsIt800MS
    }

    /// Whether a count ends the cycle: it lies strictly between the
    /// thresholds, or the setting cannot move further in the direction that
    /// the count asks for, or the cap on changes is reached.
    pub open spec fn stabilise(&self, brut: u16) -> bool {
        if self.sature(brut) {
            self.au_minimum() || self.pas >= PAS_MAXIMUM
        } else if self.sous_expose(brut) {
            self.au_maximum() || self.pas >= PAS_MAXIMUM
        } else {
            true
        }
    }

    /// The controller after a measurement was asked for.
    pub open spec fn demander(&self) -> EtatReglage {
        if self.phase == Phase::Repos {
            EtatReglage { phase: Phase::Mesure, ..*self }
        } else {
            *self
        }
    }

    /// What the caller is told when a measurement was asked for.
    pub open spec fn consigne_demander(&self) -> Consigne {
        if self.phase == Phase::Repos {
            Consigne::Lire
        } else {
            Consigne::Aucune
        }
    }

    /// The controller after a raw count came in. A count that is too high
    /// moves gain and integration time one step down each, a count that is
    /// too low one step up each; a step at the end of its range stays there.
    pub open spec fn recevoir(&self, brut: u16) -> EtatReglage {
        if self.phase != Phase::Mesure {
            *self
        } else if self.stabilise(brut) {
            EtatReglage { phase: Phase::Stable, ..*self }
        } else if self.sature(brut) {
            EtatReglage {
                phase: Phase::Sature,
                gain: self.gain.spec_suivant(),
                temps_integration: self.temps_integration.spec_precedent(),
                pas: (self.pas + 1) as u8,
                ..*self
            }
        } else {
            EtatReglage {
                phase: Phase::SousExpose,
                gain: self.gain.spec_precedent(),
                temps_integration: self.temps_integration.spec_suivant(),
                pas: (self.pas + 1) as u8,
                ..*self
            }
        }
    }

    /// What the caller is told when a raw count came in.
    pub open spec fn consigne_recevoir(&self, brut: u16) -> Consigne {
        if self.phase != Phase::Mesure {
            Consigne::Aucune
        } else if self.stabilise(brut) {
            Consigne::Rendre {
                brut,
                lux_dix_milliemes: spec_lux_dix_milliemes(
                    brut,
                    self.gain,
                    self.temps_integration,
                ) as u32,
            }
        } else {
            Consigne::Configurer {
                gain: self.recevoir(brut).gain,
                temps_integration: self.recevoir(brut).temps_integration,
            }
        }
    }

    /// The controller after the new setting was written.
    pub open spec fn reprendre(&self) -> EtatReglage {
        if self.phase == Phase::Sature || self.phase == Phase::SousExpose {
            EtatReglage { phase: Phase::Mesure, ..*self }
        } else {
            *self
        }
    }

    /// What the caller is told when the new setting was written.
    pub open spec fn consigne_reprendre(&self) -> Consigne {
        if self.phase == Phase::Sature || self.phase == Phase::SousExpose {
            Consigne::Lire
        } else {
            Consigne::Aucune
        }
    }

    /// The controller after a run of raw counts, each one received and, where
    /// it led to a change of setting, followed by the write of that setting.
    /// Counts that come after the cycle is over are not looked at.
    pub open spec fn derouler(&self, lectures: Seq<u16>) -> EtatReglage
        decreases lectures.len(),
    {
        if lectures.len() == 0 || self.phase != Phase::Mesure {
            *self
        } else {
            self.recevoir(lectures[0]).reprendre().derouler(lectures.skip(1))
        }
    }
}

impl View for Regulateur {
    type V = EtatReglage;

    closed spec fn view(&self) -> EtatReglage {
        EtatReglage {
            bas: self.seuils.spec_bas(),
            haut: self.seuils.spec_haut(),
            gain: self.gain,
            temps_integration: self.temps_integration,
            phase: self.phase,
            pas: self.pas,
        }
    }
}

impl Regulateur {
    #[verifier::type_invariant]
    spec fn invariant_de_type(&self) -> bool {
        self@.valide()
    }

    /// A controller at rest, for a device that measures with the given gain
    /// and integration time.
    pub fn new(
        seuils: Seuils,
        gain: Gain,
        temps_integration: TempsIntegration,
    ) -> (regulateur: Regulateur)
        ensures
            regulateur@ == (EtatReglage {
                bas: seuils.spec_bas(),
                haut: seuils.spec_haut(),
                gain,
                temps_integration,
                phase: Phase::Repos,
                pas: 0,
            }),
            regulateur@.valide(),
    {
        proof {
            use_type_invariant(&seuils);
        }
        Regulateur { seuils, gain, temps_integration, phase: Phase::Repos, pas: 0 }
    }

    /// Where the cycle stands.
    pub fn phase(&self) -> (phase: Phase)
        ensures
            phase == self@.phase,
    {
        self.phase
    }

    /// The gain that the controller has settled on or is trying.
    pub fn gain(&self) -> (gain: Gain)
        ensures
            gain == self@.gain,
    {
        self.gain
    }

    /// The integration time that the controller has settled on or is trying.
    pub fn temps_integration(&self) -> (temps_integration: TempsIntegration)
        ensures
            temps_integration == self@.temps_integration,
    {
        self.temps_integration
    }

    /// Changes of setting made so far, never more than `PAS_MAXIMUM`.
    pub fn pas(&self) -> (pas: u8)
        ensures
            pas == self@.pas,
            pas <= PAS_MAXIMUM,
    {
        proof {
            use_type_invariant(self);
        }
        self.pas
    }

    /// Asks for a measurement. At rest the controller starts measuring and
    /// tells the caller to read; in any other phase nothing changes.
    pub fn demander(&mut self) -> (consigne: Consigne)
        ensures
            final(self)@ == old(self)@.demander(),
            consigne == old(self)@.consigne_demander(),
            final(self)@.valide(),
    {
        proof {
            use_type_invariant(&*self);
        }
        match self.phase {
            Phase::Repos => {
                self.phase = Phase::Mesure;
                Consigne::Lire
            },
            _ => Consigne::Aucune,
        }
    }

    /// Takes a raw count. While measuring, the controller either ends the
    /// cycle and returns the measurement, or moves the setting one step and
    /// tells the caller to write it; in any other phase nothing changes.
    pub fn recevoir(&mut self, brut: u16) -> (consigne: Consigne)
        ensures
            final(self)@ == old(self)@.recevoir(brut),
            consigne == old(self)@.consigne_recevoir(brut),
            final(self)@.valide(),
    {
        proof {
            use_type_invariant(&*self);
            use_type_invariant(&self.seuils);
        }
        if self.phase != Phase::Mesure {
            return Consigne::Aucune;
        }
        let sature: bool = brut >= self.seuils.haut();
        let sous_expose: bool = brut <= self.seuils.bas();
        let au_minimum: bool = self.gain == Gain::AlsGain1_8 && self.temps_integration
            == TempsIntegration::AlsIt25MS;
        let au_maximum: bool = self.gain == Gain::AlsGain2 && self.temps_integration
            == TempsIntegration::AlsIt800MS;
        let plafonne: bool = self.pas >= PAS_MAXIMUM;
        if sature && !au_minimum && !plafonne {
            let gain = self.gain.suivant();
            let temps_integration = self.temps_integration.precedent();
            *self = Regulateur {
                phase: Phase::Sature,
                gain,
                temps_integration,
                pas: self.pas + 1,
                ..*self
            };
            Consigne::Configurer { gain, temps_integration }
        } else if !sature && sous_expose && !au_maximum && !plafonne {
            let gain = self.gain.precedent();
            let temps_integration = self.temps_integration.suivant();
            *self = Regulateur {
                phase: Phase::SousExpose,
                gain,
                temps_integration,
                pas: self.pas + 1,
                ..*self
            };
            Consigne::Configurer { gain, temps_integration }
        } else {
            self.phase = Phase::Stable;
            Consigne::Rendre {
                brut,
                lux_dix_milliemes: lux_dix_milliemes(brut, self.gain, self.temps_integration),
            }
        }
    }

    /// Reports that the setting was written. After a change of setting the
    /// controller goes back to measuring and tells the caller to read; in any
    /// other phase nothing changes.
    pub fn reprendre(&mut self) -> (consigne: Consigne)
        ensures
            final(self)@ == old(self)@.reprendre(),
            consigne == old(self)@.consigne_reprendre(),
            final(self)@.valide(),
    {
        proof {
            use_type_invariant(&*self);
        }
        match self.phase {
            Phase::Sature | Phase::SousExpose => {
                self.phase = Phase::Mesure;
                Consigne::Lire
            },
            _ => Consigne::Aucune,
        }
    }
}

/// A run of counts keeps a controller valid and its thresholds in place, and
/// never lowers the count of changes.
pub proof fn loi_derouler_valide(etat: EtatReglage, lectures: Seq<u16>)
    requires
        etat.valide(),
    ensures
        etat.derouler(lectures).valide(),
        etat.derouler(lectures).bas == etat.bas,
        etat.derouler(lectures).haut == etat.haut,
        etat.pas <= etat.derouler(lectures).pas <= PAS_MAXIMUM,
    decreases lectures.len(),
{
    if lectures.len() > 0 && etat.phase == Phase::Mesure {
        loi_derouler_valide(etat.recevoir(lectures[0]).reprendre(), lectures.skip(1));
    }
}

/// A cycle ends: a measuring controller that has made `pas` changes is
/// stable after at most `PAS_MAXIMUM - pas + 1` counts, whatever they are.
pub proof fn loi_cycle_borne(etat: EtatReglage, lectures: Seq<u16>)
    requires
        etat.valide(),
        etat.phase == Phase::Mesure,
        lectures.len() > PAS_MAXIMUM - etat.pas,
    ensures
        etat.derouler(lectures).phase == Phase::Stable,
    decreases lectures.len(),
{
    let suite = etat.recevoir(lectures[0]).reprendre();
    if suite.phase == Phase::Mesure {
        loi_cycle_borne(suite, lectures.skip(1));
    } else {
        assert(suite.phase == Phase::Stable);
        assert(suite.derouler(lectures.skip(1)) == suite);
    }
}

/// A cycle that starts on a count that is too high, at a setting that can
/// still be lowered, moves gain and integration time one step down each,
/// which makes the resolution coarser, and is stable after at most
/// `PAS_MAXIMUM` changes, whatever counts follow.
pub proof fn loi_convergence_depuis_saturation(etat: EtatReglage, lectures: Seq<u16>)
    requires
        etat.valide(),
        etat.phase == Phase::Mesure,
        etat.pas == 0,
        !etat.au_minimum(),
        lectures.len() > PAS_MAXIMUM,
        etat.sature(lectures[0]),
    ensures
        etat.recevoir(lectures[0]).phase == Phase::Sature,
        etat.recevoir(lectures[0]).gain == etat.gain.spec_suivant(),
        etat.recevoir(lectures[0]).temps_integration == etat.temps_integration.spec_precedent(),
        spec_resolution(
            etat.recevoir(lectures[0]).gain,
            etat.recevoir(lectures[0]).temps_integration,
        ) > spec_resolution(etat.gain, etat.temps_integration),
        etat.derouler(lectures).phase == Phase::Stable,
        1 <= etat.derouler(lectures).pas <= PAS_MAXIMUM,
{
    let apres = etat.recevoir(lectures[0]);
    loi_resolution_monotone(apres.gain, apres.temps_integration, etat.gain, etat.temps_integration);
    loi_cycle_borne(etat, lectures);
    loi_derouler_valide(apres.reprendre(), lectures.skip(1));
}

/// The larger of the ranks of a gain and an integration time: the number of
/// steps down that bring both to their least sensitive value.
pub open spec fn pas_vers_minimum(gain: Gain, temps_integration: TempsIntegration) -> int {
    if gain.rang() >= temps_integration.rang() {
        gain.rang()
    } else {
        temps_integration.rang()
    }
}

/// The number of steps up that bring a gain and an integration time to their
/// most sensitive value.
pub open spec fn pas_vers_maximum(gain: Gain, temps_integration: TempsIntegration) -> int {
    if 3 - gain.rang() >= 5 - temps_integration.rang() {
        3 - gain.rang()
    } else {
        5 - temps_integration.rang()
    }
}

/// Under light that stays too strong the cycle walks down to the least
/// sensitive setting and ends there, in at most five changes.
pub proof fn loi_saturation_constante(etat: EtatReglage, lectures: Seq<u16>)
    requires
        etat.valide(),
        etat.phase == Phase::Mesure,
        etat.pas + pas_vers_minimum(etat.gain, etat.temps_integration) <= PAS_MAXIMUM,
        lectures.len() > pas_vers_minimum(etat.gain, etat.temps_integration),
        forall|i: int| 0 <= i < lectures.len() ==> etat.sature(#[trigger] lectures[i]),
    ensures
        etat.derouler(lectures).phase == Phase::Stable,
        etat.derouler(lectures).au_minimum(),
        etat.derouler(lectures).pas == etat.pas + pas_vers_minimum(
            etat.gain,
            etat.temps_integration,
        ),
        pas_vers_minimum(etat.gain, etat.temps_integration) <= 5,
    decreases lectures.len(),
{
    let suite = etat.recevoir(lectures[0]).reprendre();
    let reste = lectures.skip(1);
    assert(etat.sature(lectures[0]));
    if etat.au_minimum() {
        assert(suite.derouler(reste) == suite);
    } else {
        assert forall|i: int| 0 <= i < reste.len() implies suite.sature(#[trigger] reste[i]) by {
            assert(reste[i] == lectures[i + 1]);
        }
        loi_saturation_constante(suite, reste);
    }
}

/// Under light that stays too weak the cycle walks up to the most sensitive
/// setting and ends there, in at most five changes.
pub proof fn loi_sous_exposition_constante(etat: EtatReglage, lectures: Seq<u16>)
    requires
        etat.valide(),
        etat.phase == Phase::Mesure,
        etat.pas + pas_vers_maximum(etat.gain, etat.temps_integration) <= PAS_MAXIMUM,
        lectures.len() > pas_vers_maximum(etat.gain, etat.temps_integration),
        forall|i: int| 0 <= i < lectures.len() ==> etat.sous_expose(#[trigger] lectures[i]),
    ensures
        etat.derouler(lectures).phase == Phase::Stable,
        etat.derouler(lectures).au_maximum(),
        etat.derouler(lectures).pas == etat.pas + pas_vers_maximum(
            etat.gain,
            etat.temps_integration,
        ),
        pas_vers_maximum(etat.gain, etat.temps_integration) <= 5,
    decreases lectures.len(),
{
    let suite = etat.recevoir(lectures[0]).reprendre();
    let reste = lectures.skip(1);
    assert(etat.sous_expose(lectures[0]));
    if etat.au_maximum() {
        assert(suite.derouler(reste) == suite);
    } else {
        assert forall|i: int| 0 <= i < reste.len() implies suite.sous_expose(
            #[trigger] reste[i],
        ) by {
            assert(reste[i] == lectures[i + 1]);
        }
        loi_sous_exposition_constante(suite, reste);
    }
}

/// A count strictly between the thresholds ends the cycle at once, at the
/// setting it was taken with, and its illuminance is what is returned.
pub proof fn loi_lecture_dans_la_plage(etat: EtatReglage, brut: u16)
    requires
        etat.valide(),
        etat.phase == Phase::Mesure,
        etat.bas < brut < etat.haut,
    ensures
        etat.recevoir(brut) == (EtatReglage { phase: Phase::Stable, ..etat }),
        etat.consigne_recevoir(brut) == (Consigne::Rendre {
            brut,
            lux_dix_milliemes: spec_lux_dix_milliemes(
                brut,
                etat.gain,
                etat.temps_integration,
            ) as u32,
        }),
{
}

/// A stable controller stays as it is, whatever it is told.
pub proof fn loi_stable_terminal(etat: EtatReglage, brut: u16, lectures: Seq<u16>)
    requires
        etat.phase == Phase::Stable,
    ensures
        etat.demander() == etat,
        etat.recevoir(brut) == etat,
        etat.reprendre() == etat,
        etat.derouler(lectures) == etat,
        etat.consigne_demander() == Consigne::Aucune,
        etat.consigne_recevoir(brut) == Consigne::Aucune,
        etat.consigne_reprendre() == Consigne::Aucune,
{
}

} // verus!
