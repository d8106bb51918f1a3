//! The decisions of the control loop: when it goes on, when the display is
//! refreshed and with which view, and what a motion event does to the lamp.
//!
//! The loop itself belongs to the caller. Each iteration it asks `controler`
//! whether to go on, waits for a motion event for as long as it is told,
//! hands the outcome of the wait to `reagir`, and carries out what comes
//! back.

use vstd::prelude::*;

verus! {

/// How long one iteration waits for a motion event, in seconds.
pub const INTERVALLE_ATTENTE_S: u64 = 10;

/// How long a session lasts at most, in seconds: thirty minutes.
pub const DUREE_SESSION_S: u64 = 1800;

/// The display is refreshed at the minutes that are multiples of this.
pub const PERIODE_RAFRAICHISSEMENT_MIN: u32 = 5;

/// For how many seconds from the start of such a minute a refresh is due.
pub const FENETRE_RAFRAICHISSEMENT_S: u32 = 10;

/// At the minutes that are multiples of this the day and time are shown.
pub const PERIODE_JOUR_MIN: u32 = 10;

/// How the wait for a motion event ended.
#[derive(Copy, Clone, PartialEq, Eq, Debug, Structural)]
pub enum Attente {
    /// An event came: motion started (`true`) or stopped (`false`).
    Mouvement(bool),
    /// No event came within the interval.
    Expiration,
    /// The channel reported an error.
    ErreurCanal,
}

/// What the display shows.
#[derive(Copy, Clone, PartialEq, Eq, Debug, Structural)]
pub enum Vue {
    JourHeure,
    Luminosite,
}

/// What is done to the lamp.
#[derive(Copy, Clone, PartialEq, Eq, Debug, Structural)]
pub enum Lampe {
    Allumer,
    Eteindre,
    Inchangee,
}

/// What the loop does before its next iteration.
#[derive(Copy, Clone, PartialEq, Eq, Debug, Structural)]
pub enum Decision {
    /// Wait for a motion event for at most this many seconds, then call
    /// `reagir`.
    Attendre { secondes: u64 },
    /// Leave the loop, after doing this to the lamp and, where
    /// `arreter_detecteur` is set, stopping the motion detector.
    Arreter { lampe: Lampe, arreter_detecteur: bool },
}

/// What one iteration does once its wait is over.
#[derive(Copy, Clone, PartialEq, Eq, Debug, Structural)]
pub struct Reaction {
    /// Whether the light is measured and the display refreshed.
    pub rafraichir: bool,
    pub lampe: Lampe,
}

/// The loop as a plain value: what the contracts speak of.
pub struct EtatBoucle {
    /// Whether motion is considered present.
    pub mouvement: bool,
    /// Whether the loop has been told to stop.
    pub terminee: bool,
}

/// State of the control loop.
#[derive(Copy, Clone, Debug)]
pub struct Boucle {
    mouvement: bool,
    terminee: bool,
}

/// Whether a refresh is due: motion is present and the clock stands within
/// the first seconds of a refresh minute.
pub open spec fn spec_rafraichissement_du(mouvement: bool, minute: u32, seconde: u32) -> bool {
    mouvement && minute % PERIODE_RAFRAICHISSEMENT_MIN == 0 && seconde
        < FENETRE_RAFRAICHISSEMENT_S
}

/// The view of a refresh: the illuminance where there is one, but the day
/// and time at the minutes kept for them and where no illuminance could be
/// measured.
pub open spec fn spec_choisir_vue(minute: u32, luminosite_disponible: bool) -> Vue {
    if minute % PERIODE_JOUR_MIN == 0 || !luminosite_disponible {
        Vue::JourHeure
    } else {
        Vue::Luminosite
    }
}

/// Whether the loop goes on: it was not asked to stop, the motion channel is
/// connected and the session is younger than its limit.
pub open spec fn spec_poursuivre(
    operationnel: bool,
    canal_deconnecte: bool,
    ecoule_s: u64,
) -> bool {
    operationnel && !canal_deconnecte && ecoule_s < DUREE_SESSION_S
}

/// Whether a refresh is due, given whether motion is present and what the
/// clock shows.
#[verifier::when_used_as_spec(spec_rafraichissement_du)]
pub fn rafraichissement_du(mouvement: bool, minute: u32, seconde: u32) -> (du: bool)
    ensures
        du == spec_rafraichissement_du(mouvement, minute, seconde),
{
    mouvement && minute % PERIODE_RAFRAICHISSEMENT_MIN == 0 && seconde
        < FENETRE_RAFRAICHISSEMENT_S
}

/// The view of a refresh at the given minute, with or without a measured
/// illuminance.
#[verifier::when_used_as_spec(spec_choisir_vue)]
pub fn choisir_vue(minute: u32, luminosite_disponible: bool) -> (vue: Vue)
    ensures
        vue == spec_choisir_vue(minute, luminosite_disponible),
{
    if minute % PERIODE_JOUR_MIN == 0 || !luminosite_disponible {
        Vue::JourHeure
    } else {
        Vue::Luminosite
    }
}

/// Whether the loop goes on, given the cancellation flag (`true` while the
/// program is to run), whether the motion channel is disconnected, and the
/// whole seconds since the loop started.
#[verifier::when_used_as_spec(spec_poursuivre)]
pub fn poursuivre(operationnel: bool, canal_deconnecte: bool, ecoule_s: u64) -> (suite: bool)
    ensures
        suite == spec_poursuivre(operationnel, canal_deconnecte, ecoule_s),
{
    operationnel && !canal_deconnecte && ecoule_s < DUREE_SESSION_S
}

impl EtatBoucle {
    /// The loop after its check before an iteration: once told to stop it
    /// stays stopped.
    pub open spec fn controler(
        &self,
        operationnel: bool,
        canal_deconnecte: bool,
        ecoule_s: u64,
    ) -> EtatBoucle {
        EtatBoucle {
            terminee: self.terminee || !spec_poursuivre(operationnel, canal_deconnecte, ecoule_s),
            ..*self
        }
    }

    /// What the check before an iteration decides. The loop is left with the
    /// lamp turned off and the motion detector stopped, whichever condition
    /// ends it.
    pub open spec fn decision(
        &self,
        operationnel: bool,
        canal_deconnecte: bool,
        ecoule_s: u64,
    ) -> Decision {
        if self.controler(operationnel, canal_deconnecte, ecoule_s).terminee {
            Decision::Arreter { lampe: Lampe::Eteindre, arreter_detecteur: true }
        } else {
            Decision::Attendre { secondes: INTERVALLE_ATTENTE_S }
        }
    }

    /// The loop after a wait: a running loop takes a motion event over;
    /// anything else leaves the loop as it is.
    pub open spec fn reagir(&self, attente: Attente) -> EtatBoucle {
        match attente {
            Attente::Mouvement(present) if !self.terminee => EtatBoucle {
                mouvement: present,
                ..*self
            },
            _ => *self,
        }
    }

    /// What a wait leads to. Whether a refresh is due goes by the motion
    /// known before the wait's outcome is taken over, and by the clock; the
    /// lamp follows a motion event and nothing else.
    pub open spec fn reaction(&self, attente: Attente, minute: u32, seconde: u32) -> Reaction {
        Reaction {
            rafraichir: !self.terminee && spec_rafraichissement_du(self.mouvement, minute, seconde),
            lampe: if self.terminee {
                Lampe::Inchangee
            } else {
                match attente {
                    Attente::Mouvement(true) => Lampe::Allumer,
                    Attente::Mouvement(false) => Lampe::Eteindre,
                    _ => Lampe::Inchangee,
                }
            },
        }
    }
}

impl View for Boucle {
    type V = EtatBoucle;

    closed spec fn view(&self) -> EtatBoucle {
        EtatBoucle { mouvement: self.mouvement, terminee: self.terminee }
    }
}

impl Boucle {
    /// A loop that has not run yet. Motion counts as present at the start.
    pub fn new() -> (boucle: Boucle)
        ensures
            boucle@ == (EtatBoucle { mouvement: true, terminee: false }),
    {
        Boucle { mouvement: true, terminee: false }
    }

    /// Whether motion is considered present.
    pub fn mouvement(&self) -> (mouvement: bool)
        ensures
            mouvement == self@.mouvement,
    {
        self.mouvement
    }

    /// Whether the loop has been told to stop.
    pub fn terminee(&self) -> (terminee: bool)
        ensures
            terminee == self@.terminee,
    {
        self.terminee
    }

    /// The check before each iteration, given the cancellation flag (`true`
    /// while the program is to run), whether the motion channel is
    /// disconnected, and the whole seconds since the loop started. It is the
    /// only place where the loop ends.
    pub fn controler(
        &mut self,
        operationnel: bool,
        canal_deconnecte: bool,
        ecoule_s: u64,
    ) -> (decision: Decision)
        ensures
            final(self)@ == old(self)@.controler(operationnel, canal_deconnecte, ecoule_s),
            decision == old(self)@.decision(operationnel, canal_deconnecte, ecoule_s),
            decision is Arreter <==> final(self)@.terminee,
    {
        if self.terminee || !poursuivre(operationnel, canal_deconnecte, ecoule_s) {
            self.terminee = true;
            Decision::Arreter { lampe: Lampe::Eteindre, arreter_detecteur: true }
        } else {
            Decision::Attendre { secondes: INTERVALLE_ATTENTE_S }
        }
    }

    /// Takes the outcome of a wait, with the minute and second that the
    /// clock shows once the wait is over. A loop that was told to stop does
    /// nothing.
    pub fn reagir(&mut self, attente: Attente, minute: u32, seconde: u32) -> (reaction: Reaction)
        ensures
            final(self)@ == old(self)@.reagir(attente),
            reaction == old(self)@.reaction(attente, minute, seconde),
            final(self)@.terminee == old(self)@.terminee,
    {
        if self.terminee {
            return Reaction { rafraichir: false, lampe: Lampe::Inchangee };
        }
        let rafraichir: bool = rafraichissement_du(self.mouvement, minute, seconde);
        let lampe = match attente {
            Attente::Mouvement(true) => {
                self.mouvement = true;
                Lampe::Allumer
            },
            Attente::Mouvement(false) => {
                self.mouvement = false;
                Lampe::Eteindre
            },
            _ => Lampe::Inchangee,
        };
        Reaction { rafraichir, lampe }
    }
}

/// The loop ends only at its check: an iteration's reaction never stops a
/// running loop, whatever the wait brought, a channel error included.
pub proof fn loi_sortie_au_controle(etat: EtatBoucle, attente: Attente)
    ensures
        etat.reagir(attente).terminee == etat.terminee,
        etat.reagir(Attente::ErreurCanal) == etat,
        etat.reagir(Attente::Expiration) == etat,
{
}

/// The check stops the loop exactly when the program was asked to stop, the
/// motion channel is disconnected or the session has lasted thirty minutes,
/// and a stopped loop stays stopped. Stopping always comes with the same
/// teardown; going on is always a wait of ten seconds.
pub proof fn loi_conditions_de_sortie(
    etat: EtatBoucle,
    operationnel: bool,
    canal_deconnecte: bool,
    ecoule_s: u64,
)
    ensures
        !etat.terminee ==> (etat.decision(operationnel, canal_deconnecte, ecoule_s) is Arreter
            <==> !operationnel || canal_deconnecte || ecoule_s >= 1800),
        etat.terminee ==> etat.decision(operationnel, canal_deconnecte, ecoule_s) is Arreter,
        etat.decision(operationnel, canal_deconnecte, ecoule_s) is Arreter ==> etat.decision(
            operationnel,
            canal_deconnecte,
            ecoule_s,
        ) == (Decision::Arreter { lampe: Lampe::Eteindre, arreter_detecteur: true }),
        !(etat.decision(operationnel, canal_deconnecte, ecoule_s) is Arreter) ==> etat.decision(
            operationnel,
            canal_deconnecte,
            ecoule_s,
        ) == (Decision::Attendre { secondes: 10 }),
{
}

/// Whether a refresh is due does not depend on how the wait ended: a silent
/// motion channel cannot keep a scheduled refresh from happening.
pub proof fn loi_rafraichissement_sans_famine(
    etat: EtatBoucle,
    a: Attente,
    b: Attente,
    minute: u32,
    seconde: u32,
)
    ensures
        etat.reaction(a, minute, seconde).rafraichir == etat.reaction(
            b,
            minute,
            seconde,
        ).rafraichir,
{
}

/// At a refresh the illuminance is shown exactly when there is one and the
/// minute is an odd multiple of five.
pub proof fn loi_vue_au_rafraichissement(minute: u32, seconde: u32, luminosite_disponible: bool)
    requires
        spec_rafraichissement_du(true, minute, seconde),
    ensures
        spec_choisir_vue(minute, luminosite_disponible) == Vue::Luminosite <==> (
        luminosite_disponible && minute % 10 == 5),
{
}

} // verus!
