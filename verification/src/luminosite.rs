//! Conversion of raw counts to illuminance, in whole ten-thousandths of a lux.

use crate::instruction::{Gain, TempsIntegration};
use vstd::prelude::*;

verus! {

/// Resolution of the sensor at gain ×1/8 and 100 ms, in ten-thousandths of a
/// lux per count: 0.4608 lx/count. The figure is the one that the device's
/// datasheet publishes for that setting; it is not derived here.
pub const RESOLUTION_REFERENCE: u32 = 4608;

/// Integration time of the reference setting, in milliseconds.
pub const TEMPS_REFERENCE_MS: u32 = 100;

/// Resolution at a setting, in ten-thousandths of a lux per count. It scales
/// inversely with the gain and with the integration time, from the reference
/// setting of gain ×1/8 (one eighth) and 100 ms.
pub open spec fn spec_resolution(gain: Gain, temps_integration: TempsIntegration) -> int {
    (RESOLUTION_REFERENCE * TEMPS_REFERENCE_MS) as int / (gain.spec_huitiemes()
        * temps_integration.spec_millisecondes())
}

/// Illuminance that a raw count stands for at a setting, in ten-thousandths
/// of a lux.
pub open spec fn spec_lux_dix_milliemes(
    brut: u16,
    gain: Gain,
    temps_integration: TempsIntegration,
) -> int {
    brut * spec_resolution(gain, temps_integration)
}

/// The reference divides evenly by each product of a gain, in eighths, and
/// a duration, in milliseconds.
proof fn lemme_division_exacte(diviseur: int)
    requires
        diviseur == 25 || diviseur == 50 || diviseur == 100 || diviseur == 200 || diviseur == 400
            || diviseur == 800 || diviseur == 1600 || diviseur == 3200 || diviseur == 6400
            || diviseur == 12800,
    ensures
        (460800int / diviseur) * diviseur == 460800,
        36 <= 460800int / diviseur <= 18432,
{
    assert(460800int / 25 == 18432);
    assert(460800int / 50 == 9216);
    assert(460800int / 100 == 4608);
    assert(460800int / 200 == 2304);
    assert(460800int / 400 == 1152);
    assert(460800int / 800 == 576);
    assert(460800int / 1600 == 288);
    assert(460800int / 3200 == 144);
    assert(460800int / 6400 == 72);
    assert(460800int / 12800 == 36);
}

/// The scaling is exact at every setting, no resolution is lost to rounding,
/// and the resolution lies between 0.0036 and 1.8432 lx/count.
pub proof fn loi_resolution_exacte(gain: Gain, temps_integration: TempsIntegration)
    ensures
        spec_resolution(gain, temps_integration) * (gain.spec_huitiemes()
            * temps_integration.spec_millisecondes()) == RESOLUTION_REFERENCE * TEMPS_REFERENCE_MS,
        36 <= spec_resolution(gain, temps_integration) <= 18432,
        spec_resolution(Gain::AlsGain1_8, TempsIntegration::AlsIt100MS) == RESOLUTION_REFERENCE,
        spec_resolution(Gain::AlsGain2, TempsIntegration::AlsIt800MS) == 36,
        spec_resolution(Gain::AlsGain1_8, TempsIntegration::AlsIt25MS) == 18432,
{
    let huitiemes: int = gain.spec_huitiemes() as int;
    let duree: int = temps_integration.spec_millisecondes() as int;
    assert(huitiemes == 1 || huitiemes == 2 || huitiemes == 8 || huitiemes == 16);
    assert(duree == 25 || duree == 50 || duree == 100 || duree == 200 || duree == 400 || duree
        == 800);
    assert(huitiemes * duree == if huitiemes == 1 {
        duree
    } else if huitiemes == 2 {
        2 * duree
    } else if huitiemes == 8 {
        8 * duree
    } else {
        16 * duree
    });
    lemme_division_exacte(huitiemes * duree);
    lemme_division_exacte(100);
    lemme_division_exacte(12800);
    lemme_division_exacte(25);
    assert(Gain::AlsGain1_8.spec_huitiemes() * TempsIntegration::AlsIt100MS.spec_millisecondes()
        == 100);
    assert(Gain::AlsGain2.spec_huitiemes() * TempsIntegration::AlsIt800MS.spec_millisecondes()
        == 12800) by {
        assert(Gain::AlsGain2.spec_huitiemes() == 16);
        assert(TempsIntegration::AlsIt800MS.spec_millisecondes() == 800);
        assert(16int * 800 == 12800);
    }
    assert(Gain::AlsGain1_8.spec_huitiemes() * TempsIntegration::AlsIt25MS.spec_millisecondes()
        == 25);
}

/// The resolution at each of the twenty-four settings as the datasheet
/// tabulates them, in ten-thousandths of a lux per count: from 0.0036 lx/count
/// at gain ×2 and 800 ms to 1.8432 lx/count at gain ×1/8 and 25 ms.
pub open spec fn table_des_resolutions(gain: Gain, temps_integration: TempsIntegration) -> int {
    let a_gain_deux: int = match temps_integration {
        TempsIntegration::AlsIt800MS => 36,
        TempsIntegration::AlsIt400MS => 72,
        TempsIntegration::AlsIt200MS => 144,
        TempsIntegration::AlsIt100MS => 288,
        TempsIntegration::AlsIt50MS => 576,
        TempsIntegration::AlsIt25MS => 1152,
    };
    match gain {
        Gain::AlsGain2 => a_gain_deux,
        Gain::AlsGain1 => 2 * a_gain_deux,
        Gain::AlsGain1_4 => 8 * a_gain_deux,
        Gain::AlsGain1_8 => 16 * a_gain_deux,
    }
}

/// The scaling from the reference setting gives the tabulated resolution at
/// every setting.
pub proof fn loi_resolution_tabulee(gain: Gain, temps_integration: TempsIntegration)
    ensures
        spec_resolution(gain, temps_integration) == table_des_resolutions(gain, temps_integration),
{
    loi_resolution_exacte(gain, temps_integration);
    let huitiemes: int = gain.spec_huitiemes() as int;
    let duree: int = temps_integration.spec_millisecondes() as int;
    let produit: int = huitiemes * duree;
    let resolution: int = spec_resolution(gain, temps_integration);
    let tabulee: int = table_des_resolutions(gain, temps_integration);
    let a_gain_deux: int = table_des_resolutions(Gain::AlsGain2, temps_integration);
    assert(a_gain_deux * duree == 28800) by {
        match temps_integration {
            TempsIntegration::AlsIt800MS => assert(36int * 800 == 28800),
            TempsIntegration::AlsIt400MS => assert(72int * 400 == 28800),
            TempsIntegration::AlsIt200MS => assert(144int * 200 == 28800),
            TempsIntegration::AlsIt100MS => assert(288int * 100 == 28800),
            TempsIntegration::AlsIt50MS => assert(576int * 50 == 28800),
            TempsIntegration::AlsIt25MS => assert(1152int * 25 == 28800),
        }
    }
    assert(tabulee * huitiemes == 16 * a_gain_deux);
    assert(tabulee * produit == 460800) by (nonlinear_arith)
        requires
            produit == huitiemes * duree,
            tabulee * huitiemes == 16 * a_gain_deux,
            a_gain_deux * duree == 28800,
    ;
    assert(resolution == tabulee) by (nonlinear_arith)
        requires
            resolution * produit == 460800,
            tabulee * produit == 460800,
            produit > 0,
    ;
}

/// A setting that is more sensitive, by its gain or by its integration time,
/// has the finer resolution.
pub proof fn loi_resolution_monotone(
    gain_a: Gain,
    temps_a: TempsIntegration,
    gain_b: Gain,
    temps_b: TempsIntegration,
)
    requires
        gain_a.rang() <= gain_b.rang(),
        temps_a.rang() <= temps_b.rang(),
    ensures
        spec_resolution(gain_a, temps_a) >= spec_resolution(gain_b, temps_b),
        gain_a.rang() < gain_b.rang() || temps_a.rang() < temps_b.rang() ==> spec_resolution(
            gain_a,
            temps_a,
        ) > spec_resolution(gain_b, temps_b),
{
    loi_resolution_exacte(gain_a, temps_a);
    loi_resolution_exacte(gain_b, temps_b);
    let da: int = gain_a.spec_huitiemes() * temps_a.spec_millisecondes();
    let db: int = gain_b.spec_huitiemes() * temps_b.spec_millisecondes();
    let ra: int = spec_resolution(gain_a, temps_a);
    let rb: int = spec_resolution(gain_b, temps_b);
    assert(gain_a.spec_huitiemes() <= gain_b.spec_huitiemes());
    assert(temps_a.spec_millisecondes() <= temps_b.spec_millisecondes());
    assert(da <= db) by (nonlinear_arith)
        requires
            da == gain_a.spec_huitiemes() * temps_a.spec_millisecondes(),
            db == gain_b.spec_huitiemes() * temps_b.spec_millisecondes(),
            0 < gain_a.spec_huitiemes() <= gain_b.spec_huitiemes(),
            0 < temps_a.spec_millisecondes() <= temps_b.spec_millisecondes(),
    ;
    assert(ra >= rb) by (nonlinear_arith)
        requires
            ra * da == rb * db,
            0 < da <= db,
            ra > 0,
            rb > 0,
    ;
    if gain_a.rang() < gain_b.rang() || temps_a.rang() < temps_b.rang() {
        assert(da < db) by (nonlinear_arith)
            requires
                da == gain_a.spec_huitiemes() * temps_a.spec_millisecondes(),
                db == gain_b.spec_huitiemes() * temps_b.spec_millisecondes(),
                0 < gain_a.spec_huitiemes() <= gain_b.spec_huitiemes(),
                0 < temps_a.spec_millisecondes() <= temps_b.spec_millisecondes(),
                gain_a.spec_huitiemes() < gain_b.spec_huitiemes()
                    || temps_a.spec_millisecondes() < temps_b.spec_millisecondes(),
        ;
        assert(ra > rb) by (nonlinear_arith)
            requires
                ra * da == rb * db,
                0 < da < db,
                ra > 0,
                rb > 0,
        ;
    }
}

/// At an integration time of 100 ms or more no setting is coarser than the
/// reference setting.
pub proof fn loi_reference_la_plus_grossiere(gain: Gain, temps_integration: TempsIntegration)
    requires
        temps_integration.spec_millisecondes() >= TEMPS_REFERENCE_MS,
    ensures
        spec_resolution(gain, temps_integration) <= RESOLUTION_REFERENCE,
{
    loi_resolution_exacte(gain, temps_integration);
    loi_resolution_monotone(
        Gain::AlsGain1_8,
        TempsIntegration::AlsIt100MS,
        gain,
        temps_integration,
    );
}

/// Resolution at a setting, in ten-thousandths of a lux per count.
pub fn resolution(gain: Gain, temps_integration: TempsIntegration) -> (resolution: u32)
    ensures
        resolution == spec_resolution(gain, temps_integration),
        resolution == table_des_resolutions(gain, temps_integration),
        36 <= resolution <= 18432,
{
    let huitiemes: u32 = gain.huitiemes() as u32;
    let millisecondes: u32 = temps_integration.millisecondes() as u32;
    proof {
        loi_resolution_exacte(gain, temps_integration);
        loi_resolution_tabulee(gain, temps_integration);
        assert(0 < huitiemes * millisecondes <= 12800) by (nonlinear_arith)
            requires
                0 < huitiemes <= 16,
                0 < millisecondes <= 800,
        ;
    }
    (RESOLUTION_REFERENCE * TEMPS_REFERENCE_MS) / (huitiemes * millisecondes)
}

/// Illuminance that a raw count stands for at a setting, in ten-thousandths
/// of a lux: the count times the resolution of the setting. A count of zero
/// is zero lux at every setting.
pub fn lux_dix_milliemes(brut: u16, gain: Gain, temps_integration: TempsIntegration) -> (lux: u32)
    ensures
        lux == spec_lux_dix_milliemes(brut, gain, temps_integration),
        lux == brut * spec_resolution(gain, temps_integration),
        brut == 0 ==> lux == 0,
{
    let resolution: u32 = resolution(gain, temps_integration);
    proof {
        assert(brut * resolution <= 65535 * 18432) by (nonlinear_arith)
            requires
                0 <= brut <= 65535,
                0 <= resolution <= 18432,
        ;
    }
    (brut as u32) * resolution
}

/// More light is never fewer lux: at one setting the illuminance grows with
/// the count.
pub proof fn loi_lux_croissant(
    brut_a: u16,
    brut_b: u16,
    gain: Gain,
    temps_integration: TempsIntegration,
)
    requires
        brut_a <= brut_b,
    ensures
        spec_lux_dix_milliemes(brut_a, gain, temps_integration) <= spec_lux_dix_milliemes(
            brut_b,
            gain,
            temps_integration,
        ),
        0 <= spec_lux_dix_milliemes(brut_a, gain, temps_integration) <= 65535 * 18432,
{
    loi_resolution_exacte(gain, temps_integration);
    let r: int = spec_resolution(gain, temps_integration);
    assert(brut_a * r <= brut_b * r && 0 <= brut_a * r <= 65535 * 18432) by (nonlinear_arith)
        requires
            0 <= brut_a <= brut_b,
            brut_a <= 65535,
            36 <= r <= 18432,
    ;
}

} // verus!
