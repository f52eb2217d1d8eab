//! PHY link status, as resolved from the autonegotiation registers.
use vstd::prelude::*;
use crate::bits::bit16;
use crate::eth::Error;
use crate::eth::mdio::{MiiBmsr, MiiLpa, MiiStat1000};

verus! {

/// Link status of the PHY
#[derive(Debug, Clone, Copy, PartialEq, Eq, Structural)]
pub struct Status {
    pub link_status: bool,
    pub speed: u16,
    pub full_duplex: bool,
    pub pause: bool,
}

/// The link status that the PHY registers describe: `bmsr` (basic mode
/// status), `stat1000` and `ctrl1000` (1000BASE-T status and control), `lpa`
/// and `adv` (link partner ability and own advertisement). The last four
/// only matter when the link is up.
pub open spec fn phy_status_spec(bmsr: u16, stat1000: u16, ctrl1000: u16, lpa: u16, adv: u16) -> Result<
    Status,
    Error,
> {
    let link = bit16(bmsr, 2);
    if !link {
        Ok(Status { link_status: false, speed: 0, full_duplex: false, pause: false })
    } else if bit16(stat1000, 15) {
        Err(Error::HwError)
    } else {
        let gb = stat1000 & ((ctrl1000 << 2u16) as u16);
        let common = lpa & adv;
        let (speed, full_duplex) = if bit16(gb, 10) || bit16(gb, 11) {
            (1000u16, bit16(gb, 11))
        } else if bit16(common, 7) || bit16(common, 8) {
            (100u16, bit16(common, 8))
        } else {
            (10u16, bit16(common, 6))
        };
        Ok(
            Status {
                link_status: true,
                speed: speed,
                full_duplex: full_duplex,
                pause: full_duplex && bit16(lpa, 10),
            },
        )
    }
}

/// Resolves the link status from the PHY registers (see [phy_status_spec]).
pub fn phy_status(bmsr: u16, stat1000: u16, ctrl1000: u16, lpa: u16, adv: u16) -> (r: Result<
    Status,
    Error,
>)
    ensures
        r == phy_status_spec(bmsr, stat1000, ctrl1000, lpa, adv),
{
    let bmsr = MiiBmsr::from(bmsr);
    let link_status = bmsr.link_status();
    let mut speed: u16 = 0;
    let mut full_duplex = false;
    let mut pause = false;
    if link_status {
        let lpagb = MiiStat1000::from(stat1000);
        if lpagb.lpa_1000_ms_fail() {
            // Master/Slave resolution failed
            return Err(Error::HwError);
        }
        let common_adv_gb = MiiStat1000::from(lpagb.0 & (ctrl1000 << 2u16));
        let common_adv = MiiLpa::from(lpa & adv);
        if common_adv_gb.lpa_1000_half() || common_adv_gb.lpa_1000_full() {
            speed = 1000;
            full_duplex = common_adv_gb.lpa_1000_full();
        } else if common_adv.lpa_100_half() || common_adv.lpa_100_full() {
            speed = 100;
            full_duplex = common_adv.lpa_100_full();
        } else {
            speed = 10;
            full_duplex = common_adv.lpa_10_full();
        }
        if full_duplex {
            pause = MiiLpa::from(lpa).pause_cap();
        }
    }
    Ok(Status { link_status, speed, full_duplex, pause })
}

/// How the link is resolved from the registers: the link is reported as
/// the basic status register says; a master/slave fault is an error; with
/// the link up, the highest ability that both ends have in common wins
/// (1000 Mbit/s when the 1000BASE-T bits of `stat1000 & (ctrl1000 << 2)`
/// meet, 100 Mbit/s only when they do not and `lpa & adv` has a 100 Mbit/s
/// bit, 10 Mbit/s otherwise), the duplex is that of the winning ability, and
/// pause is granted exactly on a full-duplex link that the partner offers
/// it on.
pub proof fn lemma_phy_highest_common_ability(
    bmsr: u16,
    stat1000: u16,
    ctrl1000: u16,
    lpa: u16,
    adv: u16,
)
    ensures
        ({
            let r = phy_status_spec(bmsr, stat1000, ctrl1000, lpa, adv);
            let gb = stat1000 & ((ctrl1000 << 2u16) as u16);
            let common = lpa & adv;
            &&& bmsr & 0x0004 == 0 ==> r == Ok::<Status, Error>(
                Status { link_status: false, speed: 0, full_duplex: false, pause: false },
            )
            &&& bmsr & 0x0004 != 0 && stat1000 & 0x8000 != 0 ==> r == Err::<Status, Error>(
                Error::HwError,
            )
            &&& bmsr & 0x0004 != 0 && stat1000 & 0x8000 == 0 ==> r is Ok && r->Ok_0.link_status
            &&& bmsr & 0x0004 != 0 && stat1000 & 0x8000 == 0 && gb & 0x0C00 != 0 ==> r is Ok
                && r->Ok_0.speed == 1000 && r->Ok_0.full_duplex == (gb & 0x0800 != 0)
            &&& r is Ok && r->Ok_0.speed == 100 ==> gb & 0x0C00 == 0 && common & 0x0180 != 0
                && r->Ok_0.full_duplex == (common & 0x0100 != 0)
            &&& r is Ok && r->Ok_0.speed == 10 ==> gb & 0x0C00 == 0 && common & 0x0180 == 0
                && r->Ok_0.full_duplex == (common & 0x0040 != 0)
            &&& r is Ok && r->Ok_0.link_status ==> r->Ok_0.speed == 1000 || r->Ok_0.speed
                == 100 || r->Ok_0.speed == 10
            &&& r is Ok ==> r->Ok_0.pause == (r->Ok_0.full_duplex && lpa & 0x0400 != 0)
        }),
{
    let gb = stat1000 & ((ctrl1000 << 2u16) as u16);
    let common = lpa & adv;
    assert(bit16(bmsr, 2) == (bmsr & 0x0004 != 0)) by (bit_vector);
    assert(bit16(stat1000, 15) == (stat1000 & 0x8000 != 0)) by (bit_vector);
    assert((bit16(gb, 10) || bit16(gb, 11)) == (gb & 0x0C00 != 0)) by (bit_vector);
    assert(bit16(gb, 11) == (gb & 0x0800 != 0)) by (bit_vector);
    assert((bit16(common, 7) || bit16(common, 8)) == (common & 0x0180 != 0)) by (bit_vector);
    assert(bit16(common, 8) == (common & 0x0100 != 0)) by (bit_vector);
    assert(bit16(common, 6) == (common & 0x0040 != 0)) by (bit_vector);
    assert(bit16(lpa, 10) == (lpa & 0x0400 != 0)) by (bit_vector);
}

} // verus!
