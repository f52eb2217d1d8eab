//! MAC programming decisions that follow the PHY link state.
use vstd::prelude::*;
use crate::eth::phy::Status;

verus! {

/// The link state last programmed into the MAC; `None` until first seen.
#[derive(Debug, Clone, Copy, PartialEq, Eq, Structural)]
pub struct LinkHistory {
    pub old_link_status: Option<bool>,
    pub old_speed: Option<u16>,
    pub old_full_duplex: Option<bool>,
    pub old_pause: Option<bool>,
}

/// Whether the recorded history differs from `st` in what `mii_setup`
/// compares: the link status, and with the link up the speed, duplex and
/// pause.
pub open spec fn link_changed(h: LinkHistory, st: Status) -> bool {
    ||| h.old_link_status != Some(st.link_status)
    ||| st.link_status && (h.old_speed != Some(st.speed) || h.old_full_duplex != Some(
        st.full_duplex,
    ) || h.old_pause != Some(st.pause))
}

/// The history after recording `st`: the link status always, the rest only
/// with the link up.
pub open spec fn recorded(h: LinkHistory, st: Status) -> LinkHistory {
    if st.link_status {
        LinkHistory {
            old_link_status: Some(st.link_status),
            old_speed: Some(st.speed),
            old_full_duplex: Some(st.full_duplex),
            old_pause: Some(st.pause),
        }
    } else {
        LinkHistory { old_link_status: Some(st.link_status), ..h }
    }
}

impl LinkHistory {
    /// Nothing recorded yet (what `mii_probe` starts from).
    pub fn new() -> (r: LinkHistory)
        ensures
            r.old_link_status is None,
            r.old_speed is None,
            r.old_full_duplex is None,
            r.old_pause is None,
    {
        LinkHistory { old_link_status: None, old_speed: None, old_full_duplex: None, old_pause: None }
    }

    /// Records the new link status; returns whether the UMAC and RGMII block
    /// must be reprogrammed (the link is up and something changed).
    pub fn update(&mut self, status: &Status) -> (r: bool)
        ensures
            *final(self) == recorded(*old(self), *status),
            r == (status.link_status && link_changed(*old(self), *status)),
    {
        let mut status_changed = false;
        if self.old_link_status != Some(status.link_status) {
            status_changed = true;
            self.old_link_status = Some(status.link_status);
        }
        if status.link_status {
            // Check speed/duplex/pause changes
            if self.old_speed != Some(status.speed) {
                status_changed = true;
                self.old_speed = Some(status.speed);
            }
            if self.old_full_duplex != Some(status.full_duplex) {
                status_changed = true;
                self.old_full_duplex = Some(status.full_duplex);
            }
            if self.old_pause != Some(status.pause) {
                status_changed = true;
                self.old_pause = Some(status.pause);
            }
            status_changed
        } else {
            false
        }
    }
}

/// Speed field of the UMAC command register for a link speed in Mbit/s.
pub fn umac_speed_code(speed: u16) -> (r: u32)
    ensures
        r == (if speed == 1000 {
            2u32
        } else if speed == 100 {
            1u32
        } else {
            0u32
        }),
{
    match speed {
        1000 => 2,
        100 => 1,
        _ => 0,
    }
}

/// Recording the same link status twice asks for reprogramming at most once.
pub proof fn lemma_link_update_idempotent(h: LinkHistory, st: Status)
    ensures
        !link_changed(recorded(h, st), st),
        recorded(recorded(h, st), st) == recorded(h, st),
{
}

/// A link that comes up from down or from an unknown state always asks for
/// the MAC to be reprogrammed, so after a cable is pulled and plugged back
/// in, the next update reprograms whatever the link was before; a link that
/// is down never asks for it. With the link up, a change of speed, duplex
/// or pause asks for it, and an unchanged link does not.
pub proof fn lemma_link_up_reprograms(h: LinkHistory, up: Status, down: Status)
    requires
        up.link_status,
        !down.link_status,
    ensures
        h.old_link_status != Some(true) ==> link_changed(h, up),
        link_changed(recorded(h, down), up),
        recorded(h, down).old_link_status == Some(false),
        !(down.link_status && link_changed(h, down)),
        recorded(h, up).old_link_status == Some(true),
        recorded(h, up).old_speed == Some(up.speed),
        recorded(h, up).old_full_duplex == Some(up.full_duplex),
        recorded(h, up).old_pause == Some(up.pause),
        h.old_speed != Some(up.speed) || h.old_full_duplex != Some(up.full_duplex)
            || h.old_pause != Some(up.pause) ==> link_changed(h, up),
        h.old_link_status == Some(true) && h.old_speed == Some(up.speed) && h.old_full_duplex
            == Some(up.full_duplex) && h.old_pause == Some(up.pause) ==> !link_changed(h, up),
{
}

} // verus!
