//! Health figures derived from a controller: composite temperature, spare
//! percentage, wear, warning bits, and the composite controller status
//! change tracker that the management endpoint runs on every request.
use vstd::prelude::*;
use crate::model::{
    Controller, ManagementEndpoint, ManagementEndpointControllerState, MAX_CONTROLLERS, Subsystem,
};
use crate::mi::{CCS_CECO, CCS_RDY};
use crate::nvme::CSTS_RDY;

verus! {

/// `v` when `b` holds, else 0.
pub open spec fn bit(b: bool, v: u8) -> u8 {
    if b {
        v
    } else {
        0
    }
}

pub fn bit_exec(b: bool, v: u8) -> (r: u8)
    ensures
        r == bit(b, v),
{
    if b {
        v
    } else {
        0
    }
}

pub open spec fn temp_in_range(c: &Controller) -> bool {
    c.temp_range.lower <= c.temp && c.temp <= c.temp_range.upper
}

pub open spec fn clamped_temp(c: &Controller) -> u16 {
    if c.temp < c.temp_range.lower {
        c.temp_range.lower
    } else if c.temp > c.temp_range.upper {
        c.temp_range.upper
    } else {
        c.temp
    }
}

/// The temperature clamped to the operating range, in degrees Celsius, as
/// an 8-bit two's complement value.
pub open spec fn ctemp_byte(c: &Controller) -> u8 {
    ((clamped_temp(c) as int - 273) % 256) as u8
}

/// Remaining spare as a percentage of capacity.
pub open spec fn spare_percent(c: &Controller) -> u64 {
    (100 * c.spare / (c.capacity as int)) as u64
}

/// Percentage used, saturating at 255.
pub open spec fn percentage_used(c: &Controller) -> u8 {
    let p = 100 * c.write_age / (c.write_lifespan as int);
    if p > 255 {
        255
    } else {
        p as u8
    }
}

pub fn ctemp_of(c: &Controller) -> (r: u8)
    requires
        c.wf(),
    ensures
        r == ctemp_byte(c),
{
    let clamped: u16 = if c.temp < c.temp_range.lower {
        c.temp_range.lower
    } else if c.temp > c.temp_range.upper {
        c.temp_range.upper
    } else {
        c.temp
    };
    ((clamped as u32 + 239) % 256) as u8
}

pub fn spare_percent_of(c: &Controller) -> (r: u64)
    requires
        c.wf(),
    ensures
        r == spare_percent(c),
        r <= 100,
{
    assert(100 * c.spare <= 100 * c.capacity) by (nonlinear_arith)
        requires
            c.spare <= c.capacity,
    ;
    assert(100 * c.spare / (c.capacity as int) <= 100) by (nonlinear_arith)
        requires
            c.spare <= c.capacity,
            c.capacity > 0,
    ;
    100 * c.spare / c.capacity
}

pub fn percentage_used_of(c: &Controller) -> (r: u8)
    requires
        c.wf(),
    ensures
        r == percentage_used(c),
{
    let p = 100 * c.write_age / c.write_lifespan;
    if p > 255 {
        255
    } else {
        p as u8
    }
}

/// Whether the ready bit of a controller status value is set.
pub open spec fn rdy(csts: u32) -> bool {
    csts & CSTS_RDY != 0
}

/// The change flags one update observes for one controller: CECO when the
/// enable bit changed, RDY when the ready bit changed.
pub open spec fn change_flags(m: ManagementEndpointControllerState, c: &Controller) -> u16 {
    ((if m.cc.en != c.cc.en {
        CCS_CECO
    } else {
        0
    }) + (if rdy(m.csts) != rdy(c.csts) {
        CCS_RDY
    } else {
        0
    })) as u16
}

/// The union of the change flags of the first `n` controllers.
pub open spec fn all_changes(
    mecss: Seq<ManagementEndpointControllerState>,
    ctlrs: Seq<Controller>,
    n: int,
) -> u16
    decreases n,
{
    if n <= 0 {
        0
    } else {
        all_changes(mecss, ctlrs, n - 1) | change_flags(mecss[n - 1], &ctlrs[n - 1])
    }
}

/// The endpoint's per-controller cache after an update: registers copied
/// from each controller, observed changes added to the pending flags.
pub open spec fn refreshed(
    mecss: Seq<ManagementEndpointControllerState>,
    ctlrs: Seq<Controller>,
) -> Seq<ManagementEndpointControllerState> {
    Seq::new(
        mecss.len(),
        |i: int|
            if i < ctlrs.len() {
                ManagementEndpointControllerState {
                    cc: ctlrs[i].cc,
                    csts: ctlrs[i].csts,
                    chscf: mecss[i].chscf | change_flags(mecss[i], &ctlrs[i]),
                }
            } else {
                mecss[i]
            },
    )
}

pub proof fn lemma_or_assoc(a: u16, b: u16, c: u16)
    ensures
        (a | b) | c == a | (b | c),
{
    assert((a | b) | c == a | (b | c)) by (bit_vector);
}

pub proof fn lemma_or_zero(a: u16)
    ensures
        a | 0 == a,
{
    assert(a | 0 == a) by (bit_vector);
}

impl ManagementEndpoint {
    /// Records the transitions of every controller since the last request:
    /// the change flags are added to the controller's pending flags and to
    /// the composite flags, and the cached registers are refreshed.
    pub fn update(&mut self, subsys: &Subsystem)
        requires
            old(self).wf(),
            subsys.wf(),
        ensures
            final(self).wf(),
            final(self).port == old(self).port,
            final(self).mecss@ == refreshed(old(self).mecss@, subsys.ctlrs@),
            final(self).ccsf.bits == old(self).ccsf.bits | all_changes(
                old(self).mecss@,
                subsys.ctlrs@,
                subsys.ctlrs@.len() as int,
            ),
            forall|i: int|
                0 <= i < subsys.ctlrs@.len() ==> {
                    &&& (#[trigger] final(self).mecss@[i]).chscf == old(self).mecss@[i].chscf
                        | change_flags(old(self).mecss@[i], &subsys.ctlrs@[i])
                    &&& final(self).mecss@[i].cc == subsys.ctlrs@[i].cc
                    &&& final(self).mecss@[i].csts == subsys.ctlrs@[i].csts
                },
            forall|i: int|
                subsys.ctlrs@.len() <= i < MAX_CONTROLLERS ==> #[trigger] final(self).mecss@[i]
                    == old(self).mecss@[i],
    {
        let mut i: usize = 0;
        proof {
            lemma_or_zero(old(self).ccsf.bits);
        }
        while i < subsys.ctlrs.len()
            invariant
                subsys.wf(),
                self.wf(),
                self.port == old(self).port,
                i <= subsys.ctlrs@.len(),
                self.ccsf.bits == old(self).ccsf.bits | all_changes(
                    old(self).mecss@,
                    subsys.ctlrs@,
                    i as int,
                ),
                forall|k: int|
                    0 <= k < i ==> {
                        &&& (#[trigger] self.mecss@[k]).chscf == old(self).mecss@[k].chscf
                            | change_flags(old(self).mecss@[k], &subsys.ctlrs@[k])
                        &&& self.mecss@[k].cc == subsys.ctlrs@[k].cc
                        &&& self.mecss@[k].csts == subsys.ctlrs@[k].csts
                    },
                forall|k: int|
                    i <= k < MAX_CONTROLLERS ==> #[trigger] self.mecss@[k] == old(self).mecss@[k],
            decreases subsys.ctlrs@.len() - i,
        {
            let c = &subsys.ctlrs[i];
            let m = self.mecss[i];
            let ceco: u16 = if m.cc.en != c.cc.en {
                CCS_CECO
            } else {
                0
            };
            let r: u16 = if (m.csts & CSTS_RDY != 0) != (c.csts & CSTS_RDY != 0) {
                CCS_RDY
            } else {
                0
            };
            let upd: u16 = ceco + r;
            assert(upd == change_flags(old(self).mecss@[i as int], &subsys.ctlrs@[i as int]));
            proof {
                lemma_or_assoc(
                    old(self).ccsf.bits,
                    all_changes(old(self).mecss@, subsys.ctlrs@, i as int),
                    upd,
                );
            }
            self.ccsf.bits = self.ccsf.bits | upd;
            self.mecss[i] = ManagementEndpointControllerState {
                cc: c.cc,
                csts: c.csts,
                chscf: m.chscf | upd,
            };
            i = i + 1;
        }
        assert(self.mecss@ =~= refreshed(old(self).mecss@, subsys.ctlrs@));
    }
}

} // verus!
