use vstd::prelude::*;

use crate::controller::{
    landing_step, takeoff_step, takeoff_well_posed, AirtrafficController, ControllerResponse,
};

verus! {

/// Flight state of an aircraft.
#[derive(Clone, Copy, Debug, PartialEq, Eq, Structural, PartialOrd, Ord)]
pub enum PlaneState {
    Landed,
    Airborn,
}

/// An aircraft: its identifier and whether it is on the ground or in the air.
#[derive(PartialEq, Eq, Structural, PartialOrd, Ord)]
pub struct Plane {
    pub id: u8,
    pub state: PlaneState,
}

/// Flight state of an aircraft after a request answered `r`: it is on the
/// ground after an accepted landing, in the air after an allowed takeoff, and
/// unchanged otherwise.
pub open spec fn state_after(state: PlaneState, r: ControllerResponse) -> PlaneState {
    match r {
        ControllerResponse::AcceptLanding => PlaneState::Landed,
        ControllerResponse::AllowTakeoff => PlaneState::Airborn,
        _ => state,
    }
}

impl Plane {
    /// Asks `controller` for leave to take off, and is airborne once it is given.
    pub fn request_takeoff(&mut self, controller: &mut AirtrafficController) -> (r:
        ControllerResponse)
        requires
            old(controller).wf(),
            takeoff_well_posed(old(controller)@, old(self).id, old(self).state),
        ensures
            final(controller).wf(),
            takeoff_step(
                old(controller)@,
                old(self).id,
                old(self).state,
                true,
                r,
                final(controller)@,
            ) || takeoff_step(
                old(controller)@,
                old(self).id,
                old(self).state,
                false,
                r,
                final(controller)@,
            ),
            final(self).id == old(self).id,
            final(self).state == state_after(old(self).state, r),
    {
        if let ControllerResponse::RejectTakeoff = controller.allow_takeoff(self) {
            return ControllerResponse::RejectTakeoff;
        };
        self.state = PlaneState::Airborn;
        ControllerResponse::AllowTakeoff
    }

    /// Asks `controller` for leave to land, and is on the ground once it is given.
    pub fn request_landing(&mut self, controller: &mut AirtrafficController) -> (r:
        ControllerResponse)
        requires
            old(controller).wf(),
        ensures
            final(controller).wf(),
            landing_step(old(controller)@, old(self).id, true, r, final(controller)@)
                || landing_step(old(controller)@, old(self).id, false, r, final(controller)@),
            final(self).id == old(self).id,
            final(self).state == state_after(old(self).state, r),
    {
        match controller.allow_landing(self) {
            ControllerResponse::RejectLanding => {
                return ControllerResponse::RejectLanding;
            },
            ControllerResponse::Redirect => {
                return ControllerResponse::Redirect;
            },
            _ => {},
        };
        self.state = PlaneState::Landed;
        ControllerResponse::AcceptLanding
    }
}

} // verus!
