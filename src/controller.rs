use vstd::prelude::*;

use crate::plane::{Plane, PlaneState};
use crate::weather::{is_stormy, reading_is_stormy, Weather, WeatherService};

verus! {

/// Capacity of a newly built controller.
pub const DEFAULT_MAX_CAPACITY: usize = 100;

/// Abstract state of an airport: its capacity limit, the number of aircraft
/// it counts as present, and their identifiers.
pub struct AirportView {
    pub max_capacity: nat,
    pub count: nat,
    pub planes: Set<u8>,
}

/// The count agrees with the set of aircraft present.
pub open spec fn occupancy_consistent(v: AirportView) -> bool {
    &&& v.planes.finite()
    &&& v.count == v.planes.len()
}

/// Outcome of a landing or takeoff request.
#[derive(Clone, Copy, Debug, PartialEq, Eq, Structural)]
pub enum ControllerResponse {
    AcceptLanding,
    RejectLanding,
    /// The airport is full: try elsewhere.
    Redirect,
    AllowTakeoff,
    RejectTakeoff,
}

/// Answer to a landing request by aircraft `id`. The rules apply in order:
/// a storm refuses, then an aircraft already present is refused, then a full
/// airport redirects, and otherwise the landing is accepted.
pub open spec fn landing_decision(pre: AirportView, id: u8, stormy: bool) -> ControllerResponse {
    if stormy {
        ControllerResponse::RejectLanding
    } else if pre.planes.contains(id) {
        ControllerResponse::RejectLanding
    } else if pre.count + 1 > pre.max_capacity {
        ControllerResponse::Redirect
    } else {
        ControllerResponse::AcceptLanding
    }
}

/// The airport after that answer: an accepted aircraft is added and counted;
/// any other answer leaves the airport as it was.
pub open spec fn after_landing(pre: AirportView, id: u8, stormy: bool) -> AirportView {
    if landing_decision(pre, id, stormy) == ControllerResponse::AcceptLanding {
        AirportView { planes: pre.planes.insert(id), count: pre.count + 1, ..pre }
    } else {
        pre
    }
}

/// A landing request by `id` answered `r` took the airport from `pre` to `post`.
pub open spec fn landing_step(
    pre: AirportView,
    id: u8,
    stormy: bool,
    r: ControllerResponse,
    post: AirportView,
) -> bool {
    &&& r == landing_decision(pre, id, stormy)
    &&& post == after_landing(pre, id, stormy)
}

/// Answer to a takeoff request by an aircraft in flight state `state`: a storm
/// or an aircraft already airborne is refused, any other is allowed.
pub open spec fn takeoff_decision(state: PlaneState, stormy: bool) -> ControllerResponse {
    if stormy || state is Airborn {
        ControllerResponse::RejectTakeoff
    } else {
        ControllerResponse::AllowTakeoff
    }
}

/// The airport after that answer: an aircraft allowed to leave is removed and
/// no longer counted; a refusal leaves the airport as it was.
pub open spec fn after_takeoff(
    pre: AirportView,
    id: u8,
    state: PlaneState,
    stormy: bool,
) -> AirportView {
    if takeoff_decision(state, stormy) == ControllerResponse::AllowTakeoff {
        AirportView { planes: pre.planes.remove(id), count: (pre.count - 1) as nat, ..pre }
    } else {
        pre
    }
}

/// A takeoff request by `id`, in flight state `state`, answered `r` took the
/// airport from `pre` to `post`.
pub open spec fn takeoff_step(
    pre: AirportView,
    id: u8,
    state: PlaneState,
    stormy: bool,
    r: ControllerResponse,
    post: AirportView,
) -> bool {
    &&& r == takeoff_decision(state, stormy)
    &&& post == after_takeoff(pre, id, state, stormy)
}

/// A takeoff request is well posed: an aircraft that says it is on the ground
/// is on the ground here. Takeoff operations require this of their callers;
/// an aircraft on the ground elsewhere has no defined answer here, so such a
/// request cannot be made from verified code rather than being half-applied.
pub open spec fn takeoff_well_posed(pre: AirportView, id: u8, state: PlaneState) -> bool {
    state is Landed ==> pre.planes.contains(id)
}

/// Gate-keeper of one airport: tracks which aircraft are on the ground and
/// decides landing and takeoff requests.
pub struct AirtrafficController {
    /// Most aircraft that landings may bring the airport to. It can be set
    /// below the current occupancy: nobody is evicted, only landings are blocked.
    airport_max_capacity: usize,
    airport_capacity: usize,
    plane_ids: Vec<u8>,
    weather_service: Box<dyn WeatherService>,
}

impl AirtrafficController {
    /// The airport as the admission rules see it.
    pub closed spec fn view(&self) -> AirportView {
        AirportView {
            max_capacity: self.airport_max_capacity as nat,
            count: self.airport_capacity as nat,
            planes: self.plane_ids@.to_set(),
        }
    }

    /// The identifiers are stored once each, and the count is their number.
    pub closed spec fn inv(&self) -> bool {
        &&& self.airport_capacity == self.plane_ids@.len()
        &&& self.plane_ids@.no_duplicates()
    }

    /// Well-formedness, kept by every operation: the representation is sound
    /// and the count equals the number of aircraft present.
    pub open spec fn wf(&self) -> bool {
        &&& self.inv()
        &&& occupancy_consistent(self@)
    }

    proof fn lemma_inv_wf(&self)
        requires
            self.inv(),
        ensures
            self.wf(),
    {
        self.plane_ids@.unique_seq_to_set();
    }

    /// A controller with the default capacity and the given aircraft on the ground.
    pub fn new(weather_service: Box<dyn WeatherService>, initial_planes: Vec<u8>) -> (r: Self)
        requires
            initial_planes@.no_duplicates(),
        ensures
            r.wf(),
            r@.max_capacity == DEFAULT_MAX_CAPACITY,
            r@.planes == initial_planes@.to_set(),
            r@.count == initial_planes@.len(),
    {
        let r = AirtrafficController {
            airport_capacity: initial_planes.len(),
            airport_max_capacity: DEFAULT_MAX_CAPACITY,
            plane_ids: initial_planes,
            weather_service,
        };
        proof {
            r.lemma_inv_wf();
        }
        r
    }

    /// Index at which `id` is stored, if it is present.
    fn position_of(&self, id: u8) -> (r: Option<usize>)
        ensures
            match r {
                Some(i) => i < self.plane_ids@.len() && self.plane_ids@[i as int] == id,
                None => !self.plane_ids@.contains(id),
            },
    {
        let mut i: usize = 0;
        while i < self.plane_ids.len()
            invariant
                i <= self.plane_ids@.len(),
                forall|j: int| 0 <= j < i ==> self.plane_ids@[j] != id,
            decreases self.plane_ids@.len() - i,
        {
            if self.plane_ids[i] == id {
                return Some(i);
            }
            i = i + 1;
        }
        None
    }

    /// Whether the aircraft is on the ground at this airport.
    pub fn has_plane(&self, plane: &Plane) -> (r: bool)
        ensures
            r == self@.planes.contains(plane.id),
    {
        self.position_of(plane.id).is_some()
    }

    /// Records `id` as present.
    fn add_plane(&mut self, id: u8)
        requires
            old(self).wf(),
            !old(self)@.planes.contains(id),
            old(self)@.count < old(self)@.max_capacity,
        ensures
            final(self).wf(),
            final(self)@ == (AirportView {
                planes: old(self)@.planes.insert(id),
                count: old(self)@.count + 1,
                ..old(self)@
            }),
    {
        let ghost before = self.plane_ids@;
        self.plane_ids.push(id);
        self.airport_capacity = self.airport_capacity + 1;
        proof {
            assert(self.plane_ids@ == before.push(id));
            assert(self.plane_ids@.to_set() =~= before.to_set().insert(id)) by {
                assert(self.plane_ids@[before.len() as int] == id);
                assert forall|x: u8| #[trigger] before.contains(x) implies self.plane_ids@.contains(x) by {
                    let k = choose|k: int| 0 <= k < before.len() && before[k] == x;
                    assert(self.plane_ids@[k] == x);
                }
            }
            self.lemma_inv_wf();
        }
    }

    /// Forgets `id`.
    fn remove_plane(&mut self, id: &u8)
        requires
            old(self).wf(),
            old(self)@.planes.contains(*id),
        ensures
            final(self).wf(),
            final(self)@ == (AirportView {
                planes: old(self)@.planes.remove(*id),
                count: (old(self)@.count - 1) as nat,
                ..old(self)@
            }),
    {
        let ghost before = self.plane_ids@;
        let i = match self.position_of(*id) {
            Some(i) => i,
            None => {
                proof {
                    assert(before.to_set().contains(*id));
                }
                return;
            }
        };
        self.plane_ids.remove(i);
        self.airport_capacity = self.airport_capacity - 1;
        proof {
            let after = self.plane_ids@;
            assert(after == before.remove(i as int));
            assert(after.to_set() =~= before.to_set().remove(*id)) by {
                assert forall|x: u8| #[trigger] after.contains(x) implies before.contains(x) && x != *id by {
                    let k = choose|k: int| 0 <= k < after.len() && after[k] == x;
                    if k < i {
                        assert(before[k] == x);
                    } else {
                        assert(before[k + 1] == x);
                    }
                }
                assert forall|x: u8| #[trigger] before.contains(x) && x != *id implies after.contains(x) by {
                    let k = choose|k: int| 0 <= k < before.len() && before[k] == x;
                    if k < i {
                        assert(after[k] == x);
                    } else {
                        assert(k != i);
                        assert(after[k - 1] == x);
                    }
                }
            }
            self.lemma_inv_wf();
        }
    }

    /// Replaces the capacity limit. Occupants stay; only later landings see it.
    pub fn set_max_capacity(&mut self, max: usize)
        requires
            old(self).wf(),
        ensures
            final(self).wf(),
            final(self)@ == (AirportView { max_capacity: max as nat, ..old(self)@ }),
    {
        self.airport_max_capacity = max;
        proof {
            self.lemma_inv_wf();
        }
    }

    /// Answers a landing request under the given weather reading, and records
    /// the aircraft when it is accepted.
    pub fn decide_landing(&mut self, plane: &Plane, reading: (Weather, i8)) -> (r:
        ControllerResponse)
        requires
            old(self).wf(),
        ensures
            final(self).wf(),
            landing_step(old(self)@, plane.id, is_stormy(reading.0), r, final(self)@),
    {
        if reading_is_stormy(&reading) {
            return ControllerResponse::RejectLanding;
        }
        if self.has_plane(plane) {
            return ControllerResponse::RejectLanding;
        }
        if self.airport_capacity >= self.airport_max_capacity {
            return ControllerResponse::Redirect;
        }
        self.add_plane(plane.id);
        ControllerResponse::AcceptLanding
    }

    /// Answers a landing request under the weather that the source reports now.
    /// Either a storm was reported, and the landing is refused with nothing
    /// changed, or the answer is the one given in calm weather.
    pub fn allow_landing(&mut self, plane: &Plane) -> (r: ControllerResponse)
        requires
            old(self).wf(),
        ensures
            final(self).wf(),
            landing_step(old(self)@, plane.id, true, r, final(self)@) || landing_step(
                old(self)@,
                plane.id,
                false,
                r,
                final(self)@,
            ),
    {
        let reading = self.check_weather();
        self.decide_landing(plane, reading)
    }

    /// Answers a takeoff request under the given weather reading, and forgets
    /// the aircraft when it is allowed to leave.
    pub fn decide_takeoff(&mut self, plane: &Plane, reading: (Weather, i8)) -> (r:
        ControllerResponse)
        requires
            old(self).wf(),
            !is_stormy(reading.0) ==> takeoff_well_posed(old(self)@, plane.id, plane.state),
        ensures
            final(self).wf(),
            takeoff_step(old(self)@, plane.id, plane.state, is_stormy(reading.0), r, final(self)@),
    {
        if reading_is_stormy(&reading) {
            return ControllerResponse::RejectTakeoff;
        }
        match plane.state {
            PlaneState::Airborn => return ControllerResponse::RejectTakeoff,
            PlaneState::Landed => {},
        }
        self.remove_plane(&plane.id);
        ControllerResponse::AllowTakeoff
    }

    /// Answers a takeoff request under the weather that the source reports now.
    /// Either a storm was reported, and the takeoff is refused with nothing
    /// changed, or the answer is the one given in calm weather.
    pub fn allow_takeoff(&mut self, plane: &Plane) -> (r: ControllerResponse)
        requires
            old(self).wf(),
            takeoff_well_posed(old(self)@, plane.id, plane.state),
        ensures
            final(self).wf(),
            takeoff_step(old(self)@, plane.id, plane.state, true, r, final(self)@) || takeoff_step(
                old(self)@,
                plane.id,
                plane.state,
                false,
                r,
                final(self)@,
            ),
    {
        let reading = self.check_weather();
        self.decide_takeoff(plane, reading)
    }

    /// The capacity limit.
    pub fn max_capacity(&self) -> (r: usize)
        ensures
            r == self@.max_capacity,
    {
        self.airport_max_capacity
    }

    /// The number of aircraft counted as present.
    pub fn current_count(&self) -> (r: usize)
        ensures
            r == self@.count,
    {
        self.airport_capacity
    }

    /// Asks the weather source for the current reading.
    pub fn check_weather(&self) -> (Weather, i8) {
        self.weather_service.get_weather()
    }
}

} // verus!
