use vstd::prelude::*;

use crate::controller::{
    landing_step, occupancy_consistent, takeoff_step, takeoff_well_posed, AirportView,
    ControllerResponse,
};
use crate::plane::PlaneState;

verus! {

/// A landing decision, whatever its answer, keeps the count equal to the
/// number of aircraft present.
pub proof fn lemma_landing_keeps_occupancy(
    pre: AirportView,
    id: u8,
    stormy: bool,
    r: ControllerResponse,
    post: AirportView,
)
    requires
        occupancy_consistent(pre),
        landing_step(pre, id, stormy, r, post),
    ensures
        occupancy_consistent(post),
{
}

/// A well-posed takeoff decision, whatever its answer, keeps the count equal
/// to the number of aircraft present.
pub proof fn lemma_takeoff_keeps_occupancy(
    pre: AirportView,
    id: u8,
    state: PlaneState,
    stormy: bool,
    r: ControllerResponse,
    post: AirportView,
)
    requires
        occupancy_consistent(pre),
        takeoff_well_posed(pre, id, state),
        takeoff_step(pre, id, state, stormy, r, post),
    ensures
        occupancy_consistent(post),
{
}

/// One request, a landing or a well-posed takeoff, answered and applied,
/// leads from `pre` to `post`.
pub open spec fn request_step(pre: AirportView, post: AirportView) -> bool {
    ||| exists|id: u8, stormy: bool, r: ControllerResponse|
        #[trigger] landing_step(pre, id, stormy, r, post)
    ||| exists|id: u8, state: PlaneState, stormy: bool, r: ControllerResponse|
        takeoff_well_posed(pre, id, state) && #[trigger] takeoff_step(
            pre,
            id,
            state,
            stormy,
            r,
            post,
        )
}

proof fn lemma_occupancy_upto(run: Seq<AirportView>, k: int)
    requires
        0 <= k < run.len(),
        occupancy_consistent(run[0]),
        forall|i: int| 0 <= i < run.len() - 1 ==> request_step(#[trigger] run[i], run[i + 1]),
    ensures
        occupancy_consistent(run[k]),
    decreases k,
{
    if k > 0 {
        lemma_occupancy_upto(run, k - 1);
        let pre = run[k - 1];
        let post = run[k];
        assert(request_step(pre, post));
        if exists|id: u8, stormy: bool, r: ControllerResponse| #[trigger]
            landing_step(pre, id, stormy, r, post) {
            let (id, stormy, r) = choose|id: u8, stormy: bool, r: ControllerResponse| #[trigger]
                landing_step(pre, id, stormy, r, post);
            lemma_landing_keeps_occupancy(pre, id, stormy, r, post);
        } else {
            let (id, state, stormy, r) = choose|
                id: u8,
                state: PlaneState,
                stormy: bool,
                r: ControllerResponse,
            |
                takeoff_well_posed(pre, id, state) && #[trigger] takeoff_step(
                    pre,
                    id,
                    state,
                    stormy,
                    r,
                    post,
                );
            lemma_takeoff_keeps_occupancy(pre, id, state, stormy, r, post);
        }
    }
}

/// Along any run of landing and takeoff requests, accepted or refused, the
/// count equals the number of aircraft present before and after every request.
pub proof fn lemma_occupancy_invariant(run: Seq<AirportView>)
    requires
        run.len() > 0,
        occupancy_consistent(run[0]),
        forall|i: int| 0 <= i < run.len() - 1 ==> request_step(#[trigger] run[i], run[i + 1]),
    ensures
        forall|i: int| 0 <= i < run.len() ==> occupancy_consistent(#[trigger] run[i]),
{
    assert forall|i: int| 0 <= i < run.len() implies occupancy_consistent(#[trigger] run[i]) by {
        lemma_occupancy_upto(run, i);
    }
}

} // verus!
