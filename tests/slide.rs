use topdown_controller_2d::slide::{
    BounceStart, CastDirection, CastReport, CastVector, Response, SlideError, SlideState, Stage,
    DEFAULT_BOUNCES,
};

/// Drives one tick through the state machine: `motions[k]` is how the motion
/// measures at bounce `k`, `reports[k]` what its cast reports. Returns the
/// directions cast along and the answers given, in order.
fn drive(
    bounces: usize,
    motions: &[CastVector],
    reports: &[CastReport],
) -> Result<(Vec<CastDirection>, Vec<Response>, SlideState), SlideError> {
    let mut state = SlideState::new(bounces);
    let mut directions = Vec::new();
    let mut responses = Vec::new();
    let mut k = 0;
    loop {
        let motion = motions.get(k).copied().unwrap_or(CastVector::Moving);
        match state.start_bounce(motion)? {
            (next, BounceStart::Finish) => return Ok((directions, responses, next)),
            (next, BounceStart::Cast(direction)) => {
                directions.push(direction);
                let (after, response) = next.answer(reports[k]);
                responses.push(response);
                state = after;
                k += 1;
            }
        }
    }
}

#[test]
fn default_budget_is_two_bounces() {
    assert_eq!(DEFAULT_BOUNCES, 2);
    let state = SlideState::with_default_bounces();
    assert_eq!(state, SlideState { bounces: 2, casts: 0, stage: Stage::Ready });
}

#[test]
fn open_space_moves_whole_motion_after_one_cast() {
    let (directions, responses, end) =
        drive(2, &[CastVector::Moving], &[CastReport::Miss]).unwrap();
    assert_eq!(directions, vec![CastDirection::AlongMotion]);
    assert_eq!(responses, vec![Response::MoveRemaining]);
    assert_eq!(end, SlideState { bounces: 2, casts: 1, stage: Stage::Finished });
}

#[test]
fn wall_hit_snaps_then_slides_then_moves_rest() {
    let (directions, responses, end) = drive(
        2,
        &[CastVector::Moving, CastVector::Moving],
        &[CastReport::Clear, CastReport::Miss],
    )
    .unwrap();
    assert_eq!(directions, vec![CastDirection::AlongMotion, CastDirection::AlongMotion]);
    assert_eq!(responses, vec![Response::SnapAndSlide, Response::MoveRemaining]);
    assert_eq!(end.casts, 2);
}

#[test]
fn corner_needing_three_contacts_stops_after_two_casts() {
    let (directions, responses, end) = drive(
        2,
        &[CastVector::Moving, CastVector::Moving, CastVector::Moving],
        &[CastReport::Clear, CastReport::Clear, CastReport::Clear],
    )
    .unwrap();
    assert_eq!(directions.len(), 2);
    assert_eq!(responses, vec![Response::SnapAndSlide, Response::SnapAndSlide]);
    assert_eq!(end, SlideState { bounces: 2, casts: 2, stage: Stage::Finished });
}

#[test]
fn zero_motion_casts_along_x_and_ends_on_miss() {
    let (directions, responses, end) =
        drive(2, &[CastVector::Zero], &[CastReport::Miss]).unwrap();
    assert_eq!(directions, vec![CastDirection::FallbackX]);
    assert_eq!(responses, vec![Response::MoveRemaining]);
    assert_eq!(end.casts, 1);
}

#[test]
fn overlap_pushes_out_and_keeps_the_motion() {
    let state = SlideState::new(2);
    let (casting, start) = state.start_bounce(CastVector::Moving).unwrap();
    assert_eq!(start, BounceStart::Cast(CastDirection::AlongMotion));
    let (after, response) = casting.answer(CastReport::Touching);
    assert_eq!(response, Response::PushOut);
    assert_eq!(after, SlideState { bounces: 2, casts: 1, stage: Stage::Ready });
}

#[test]
fn overlap_with_zero_motion_still_pushes_out() {
    let (directions, responses, _) = drive(
        2,
        &[CastVector::Zero, CastVector::Zero],
        &[CastReport::Touching, CastReport::Miss],
    )
    .unwrap();
    assert_eq!(directions, vec![CastDirection::FallbackX, CastDirection::FallbackX]);
    assert_eq!(responses, vec![Response::PushOut, Response::MoveRemaining]);
}

#[test]
fn non_finite_motion_is_fatal() {
    let result = drive(2, &[CastVector::NonFinite], &[CastReport::Miss]);
    assert_eq!(result, Err(SlideError::NonFiniteMotion));
}

#[test]
fn non_finite_motion_on_a_later_bounce_is_fatal() {
    let result = drive(
        3,
        &[CastVector::Moving, CastVector::NonFinite],
        &[CastReport::Clear, CastReport::Miss],
    );
    assert_eq!(result, Err(SlideError::NonFiniteMotion));
}

#[test]
fn spent_budget_finishes_before_measuring_the_motion() {
    let state = SlideState { bounces: 1, casts: 1, stage: Stage::Ready };
    let result = state.start_bounce(CastVector::NonFinite);
    assert_eq!(
        result,
        Ok((SlideState { bounces: 1, casts: 1, stage: Stage::Finished }, BounceStart::Finish))
    );
}

#[test]
fn zero_bounces_never_casts() {
    let (directions, responses, end) = drive(0, &[CastVector::Moving], &[]).unwrap();
    assert!(directions.is_empty());
    assert!(responses.is_empty());
    assert_eq!(end.stage, Stage::Finished);
}

#[test]
fn finished_tick_stays_finished() {
    let done = SlideState { bounces: 3, casts: 1, stage: Stage::Finished };
    assert_eq!(done.start_bounce(CastVector::Moving), Ok((done, BounceStart::Finish)));
}
