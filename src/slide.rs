//! The decisions of the collide-and-slide resolver.
//!
//! In one fixed tick the resolver turns a desired motion into a displacement
//! that never runs through solid geometry. It casts the moving shape along
//! what is left of the motion, moves it as far as is safe, redirects the rest
//! along the surface it met, and repeats until the motion is used up or the
//! tick's bounce budget is spent.
//!
//! The vector arithmetic and the shape casts belong to the caller. This module
//! decides, bounce by bounce, what the caller does next: `start_bounce` is
//! given how the remaining motion measures and says whether to cast, and along
//! which direction; `answer` is given what the cast reported and says how the
//! displacement and the remaining motion change. Each returns the next state,
//! so a whole tick is a chain of pure steps.

use vstd::prelude::*;

verus! {

/// The number of bounces in one tick when nothing else is configured.
pub const DEFAULT_BOUNCES: usize = 2;

/// How the motion that is left at the start of a bounce measures.
#[derive(Clone, Copy, Debug, PartialEq, Eq, Structural)]
pub enum CastVector {
    /// A finite vector of positive length.
    Moving,
    /// The zero vector.
    Zero,
    /// A vector whose length is infinite or not a number.
    NonFinite,
}

/// What a shape cast reported.
#[derive(Clone, Copy, Debug, PartialEq, Eq, Structural)]
pub enum CastReport {
    /// Nothing blocks the shape within the cast's reach.
    Miss,
    /// A surface blocks the shape after a positive distance.
    Clear,
    /// The shape already touches or overlaps a surface: the hit distance is zero.
    Touching,
}

/// The direction along which the shape is cast.
#[derive(Clone, Copy, Debug, PartialEq, Eq, Structural)]
pub enum CastDirection {
    /// The direction of the remaining motion.
    AlongMotion,
    /// The fixed +X axis, used when no motion is left: the cast then reaches
    /// no further than the skin width and only finds contacts that already
    /// exist.
    FallbackX,
}

/// What the caller does at the start of a bounce.
#[derive(Clone, Copy, Debug, PartialEq, Eq, Structural)]
pub enum BounceStart {
    /// Cast the shape from the current origin, along this direction, as far as
    /// the length of the remaining motion plus the skin width.
    Cast(CastDirection),
    /// Stop: the displacement gathered so far is the tick's result.
    Finish,
}

/// How the caller answers the report of a cast.
#[derive(Clone, Copy, Debug, PartialEq, Eq, Structural)]
pub enum Response {
    /// Add the whole remaining motion to the displacement; the tick is done.
    MoveRemaining,
    /// Move along the motion up to the skin width short of the hit, both in
    /// the displacement and in the cast origin, then keep of what is left only
    /// its part along the surface (its rejection from the hit normal).
    SnapAndSlide,
    /// Add the vector from the shape's contact point to the obstacle's contact
    /// point to the displacement, and leave the remaining motion as it is.
    PushOut,
}

/// The ways a tick cannot be resolved.
#[derive(Clone, Copy, Debug, PartialEq, Eq, Structural)]
pub enum SlideError {
    /// The remaining motion has an infinite or undefined length: the caller
    /// handed in a velocity that is not finite.
    NonFiniteMotion,
}

/// Where the resolver stands within a bounce.
#[derive(Clone, Copy, Debug, PartialEq, Eq, Structural)]
pub enum Stage {
    /// Waiting for the start of a bounce.
    Ready,
    /// A cast was asked for and its report is awaited.
    Casting,
    /// The remaining motion was used up or the budget spent.
    Finished,
}

/// The resolver's state within one tick.
#[derive(Clone, Copy, Debug, PartialEq, Eq, Structural)]
pub struct SlideState {
    /// The largest number of casts this tick may make.
    pub bounces: usize,
    /// The casts made so far.
    pub casts: usize,
    pub stage: Stage,
}

impl SlideState {
    /// A state that the resolver can reach.
    pub open spec fn wf(self) -> bool {
        &&& self.casts <= self.bounces
        &&& self.stage is Casting ==> self.casts >= 1
    }

    pub open spec fn initial(bounces: usize) -> SlideState {
        SlideState { bounces, casts: 0, stage: Stage::Ready }
    }

    /// The state of a tick that has not cast yet.
    pub fn new(bounces: usize) -> (r: SlideState)
        ensures
            r == SlideState::initial(bounces),
            r.wf(),
    {
        SlideState { bounces, casts: 0, stage: Stage::Ready }
    }

    /// The state of a tick with the default budget.
    pub fn with_default_bounces() -> (r: SlideState)
        ensures
            r == SlideState::initial(DEFAULT_BOUNCES),
    {
        SlideState::new(DEFAULT_BOUNCES)
    }

    /// Whether the resolver waits for the start of a bounce or is done.
    pub open spec fn may_start(self) -> bool {
        self.stage !is Casting
    }

    pub open spec fn start_bounce_spec(self, motion: CastVector) -> Result<
        (SlideState, BounceStart),
        SlideError,
    > {
        if self.stage is Finished || self.casts >= self.bounces {
            Ok((SlideState { stage: Stage::Finished, ..self }, BounceStart::Finish))
        } else {
            match motion {
                CastVector::NonFinite => Err(SlideError::NonFiniteMotion),
                CastVector::Zero => Ok(
                    (
                        SlideState { casts: (self.casts + 1) as usize, stage: Stage::Casting, ..self },
                        BounceStart::Cast(CastDirection::FallbackX),
                    ),
                ),
                CastVector::Moving => Ok(
                    (
                        SlideState { casts: (self.casts + 1) as usize, stage: Stage::Casting, ..self },
                        BounceStart::Cast(CastDirection::AlongMotion),
                    ),
                ),
            }
        }
    }

    /// The start of a bounce, given how the remaining motion measures.
    ///
    /// Once the motion is used up or `bounces` casts were made, the tick
    /// finishes. Otherwise a finite motion is cast along its own direction, a
    /// zero motion along +X, and a motion that is not finite is an error.
    pub fn start_bounce(self, motion: CastVector) -> (r: Result<(SlideState, BounceStart), SlideError>)
        requires
            self.wf(),
            self.may_start(),
        ensures
            r == self.start_bounce_spec(motion),
            r matches Ok((next, _)) ==> next.wf() && next.bounces == self.bounces,
    {
        match self.stage {
            Stage::Finished => {
                return Ok((self, BounceStart::Finish));
            },
            _ => {},
        }
        if self.casts >= self.bounces {
            return Ok((SlideState { stage: Stage::Finished, ..self }, BounceStart::Finish));
        }
        let next = SlideState { casts: self.casts + 1, stage: Stage::Casting, ..self };
        match motion {
            CastVector::NonFinite => Err(SlideError::NonFiniteMotion),
            CastVector::Zero => Ok((next, BounceStart::Cast(CastDirection::FallbackX))),
            CastVector::Moving => Ok((next, BounceStart::Cast(CastDirection::AlongMotion))),
        }
    }

    pub open spec fn answer_spec(self, report: CastReport) -> (SlideState, Response) {
        match report {
            CastReport::Miss => (
                SlideState { stage: Stage::Finished, ..self },
                Response::MoveRemaining,
            ),
            CastReport::Clear => (SlideState { stage: Stage::Ready, ..self }, Response::SnapAndSlide),
            CastReport::Touching => (SlideState { stage: Stage::Ready, ..self }, Response::PushOut),
        }
    }

    /// The answer to the report of the cast just made.
    ///
    /// A miss moves the whole remaining motion and ends the tick; a hit at a
    /// positive distance snaps to the surface and slides along it; a hit at
    /// distance zero pushes the shape out of the overlap and keeps the motion.
    pub fn answer(self, report: CastReport) -> (r: (SlideState, Response))
        requires
            self.wf(),
            self.stage is Casting,
        ensures
            r == self.answer_spec(report),
            r.0.wf(),
            r.0.bounces == self.bounces,
            r.0.casts == self.casts,
    {
        match report {
            CastReport::Miss => (SlideState { stage: Stage::Finished, ..self }, Response::MoveRemaining),
            CastReport::Clear => (SlideState { stage: Stage::Ready, ..self }, Response::SnapAndSlide),
            CastReport::Touching => (SlideState { stage: Stage::Ready, ..self }, Response::PushOut),
        }
    }
}

/// The bounce `k` of a tick finds the remaining motion measuring `events[k].0`
/// and, where it casts, the cast reports `events[k].1`.
pub type TickEvents = Seq<(CastVector, CastReport)>;

/// The state a tick reaches from `s` over `events`, with the answers given to
/// its casts in order; an error where a bounce met a motion that is not
/// finite.
pub open spec fn run(s: SlideState, events: TickEvents) -> Result<(SlideState, Seq<Response>), SlideError>
    decreases events.len(),
{
    if events.len() == 0 {
        Ok((s, Seq::empty()))
    } else {
        match s.start_bounce_spec(events[0].0) {
            Err(e) => Err(e),
            Ok((t, BounceStart::Finish)) => Ok((t, Seq::empty())),
            Ok((t, BounceStart::Cast(_))) => {
                let (u, response) = t.answer_spec(events[0].1);
                match run(u, events.drop_first()) {
                    Err(e) => Err(e),
                    Ok((v, responses)) => Ok((v, seq![response] + responses)),
                }
            },
        }
    }
}

proof fn lemma_run_bounded(s: SlideState, events: TickEvents)
    requires
        s.wf(),
        s.may_start(),
    ensures
        run(s, events) matches Ok((t, responses)) ==> {
            &&& t.wf()
            &&& t.may_start()
            &&& t.bounces == s.bounces
            &&& s.casts <= t.casts
            &&& t.casts - s.casts == responses.len()
            &&& responses.len() <= events.len()
        },
    decreases events.len(),
{
    if events.len() > 0 {
        match s.start_bounce_spec(events[0].0) {
            Err(_) => {},
            Ok((t, BounceStart::Finish)) => {},
            Ok((t, BounceStart::Cast(_))) => {
                let (u, _) = t.answer_spec(events[0].1);
                lemma_run_bounded(u, events.drop_first());
            },
        }
    }
}

/// A tick never makes more than `bounces` casts, one per bounce, whatever
/// the casts report; once they are made, the next bounce finishes the tick.
pub proof fn lemma_bounce_budget(bounces: usize, events: TickEvents)
    ensures
        run(SlideState::initial(bounces), events) matches Ok((s, responses)) ==> {
            &&& s.casts == responses.len()
            &&& s.casts <= bounces
            &&& s.casts <= events.len()
            &&& s.casts == bounces ==> forall|m: CastVector|
                #[trigger] s.start_bounce_spec(m) == Ok::<(SlideState, BounceStart), SlideError>(
                    (SlideState { stage: Stage::Finished, ..s }, BounceStart::Finish),
                )
        },
{
    lemma_run_bounded(SlideState::initial(bounces), events);
}

/// When the first cast of a tick meets nothing, that cast is the only one:
/// the whole motion is moved and the tick finishes.
pub proof fn lemma_open_space(bounces: usize, motion: CastVector, later: TickEvents)
    requires
        bounces >= 1,
        motion !is NonFinite,
    ensures
        run(SlideState::initial(bounces), seq![(motion, CastReport::Miss)] + later) == Ok::<
            (SlideState, Seq<Response>),
            SlideError,
        >(
            (
                SlideState { bounces, casts: 1, stage: Stage::Finished },
                seq![Response::MoveRemaining],
            ),
        ),
{
    let events = seq![(motion, CastReport::Miss)] + later;
    assert(events[0] == (motion, CastReport::Miss));
    let done = SlideState { bounces, casts: 1, stage: Stage::Finished };
    if events.drop_first().len() > 0 {
        assert(run(done, events.drop_first()) == Ok::<(SlideState, Seq<Response>), SlideError>(
            (done, Seq::empty()),
        ));
    }
    assert(seq![Response::MoveRemaining] + Seq::<Response>::empty() =~= seq![Response::MoveRemaining]);
}

/// With no motion left, a bounce still casts, along +X, so that a contact
/// that already exists is found; a miss then moves the remaining motion,
/// which is zero, and ends the tick.
pub proof fn lemma_zero_motion_casts_along_x(s: SlideState)
    requires
        s.wf(),
        s.stage is Ready,
        s.casts < s.bounces,
    ensures
        s.start_bounce_spec(CastVector::Zero) matches Ok((t, start)) && start == BounceStart::Cast(
            CastDirection::FallbackX,
        ) && t.answer_spec(CastReport::Miss) == (
            SlideState { stage: Stage::Finished, ..t },
            Response::MoveRemaining,
        ),
{
}

/// A cast that finds the shape already in contact is answered by a push-out,
/// whatever the motion was, and the tick goes on with its motion unchanged.
pub proof fn lemma_contact_pushes_out(s: SlideState, motion: CastVector)
    requires
        s.wf(),
        s.stage is Ready,
        s.casts < s.bounces,
        motion !is NonFinite,
    ensures
        s.start_bounce_spec(motion) matches Ok((t, BounceStart::Cast(_))) && t.answer_spec(
            CastReport::Touching,
        ) == (SlideState { casts: (s.casts + 1) as usize, stage: Stage::Ready, ..s }, Response::PushOut),
{
}

/// A bounce that would cast a motion whose length is not finite ends the
/// tick in an error: no displacement comes out of it.
pub proof fn lemma_non_finite_is_fatal(s: SlideState, report: CastReport, later: TickEvents)
    requires
        s.wf(),
        s.stage is Ready,
        s.casts < s.bounces,
    ensures
        run(s, seq![(CastVector::NonFinite, report)] + later) == Err::<
            (SlideState, Seq<Response>),
            SlideError,
        >(SlideError::NonFiniteMotion),
{
    let events = seq![(CastVector::NonFinite, report)] + later;
    assert(events[0] == (CastVector::NonFinite, report));
}

} // verus!
