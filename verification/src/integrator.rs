//! The control of one light path: Russian roulette by depth, direct lighting
//! only where the scene has lights, and an end after a bounded number of
//! bounces.
//!
//! A `Path` says what to do next (`Request`); the caller does it, with the
//! arithmetic that goes with it, and reports what came of it (`Event`).

use crate::object::HitRecord;
use crate::scalar::Scalar;
use crate::trace::{all_miss, is_transported};
use vstd::prelude::*;

verus! {

/// Up to this depth a path always survives the roulette.
pub const FORCED_DEPTH: u32 = 5;

/// From this depth on the survival probability is halved with every bounce.
pub const DECAY_DEPTH: u32 = 64;

/// One half raised to this power, or a higher one, is zero in binary32.
pub const EXTINCTION_HALVINGS: u32 = 150;

/// No path goes on beyond this depth: the depth at which the survival
/// probability has been halved until nothing is left.
pub const MAX_DEPTH: u32 = DECAY_DEPTH + EXTINCTION_HALVINGS;

/// The rule that gives the survival probability of a bounce.
#[derive(Clone, Copy, Debug, PartialEq, Eq, Structural)]
pub enum Survival {
    /// Probability one.
    Certain,
    /// The largest channel of the surface's albedo.
    Albedo,
    /// The largest channel of the albedo times one half to the power `halvings`.
    Decayed { halvings: u32 },
    /// Probability zero: the factor of `Decayed` has run out of the binary32 range.
    Extinct,
}

/// The rule for a bounce at `depth`.
pub open spec fn spec_survival_policy(depth: u32) -> Survival {
    if depth <= FORCED_DEPTH {
        Survival::Certain
    } else if depth < DECAY_DEPTH {
        Survival::Albedo
    } else if depth - DECAY_DEPTH < EXTINCTION_HALVINGS {
        Survival::Decayed { halvings: (depth - DECAY_DEPTH) as u32 }
    } else {
        Survival::Extinct
    }
}

/// The rule for a bounce at `depth`.
#[verifier::when_used_as_spec(spec_survival_policy)]
pub fn survival_policy(depth: u32) -> (r: Survival)
    ensures
        r == spec_survival_policy(depth),
{
    if depth <= FORCED_DEPTH {
        Survival::Certain
    } else if depth < DECAY_DEPTH {
        Survival::Albedo
    } else if depth - DECAY_DEPTH < EXTINCTION_HALVINGS {
        Survival::Decayed { halvings: depth - DECAY_DEPTH }
    } else {
        Survival::Extinct
    }
}

/// Whether a path goes on after the roulette. Under `Certain` it always
/// does and under `Extinct` it never does, whatever was drawn. Else it goes
/// on where the draw does not exceed the survival probability, provided
/// that this probability is a positive number: the caller will divide by
/// it.
pub open spec fn spec_survives(policy: Survival, draw: Scalar, survival: Scalar) -> bool {
    match policy {
        Survival::Certain => true,
        Survival::Extinct => false,
        _ => survival.spec_gt(Scalar { bits: 0 }) && !draw.spec_gt(survival),
    }
}

/// Whether a path goes on after the roulette, see [`spec_survives`].
#[verifier::when_used_as_spec(spec_survives)]
pub fn survives(policy: Survival, draw: Scalar, survival: Scalar) -> (r: bool)
    ensures
        r == spec_survives(policy, draw, survival),
{
    match policy {
        Survival::Certain => true,
        Survival::Extinct => false,
        _ => survival.gt(Scalar::zero()) && !draw.gt(survival),
    }
}

/// Direct light from a sampled point of a light counts where nothing that
/// the shadow ray met lies strictly between `tmin` and `tmax`, and the
/// density that the point was sampled with is a positive number: the
/// caller will divide by it.
pub open spec fn spec_direct_counts(
    hits: Seq<Option<HitRecord>>,
    tmin: Scalar,
    tmax: Scalar,
    density: Scalar,
) -> bool {
    all_miss(hits, tmin, tmax) && density.spec_gt(Scalar { bits: 0 })
}

/// Whether direct light from a sampled point counts, see [`spec_direct_counts`].
pub fn direct_counts(hits: &Vec<Option<HitRecord>>, tmin: Scalar, tmax: Scalar, density: Scalar) -> (r:
    bool)
    ensures
        r == spec_direct_counts(hits@, tmin, tmax, density),
{
    density.gt(Scalar::zero()) && is_transported(hits, tmin, tmax)
}

/// Where a path stands.
#[derive(Clone, Copy, Debug, PartialEq, Eq, Structural)]
pub enum Stage {
    /// The primary ray has not been cast yet.
    Primary,
    /// On a surface, before the roulette.
    Roulette,
    /// On a surface, before direct lighting.
    Direct,
    /// On a surface, before the next ray is cast.
    Bounce,
    /// Over.
    Finished,
}

/// What the caller is to do next.
#[derive(Clone, Copy, Debug, PartialEq, Eq, Structural)]
pub enum Request {
    /// Cast the primary ray and report what it meets.
    CastPrimary,
    /// Work out the survival probability of `surface` by `policy`, draw a
    /// uniform number and report both.
    DrawSurvival { surface: usize, policy: Survival },
    /// Pick a light, sample a point on it, test the shadow ray from `surface`
    /// and add the direct term if nothing is in the way.
    SampleLight { surface: usize },
    /// Sample a direction above `surface`, cast the ray and report what it meets.
    CastBounce { surface: usize },
    /// Nothing: the path is over.
    Stop,
}

/// What came of a request.
#[derive(Clone, Copy, Debug)]
pub enum Event {
    /// A ray was cast: the object it met first, if any.
    Cast { hit: Option<usize> },
    /// The roulette was drawn.
    Drawn { draw: Scalar, survival: Scalar },
    /// Direct lighting is done.
    Lit,
}

/// What the caller adds to the radiance of the path, under the weight the
/// path has so far.
#[derive(Clone, Copy, Debug, PartialEq, Eq, Structural)]
pub enum Credit {
    Nothing,
    /// The emission of the object `surface`.
    Emission { surface: usize },
}

/// What becomes of the weight of the path once the credit is added.
#[derive(Clone, Copy, Debug, PartialEq, Eq, Structural)]
pub enum Scaling {
    /// It stays.
    Keep,
    /// It is multiplied, channel by channel, by the albedo of the object
    /// `surface`, divided by the survival probability of the last roulette.
    ByAlbedo { surface: usize },
}

/// One light path.
#[derive(Clone, Copy, Debug, PartialEq, Eq, Structural)]
pub struct Path {
    /// Where the path stands.
    pub stage: Stage,
    /// The number of bounces so far.
    pub depth: u32,
    /// The object the path stands on. It means something in the stages
    /// `Roulette`, `Direct` and `Bounce`.
    pub surface: usize,
    /// Whether the scene has lights to sample.
    pub lit: bool,
}

/// A path after an event, what the event has earned, and what the light
/// that is still to come will be worth.
#[derive(Clone, Copy, Debug, PartialEq, Eq, Structural)]
pub struct Step {
    pub path: Path,
    pub credit: Credit,
    pub scaling: Scaling,
}

impl Step {
    /// A step that leaves the weight as it is.
    pub open spec fn plain(path: Path, credit: Credit) -> Step {
        Step { path, credit, scaling: Scaling::Keep }
    }
}

impl Path {
    /// What every path on its way obeys: the depth stays within `MAX_DEPTH`,
    /// and is below it where the path is still to bounce.
    pub open spec fn wf(self) -> bool {
        &&& self.depth <= MAX_DEPTH
        &&& self.stage == Stage::Primary ==> self.depth == 0
        &&& (self.stage == Stage::Direct || self.stage == Stage::Bounce) ==> self.depth
            < MAX_DEPTH
    }

    /// A bound on the number of events the path can still take.
    pub open spec fn rank(self) -> nat {
        let left = (MAX_DEPTH - self.depth) as nat;
        match self.stage {
            Stage::Primary => 3 * left + 4,
            Stage::Roulette => 3 * left + 3,
            Stage::Direct => 3 * left + 2,
            Stage::Bounce => 3 * left + 1,
            Stage::Finished => 0,
        }
    }

    /// What the path asks for.
    pub open spec fn spec_request(self) -> Request {
        match self.stage {
            Stage::Primary => Request::CastPrimary,
            Stage::Roulette => Request::DrawSurvival {
                surface: self.surface,
                policy: spec_survival_policy(self.depth),
            },
            Stage::Direct => Request::SampleLight { surface: self.surface },
            Stage::Bounce => Request::CastBounce { surface: self.surface },
            Stage::Finished => Request::Stop,
        }
    }

    /// The same path at another stage.
    pub open spec fn at(self, stage: Stage) -> Path {
        Path { stage, ..self }
    }

    /// The path one bounce on, on the object `surface`, before the roulette.
    pub open spec fn onto(self, surface: usize, deeper: bool) -> Path {
        Path {
            stage: Stage::Roulette,
            depth: if deeper {
                (self.depth + 1) as u32
            } else {
                self.depth
            },
            surface,
            lit: self.lit,
        }
    }

    /// The path after `event`, with what the event earns, or `None` where
    /// `event` does not answer the request of the path or the path is not
    /// well formed.
    ///
    /// - A primary ray that meets nothing ends the path. One that meets an
    ///   object earns that object's emission and puts the path on it.
    /// - A roulette that the path does not survive earns the emission of the
    ///   surface and ends the path. One that it survives leads to direct
    ///   lighting where the scene has lights, else straight to the bounce.
    /// - Direct lighting leads to the bounce.
    /// - A bounce that meets nothing ends the path. One that meets an object
    ///   earns that object's emission and puts the path on it, one deeper;
    ///   what follows is worth less by the albedo of the surface left behind.
    pub open spec fn spec_advance(self, event: Event) -> Option<Step> {
        if !self.wf() {
            None
        } else {
            match (self.stage, event) {
                (Stage::Primary, Event::Cast { hit: None }) => Some(
                    Step::plain(self.at(Stage::Finished), Credit::Nothing),
                ),
                (Stage::Primary, Event::Cast { hit: Some(object) }) => Some(
                    Step::plain(self.onto(object, false), Credit::Emission { surface: object }),
                ),
                (Stage::Roulette, Event::Drawn { draw, survival }) => if !spec_survives(
                    spec_survival_policy(self.depth),
                    draw,
                    survival,
                ) {
                    Some(
                        Step::plain(
                            self.at(Stage::Finished),
                            Credit::Emission { surface: self.surface },
                        ),
                    )
                } else if self.lit {
                    Some(Step::plain(self.at(Stage::Direct), Credit::Nothing))
                } else {
                    Some(Step::plain(self.at(Stage::Bounce), Credit::Nothing))
                },
                (Stage::Direct, Event::Lit) => Some(
                    Step::plain(self.at(Stage::Bounce), Credit::Nothing),
                ),
                (Stage::Bounce, Event::Cast { hit: None }) => Some(
                    Step::plain(self.at(Stage::Finished), Credit::Nothing),
                ),
                (Stage::Bounce, Event::Cast { hit: Some(object) }) => Some(
                    Step {
                        path: self.onto(object, true),
                        credit: Credit::Emission { surface: object },
                        scaling: Scaling::ByAlbedo { surface: self.surface },
                    },
                ),
                _ => None,
            }
        }
    }

    /// The path after a run of events, or `None` where one of them does not
    /// answer the request it meets.
    pub open spec fn spec_run(self, events: Seq<Event>) -> Option<Path>
        decreases events.len(),
    {
        if events.len() == 0 {
            Some(self)
        } else {
            match self.spec_advance(events[0]) {
                Some(step) => step.path.spec_run(events.skip(1)),
                None => None,
            }
        }
    }

    /// A new path in a scene that has lights (`lit`) or has none.
    pub fn start(lit: bool) -> (r: Path)
        ensures
            r == (Path { stage: Stage::Primary, depth: 0, surface: 0, lit }),
            r.wf(),
    {
        Path { stage: Stage::Primary, depth: 0, surface: 0, lit }
    }

    /// Whether the path obeys `wf`.
    pub fn is_wf(self) -> (r: bool)
        ensures
            r == self.wf(),
    {
        match self.stage {
            Stage::Primary => self.depth == 0,
            Stage::Direct | Stage::Bounce => self.depth < MAX_DEPTH,
            _ => self.depth <= MAX_DEPTH,
        }
    }

    /// Whether the path is over.
    pub fn is_finished(self) -> (r: bool)
        ensures
            r == (self.stage == Stage::Finished),
    {
        match self.stage {
            Stage::Finished => true,
            _ => false,
        }
    }

    /// What the path asks for.
    #[verifier::when_used_as_spec(spec_request)]
    pub fn request(self) -> (r: Request)
        ensures
            r == self.spec_request(),
    {
        match self.stage {
            Stage::Primary => Request::CastPrimary,
            Stage::Roulette => Request::DrawSurvival {
                surface: self.surface,
                policy: survival_policy(self.depth),
            },
            Stage::Direct => Request::SampleLight { surface: self.surface },
            Stage::Bounce => Request::CastBounce { surface: self.surface },
            Stage::Finished => Request::Stop,
        }
    }

    /// Takes `event` as the answer to the request of the path, see
    /// [`Path::spec_advance`]. Every step brings the path nearer to its end.
    pub fn advance(self, event: Event) -> (r: Option<Step>)
        ensures
            r == self.spec_advance(event),
            r matches Some(step) ==> step.path.wf() && step.path.rank() < self.rank(),
    {
        if !self.is_wf() {
            return None;
        }
        let (path, credit, scaling) = match (self.stage, event) {
            (Stage::Primary, Event::Cast { hit: None }) => (
                Path { stage: Stage::Finished, ..self },
                Credit::Nothing,
                Scaling::Keep,
            ),
            (Stage::Primary, Event::Cast { hit: Some(object) }) => (
                Path { stage: Stage::Roulette, surface: object, ..self },
                Credit::Emission { surface: object },
                Scaling::Keep,
            ),
            (Stage::Roulette, Event::Drawn { draw, survival }) => {
                if !survives(survival_policy(self.depth), draw, survival) {
                    (
                        Path { stage: Stage::Finished, ..self },
                        Credit::Emission { surface: self.surface },
                        Scaling::Keep,
                    )
                } else if self.lit {
                    (Path { stage: Stage::Direct, ..self }, Credit::Nothing, Scaling::Keep)
                } else {
                    (Path { stage: Stage::Bounce, ..self }, Credit::Nothing, Scaling::Keep)
                }
            },
            (Stage::Direct, Event::Lit) => (
                Path { stage: Stage::Bounce, ..self },
                Credit::Nothing,
                Scaling::Keep,
            ),
            (Stage::Bounce, Event::Cast { hit: None }) => (
                Path { stage: Stage::Finished, ..self },
                Credit::Nothing,
                Scaling::Keep,
            ),
            (Stage::Bounce, Event::Cast { hit: Some(object) }) => (
                Path { stage: Stage::Roulette, depth: self.depth + 1, surface: object, lit: self.lit },
                Credit::Emission { surface: object },
                Scaling::ByAlbedo { surface: self.surface },
            ),
            _ => {
                return None;
            },
        };
        Some(Step { path, credit, scaling })
    }

    /// Every event that a path takes lowers its rank and leaves it well
    /// formed, and a finished path takes none.
    pub proof fn lemma_advance_lowers_rank(self, event: Event)
        ensures
            self.spec_advance(event) matches Some(step) ==> step.path.wf() && step.path.rank()
                < self.rank(),
            self.stage == Stage::Finished ==> self.spec_advance(event) is None,
    {
    }

    /// Up to `FORCED_DEPTH` a path goes on after the roulette whatever was
    /// drawn, and at `MAX_DEPTH` it ends whatever was drawn.
    pub proof fn lemma_forced_and_extinct(self, draw: Scalar, survival: Scalar)
        requires
            self.wf(),
            self.stage == Stage::Roulette,
        ensures
            self.depth <= FORCED_DEPTH ==> self.spec_advance(Event::Drawn { draw, survival })
                == Some(
                Step::plain(
                    self.at(
                        if self.lit {
                            Stage::Direct
                        } else {
                            Stage::Bounce
                        },
                    ),
                    Credit::Nothing,
                ),
            ),
            self.depth == MAX_DEPTH ==> self.spec_advance(Event::Drawn { draw, survival }) == Some(
                Step::plain(self.at(Stage::Finished), Credit::Emission { surface: self.surface }),
            ),
    {
    }

    /// No path outlives its rank: a run of more events than that meets an
    /// event that nothing asked for. From its start a path takes at most
    /// 646 events.
    pub proof fn lemma_path_ends(self, events: Seq<Event>)
        requires
            events.len() > self.rank(),
        ensures
            self.spec_run(events) is None,
        decreases events.len(),
    {
        self.lemma_advance_lowers_rank(events[0]);
        match self.spec_advance(events[0]) {
            Some(step) => {
                step.path.lemma_path_ends(events.skip(1));
            },
            None => {},
        }
    }

    /// A run never takes a path beyond `MAX_DEPTH` nor back to a lesser
    /// depth, and whether there is direct lighting stays as it was at the
    /// start.
    pub proof fn lemma_run_keeps_bounds(self, events: Seq<Event>)
        requires
            self.wf(),
        ensures
            self.spec_run(events) matches Some(end) ==> end.wf() && end.lit == self.lit
                && end.depth >= self.depth,
        decreases events.len(),
    {
        if events.len() > 0 {
            match self.spec_advance(events[0]) {
                Some(step) => {
                    step.path.lemma_run_keeps_bounds(events.skip(1));
                },
                None => {},
            }
        }
    }

    /// In a scene without lights no path ever asks for direct lighting.
    pub proof fn lemma_unlit_never_samples(self, events: Seq<Event>)
        requires
            !self.lit,
            self.stage != Stage::Direct,
        ensures
            self.spec_run(events) matches Some(end) ==> end.stage != Stage::Direct,
        decreases events.len(),
    {
        if events.len() > 0 {
            match self.spec_advance(events[0]) {
                Some(step) => {
                    step.path.lemma_unlit_never_samples(events.skip(1));
                },
                None => {},
            }
        }
    }
}

} // verus!
