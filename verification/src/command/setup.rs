use crate::error::{outcome_view, CoralGateError, ErrorView};
use crate::gate::profile::{
    admin_profile, admin_profile_view, apply_next, cluster_readonly_profile,
    cluster_readonly_profile_view, plan_at, ApplyRequest, ApplyStep, Profile, ProfileView,
    RequestView, StepView,
};
use vstd::prelude::*;

verus! {

/// What the setup asks for next.
#[derive(Debug)]
pub enum SetupStep {
    /// Upsert the binding at `index` of the profile at `profile` as `request` says.
    Upsert { profile: usize, index: usize, request: ApplyRequest },
    /// Nothing more: every profile was applied.
    Finished,
    /// Stop with this error; what was applied stays, the rest is not looked at.
    Abort(CoralGateError),
}

/// What the setup asks for next, as contracts see it.
pub enum SetupStepView {
    Upsert { profile: int, index: int, request: RequestView },
    Finished,
    Abort(ErrorView),
}

impl View for SetupStep {
    type V = SetupStepView;

    open spec fn view(&self) -> SetupStepView {
        match *self {
            SetupStep::Upsert { profile, index, request } => SetupStepView::Upsert {
                profile: profile as int,
                index: index as int,
                request: request@,
            },
            SetupStep::Finished => SetupStepView::Finished,
            SetupStep::Abort(error) => SetupStepView::Abort(error@),
        }
    }
}

/// The profiles as contracts see them.
pub open spec fn profile_views(profiles: Seq<Profile>) -> Seq<ProfileView> {
    Seq::new(profiles.len(), |i: int| profiles[i]@)
}

/// The step of the setup that a step of the profile at `profile` comes to:
/// the same upsert or error, and where the profile is through, the first
/// step of the profile behind it.
pub open spec fn settled(profiles: Seq<ProfileView>, profile: int, step: StepView) -> SetupStepView
    decreases profiles.len() - profile,
{
    match step {
        StepView::Upsert { index, request } => SetupStepView::Upsert { profile, index, request },
        StepView::Abort(error) => SetupStepView::Abort(error),
        StepView::Finished => if 0 <= profile && profile + 1 < profiles.len() {
            settled(profiles, profile + 1, plan_at(profiles[profile + 1], 0))
        } else {
            SetupStepView::Finished
        },
    }
}

/// How the setup begins: with the first step of the first profile.
pub open spec fn setup_start(profiles: Seq<ProfileView>) -> SetupStepView {
    if profiles.len() == 0 {
        SetupStepView::Finished
    } else {
        settled(profiles, 0, plan_at(profiles[0], 0))
    }
}

/// The step that follows the upsert of the binding at `index` of the profile
/// at `profile`.
pub open spec fn setup_next(
    profiles: Seq<ProfileView>,
    profile: int,
    index: int,
    outcome: Result<(), ErrorView>,
) -> SetupStepView {
    if 0 <= profile < profiles.len() {
        settled(profiles, profile, apply_next(profiles[profile], index, outcome))
    } else {
        match outcome {
            Err(error) => SetupStepView::Abort(error),
            Ok(_) => SetupStepView::Finished,
        }
    }
}

/// The profiles that the setup provisions, in the order in which it applies
/// them: that of administrators, then that of readers of the cluster.
pub fn setup_profiles() -> (profiles: Vec<Profile>)
    ensures
        profile_views(profiles@) == seq![admin_profile_view(), cluster_readonly_profile_view()],
{
    let mut profiles: Vec<Profile> = Vec::new();
    profiles.push(admin_profile());
    profiles.push(cluster_readonly_profile());
    proof {
        assert(profile_views(profiles@) =~= seq![
            admin_profile_view(),
            cluster_readonly_profile_view(),
        ]);
    }
    profiles
}

/// Brings a step of one profile into the setup.
fn settle(profiles: &Vec<Profile>, profile: usize, step: ApplyStep) -> (r: SetupStep)
    requires
        profile < profiles.len(),
    ensures
        r@ == settled(profile_views(profiles@), profile as int, step@),
{
    let ghost views = profile_views(profiles@);
    let ghost goal = settled(views, profile as int, step@);
    let mut at = profile;
    let mut current = step;
    loop
        invariant
            at < profiles.len(),
            views == profile_views(profiles@),
            goal == settled(views, profile as int, step@),
            settled(views, at as int, current@) == goal,
        decreases profiles.len() - at,
    {
        match current {
            ApplyStep::Upsert { index, request } => {
                return SetupStep::Upsert { profile: at, index, request };
            },
            ApplyStep::Abort(error) => {
                return SetupStep::Abort(error);
            },
            ApplyStep::Finished => {
                if at + 1 >= profiles.len() {
                    return SetupStep::Finished;
                }
                at = at + 1;
                current = profiles[at].start_apply();
            },
        }
    }
}

/// Begins the setup.
pub fn begin(profiles: &Vec<Profile>) -> (r: SetupStep)
    ensures
        r@ == setup_start(profile_views(profiles@)),
{
    if profiles.len() == 0 {
        SetupStep::Finished
    } else {
        let step = profiles[0].start_apply();
        settle(profiles, 0, step)
    }
}

/// Takes the setup one step on, once the upsert of the binding at `index` of
/// the profile at `profile` has ended with `outcome`.
pub fn handle(
    profiles: &Vec<Profile>,
    profile: usize,
    index: usize,
    outcome: Result<(), CoralGateError>,
) -> (r: SetupStep)
    ensures
        r@ == setup_next(
            profile_views(profiles@),
            profile as int,
            index as int,
            outcome_view(outcome),
        ),
{
    if profile < profiles.len() {
        let step = profiles[profile].apply(index, outcome);
        settle(profiles, profile, step)
    } else {
        match outcome {
            Err(error) => SetupStep::Abort(error),
            Ok(_) => SetupStep::Finished,
        }
    }
}

} // verus!
