use crate::error::{outcome_view, CoralGateError, ErrorView};
use crate::gate::text::{join2, opt_text};
use vstd::prelude::*;
use vstd::string::*;

verus! {

/// Who a binding grants its role to.
#[derive(Clone, Debug)]
pub struct Subject {
    pub kind: String,
    pub name: String,
    pub api_group: Option<String>,
    pub namespace: Option<String>,
}

/// The role that a binding grants.
#[derive(Clone, Debug)]
pub struct RoleRef {
    pub kind: String,
    pub name: String,
    pub api_group: String,
}

/// A binding that holds in the whole cluster.
#[derive(Clone, Debug)]
pub struct ClusterRoleBinding {
    pub name: Option<String>,
    pub subjects: Option<Vec<Subject>>,
    pub role_ref: RoleRef,
}

/// A binding that holds in one namespace.
#[derive(Clone, Debug)]
pub struct RoleBinding {
    pub name: Option<String>,
    pub namespace: Option<String>,
    pub subjects: Option<Vec<Subject>>,
    pub role_ref: RoleRef,
}

/// A binding of either scope.
#[derive(Clone, Debug)]
pub enum AuthorizationBinding {
    ClusterScoped(ClusterRoleBinding),
    NamespaceScoped(RoleBinding),
}

/// A named list of bindings that are applied together, in their order.
#[derive(Debug)]
pub struct Profile {
    pub name: String,
    pub resources: Vec<AuthorizationBinding>,
}

/// The upsert of one binding: on the namespaced surface where a namespace is
/// given, on the cluster-wide one where none is.
#[derive(Clone, Debug)]
pub struct ApplyRequest {
    pub namespace: Option<String>,
    pub name: String,
    /// In whose name the fields of the binding are owned.
    pub field_manager: String,
    /// Whether fields owned in another name are taken over.
    pub force: bool,
}

pub struct SubjectView {
    pub kind: Seq<char>,
    pub name: Seq<char>,
    pub api_group: Option<Seq<char>>,
    pub namespace: Option<Seq<char>>,
}

pub struct RoleRefView {
    pub kind: Seq<char>,
    pub name: Seq<char>,
    pub api_group: Seq<char>,
}

/// A binding of either scope as contracts see it. One that holds in the
/// whole cluster has no namespace.
pub struct BindingView {
    pub cluster_wide: bool,
    pub name: Option<Seq<char>>,
    pub namespace: Option<Seq<char>>,
    pub subjects: Option<Seq<SubjectView>>,
    pub role_ref: RoleRefView,
}

pub struct ProfileView {
    pub name: Seq<char>,
    pub resources: Seq<BindingView>,
}

pub struct RequestView {
    pub namespace: Option<Seq<char>>,
    pub name: Seq<char>,
    pub field_manager: Seq<char>,
    pub force: bool,
}

impl View for Subject {
    type V = SubjectView;

    open spec fn view(&self) -> SubjectView {
        SubjectView {
            kind: self.kind@,
            name: self.name@,
            api_group: opt_text(self.api_group),
            namespace: opt_text(self.namespace),
        }
    }
}

impl View for RoleRef {
    type V = RoleRefView;

    open spec fn view(&self) -> RoleRefView {
        RoleRefView { kind: self.kind@, name: self.name@, api_group: self.api_group@ }
    }
}

/// The subjects of a binding as contracts see them.
pub open spec fn subject_views(subjects: Option<Vec<Subject>>) -> Option<Seq<SubjectView>> {
    match subjects {
        Some(list) => Some(Seq::new(list.len() as nat, |i: int| list[i]@)),
        None => None,
    }
}

impl View for ClusterRoleBinding {
    type V = BindingView;

    open spec fn view(&self) -> BindingView {
        BindingView {
            cluster_wide: true,
            name: opt_text(self.name),
            namespace: None,
            subjects: subject_views(self.subjects),
            role_ref: self.role_ref@,
        }
    }
}

impl View for RoleBinding {
    type V = BindingView;

    open spec fn view(&self) -> BindingView {
        BindingView {
            cluster_wide: false,
            name: opt_text(self.name),
            namespace: opt_text(self.namespace),
            subjects: subject_views(self.subjects),
            role_ref: self.role_ref@,
        }
    }
}

impl View for AuthorizationBinding {
    type V = BindingView;

    open spec fn view(&self) -> BindingView {
        match *self {
            AuthorizationBinding::ClusterScoped(binding) => binding@,
            AuthorizationBinding::NamespaceScoped(binding) => binding@,
        }
    }
}

impl View for Profile {
    type V = ProfileView;

    open spec fn view(&self) -> ProfileView {
        ProfileView {
            name: self.name@,
            resources: Seq::new(self.resources.len() as nat, |i: int| self.resources[i]@),
        }
    }
}

impl View for ApplyRequest {
    type V = RequestView;

    open spec fn view(&self) -> RequestView {
        RequestView {
            namespace: opt_text(self.namespace),
            name: self.name@,
            field_manager: self.field_manager@,
            force: self.force,
        }
    }
}

/// What applying a profile asks for next.
#[derive(Debug)]
pub enum ApplyStep {
    /// Upsert the binding at `index` as `request` says.
    Upsert { index: usize, request: ApplyRequest },
    /// Nothing more: every binding was applied.
    Finished,
    /// Stop with this error; the bindings behind it are not looked at.
    Abort(CoralGateError),
}

/// What applying a profile asks for next, as contracts see it.
pub enum StepView {
    Upsert { index: int, request: RequestView },
    Finished,
    Abort(ErrorView),
}

impl View for ApplyStep {
    type V = StepView;

    open spec fn view(&self) -> StepView {
        match *self {
            ApplyStep::Upsert { index, request } => StepView::Upsert {
                index: index as int,
                request: request@,
            },
            ApplyStep::Finished => StepView::Finished,
            ApplyStep::Abort(error) => StepView::Abort(error@),
        }
    }
}

/// The step that takes up the binding at `index`: its upsert, the error that
/// its identity gives, or the end where no binding stands there.
pub open spec fn plan_at(profile: ProfileView, index: int) -> StepView {
    if 0 <= index < profile.resources.len() {
        match planned(profile.resources[index]) {
            Ok(request) => StepView::Upsert { index, request },
            Err(error) => StepView::Abort(error),
        }
    } else {
        StepView::Finished
    }
}

/// The step that follows the upsert of the binding at `index`: a failure
/// stops the profile there, a success takes up the next binding.
pub open spec fn apply_next(profile: ProfileView, index: int, outcome: Result<(), ErrorView>)
    -> StepView {
    match outcome {
        Err(error) => StepView::Abort(error),
        Ok(_) => plan_at(profile, index + 1),
    }
}

/// In whose name applied bindings are owned.
pub open spec fn field_manager() -> Seq<char> {
    "kaccess"@
}

/// What applying a binding comes to. A binding must have its name, and one
/// of a namespace its namespace too, which is looked at first; then it is
/// upserted on the surface of its scope, under its name, with ownership of its
/// fields taken in any case.
pub open spec fn planned(binding: BindingView) -> Result<RequestView, ErrorView> {
    if binding.cluster_wide {
        match binding.name {
            None => Err(ErrorView::MissingName("Cluster Role binding"@)),
            Some(name) => Ok(
                RequestView { namespace: None, name, field_manager: field_manager(), force: true },
            ),
        }
    } else {
        match binding.namespace {
            None => Err(ErrorView::MissingNamespace("Role binding"@)),
            Some(namespace) => match binding.name {
                None => Err(ErrorView::MissingName("Role Binding"@)),
                Some(name) => Ok(
                    RequestView {
                        namespace: Some(namespace),
                        name,
                        field_manager: field_manager(),
                        force: true,
                    },
                ),
            },
        }
    }
}

/// A request as contracts see it, or the error in its place.
pub open spec fn request_view(r: Result<ApplyRequest, CoralGateError>) -> Result<
    RequestView,
    ErrorView,
> {
    match r {
        Ok(request) => Ok(request@),
        Err(error) => Err(error@),
    }
}

impl ClusterRoleBinding {
    /// Checks the binding's identity and says how it is upserted.
    pub fn apply(&self) -> (r: Result<ApplyRequest, CoralGateError>)
        ensures
            request_view(r) == planned(self@),
    {
        match &self.name {
            None => Err(CoralGateError::MissingName(String::from_str("Cluster Role binding"))),
            Some(name) => Ok(
                ApplyRequest {
                    namespace: None,
                    name: name.clone(),
                    field_manager: String::from_str("kaccess"),
                    force: true,
                },
            ),
        }
    }
}

impl RoleBinding {
    /// Checks the binding's identity and says how it is upserted.
    pub fn apply(&self) -> (r: Result<ApplyRequest, CoralGateError>)
        ensures
            request_view(r) == planned(self@),
    {
        let namespace = match &self.namespace {
            None => {
                return Err(CoralGateError::MissingNamespace(String::from_str("Role binding")));
            },
            Some(namespace) => namespace,
        };
        match &self.name {
            None => Err(CoralGateError::MissingName(String::from_str("Role Binding"))),
            Some(name) => Ok(
                ApplyRequest {
                    namespace: Some(namespace.clone()),
                    name: name.clone(),
                    field_manager: String::from_str("kaccess"),
                    force: true,
                },
            ),
        }
    }
}

impl AuthorizationBinding {
    /// Checks the binding's identity and says how it is upserted.
    pub fn apply(&self) -> (r: Result<ApplyRequest, CoralGateError>)
        ensures
            request_view(r) == planned(self@),
    {
        match self {
            AuthorizationBinding::ClusterScoped(binding) => binding.apply(),
            AuthorizationBinding::NamespaceScoped(binding) => binding.apply(),
        }
    }
}

/// The group of the cluster's access rules.
pub open spec fn rbac_group() -> Seq<char> {
    "rbac.authorization.k8s.io"@
}

/// The group called `name`, as the subject of a binding.
pub open spec fn group_subject(name: Seq<char>) -> SubjectView {
    SubjectView { kind: "Group"@, name, api_group: Some(rbac_group()), namespace: None }
}

/// The cluster role called `name`, as the role of a binding.
pub open spec fn cluster_role(name: Seq<char>) -> RoleRefView {
    RoleRefView { kind: "ClusterRole"@, name, api_group: rbac_group() }
}

/// The name that the read-only profile of a namespace, its binding and its
/// group share.
pub open spec fn readonly_name(namespace: Seq<char>) -> Seq<char> {
    "readonly-"@ + namespace
}

/// The profile of administrators: the built-in administrative role, in the
/// whole cluster, for the group `cluster-admins`.
pub open spec fn admin_profile_view() -> ProfileView {
    ProfileView {
        name: "admin"@,
        resources: seq![
            BindingView {
                cluster_wide: true,
                name: Some("cluster-admin-binding"@),
                namespace: None,
                subjects: Some(seq![group_subject("cluster-admins"@)]),
                role_ref: cluster_role("cluster-admin"@),
            },
        ],
    }
}

/// The profile of readers of the cluster: the built-in read-only role, in the
/// whole cluster, for the group `cluster-readonly`.
pub open spec fn cluster_readonly_profile_view() -> ProfileView {
    ProfileView {
        name: "cluster-readonly"@,
        resources: seq![
            BindingView {
                cluster_wide: true,
                name: Some("cluster-readonly-binding"@),
                namespace: None,
                subjects: Some(seq![group_subject("cluster-readonly"@)]),
                role_ref: cluster_role("view"@),
            },
        ],
    }
}

/// The profile of readers of one namespace: the built-in read-only role, in
/// that namespace, for the group named after it.
pub open spec fn namespaced_readonly_view(namespace: Seq<char>) -> ProfileView {
    ProfileView {
        name: readonly_name(namespace),
        resources: seq![
            BindingView {
                cluster_wide: false,
                name: Some(readonly_name(namespace)),
                namespace: Some(namespace),
                subjects: Some(seq![group_subject(readonly_name(namespace))]),
                role_ref: cluster_role("view"@),
            },
        ],
    }
}

/// The group called `name`, as the only subject of a binding.
fn only_group(name: String) -> (subjects: Option<Vec<Subject>>)
    ensures
        subject_views(subjects) == Some(seq![group_subject(name@)]),
{
    let mut subjects: Vec<Subject> = Vec::new();
    subjects.push(
        Subject {
            kind: String::from_str("Group"),
            name,
            api_group: Some(String::from_str("rbac.authorization.k8s.io")),
            namespace: None,
        },
    );
    proof {
        assert(subject_views(Some(subjects))->0 =~= seq![group_subject(name@)]);
    }
    Some(subjects)
}

/// The cluster role called `name`.
fn cluster_role_ref(name: &str) -> (role_ref: RoleRef)
    ensures
        role_ref@ == cluster_role(name@),
{
    RoleRef {
        kind: String::from_str("ClusterRole"),
        name: String::from_str(name),
        api_group: String::from_str("rbac.authorization.k8s.io"),
    }
}

impl Profile {
    /// A profile called `name` that holds `binding` and nothing else.
    fn single(name: String, binding: AuthorizationBinding) -> (profile: Profile)
        ensures
            profile@ == (ProfileView { name: name@, resources: seq![binding@] }),
    {
        let mut resources: Vec<AuthorizationBinding> = Vec::new();
        resources.push(binding);
        let profile = Profile { name, resources };
        proof {
            assert(profile@.resources =~= seq![binding@]);
        }
        profile
    }

    /// A profile called `name` without bindings.
    pub fn new(name: String) -> (profile: Profile)
        ensures
            profile@ == (ProfileView { name: name@, resources: Seq::empty() }),
    {
        let profile = Profile { name, resources: Vec::new() };
        proof {
            assert(profile@.resources =~= Seq::<BindingView>::empty());
        }
        profile
    }

    /// Takes up the binding at `index`.
    fn plan(&self, index: usize) -> (step: ApplyStep)
        ensures
            step@ == plan_at(self@, index as int),
    {
        if index < self.resources.len() {
            match self.resources[index].apply() {
                Ok(request) => ApplyStep::Upsert { index, request },
                Err(error) => ApplyStep::Abort(error),
            }
        } else {
            ApplyStep::Finished
        }
    }

    /// Begins to apply the profile: takes up its first binding.
    pub fn start_apply(&self) -> (step: ApplyStep)
        ensures
            step@ == plan_at(self@, 0),
    {
        self.plan(0)
    }

    /// Goes on applying the profile once the upsert of the binding at `index`
    /// has ended with `outcome`.
    pub fn apply(&self, index: usize, outcome: Result<(), CoralGateError>) -> (step: ApplyStep)
        ensures
            step@ == apply_next(self@, index as int, outcome_view(outcome)),
    {
        match outcome {
            Err(error) => ApplyStep::Abort(error),
            Ok(_) => if index < self.resources.len() {
                self.plan(index + 1)
            } else {
                ApplyStep::Finished
            },
        }
    }

    pub fn add_resource(&mut self, resource: AuthorizationBinding)
        ensures
            final(self)@.name == old(self)@.name,
            final(self)@.resources == old(self)@.resources.push(resource@),
    {
        self.resources.push(resource);
        proof {
            assert(self@.resources =~= old(self)@.resources.push(resource@));
        }
    }
}

pub fn admin_profile() -> (profile: Profile)
    ensures
        profile@ == admin_profile_view(),
{
    let binding = ClusterRoleBinding {
        name: Some(String::from_str("cluster-admin-binding")),
        subjects: only_group(String::from_str("cluster-admins")),
        role_ref: cluster_role_ref("cluster-admin"),
    };
    Profile::single(String::from_str("admin"), AuthorizationBinding::ClusterScoped(binding))
}

pub fn cluster_readonly_profile() -> (profile: Profile)
    ensures
        profile@ == cluster_readonly_profile_view(),
{
    let binding = ClusterRoleBinding {
        name: Some(String::from_str("cluster-readonly-binding")),
        subjects: only_group(String::from_str("cluster-readonly")),
        role_ref: cluster_role_ref("view"),
    };
    Profile::single(
        String::from_str("cluster-readonly"),
        AuthorizationBinding::ClusterScoped(binding),
    )
}

pub fn namespaced_readonly(namespace: &str) -> (profile: Profile)
    ensures
        profile@ == namespaced_readonly_view(namespace@),
{
    let binding = RoleBinding {
        name: Some(join2("readonly-", namespace)),
        namespace: Some(String::from_str(namespace)),
        subjects: only_group(join2("readonly-", namespace)),
        role_ref: cluster_role_ref("view"),
    };
    Profile::single(join2("readonly-", namespace), AuthorizationBinding::NamespaceScoped(binding))
}

} // verus!
