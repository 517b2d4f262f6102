use coralgate::error::CoralGateError;
use coralgate::gate::profile::{
    admin_profile, cluster_readonly_profile, namespaced_readonly, ApplyRequest, ApplyStep,
    AuthorizationBinding, ClusterRoleBinding, Profile, RoleBinding, RoleRef, Subject,
};
use std::collections::BTreeMap;

fn role_ref() -> RoleRef {
    RoleRef {
        kind: String::from("ClusterRole"),
        name: String::from("view"),
        api_group: String::from("rbac.authorization.k8s.io"),
    }
}

fn cluster_binding(name: Option<&str>) -> AuthorizationBinding {
    AuthorizationBinding::ClusterScoped(ClusterRoleBinding {
        name: name.map(String::from),
        subjects: None,
        role_ref: role_ref(),
    })
}

fn namespace_binding(name: Option<&str>, namespace: Option<&str>) -> AuthorizationBinding {
    AuthorizationBinding::NamespaceScoped(RoleBinding {
        name: name.map(String::from),
        namespace: namespace.map(String::from),
        subjects: None,
        role_ref: role_ref(),
    })
}

fn profile_of(bindings: Vec<AuthorizationBinding>) -> Profile {
    let mut profile = Profile::new(String::from("test"));
    for binding in bindings {
        profile.add_resource(binding);
    }
    profile
}

/// A cluster surface that records every upsert, keeps what it took, and
/// refuses the bindings whose name is in `refused`.
struct FakeCluster {
    refused: Vec<String>,
    seen: Vec<(Option<String>, String)>,
    store: BTreeMap<(Option<String>, String), String>,
}

impl FakeCluster {
    fn new(refused: &[&str]) -> FakeCluster {
        FakeCluster {
            refused: refused.iter().map(|s| String::from(*s)).collect(),
            seen: Vec::new(),
            store: BTreeMap::new(),
        }
    }

    fn upsert(
        &mut self,
        request: &ApplyRequest,
        body: &AuthorizationBinding,
    ) -> Result<(), CoralGateError> {
        assert_eq!(request.field_manager, "kaccess");
        assert!(request.force);
        self.seen.push((request.namespace.clone(), request.name.clone()));
        if self.refused.contains(&request.name) {
            return Err(CoralGateError::KubeApiError(format!("refused {}", request.name)));
        }
        self.store.insert((request.namespace.clone(), request.name.clone()), format!("{:?}", body));
        Ok(())
    }

    fn apply(&mut self, profile: &Profile) -> Result<(), CoralGateError> {
        let mut step = profile.start_apply();
        loop {
            match step {
                ApplyStep::Upsert { index, request } => {
                    let outcome = self.upsert(&request, &profile.resources[index]);
                    step = profile.apply(index, outcome);
                }
                ApplyStep::Finished => return Ok(()),
                ApplyStep::Abort(error) => return Err(error),
            }
        }
    }
}

fn check_group_subject(subjects: &Option<Vec<Subject>>, group: &str) {
    let subjects = subjects.as_ref().unwrap();
    assert_eq!(subjects.len(), 1);
    assert_eq!(subjects[0].kind, "Group");
    assert_eq!(subjects[0].name, group);
    assert_eq!(subjects[0].api_group, Some(String::from("rbac.authorization.k8s.io")));
    assert_eq!(subjects[0].namespace, None);
}

fn check_cluster_role(role_ref: &RoleRef, name: &str) {
    assert_eq!(role_ref.kind, "ClusterRole");
    assert_eq!(role_ref.name, name);
    assert_eq!(role_ref.api_group, "rbac.authorization.k8s.io");
}

#[test]
fn test_admin_profile() {
    let profile = admin_profile();
    assert_eq!(profile.name, "admin");
    assert_eq!(profile.resources.len(), 1);
    match &profile.resources[0] {
        AuthorizationBinding::ClusterScoped(binding) => {
            assert_eq!(binding.name, Some(String::from("cluster-admin-binding")));
            check_group_subject(&binding.subjects, "cluster-admins");
            check_cluster_role(&binding.role_ref, "cluster-admin");
        }
        AuthorizationBinding::NamespaceScoped(_) => panic!("the binding holds in the cluster"),
    }
}

#[test]
fn test_cluster_readonly_profile() {
    let profile = cluster_readonly_profile();
    assert_eq!(profile.name, "cluster-readonly");
    assert_eq!(profile.resources.len(), 1);
    match &profile.resources[0] {
        AuthorizationBinding::ClusterScoped(binding) => {
            assert_eq!(binding.name, Some(String::from("cluster-readonly-binding")));
            check_group_subject(&binding.subjects, "cluster-readonly");
            check_cluster_role(&binding.role_ref, "view");
        }
        AuthorizationBinding::NamespaceScoped(_) => panic!("the binding holds in the cluster"),
    }
}

#[test]
fn test_namespaced_readonly_team_a() {
    let profile = namespaced_readonly("team-a");
    assert_eq!(profile.name, "readonly-team-a");
    assert_eq!(profile.resources.len(), 1);
    match &profile.resources[0] {
        AuthorizationBinding::NamespaceScoped(binding) => {
            assert_eq!(binding.name, Some(String::from("readonly-team-a")));
            assert_eq!(binding.namespace, Some(String::from("team-a")));
            check_group_subject(&binding.subjects, "readonly-team-a");
            check_cluster_role(&binding.role_ref, "view");
        }
        AuthorizationBinding::ClusterScoped(_) => panic!("the binding holds in a namespace"),
    }
}

#[test]
fn test_namespaced_readonly_of_empty_namespace() {
    let profile = namespaced_readonly("");
    assert_eq!(profile.name, "readonly-");
    match &profile.resources[0] {
        AuthorizationBinding::NamespaceScoped(binding) => {
            assert_eq!(binding.namespace, Some(String::new()));
        }
        AuthorizationBinding::ClusterScoped(_) => panic!("the binding holds in a namespace"),
    }
}

#[test]
fn test_cluster_binding_request() {
    let request = cluster_binding(Some("a")).apply().unwrap();
    assert_eq!(request.namespace, None);
    assert_eq!(request.name, "a");
    assert_eq!(request.field_manager, "kaccess");
    assert!(request.force);
}

#[test]
fn test_namespace_binding_request() {
    let request = namespace_binding(Some("a"), Some("ns")).apply().unwrap();
    assert_eq!(request.namespace, Some(String::from("ns")));
    assert_eq!(request.name, "a");
    assert_eq!(request.field_manager, "kaccess");
    assert!(request.force);
}

#[test]
fn test_cluster_binding_without_name() {
    match cluster_binding(None).apply() {
        Err(CoralGateError::MissingName(kind)) => assert_eq!(kind, "Cluster Role binding"),
        _ => panic!("a binding without name cannot be applied"),
    }
}

#[test]
fn test_namespace_binding_without_name() {
    match namespace_binding(None, Some("ns")).apply() {
        Err(CoralGateError::MissingName(kind)) => assert_eq!(kind, "Role Binding"),
        _ => panic!("a binding without name cannot be applied"),
    }
}

#[test]
fn test_namespace_binding_without_namespace() {
    match namespace_binding(Some("a"), None).apply() {
        Err(CoralGateError::MissingNamespace(kind)) => assert_eq!(kind, "Role binding"),
        _ => panic!("a binding without namespace cannot be applied"),
    }
}

#[test]
fn test_namespace_is_looked_at_before_the_name() {
    assert!(matches!(
        namespace_binding(None, None).apply(),
        Err(CoralGateError::MissingNamespace(_))
    ));
}

#[test]
fn test_add_resource_appends() {
    let mut profile = Profile::new(String::from("p"));
    assert_eq!(profile.resources.len(), 0);
    profile.add_resource(cluster_binding(Some("a")));
    profile.add_resource(cluster_binding(Some("b")));
    assert_eq!(profile.name, "p");
    assert_eq!(profile.resources.len(), 2);
    assert!(matches!(
        &profile.resources[1],
        AuthorizationBinding::ClusterScoped(b) if b.name == Some(String::from("b"))
    ));
}

#[test]
fn test_empty_profile_is_finished_at_once() {
    let profile = Profile::new(String::from("p"));
    assert!(matches!(profile.start_apply(), ApplyStep::Finished));
    let mut cluster = FakeCluster::new(&[]);
    assert!(cluster.apply(&profile).is_ok());
    assert!(cluster.seen.is_empty());
}

#[test]
fn test_bindings_are_applied_in_order() {
    let profile = profile_of(vec![
        cluster_binding(Some("a")),
        namespace_binding(Some("b"), Some("ns")),
        cluster_binding(Some("c")),
    ]);
    let mut cluster = FakeCluster::new(&[]);
    assert!(cluster.apply(&profile).is_ok());
    assert_eq!(
        cluster.seen,
        vec![
            (None, String::from("a")),
            (Some(String::from("ns")), String::from("b")),
            (None, String::from("c")),
        ]
    );
}

#[test]
fn test_failure_of_first_binding_stops_the_profile() {
    let profile = profile_of(vec![cluster_binding(Some("a")), cluster_binding(Some("b"))]);
    let mut cluster = FakeCluster::new(&["a"]);
    match cluster.apply(&profile) {
        Err(CoralGateError::KubeApiError(answer)) => assert_eq!(answer, "refused a"),
        _ => panic!("the failure must surface"),
    }
    assert_eq!(cluster.seen, vec![(None, String::from("a"))]);
    assert!(cluster.store.is_empty());
}

#[test]
fn test_failure_keeps_what_was_applied_before() {
    let profile = profile_of(vec![
        cluster_binding(Some("a")),
        cluster_binding(Some("b")),
        cluster_binding(Some("c")),
    ]);
    let mut cluster = FakeCluster::new(&["b"]);
    assert!(cluster.apply(&profile).is_err());
    assert_eq!(cluster.seen.len(), 2);
    assert_eq!(cluster.store.len(), 1);
    assert!(cluster.store.contains_key(&(None, String::from("a"))));
}

#[test]
fn test_binding_without_identity_stops_the_profile_before_its_upsert() {
    let profile = profile_of(vec![
        cluster_binding(Some("a")),
        namespace_binding(Some("b"), None),
        cluster_binding(Some("c")),
    ]);
    let mut cluster = FakeCluster::new(&[]);
    assert!(matches!(cluster.apply(&profile), Err(CoralGateError::MissingNamespace(_))));
    assert_eq!(cluster.seen, vec![(None, String::from("a"))]);
}

#[test]
fn test_applying_twice_gives_the_same_state() {
    for profile in [
        admin_profile(),
        cluster_readonly_profile(),
        namespaced_readonly("team-a"),
        profile_of(vec![
            cluster_binding(Some("a")),
            namespace_binding(Some("a"), Some("ns")),
            cluster_binding(Some("a")),
        ]),
    ] {
        let mut cluster = FakeCluster::new(&[]);
        assert!(cluster.apply(&profile).is_ok());
        let first = cluster.store.clone();
        assert!(cluster.apply(&profile).is_ok());
        assert_eq!(cluster.store, first);
        assert_eq!(cluster.seen.len(), 2 * profile.resources.len());
    }
}

#[test]
fn test_apply_step_after_the_last_binding() {
    let profile = profile_of(vec![cluster_binding(Some("a"))]);
    assert!(matches!(profile.apply(0, Ok(())), ApplyStep::Finished));
    assert!(matches!(profile.apply(7, Ok(())), ApplyStep::Finished));
    assert!(matches!(profile.apply(usize::MAX, Ok(())), ApplyStep::Finished));
    assert!(matches!(
        profile.apply(7, Err(CoralGateError::UnknownTempError)),
        ApplyStep::Abort(CoralGateError::UnknownTempError)
    ));
}
