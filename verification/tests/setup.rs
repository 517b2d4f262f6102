use coralgate::command::setup::{begin, handle, setup_profiles, SetupStep};
use coralgate::error::CoralGateError;
use coralgate::gate::profile::{
    AuthorizationBinding, ClusterRoleBinding, Profile, RoleRef,
};

fn binding(name: Option<&str>) -> AuthorizationBinding {
    AuthorizationBinding::ClusterScoped(ClusterRoleBinding {
        name: name.map(String::from),
        subjects: None,
        role_ref: RoleRef {
            kind: String::from("ClusterRole"),
            name: String::from("view"),
            api_group: String::from("rbac.authorization.k8s.io"),
        },
    })
}

fn profile(name: &str, bindings: Vec<AuthorizationBinding>) -> Profile {
    let mut profile = Profile::new(String::from(name));
    for b in bindings {
        profile.add_resource(b);
    }
    profile
}

/// Runs the setup against a cluster that refuses the bindings named in
/// `refused`; gives back the names upserted and how the setup ended.
fn run(profiles: &Vec<Profile>, refused: &[&str]) -> (Vec<String>, Result<(), CoralGateError>) {
    let mut seen = Vec::new();
    let mut step = begin(profiles);
    loop {
        match step {
            SetupStep::Upsert { profile, index, request } => {
                assert!(index < profiles[profile].resources.len());
                seen.push(request.name.clone());
                let outcome = if refused.contains(&request.name.as_str()) {
                    Err(CoralGateError::KubeApiError(String::from("refused")))
                } else {
                    Ok(())
                };
                step = handle(profiles, profile, index, outcome);
            }
            SetupStep::Finished => return (seen, Ok(())),
            SetupStep::Abort(error) => return (seen, Err(error)),
        }
    }
}

#[test]
fn test_setup_profiles_are_admin_then_cluster_readonly() {
    let profiles = setup_profiles();
    assert_eq!(profiles.len(), 2);
    assert_eq!(profiles[0].name, "admin");
    assert_eq!(profiles[1].name, "cluster-readonly");
}

#[test]
fn test_setup_applies_both_bindings_in_order() {
    let (seen, result) = run(&setup_profiles(), &[]);
    assert!(result.is_ok());
    assert_eq!(seen, vec!["cluster-admin-binding", "cluster-readonly-binding"]);
}

#[test]
fn test_setup_stops_when_the_first_profile_fails() {
    let (seen, result) = run(&setup_profiles(), &["cluster-admin-binding"]);
    assert!(matches!(result, Err(CoralGateError::KubeApiError(_))));
    assert_eq!(seen, vec!["cluster-admin-binding"]);
}

#[test]
fn test_setup_reports_a_failure_of_the_second_profile() {
    let (seen, result) = run(&setup_profiles(), &["cluster-readonly-binding"]);
    assert!(matches!(result, Err(CoralGateError::KubeApiError(_))));
    assert_eq!(seen.len(), 2);
}

#[test]
fn test_setup_without_profiles_is_finished() {
    assert!(matches!(begin(&Vec::new()), SetupStep::Finished));
}

#[test]
fn test_setup_passes_over_empty_profiles() {
    let profiles = vec![
        profile("none", vec![]),
        profile("one", vec![binding(Some("a")), binding(Some("b"))]),
        profile("none", vec![]),
        profile("two", vec![binding(Some("c"))]),
        profile("none", vec![]),
    ];
    let (seen, result) = run(&profiles, &[]);
    assert!(result.is_ok());
    assert_eq!(seen, vec!["a", "b", "c"]);
}

#[test]
fn test_setup_stops_at_a_binding_without_name() {
    let profiles = vec![
        profile("one", vec![binding(Some("a"))]),
        profile("two", vec![binding(None), binding(Some("c"))]),
    ];
    let (seen, result) = run(&profiles, &[]);
    assert_eq!(seen, vec!["a"]);
    match result {
        Err(CoralGateError::MissingName(kind)) => assert_eq!(kind, "Cluster Role binding"),
        _ => panic!("the binding has no name"),
    }
}

#[test]
fn test_setup_step_for_a_profile_that_is_not_there() {
    let profiles = setup_profiles();
    assert!(matches!(handle(&profiles, 2, 0, Ok(())), SetupStep::Finished));
    assert!(matches!(
        handle(&profiles, 9, 0, Err(CoralGateError::UnknownTempError)),
        SetupStep::Abort(CoralGateError::UnknownTempError)
    ));
}
