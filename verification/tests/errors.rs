use coralgate::command::structure::{
    PermissionProfile, DEFAULT_KUBECONFIG, DEFAULT_OUTPUT, DEFAULT_VALIDITY_HOURS,
};
use coralgate::error::CoralGateError;
use coralgate::gate::config::{get_gate_config, init_gate_config, GateConfig, GateInformation};

#[test]
fn test_as_str() {
    assert_eq!(PermissionProfile::Admin.as_str(), "admin");
    assert_eq!(PermissionProfile::ClusterReadonly.as_str(), "cluster-readonly");
}

#[test]
fn test_defaults() {
    assert_eq!(DEFAULT_KUBECONFIG, "~/.kube/config");
    assert_eq!(DEFAULT_VALIDITY_HOURS, 24 * 30);
    assert_eq!(DEFAULT_OUTPUT, "./kubeconfig");
}

#[test]
fn test_messages() {
    let s = |text: &str| String::from(text);
    assert_eq!(
        CoralGateError::MissingEnvironment(s("HOME")).message(),
        "The environment variable HOME is not set"
    );
    assert_eq!(
        CoralGateError::TimeoutError(s("Timed out getting signed certificate")).message(),
        "Timeout Error: Timed out getting signed certificate"
    );
    assert_eq!(CoralGateError::UnknownTempError.message(), "Unknown Temp Error");
    assert_eq!(CoralGateError::IOError(s("disk full")).message(), "disk full");
    assert_eq!(
        CoralGateError::MissingName(s("Role Binding")).message(),
        "The resource name is missing for Role Binding"
    );
    assert_eq!(
        CoralGateError::MissingNamespace(s("Role binding")).message(),
        "The reosource namespace is missing for Role binding"
    );
    assert_eq!(CoralGateError::KubeApiError(s("403")).message(), "Kube Api Error 403");
    assert_eq!(
        CoralGateError::BinaryNotFound { target: s("kubectl"), path: s("/usr/bin/a \"b\"") }
            .message(),
        "Binary for target \"kubectl\" not found, path: \"/usr/bin/a \\\"b\\\"\""
    );
    assert_eq!(
        CoralGateError::CommandOutputError(s("broken pipe")).message(),
        "Error in command output broken pipe"
    );
    assert_eq!(
        CoralGateError::CommandOutputUtf8Error(s("invalid utf-8")).message(),
        "Error output to utf8 invalid utf-8"
    );
    assert_eq!(
        CoralGateError::ClientManagerRootCaMissing.message(),
        "The connection names no root certificate"
    );
    assert_eq!(
        CoralGateError::ClientManagerConfigNotInitialized.message(),
        "The connection is not resolved yet"
    );
    assert_eq!(CoralGateError::CryptoError(s("no key")).message(), "Crypto Error: no key");
    assert_eq!(
        CoralGateError::MissingField(s("metadata.name")).message(),
        "The field metadata.name is missing in the answer"
    );
}

#[test]
fn test_gate_config_is_filled_once_and_read() {
    let mut cell = GateConfig::new();
    assert!(!cell.is_set());
    init_gate_config(
        &mut cell,
        GateInformation {
            user: Some(String::from("ann")),
            group: Some(String::from("admin")),
            namespace: None,
            profile: Some(PermissionProfile::Admin),
            command: None,
        },
    );
    assert!(cell.is_set());
    let config = get_gate_config(&cell);
    assert_eq!(config.user, Some(String::from("ann")));
    assert_eq!(config.group, Some(String::from("admin")));
    assert_eq!(config.namespace, None);
    assert!(matches!(config.profile, Some(PermissionProfile::Admin)));
    assert!(config.command.is_none());
}
