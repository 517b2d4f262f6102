use vstd::prelude::*;

verus! {

/// Where the connection configuration is looked for when no path is given.
pub const DEFAULT_KUBECONFIG: &'static str = "~/.kube/config";

/// For how many hours a credential is asked to be valid when no number is given.
pub const DEFAULT_VALIDITY_HOURS: i32 = 24 * 30;

/// Where the credential document goes when no path is given.
pub const DEFAULT_OUTPUT: &'static str = "./kubeconfig";

/// Arguments that every command takes.
#[derive(Debug, Clone)]
pub struct CommonArgs {}

/// The command line, once parsed.
#[derive(Debug, Clone)]
pub struct Cli {
    pub command: Commands,
}

#[derive(Debug, Clone)]
pub enum Commands {
    /// Issues a credential document with restricted access.
    Generate(GenerateArgs),
    /// Provisions the built-in bindings that issued credentials rely on.
    Setup(SetupArgs),
}

/// The permission profile a credential is issued for.
#[derive(Clone, Copy, Debug)]
pub enum PermissionProfile {
    ClusterReadonly,
    Admin,
}

impl PermissionProfile {
    /// The name of the group that stands for this profile.
    pub open spec fn name(self) -> Seq<char> {
        match self {
            PermissionProfile::Admin => "admin"@,
            PermissionProfile::ClusterReadonly => "cluster-readonly"@,
        }
    }

    pub fn as_str(&self) -> (s: &'static str)
        ensures
            s@ == self.name(),
    {
        match self {
            PermissionProfile::Admin => "admin",
            PermissionProfile::ClusterReadonly => "cluster-readonly",
        }
    }
}

#[derive(Debug, Clone)]
pub struct SetupArgs {
    pub kubeconfig: Option<String>,
    pub namespace: Option<String>,
}

#[derive(Debug, Clone)]
pub struct GenerateArgs {
    pub kubeconfig: Option<String>,
    pub namespace: Option<String>,
    /// The identity the credential is issued to.
    pub user: String,
    /// Where the credential document is written.
    pub output: String,
    /// For how many hours the credential is asked to be valid.
    pub expire: i32,
    pub profile: PermissionProfile,
}

} // verus!
