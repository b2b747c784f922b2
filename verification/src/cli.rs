//! The command line of the `nails` tool, as plain values.
use vstd::prelude::*;

verus! {

/// The parsed command line.
pub struct Cli {
    pub command: Commands,
}

/// Deploys a Cloudflare tunnel with a token.
pub struct CloudflareInstaller {
    /// The cloudflare tunnel token
    pub token: String,
    /// The tunnel name (`nails` by default)
    pub name: String,
    /// Namespace for the tunnel deployment (`nails` by default)
    pub namespace: String,
}

/// Installs the operators the platform needs.
pub struct Initializer {
    /// Skip installing the nginx ingress operator
    pub disable_ingress: bool,
    /// Namespace for application components (`nails` by default)
    pub namespace: String,
    /// Namespace for the operator (`nails-system` by default)
    pub operator_namespace: String,
    /// Skip installing the operator
    pub no_operator: bool,
}

/// Installs an application from its manifest.
pub struct Installer {
    /// Path to a NailsApp manifest to apply
    pub manifest: String,
    /// The setup needed for development
    pub development: bool,
    /// Deploy a Cloudflare tunnel during installation
    pub cloudflare_token: Option<String>,
    /// Name for the Cloudflare tunnel (defaults to manifest namespace)
    pub cloudflare_tunnel_name: Option<String>,
    /// Namespace for the Cloudflare tunnel (defaults to manifest namespace)
    pub cloudflare_namespace: Option<String>,
}

/// Shows the platform's connection details.
pub struct StatusArgs {
    /// Namespace where the application components (including cloudflared) are
    /// installed (`nails` by default)
    pub namespace: String,
    /// Namespace where the shared Keycloak installation lives (`keycloak` by
    /// default)
    pub keycloak_namespace: String,
}

/// The subcommands.
pub enum Commands {
    /// Install the application into Kubernetes
    Install(Installer),
    /// Install the required operators into Kubernetes
    Init(Initializer),
    /// Run the Nails Kubernetes Operator
    Operator,
    /// Deploy a Cloudflare tunnel
    Cloudflare(CloudflareInstaller),
    /// Show platform connection details (Keycloak credentials, Cloudflare URL)
    Status(StatusArgs),
}

} // verus!
