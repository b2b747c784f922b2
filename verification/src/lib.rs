pub mod oauth2_proxy;
pub mod secret;
pub mod status;
pub mod text;
pub mod url_host;
pub mod workload;
pub mod crd;
pub mod nginx;
pub mod cloudflare;
pub mod observability;
pub mod cleanup;
pub mod error;
pub mod reconcile;
pub mod finalizer;
pub mod keycloak;
pub mod namespace;
pub mod cli;
pub mod init;
pub mod site;
pub mod routes;
pub mod counter;
pub mod nails_blog;
pub mod nails_docs;
pub mod stack_docs;
