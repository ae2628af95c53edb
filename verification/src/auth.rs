//! Credentials management, for access to the Docker Hub or a custom Registry.

use vstd::prelude::*;

verus! {

/// Credentials and server address for pushing and building images.
#[derive(Debug, Clone, Default)]
#[allow(missing_docs)]
pub struct DockerCredentials {
    pub username: Option<String>,
    pub password: Option<String>,
    pub auth: Option<String>,
    pub email: Option<String>,
    pub serveraddress: Option<String>,
    pub identitytoken: Option<String>,
    pub registrytoken: Option<String>,
}

} // verus!
