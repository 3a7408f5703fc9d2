//! What is asked of the driver when the instance is created, and what a
//! created instance exposes.

use crate::diagnostics::DiagnosticsConfig;
use crate::error::BootstrapError;
use crate::version::{packed_version, Version};
use vstd::prelude::*;

verus! {

/// The configuration handed to instance creation.
#[derive(Debug)]
pub struct InstanceRequest {
    pub application_name: String,
    /// The application's version, packed.
    pub application_version: u32,
    pub engine_name: String,
    /// The engine's version, packed.
    pub engine_version: u32,
    /// The targeted API version, packed.
    pub api_version: u32,
    /// The layers to enable, in request order.
    pub layers: Vec<String>,
    /// The instance extensions to enable, in request order.
    pub extensions: Vec<String>,
    /// The messenger configuration to chain into the creation call itself,
    /// so that messages emitted while the instance is created are seen.
    pub diagnostics: Option<DiagnosticsConfig>,
}

/// What a created instance exposes.
#[derive(Debug)]
pub struct InstanceCapabilities {
    /// The enabled layers.
    pub layers: Vec<String>,
    /// The enabled instance extensions.
    pub extensions: Vec<String>,
    /// The messenger configuration that was chained into creation.
    pub diagnostics: Option<DiagnosticsConfig>,
}

/// Puts the instance configuration together. Every requested layer and
/// extension is passed on, in order; the diagnostics configuration is chained
/// exactly when one is supplied.
pub fn build_instance_request(
    application_name: String,
    application_version: Version,
    engine_name: String,
    engine_version: Version,
    api_version: Version,
    layers: Vec<String>,
    extensions: Vec<String>,
    diagnostics: Option<DiagnosticsConfig>,
) -> (request: InstanceRequest)
    ensures
        request.application_name == application_name,
        request.application_version == packed_version(
            application_version.major,
            application_version.minor,
            application_version.patch,
        ),
        request.engine_name == engine_name,
        request.engine_version == packed_version(
            engine_version.major,
            engine_version.minor,
            engine_version.patch,
        ),
        request.api_version == packed_version(
            api_version.major,
            api_version.minor,
            api_version.patch,
        ),
        request.layers == layers,
        request.extensions == extensions,
        request.diagnostics == diagnostics,
{
    InstanceRequest {
        application_name,
        application_version: application_version.packed(),
        engine_name,
        engine_version: engine_version.packed(),
        api_version: api_version.packed(),
        layers,
        extensions,
        diagnostics,
    }
}

/// Concludes instance creation from the driver's answer. An accepted request
/// yields an instance that exposes exactly the requested layers and
/// extensions, none dropped; a rejected one is an initialisation error.
pub fn instance_outcome(request: InstanceRequest, accepted: bool) -> (outcome: Result<
    InstanceCapabilities,
    BootstrapError,
>)
    ensures
        outcome is Ok <==> accepted,
        outcome matches Ok(exposed) ==> exposed.layers == request.layers && exposed.extensions
            == request.extensions && exposed.diagnostics == request.diagnostics,
        outcome matches Err(e) ==> e == BootstrapError::Initialization,
{
    if accepted {
        Ok(
            InstanceCapabilities {
                layers: request.layers,
                extensions: request.extensions,
                diagnostics: request.diagnostics,
            },
        )
    } else {
        Err(BootstrapError::Initialization)
    }
}

} // verus!
