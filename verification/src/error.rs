//! The ways in which bringing the device up can fail.

use vstd::prelude::*;

verus! {

/// Every failure is final: no stage is retried, and the caller is expected to
/// stop with the description of the error.
#[derive(Clone, Copy, Debug, PartialEq, Eq, Structural)]
pub enum BootstrapError {
    /// The loader or the instance could not be created.
    Initialization,
    /// The presentation surface could not be created for the window.
    SurfaceCreation,
    /// No discrete GPU is visible to the instance.
    NoSuitableDevice,
    /// The chosen device lacks a usable graphics or transfer queue family.
    NoSuitableQueueFamily,
    /// The driver rejected the logical device request.
    DeviceCreation,
}

impl BootstrapError {
    /// The text of the message for each error.
    pub open spec fn description(self) -> Seq<char> {
        match self {
            BootstrapError::Initialization => "failed to initialise the graphics instance"@,
            BootstrapError::SurfaceCreation => "failed to create the presentation surface"@,
            BootstrapError::NoSuitableDevice => "no discrete graphics card found"@,
            BootstrapError::NoSuitableQueueFamily => "no suitable queue family found"@,
            BootstrapError::DeviceCreation => "failed to create the logical device"@,
        }
    }

    /// A human-readable description, for the message the process ends with.
    pub fn describe(&self) -> (text: String)
        ensures
            text@ == self.description(),
    {
        match self {
            BootstrapError::Initialization => String::from_str("failed to initialise the graphics instance"),
            BootstrapError::SurfaceCreation => String::from_str("failed to create the presentation surface"),
            BootstrapError::NoSuitableDevice => String::from_str("no discrete graphics card found"),
            BootstrapError::NoSuitableQueueFamily => String::from_str("no suitable queue family found"),
            BootstrapError::DeviceCreation => String::from_str("failed to create the logical device"),
        }
    }
}

} // verus!
