use vstd::prelude::*;
use vulkano::device::DeviceCreationError;
use vulkano::instance::InstanceCreationError;
use vulkano::swapchain::{CapabilitiesError, SwapchainCreationError};
use vulkano::OomError;
use vulkano_win::CreationError;

verus! {

/// Declares vulkano's instance creation error, carried opaquely.
#[verifier::external_type_specification]
#[verifier::external_body]
pub struct ExInstanceCreationError(InstanceCreationError);

/// Declares vulkano's device creation error, carried opaquely.
#[verifier::external_type_specification]
#[verifier::external_body]
pub struct ExDeviceCreationError(DeviceCreationError);

/// Declares vulkano-win's window and surface creation error, carried opaquely.
#[verifier::external_type_specification]
#[verifier::external_body]
pub struct ExCreationError(CreationError);

/// Declares vulkano's surface capability query error, carried opaquely.
#[verifier::external_type_specification]
#[verifier::external_body]
pub struct ExCapabilitiesError(CapabilitiesError);

/// Declares vulkano's swap chain creation error, carried opaquely.
#[verifier::external_type_specification]
#[verifier::external_body]
pub struct ExSwapchainCreationError(SwapchainCreationError);

/// Declares vulkano's out-of-memory error, carried opaquely.
#[verifier::external_type_specification]
#[verifier::external_body]
pub struct ExOomError(OomError);

/// Every way in which bringing the renderer up can fail.
#[derive(Debug)]
pub enum EngineError {
    VulkanInstanceCreationError(InstanceCreationError),
    VulkanDeviceCreationError(DeviceCreationError),
    VulkanCreationError(CreationError),
    VulkanValidationError(String),
    VulkanCapabilitiesError(CapabilitiesError),
    VulkanSwapchainCreationError(SwapchainCreationError),
    VulkanOomError(OomError),
}

impl From<InstanceCreationError> for EngineError {
    fn from(error: InstanceCreationError) -> (r: Self) {
        EngineError::VulkanInstanceCreationError(error)
    }
}

impl vstd::std_specs::convert::FromSpecImpl<InstanceCreationError> for EngineError {
    open spec fn obeys_from_spec() -> bool {
        true
    }

    open spec fn from_spec(error: InstanceCreationError) -> Self {
        EngineError::VulkanInstanceCreationError(error)
    }
}

impl From<DeviceCreationError> for EngineError {
    fn from(error: DeviceCreationError) -> (r: Self) {
        EngineError::VulkanDeviceCreationError(error)
    }
}

impl vstd::std_specs::convert::FromSpecImpl<DeviceCreationError> for EngineError {
    open spec fn obeys_from_spec() -> bool {
        true
    }

    open spec fn from_spec(error: DeviceCreationError) -> Self {
        EngineError::VulkanDeviceCreationError(error)
    }
}

impl From<CreationError> for EngineError {
    fn from(error: CreationError) -> (r: Self) {
        EngineError::VulkanCreationError(error)
    }
}

impl vstd::std_specs::convert::FromSpecImpl<CreationError> for EngineError {
    open spec fn obeys_from_spec() -> bool {
        true
    }

    open spec fn from_spec(error: CreationError) -> Self {
        EngineError::VulkanCreationError(error)
    }
}

impl From<CapabilitiesError> for EngineError {
    fn from(error: CapabilitiesError) -> (r: Self) {
        EngineError::VulkanCapabilitiesError(error)
    }
}

impl vstd::std_specs::convert::FromSpecImpl<CapabilitiesError> for EngineError {
    open spec fn obeys_from_spec() -> bool {
        true
    }

    open spec fn from_spec(error: CapabilitiesError) -> Self {
        EngineError::VulkanCapabilitiesError(error)
    }
}

impl From<SwapchainCreationError> for EngineError {
    fn from(error: SwapchainCreationError) -> (r: Self) {
        EngineError::VulkanSwapchainCreationError(error)
    }
}

impl vstd::std_specs::convert::FromSpecImpl<SwapchainCreationError> for EngineError {
    open spec fn obeys_from_spec() -> bool {
        true
    }

    open spec fn from_spec(error: SwapchainCreationError) -> Self {
        EngineError::VulkanSwapchainCreationError(error)
    }
}

impl From<OomError> for EngineError {
    fn from(error: OomError) -> (r: Self) {
        EngineError::VulkanOomError(error)
    }
}

impl vstd::std_specs::convert::FromSpecImpl<OomError> for EngineError {
    open spec fn obeys_from_spec() -> bool {
        true
    }

    open spec fn from_spec(error: OomError) -> Self {
        EngineError::VulkanOomError(error)
    }
}

} // verus!
