use vstd::prelude::*;

verus! {

/// Failures that stop the program before the first frame.
#[derive(Clone, Copy, Debug, PartialEq, Eq, Structural)]
pub enum StartupError {
    /// No physical device can present to the window's surface.
    NoCompatibleAdapter,
    /// The adapter refused to open a logical device.
    DeviceCreationFailed,
    /// The surface offers no pixel format with the chosen adapter.
    NoSupportedFormat,
    /// The shader text does not compile or lacks its entry points.
    ShaderValidationFailed,
}

/// Which kind of physical device the adapter request asks for.
#[derive(Clone, Copy, Debug, PartialEq, Eq, Structural)]
pub enum PowerPreference {
    LowPower,
    HighPerformance,
}

/// What is asked of the adapter search.
#[derive(Clone, Copy, Debug, PartialEq, Eq, Structural)]
pub struct AdapterRequest {
    pub power_preference: PowerPreference,
    /// Only a software implementation would be accepted.
    pub force_fallback_adapter: bool,
    /// The adapter must be able to present to the window's surface.
    pub requires_compatible_surface: bool,
}

/// The resource limits asked of a device.
#[derive(Clone, Copy, Debug, PartialEq, Eq, Structural)]
pub enum LimitsProfile {
    /// The limits that most devices support.
    Default,
    /// Lower limits that older hardware supports.
    Downlevel,
}

/// What is asked of the logical device: a set of optional features, one bit
/// each (zero: none, so no feature beyond the core set such as extended
/// texture formats), and a limits profile.
#[derive(Clone, Copy, Debug, PartialEq, Eq, Structural)]
pub struct DeviceRequest {
    pub optional_features: u64,
    pub limits: LimitsProfile,
}

pub fn adapter_request(power_preference: PowerPreference) -> (r: AdapterRequest)
    ensures
        r.power_preference == power_preference,
        !r.force_fallback_adapter,
        r.requires_compatible_surface,
{
    AdapterRequest { power_preference, force_fallback_adapter: false, requires_compatible_surface: true }
}

pub fn device_request() -> (r: DeviceRequest)
    ensures
        r.optional_features == 0,
        r.limits == LimitsProfile::Default,
{
    DeviceRequest { optional_features: 0, limits: LimitsProfile::Default }
}

/// The steps of startup, in the order in which they run. Each is attempted
/// once; there is no retry.
#[derive(Clone, Copy, Debug, PartialEq, Eq, Structural)]
pub enum StartupStage {
    RequestAdapter,
    RequestDevice,
    ConfigureSurface,
    BuildPipeline,
    Running,
}

pub open spec fn stage_error(stage: StartupStage) -> StartupError {
    match stage {
        StartupStage::RequestAdapter => StartupError::NoCompatibleAdapter,
        StartupStage::RequestDevice => StartupError::DeviceCreationFailed,
        StartupStage::ConfigureSurface => StartupError::NoSupportedFormat,
        _ => StartupError::ShaderValidationFailed,
    }
}

pub open spec fn stage_after(stage: StartupStage) -> StartupStage {
    match stage {
        StartupStage::RequestAdapter => StartupStage::RequestDevice,
        StartupStage::RequestDevice => StartupStage::ConfigureSurface,
        StartupStage::ConfigureSurface => StartupStage::BuildPipeline,
        _ => StartupStage::Running,
    }
}

/// Moves startup on after one step: to the next step where it succeeded,
/// to that step's fatal error where it failed.
pub fn advance(stage: StartupStage, succeeded: bool) -> (r: Result<StartupStage, StartupError>)
    requires
        stage != StartupStage::Running,
    ensures
        succeeded ==> r == Ok::<StartupStage, StartupError>(stage_after(stage)),
        !succeeded ==> r == Err::<StartupStage, StartupError>(stage_error(stage)),
{
    if !succeeded {
        let e = match stage {
            StartupStage::RequestAdapter => StartupError::NoCompatibleAdapter,
            StartupStage::RequestDevice => StartupError::DeviceCreationFailed,
            StartupStage::ConfigureSurface => StartupError::NoSupportedFormat,
            _ => StartupError::ShaderValidationFailed,
        };
        Err(e)
    } else {
        let next = match stage {
            StartupStage::RequestAdapter => StartupStage::RequestDevice,
            StartupStage::RequestDevice => StartupStage::ConfigureSurface,
            StartupStage::ConfigureSurface => StartupStage::BuildPipeline,
            _ => StartupStage::Running,
        };
        Ok(next)
    }
}

} // verus!
