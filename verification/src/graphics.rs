//! The graphics context: what is asked of the GPU layer to bring one up, and
//! the record of what was negotiated.

use crate::adapter::AdapterDescriptor;
use crate::surface::SurfaceConfiguration;
use vstd::prelude::*;
use vstd::string::*;

verus! {

/// The graphics APIs an instance may load.
#[derive(Clone, Copy, Debug, PartialEq, Eq, Structural)]
pub enum BackendSelection {
    /// The native API of each platform, without emulation layers.
    Primary,
    /// Every API the GPU layer knows.
    All,
}

/// Which adapter to prefer where a host has several.
#[derive(Clone, Copy, Debug, PartialEq, Eq, Structural)]
pub enum PowerPreference {
    Unspecified,
    LowPower,
    HighPerformance,
}

/// The resource limits a device is asked for.
#[derive(Clone, Copy, Debug, PartialEq, Eq, Structural)]
pub enum LimitsProfile {
    /// The defaults of the GPU layer.
    Default,
    /// The reduced limits that a WebGL 2 target can meet.
    DownlevelWebGl2,
}

/// What is asked of the GPU layer, step by step, to bring up a context for
/// one window.
#[derive(Debug, PartialEq, Eq)]
pub struct ContextRequest {
    /// The APIs the instance may load.
    pub backends: BackendSelection,
    /// The APIs whose adapters the diagnostic report lists.
    pub probed_backends: BackendSelection,
    pub power_preference: PowerPreference,
    pub force_fallback_adapter: bool,
    /// Whether the adapter must be able to present to the window's surface.
    pub compatible_surface: bool,
    pub device_label: String,
    /// Whether the device is asked for any optional feature.
    pub requires_features: bool,
    pub required_limits: LimitsProfile,
}

/// `request` is what this application asks for: the primary backends, the
/// high-performance adapter that can present to the surface, no fallback
/// adapter, no optional features, and the default limits, or the WebGL 2
/// limits on a web target.
pub open spec fn is_context_request(request: ContextRequest, web_target: bool) -> bool {
    &&& request.backends == BackendSelection::Primary
    &&& request.probed_backends == BackendSelection::All
    &&& request.power_preference == PowerPreference::HighPerformance
    &&& !request.force_fallback_adapter
    &&& request.compatible_surface
    &&& request.device_label@ == "logical adapter interface"@
    &&& !request.requires_features
    &&& request.required_limits == if web_target {
        LimitsProfile::DownlevelWebGl2
    } else {
        LimitsProfile::Default
    }
}

/// What to ask of the GPU layer to bring up the context.
pub fn context_request(web_target: bool) -> (request: ContextRequest)
    ensures
        is_context_request(request, web_target),
{
    ContextRequest {
        backends: BackendSelection::Primary,
        probed_backends: BackendSelection::All,
        power_preference: PowerPreference::HighPerformance,
        force_fallback_adapter: false,
        compatible_surface: true,
        device_label: String::from_str("logical adapter interface"),
        requires_features: false,
        required_limits: if web_target {
            LimitsProfile::DownlevelWebGl2
        } else {
            LimitsProfile::Default
        },
    }
}

/// A graphics context as negotiated: the adapter that was chosen and the
/// configuration that was applied to the surface. The configuration's size is
/// the size the window had when the context was made.
#[derive(Debug)]
pub struct SimulationGraphcisInterface {
    pub adapter: AdapterDescriptor,
    pub surface_configuration: SurfaceConfiguration,
}

} // verus!
