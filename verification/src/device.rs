//! How the GPU is asked for: the instance, the adapter and the device.

use vstd::prelude::*;

verus! {

/// The graphics interfaces that an instance may use.
#[derive(Clone, Copy, Debug, PartialEq, Eq, Structural)]
pub struct Backends {
    pub vulkan: bool,
    pub gl: bool,
    pub metal: bool,
    pub dx12: bool,
    pub dx11: bool,
    pub browser_webgpu: bool,
}

/// Which adapter is preferred where there are several.
#[derive(Clone, Copy, Debug, PartialEq, Eq, Structural)]
pub enum PowerPreference {
    /// Power is not considered.
    Indifferent,
    LowPower,
    HighPerformance,
}

/// The limits that a device has to meet.
#[derive(Clone, Copy, Debug, PartialEq, Eq, Structural)]
pub enum Limits {
    /// What nearly every desktop and mobile device meets.
    Default,
    /// What a device behind WebGL 2 meets.
    DownlevelWebgl2Defaults,
}

/// Optional abilities asked of a device.
#[derive(Clone, Copy, Debug, PartialEq, Eq, Structural)]
pub enum Features {
    /// None.
    Empty,
}

/// The requests that lead to a device: which interfaces the instance may
/// use, which adapter is wanted and what the device has to offer.
#[derive(Clone, Copy, Debug, PartialEq, Eq, Structural)]
pub struct DeviceRequest {
    pub backends: Backends,
    pub power_preference: PowerPreference,
    pub force_fallback_adapter: bool,
    /// Whether the adapter has to be able to present to the window's surface.
    pub compatible_surface: bool,
    pub features: Features,
    pub limits: Limits,
}

impl Backends {
    /// Every interface.
    pub open spec fn spec_all() -> Backends {
        Backends {
            vulkan: true,
            gl: true,
            metal: true,
            dx12: true,
            dx11: true,
            browser_webgpu: true,
        }
    }
}

impl DeviceRequest {
    /// The request of the renderer: any interface, any adapter that can
    /// present to the surface, no optional abilities, and the limits that
    /// suit the target.
    pub open spec fn spec_for_target(webgl2: bool) -> DeviceRequest {
        DeviceRequest {
            backends: Backends::spec_all(),
            power_preference: PowerPreference::Indifferent,
            force_fallback_adapter: false,
            compatible_surface: true,
            features: Features::Empty,
            limits: if webgl2 {
                Limits::DownlevelWebgl2Defaults
            } else {
                Limits::Default
            },
        }
    }

    /// The request of the renderer. `webgl2` says whether the program runs
    /// in a browser, where devices meet fewer limits.
    pub fn for_target(webgl2: bool) -> (request: DeviceRequest)
        ensures
            request == DeviceRequest::spec_for_target(webgl2),
    {
        DeviceRequest {
            backends: Backends {
                vulkan: true,
                gl: true,
                metal: true,
                dx12: true,
                dx11: true,
                browser_webgpu: true,
            },
            power_preference: PowerPreference::Indifferent,
            force_fallback_adapter: false,
            compatible_surface: true,
            features: Features::Empty,
            limits: if webgl2 {
                Limits::DownlevelWebgl2Defaults
            } else {
                Limits::Default
            },
        }
    }
}

} // verus!
