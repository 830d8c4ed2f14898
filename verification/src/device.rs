//! What is asked of the platform when the graphics device is brought up:
//! the factory, the adapter, the device with its immediate context, and in
//! debug builds the validation layer.

use vstd::prelude::*;

verus! {

/// How the platform ranks the adapters it enumerates.
#[derive(Clone, Copy, Debug, PartialEq, Eq, Structural)]
pub enum GpuPreference {
    Unspecified,
    MinimumPower,
    HighPerformance,
}

/// The kind of driver a device is created on.
#[derive(Clone, Copy, Debug, PartialEq, Eq, Structural)]
pub enum DriverType {
    /// The driver of the adapter that is handed over.
    Unknown,
    Hardware,
    Warp,
    Reference,
}

/// A capability level of the device.
#[derive(Clone, Copy, Debug, PartialEq, Eq, Structural)]
pub enum FeatureLevel {
    Level11_0,
    Level11_1,
}

/// How grave a message of the validation layer is.
#[derive(Clone, Copy, Debug, PartialEq, Eq, Structural)]
pub enum Severity {
    Corruption,
    Error,
    Warning,
    Info,
    Message,
}

/// How the factory that enumerates adapters is created.
#[derive(Clone, Copy, Debug, PartialEq, Eq, Structural)]
pub struct FactoryDesc {
    pub debug: bool,
}

/// Which adapter is taken.
#[derive(Clone, Copy, Debug, PartialEq, Eq, Structural)]
pub struct AdapterQuery {
    /// The rank under `preference`, best first.
    pub index: u32,
    pub preference: GpuPreference,
}

/// How the device and its immediate context are created.
#[derive(Clone, Copy, Debug, PartialEq, Eq, Structural)]
pub struct DeviceDesc {
    pub driver_type: DriverType,
    /// Attach the validation layer.
    pub debug_layer: bool,
    /// Support surfaces whose channels are ordered blue, green, red, alpha.
    pub bgra_support: bool,
    /// The one level that is asked for; there is no fallback.
    pub feature_level: FeatureLevel,
}

/// The factory reports to the debugger in debug builds only.
pub open spec fn factory_desc_for(debug: bool) -> FactoryDesc {
    FactoryDesc { debug }
}

/// The adapter with the highest performance.
pub open spec fn adapter_query_spec() -> AdapterQuery {
    AdapterQuery { index: 0, preference: GpuPreference::HighPerformance }
}

/// A device of level 11.1 on the chosen adapter, with the validation layer
/// in debug builds.
pub open spec fn device_desc_for(debug: bool) -> DeviceDesc {
    DeviceDesc {
        driver_type: DriverType::Unknown,
        debug_layer: debug,
        bgra_support: true,
        feature_level: FeatureLevel::Level11_1,
    }
}

/// Whether the validation layer stops the program at a message of this
/// severity.
pub open spec fn breaks_on(severity: Severity) -> bool {
    severity == Severity::Corruption || severity == Severity::Error || severity
        == Severity::Warning
}

/// How the factory is created in a debug or a release build.
pub fn factory_desc(debug: bool) -> (desc: FactoryDesc)
    ensures
        desc == factory_desc_for(debug),
{
    FactoryDesc { debug }
}

/// The query for the adapter the renderer runs on.
pub fn adapter_query() -> (query: AdapterQuery)
    ensures
        query == adapter_query_spec(),
{
    AdapterQuery { index: 0, preference: GpuPreference::HighPerformance }
}

/// How the device is created in a debug or a release build.
pub fn device_desc(debug: bool) -> (desc: DeviceDesc)
    ensures
        desc == device_desc_for(debug),
{
    DeviceDesc {
        driver_type: DriverType::Unknown,
        debug_layer: debug,
        bgra_support: true,
        feature_level: FeatureLevel::Level11_1,
    }
}

} // verus!
