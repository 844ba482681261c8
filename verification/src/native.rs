use crate::error::MonitorError;
use vstd::prelude::*;

verus! {

/// What the operating system tells about one display output.
#[derive(Debug, Clone, Copy, PartialEq, Eq)]
pub struct OutputInfo {
    /// Geometry flags of the output; bit 0 marks the primary output.
    pub flags: u32,
}

/// One physical monitor endpoint of a display output, as the operating
/// system lists it: the native handle, not yet owned by anyone, and the
/// endpoint's description.
#[derive(Debug, Clone, PartialEq, Eq)]
pub struct PhysicalEndpoint {
    pub handle: usize,
    pub description: String,
}

/// Answer to a brightness or contrast query.
#[derive(Debug, Clone, Copy, PartialEq, Eq)]
pub struct LevelReply {
    pub minimum: u32,
    pub current: u32,
    pub maximum: u32,
}

/// Answer to a VCP feature query.
#[derive(Debug, Clone, Copy, PartialEq, Eq)]
pub struct VcpReply {
    /// Type discriminator: zero for a set-parameter feature.
    pub code_type: u32,
    pub current_value: u32,
    pub maximum_value: u32,
}

/// An owned native monitor-control handle with the DDC/CI primitives the
/// operating system offers on it.
///
/// Every call is one blocking transport call. A query answers `None`, and a
/// command `false`, when the transport reports failure. An implementation
/// releases the native handle when the value is dropped, and must not hand
/// out copies of it.
pub trait MonitorHandle {
    fn get_monitor_brightness(&self) -> Option<LevelReply>;

    fn set_monitor_brightness(&self, level: u32) -> bool;

    fn get_monitor_contrast(&self) -> Option<LevelReply>;

    fn set_monitor_contrast(&self, level: u32) -> bool;

    fn get_vcp_feature_and_reply(&self, vcp_code: u8) -> Option<VcpReply>;

    fn set_vcp_feature(&self, vcp_code: u8, value: u32) -> bool;

    fn get_capabilities_string_length(&self) -> Option<u32>;

    /// Asks the monitor to write its capability string into `buffer`.
    fn capabilities_request_and_reply(&self, buffer: &mut Vec<u8>) -> bool;

    fn save_current_monitor_settings(&self) -> bool;

    fn restore_monitor_factory_defaults(&self) -> bool;

    fn restore_monitor_factory_color_defaults(&self) -> bool;
}

/// The display topology of the operating system.
pub trait DisplayApi {
    type Handle: MonitorHandle;

    /// The active display outputs, in the order the system reports them.
    fn enumerate_outputs(&self) -> Vec<usize>;

    /// Geometry and flags of one output, or `None` when the system cannot
    /// supply them.
    fn get_monitor_info(&self, output: usize) -> Option<OutputInfo>;

    /// The physical endpoints behind one output, or `None` when the query
    /// fails.
    fn get_physical_monitors(&self, output: usize) -> Option<Vec<PhysicalEndpoint>>;

    /// Takes ownership of a listed endpoint's native handle.
    fn bind(&self, handle: usize) -> Self::Handle;

    /// Records that an endpoint was skipped, and why.
    fn warn(&self, failure: &MonitorError);
}

} // verus!
