use std::cell::RefCell;
use std::collections::HashMap;
use std::rc::Rc;

use monitor_config::cli::{
    get_brightness, get_capabilities, get_contrast, get_monitor, get_vcp, list_monitors, list_vcp,
    reset_defaults, run, save_settings, scan_vcp, set_brightness, set_contrast, set_vcp, Cli,
    Commands, Report,
};
use monitor_config::error::MonitorError;
use monitor_config::monitor::{
    enumerate_monitors, find_monitor, get_primary_monitor, keep_or_skip, monitor_infos,
    select_by_name, select_primary, BrightnessInfo, ContrastInfo, Monitor, MonitorInfo,
    PhysicalMonitor,
};
use monitor_config::native::{
    DisplayApi, LevelReply, MonitorHandle, OutputInfo, PhysicalEndpoint, VcpReply,
};
use monitor_config::vcp::catalog::{get_vcp_code_info, known_vcp_codes};
use monitor_config::vcp::{VcpCodeType, VcpFeatureResponse, VcpMonitor};

/// Everything the simulated system and its handles were asked to do.
#[derive(Default)]
struct Journal {
    bound: Vec<usize>,
    released: Vec<usize>,
    warnings: Vec<MonitorError>,
    calls: Vec<String>,
    buffers: Vec<Vec<u8>>,
}

/// How a simulated monitor answers.
#[derive(Clone, Default)]
struct Behaviour {
    brightness: Option<LevelReply>,
    contrast: Option<LevelReply>,
    takes_levels: bool,
    features: HashMap<u8, VcpReply>,
    takes_features: bool,
    capabilities_length: Option<u32>,
    capabilities: Option<Vec<u8>>,
    saves: bool,
    restores: bool,
    restores_color: bool,
}

struct StubHandle {
    raw: usize,
    behaviour: Behaviour,
    journal: Rc<RefCell<Journal>>,
}

impl StubHandle {
    fn note(&self, call: String) {
        self.journal.borrow_mut().calls.push(call);
    }
}

impl Drop for StubHandle {
    fn drop(&mut self) {
        self.journal.borrow_mut().released.push(self.raw);
    }
}

impl MonitorHandle for StubHandle {
    fn get_monitor_brightness(&self) -> Option<LevelReply> {
        self.note(format!("{}:GetMonitorBrightness", self.raw));
        self.behaviour.brightness
    }

    fn set_monitor_brightness(&self, level: u32) -> bool {
        self.note(format!("{}:SetMonitorBrightness({})", self.raw, level));
        self.behaviour.takes_levels
    }

    fn get_monitor_contrast(&self) -> Option<LevelReply> {
        self.note(format!("{}:GetMonitorContrast", self.raw));
        self.behaviour.contrast
    }

    fn set_monitor_contrast(&self, level: u32) -> bool {
        self.note(format!("{}:SetMonitorContrast({})", self.raw, level));
        self.behaviour.takes_levels
    }

    fn get_vcp_feature_and_reply(&self, vcp_code: u8) -> Option<VcpReply> {
        self.note(format!("{}:GetVCPFeature({})", self.raw, vcp_code));
        self.behaviour.features.get(&vcp_code).copied()
    }

    fn set_vcp_feature(&self, vcp_code: u8, value: u32) -> bool {
        self.note(format!("{}:SetVCPFeature({},{})", self.raw, vcp_code, value));
        self.behaviour.takes_features
    }

    fn get_capabilities_string_length(&self) -> Option<u32> {
        self.note(format!("{}:GetCapabilitiesStringLength", self.raw));
        self.behaviour.capabilities_length
    }

    fn capabilities_request_and_reply(&self, buffer: &mut Vec<u8>) -> bool {
        self.note(format!("{}:CapabilitiesRequest({})", self.raw, buffer.len()));
        self.journal.borrow_mut().buffers.push(buffer.clone());
        match &self.behaviour.capabilities {
            Some(bytes) => {
                buffer.clear();
                buffer.extend_from_slice(bytes);
                true
            }
            None => false,
        }
    }

    fn save_current_monitor_settings(&self) -> bool {
        self.note(format!("{}:SaveCurrentMonitorSettings", self.raw));
        self.behaviour.saves
    }

    fn restore_monitor_factory_defaults(&self) -> bool {
        self.note(format!("{}:RestoreMonitorFactoryDefaults", self.raw));
        self.behaviour.restores
    }

    fn restore_monitor_factory_color_defaults(&self) -> bool {
        self.note(format!("{}:RestoreMonitorFactoryColorDefaults", self.raw));
        self.behaviour.restores_color
    }
}

/// One simulated display output. `infos` holds the answers to the queries
/// for its information, one for each query; the last one is repeated.
struct StubOutput {
    id: usize,
    infos: RefCell<Vec<Option<u32>>>,
    endpoints: Option<Vec<(usize, &'static str)>>,
}

fn output(id: usize, flags: Option<u32>, endpoints: &[(usize, &'static str)]) -> StubOutput {
    StubOutput { id, infos: RefCell::new(vec![flags]), endpoints: Some(endpoints.to_vec()) }
}

struct StubSystem {
    outputs: Vec<StubOutput>,
    behaviour: Behaviour,
    journal: Rc<RefCell<Journal>>,
}

impl StubSystem {
    fn new(outputs: Vec<StubOutput>) -> StubSystem {
        StubSystem::with(outputs, Behaviour::default())
    }

    fn with(outputs: Vec<StubOutput>, behaviour: Behaviour) -> StubSystem {
        StubSystem { outputs, behaviour, journal: Rc::new(RefCell::new(Journal::default())) }
    }

    fn bound(&self) -> Vec<usize> {
        self.journal.borrow().bound.clone()
    }

    fn released(&self) -> Vec<usize> {
        self.journal.borrow().released.clone()
    }

    fn warnings(&self) -> Vec<MonitorError> {
        self.journal.borrow().warnings.clone()
    }

    fn calls(&self) -> Vec<String> {
        self.journal.borrow().calls.clone()
    }

    fn assert_every_bound_handle_released_once(&self) {
        let mut bound = self.bound();
        let mut released = self.released();
        bound.sort();
        released.sort();
        assert_eq!(bound, released);
    }
}

impl DisplayApi for StubSystem {
    type Handle = StubHandle;

    fn enumerate_outputs(&self) -> Vec<usize> {
        self.journal.borrow_mut().calls.push("EnumDisplayMonitors".to_string());
        self.outputs.iter().map(|output| output.id).collect()
    }

    fn get_monitor_info(&self, output: usize) -> Option<OutputInfo> {
        self.journal.borrow_mut().calls.push(format!("GetMonitorInfo({})", output));
        let found = self.outputs.iter().find(|candidate| candidate.id == output)?;
        let mut infos = found.infos.borrow_mut();
        let flags = if infos.len() > 1 { infos.remove(0) } else { infos[0] };
        flags.map(|flags| OutputInfo { flags })
    }

    fn get_physical_monitors(&self, output: usize) -> Option<Vec<PhysicalEndpoint>> {
        self.journal.borrow_mut().calls.push(format!("GetPhysicalMonitors({})", output));
        let found = self.outputs.iter().find(|candidate| candidate.id == output)?;
        let endpoints = found.endpoints.as_ref()?;
        Some(
            endpoints
                .iter()
                .map(|(handle, description)| PhysicalEndpoint {
                    handle: *handle,
                    description: description.to_string(),
                })
                .collect(),
        )
    }

    fn bind(&self, handle: usize) -> StubHandle {
        self.journal.borrow_mut().bound.push(handle);
        StubHandle { raw: handle, behaviour: self.behaviour.clone(), journal: self.journal.clone() }
    }

    fn warn(&self, failure: &MonitorError) {
        self.journal.borrow_mut().warnings.push(failure.clone());
    }
}

fn not_found(identifier: &str) -> MonitorError {
    MonitorError::MonitorNotFound(identifier.to_string())
}

fn unsupported(detail: &str) -> MonitorError {
    MonitorError::UnsupportedOperation(detail.to_string())
}

fn info(output: usize, friendly_name: &str, is_primary: bool) -> MonitorInfo {
    MonitorInfo {
        device_name: format!("DISPLAY_{:#x}", output),
        friendly_name: friendly_name.to_string(),
        instance_name: String::new(),
        is_primary,
    }
}

fn infos_of(monitors: &[PhysicalMonitor<StubHandle>]) -> Vec<MonitorInfo> {
    monitors.iter().map(|monitor| monitor.info().clone()).collect()
}

/// Two outputs: the primary one with one monitor, a second with two.
fn desk() -> Vec<StubOutput> {
    vec![
        output(0x10, Some(1), &[(100, "Dell U2720Q")]),
        output(0x20, Some(0), &[(200, "LG ULTRAFINE"), (201, "Generic PnP Monitor")]),
    ]
}

fn one_monitor(behaviour: Behaviour) -> StubSystem {
    StubSystem::with(vec![output(0x10, Some(1), &[(100, "Dell U2720Q")])], behaviour)
}

fn single(system: &StubSystem) -> PhysicalMonitor<StubHandle> {
    let mut monitors = enumerate_monitors(system).unwrap();
    assert_eq!(monitors.len(), 1);
    monitors.remove(0)
}

#[test]
fn enumeration_finds_every_endpoint_in_order() {
    let system = StubSystem::new(desk());
    let monitors = enumerate_monitors(&system).unwrap();
    assert_eq!(
        infos_of(&monitors),
        vec![
            info(0x10, "Dell U2720Q", true),
            info(0x20, "LG ULTRAFINE", false),
            info(0x20, "Generic PnP Monitor", false),
        ]
    );
    assert_eq!(system.bound(), vec![100, 200, 201]);
    assert_eq!(system.warnings(), Vec::new());
    assert_eq!(
        system.calls(),
        vec![
            "EnumDisplayMonitors",
            "GetPhysicalMonitors(16)",
            "GetMonitorInfo(16)",
            "GetPhysicalMonitors(32)",
            "GetMonitorInfo(32)",
            "GetMonitorInfo(32)",
        ]
    );
}

#[test]
fn enumeration_skips_an_endpoint_that_cannot_be_set_up() {
    let system = StubSystem::new(vec![
        output(1, Some(1), &[(100, "First")]),
        output(2, None, &[(200, "Second")]),
    ]);
    let monitors = enumerate_monitors(&system).unwrap();
    assert_eq!(monitors.len(), 1);
    assert_eq!(infos_of(&monitors), vec![info(1, "First", true)]);
    assert_eq!(system.warnings(), vec![unsupported("GetMonitorInfo failed")]);
    assert_eq!(system.bound(), vec![100]);
    drop(monitors);
    assert_eq!(system.released(), vec![100]);
}

#[test]
fn enumeration_goes_on_after_a_skipped_endpoint() {
    let system = StubSystem::new(vec![
        StubOutput {
            id: 1,
            infos: RefCell::new(vec![Some(0), None, Some(0)]),
            endpoints: Some(vec![(100, "A"), (101, "B"), (102, "C")]),
        },
        output(2, Some(1), &[(200, "D")]),
    ]);
    let monitors = enumerate_monitors(&system).unwrap();
    assert_eq!(
        infos_of(&monitors),
        vec![info(1, "A", false), info(1, "C", false), info(2, "D", true)]
    );
    assert_eq!(system.warnings().len(), 1);
    assert_eq!(system.bound(), vec![100, 102, 200]);
}

#[test]
fn enumeration_without_outputs_finds_nothing() {
    let system = StubSystem::new(Vec::new());
    assert_eq!(enumerate_monitors(&system).err(), Some(not_found("No monitors found")));
    assert_eq!(system.calls(), vec!["EnumDisplayMonitors"]);
    assert_eq!(system.bound(), Vec::new());
}

#[test]
fn enumeration_may_end_with_no_monitor() {
    let system = StubSystem::new(vec![
        output(1, None, &[(100, "A"), (101, "B")]),
        output(2, Some(1), &[]),
    ]);
    let monitors = enumerate_monitors(&system).unwrap();
    assert!(monitors.is_empty());
    assert_eq!(
        system.warnings(),
        vec![unsupported("GetMonitorInfo failed"), unsupported("GetMonitorInfo failed")]
    );
    assert_eq!(system.bound(), Vec::new());
    assert_eq!(system.released(), Vec::new());
}

#[test]
fn enumeration_fails_when_endpoints_cannot_be_listed() {
    let system = StubSystem::new(vec![
        output(1, Some(1), &[(100, "A"), (101, "B")]),
        StubOutput { id: 2, infos: RefCell::new(vec![Some(0)]), endpoints: None },
        output(3, Some(0), &[(300, "C")]),
    ]);
    assert_eq!(
        enumerate_monitors(&system).err(),
        Some(unsupported("GetPhysicalMonitorsFromHMONITOR failed"))
    );
    assert_eq!(system.bound(), vec![100, 101]);
    assert_eq!(system.released(), vec![100, 101]);
    assert!(!system.calls().contains(&"GetPhysicalMonitors(3)".to_string()));
    assert_eq!(system.warnings(), Vec::new());
}

#[test]
fn handles_are_released_once_when_the_monitors_go() {
    let system = StubSystem::new(desk());
    {
        let monitors = enumerate_monitors(&system).unwrap();
        assert_eq!(monitors.len(), 3);
        assert_eq!(system.released(), Vec::new());
    }
    assert_eq!(system.released(), vec![100, 200, 201]);
    system.assert_every_bound_handle_released_once();
}

#[test]
fn handles_are_released_once_on_every_path() {
    let system = StubSystem::new(desk());
    let _ = enumerate_monitors(&system);
    let _ = find_monitor(&system, "LG ULTRAFINE");
    let _ = find_monitor(&system, "nonexistent");
    let _ = get_primary_monitor(&system);
    let _ = list_monitors(&system);
    let _ = get_brightness(&system, None, true);
    let _ = scan_vcp(&system, Some("Generic PnP Monitor".to_string()), false);
    assert_eq!(system.bound().len(), 21);
    assert_eq!(system.released().len(), 21);

    let failing = StubSystem::new(vec![
        output(1, Some(0), &[(100, "A")]),
        output(2, None, &[(200, "B")]),
        StubOutput { id: 3, infos: RefCell::new(vec![Some(1)]), endpoints: None },
    ]);
    assert!(enumerate_monitors(&failing).is_err());
    assert!(find_monitor(&failing, "A").is_err());
    assert!(get_primary_monitor(&failing).is_err());
    assert_eq!(failing.bound(), vec![100, 100, 100]);
    assert_eq!(failing.released(), vec![100, 100, 100]);
    assert!(!failing.bound().contains(&200));
}

#[test]
fn a_handle_lives_as_long_as_its_monitor() {
    let system = StubSystem::new(desk());
    let monitor = find_monitor(&system, "LG ULTRAFINE").unwrap();
    assert_eq!(system.released(), vec![100, 201]);
    assert_eq!(monitor.handle().raw, 200);
    let moved = monitor;
    assert_eq!(system.released(), vec![100, 201]);
    drop(moved);
    assert_eq!(system.released(), vec![100, 201, 200]);
    system.assert_every_bound_handle_released_once();
}

#[test]
fn a_monitor_is_set_up_from_its_endpoint() {
    let system = StubSystem::new(vec![output(0xA0, Some(1), &[])]);
    let endpoint = PhysicalEndpoint { handle: 7, description: "Panel".to_string() };
    let monitor = PhysicalMonitor::new(&system, 0xA0, &endpoint).unwrap();
    assert_eq!(monitor.info(), &info(0xA0, "Panel", true));
    assert_eq!(monitor.info().device_name, "DISPLAY_0xa0");
    assert_eq!(monitor.handle().raw, 7);
    assert_eq!(system.bound(), vec![7]);
    assert_eq!(system.calls(), vec!["GetMonitorInfo(160)"]);
    drop(monitor);
    assert_eq!(system.released(), vec![7]);
}

#[test]
fn a_monitor_that_cannot_be_set_up_takes_no_handle() {
    let system = StubSystem::new(vec![output(0xA0, None, &[])]);
    let endpoint = PhysicalEndpoint { handle: 7, description: "Panel".to_string() };
    let failure = PhysicalMonitor::new(&system, 0xA0, &endpoint).err();
    assert_eq!(failure, Some(unsupported("GetMonitorInfo failed")));
    assert_eq!(system.bound(), Vec::new());
    assert_eq!(system.released(), Vec::new());
}

#[test]
fn the_native_handle_of_each_endpoint_is_the_one_bound() {
    let system = StubSystem::new(vec![
        output(1, Some(1), &[(0x51, "First")]),
        output(2, None, &[(0x52, "Second")]),
        output(3, Some(0), &[(0x53, "Third"), (0x54, "Fourth")]),
    ]);
    let monitors = enumerate_monitors(&system).unwrap();
    let handles: Vec<usize> = monitors.iter().map(|monitor| monitor.handle().raw).collect();
    assert_eq!(handles, vec![0x51, 0x53, 0x54]);
    assert_eq!(system.bound(), vec![0x51, 0x53, 0x54]);
    assert_eq!(monitors.len() + system.warnings().len(), 4);
}

#[test]
fn a_monitor_that_was_set_up_is_kept_behind_the_others() {
    let system = StubSystem::new(desk());
    let mut made = enumerate_monitors(&system).unwrap();
    let third = made.pop().unwrap();
    let second = made.pop().unwrap();
    let mut kept = made;
    assert_eq!(keep_or_skip(&mut kept, Ok(second)), None);
    assert_eq!(keep_or_skip(&mut kept, Ok(third)), None);
    let handles: Vec<usize> = kept.iter().map(|monitor| monitor.handle().raw).collect();
    assert_eq!(handles, vec![100, 200, 201]);
    assert_eq!(system.released(), Vec::new());
}

#[test]
fn a_monitor_that_was_not_set_up_is_left_out_and_reported() {
    let system = StubSystem::new(desk());
    let mut kept = enumerate_monitors(&system).unwrap();
    let failure = unsupported("GetMonitorInfo failed");
    assert_eq!(keep_or_skip(&mut kept, Err(failure.clone())), Some(failure));
    assert_eq!(kept.len(), 3);
    let mut none: Vec<PhysicalMonitor<StubHandle>> = Vec::new();
    assert_eq!(keep_or_skip(&mut none, Err(not_found("x"))), Some(not_found("x")));
    assert!(none.is_empty());
}

#[test]
fn what_is_known_of_the_monitors_is_copied_in_order() {
    let system = StubSystem::new(desk());
    let monitors = enumerate_monitors(&system).unwrap();
    assert_eq!(
        monitor_infos(&monitors),
        vec![
            info(0x10, "Dell U2720Q", true),
            info(0x20, "LG ULTRAFINE", false),
            info(0x20, "Generic PnP Monitor", false),
        ]
    );
    assert_eq!(monitors.len(), 3);
    assert_eq!(system.released(), Vec::new());
    assert_eq!(monitor_infos(&Vec::<PhysicalMonitor<StubHandle>>::new()), Vec::new());
}

#[test]
fn find_by_device_name() {
    let system = StubSystem::new(desk());
    let monitor = find_monitor(&system, "DISPLAY_0x10").unwrap();
    assert_eq!(monitor.info(), &info(0x10, "Dell U2720Q", true));
    assert_eq!(monitor.handle().raw, 100);
}

#[test]
fn find_by_friendly_name() {
    let system = StubSystem::new(desk());
    let monitor = find_monitor(&system, "Generic PnP Monitor").unwrap();
    assert_eq!(monitor.info(), &info(0x20, "Generic PnP Monitor", false));
    assert_eq!(monitor.handle().raw, 201);
}

#[test]
fn find_takes_the_first_of_several() {
    let system = StubSystem::new(desk());
    let monitor = find_monitor(&system, "DISPLAY_0x20").unwrap();
    assert_eq!(monitor.handle().raw, 200);
    let twins = StubSystem::new(vec![
        output(1, Some(0), &[(100, "Twin")]),
        output(2, Some(0), &[(200, "Twin")]),
    ]);
    assert_eq!(find_monitor(&twins, "Twin").unwrap().handle().raw, 100);
    let crossed = StubSystem::new(vec![
        output(1, Some(0), &[(100, "DISPLAY_0x2")]),
        output(2, Some(0), &[(200, "Other")]),
    ]);
    assert_eq!(find_monitor(&crossed, "DISPLAY_0x2").unwrap().handle().raw, 100);
}

#[test]
fn find_wants_the_name_letter_for_letter() {
    let system = StubSystem::new(desk());
    for name in ["dell u2720q", "Dell", "Dell U2720Q ", "DISPLAY_0X10", "DISPLAY_0x1", ""] {
        assert_eq!(find_monitor(&system, name).err(), Some(not_found(name)), "{name:?}");
    }
}

#[test]
fn find_of_an_unknown_name_fails() {
    let system = StubSystem::new(desk());
    assert_eq!(find_monitor(&system, "nonexistent").err(), Some(not_found("nonexistent")));
    system.assert_every_bound_handle_released_once();
    let small = StubSystem::new(vec![output(1, Some(1), &[(100, "Only")])]);
    assert_eq!(find_monitor(&small, "nonexistent").err(), Some(not_found("nonexistent")));
}

#[test]
fn find_passes_on_the_failure_of_the_enumeration() {
    let none = StubSystem::new(Vec::new());
    assert_eq!(find_monitor(&none, "Dell").err(), Some(not_found("No monitors found")));
    assert_eq!(get_primary_monitor(&none).err(), Some(not_found("No monitors found")));
}

#[test]
fn primary_monitor_is_the_first_primary_one() {
    let system = StubSystem::new(desk());
    let monitor = get_primary_monitor(&system).unwrap();
    assert_eq!(monitor.info(), &info(0x10, "Dell U2720Q", true));
    let later = StubSystem::new(vec![
        output(1, Some(0), &[(100, "A")]),
        output(2, Some(1), &[(200, "B"), (201, "C")]),
        output(3, Some(1), &[(300, "D")]),
    ]);
    let monitor = get_primary_monitor(&later).unwrap();
    assert_eq!(monitor.handle().raw, 200);
    drop(monitor);
    later.assert_every_bound_handle_released_once();
}

#[test]
fn primary_monitor_may_be_missing() {
    let system = StubSystem::new(vec![
        output(1, Some(0), &[(100, "A")]),
        output(2, Some(2), &[(200, "B")]),
    ]);
    assert_eq!(get_primary_monitor(&system).err(), Some(not_found("Primary monitor")));
    system.assert_every_bound_handle_released_once();
}

#[test]
fn selection_among_given_monitors() {
    let system = StubSystem::new(desk());
    let monitors = enumerate_monitors(&system).unwrap();
    assert_eq!(select_by_name(monitors, "LG ULTRAFINE").unwrap().handle().raw, 200);
    let monitors = enumerate_monitors(&system).unwrap();
    assert_eq!(select_primary(monitors).unwrap().handle().raw, 100);
    let monitors = enumerate_monitors(&system).unwrap();
    assert_eq!(select_by_name(monitors, "nonexistent").err(), Some(not_found("nonexistent")));
    assert_eq!(select_by_name(Vec::<PhysicalMonitor<StubHandle>>::new(), "x").err(), Some(not_found("x")));
    assert_eq!(
        select_primary(Vec::<PhysicalMonitor<StubHandle>>::new()).err(),
        Some(not_found("Primary monitor"))
    );
    system.assert_every_bound_handle_released_once();
}

#[test]
fn brightness_and_contrast_are_read_as_reported() {
    let system = one_monitor(Behaviour {
        brightness: Some(LevelReply { minimum: 0, current: 40, maximum: 100 }),
        contrast: Some(LevelReply { minimum: 5, current: 50, maximum: 95 }),
        ..Behaviour::default()
    });
    let monitor = single(&system);
    assert_eq!(monitor.get_brightness(), Ok(BrightnessInfo { minimum: 0, current: 40, maximum: 100 }));
    assert_eq!(monitor.get_contrast(), Ok(ContrastInfo { minimum: 5, current: 50, maximum: 95 }));
}

#[test]
fn brightness_and_contrast_fail_fast() {
    let system = one_monitor(Behaviour::default());
    let monitor = single(&system);
    assert_eq!(monitor.get_brightness(), Err(unsupported("GetMonitorBrightness failed")));
    assert_eq!(monitor.set_brightness(10), Err(unsupported("SetMonitorBrightness failed")));
    assert_eq!(monitor.get_contrast(), Err(unsupported("GetMonitorContrast failed")));
    assert_eq!(monitor.set_contrast(10), Err(unsupported("SetMonitorContrast failed")));
    assert_eq!(
        system.calls()[3..],
        [
            "100:GetMonitorBrightness",
            "100:SetMonitorBrightness(10)",
            "100:GetMonitorContrast",
            "100:SetMonitorContrast(10)",
        ]
    );
}

#[test]
fn levels_are_set_as_given() {
    let system = one_monitor(Behaviour { takes_levels: true, ..Behaviour::default() });
    let monitor = single(&system);
    assert_eq!(monitor.set_brightness(70), Ok(()));
    assert_eq!(monitor.set_contrast(4_000_000_000), Ok(()));
    assert_eq!(
        system.calls()[3..],
        ["100:SetMonitorBrightness(70)", "100:SetMonitorContrast(4000000000)"]
    );
}

fn with_brightness_feature() -> Behaviour {
    let mut features = HashMap::new();
    features.insert(0x10, VcpReply { code_type: 0, current_value: 50, maximum_value: 100 });
    Behaviour { features, ..Behaviour::default() }
}

#[test]
fn feature_query_reports_what_the_transport_says() {
    let system = one_monitor(with_brightness_feature());
    let monitor = single(&system);
    let vcp = VcpMonitor::new(monitor.handle());
    assert_eq!(
        vcp.get_vcp_feature(0x10),
        Ok(VcpFeatureResponse {
            vcp_code: 0x10,
            current_value: 50,
            maximum_value: 100,
            code_type: VcpCodeType::SetParameter,
        })
    );
    assert_eq!(system.calls()[3..], ["100:GetVCPFeature(16)"]);
}

#[test]
fn feature_query_that_fails_is_not_repeated() {
    let system = one_monitor(with_brightness_feature());
    let monitor = single(&system);
    let vcp = VcpMonitor::new(monitor.handle());
    assert_eq!(vcp.get_vcp_feature(0x12), Err(MonitorError::VcpNotSupported));
    assert_eq!(system.calls()[3..], ["100:GetVCPFeature(18)"]);
}

#[test]
fn feature_is_written_without_a_look_at_its_range() {
    let system = one_monitor(Behaviour { takes_features: true, ..with_brightness_feature() });
    let monitor = single(&system);
    let vcp = VcpMonitor::new(monitor.handle());
    assert_eq!(vcp.set_vcp_feature(0x10, 101), Ok(()));
    assert_eq!(vcp.set_vcp_feature(0x10, u32::MAX), Ok(()));
    assert_eq!(
        system.calls()[3..],
        ["100:SetVCPFeature(16,101)", "100:SetVCPFeature(16,4294967295)"]
    );
}

#[test]
fn feature_write_that_fails() {
    let system = one_monitor(with_brightness_feature());
    let monitor = single(&system);
    let vcp = VcpMonitor::new(monitor.handle());
    assert_eq!(vcp.set_vcp_feature(0x10, 50), Err(unsupported("SetVCPFeature failed")));
    assert_eq!(system.calls()[3..], ["100:SetVCPFeature(16,50)"]);
}

#[test]
fn scan_asks_for_every_code_once_and_in_order() {
    let mut features = HashMap::new();
    features.insert(0xD6, VcpReply { code_type: 0, current_value: 1, maximum_value: 5 });
    features.insert(0x10, VcpReply { code_type: 0, current_value: 50, maximum_value: 100 });
    features.insert(0x04, VcpReply { code_type: 1, current_value: 0, maximum_value: 1 });
    let system = one_monitor(Behaviour { features, ..Behaviour::default() });
    let monitor = single(&system);
    let found = VcpMonitor::new(monitor.handle()).scan_vcp_features();
    assert_eq!(
        found,
        vec![
            VcpFeatureResponse {
                vcp_code: 0x04,
                current_value: 0,
                maximum_value: 1,
                code_type: VcpCodeType::Momentary,
            },
            VcpFeatureResponse {
                vcp_code: 0x10,
                current_value: 50,
                maximum_value: 100,
                code_type: VcpCodeType::SetParameter,
            },
            VcpFeatureResponse {
                vcp_code: 0xD6,
                current_value: 1,
                maximum_value: 5,
                code_type: VcpCodeType::SetParameter,
            },
        ]
    );
    let asked: Vec<String> = (0..256).map(|code| format!("100:GetVCPFeature({})", code)).collect();
    assert_eq!(system.calls()[3..], asked[..]);
}

#[test]
fn scan_of_a_silent_monitor_is_empty() {
    let system = one_monitor(Behaviour::default());
    let monitor = single(&system);
    assert_eq!(VcpMonitor::new(monitor.handle()).scan_vcp_features(), Vec::new());
    assert_eq!(system.calls().len(), 3 + 256);
}

#[test]
fn scan_of_a_monitor_with_every_feature() {
    let features: HashMap<u8, VcpReply> = (0u8..=255)
        .map(|code| (code, VcpReply { code_type: 0, current_value: code as u32, maximum_value: 255 }))
        .collect();
    let system = one_monitor(Behaviour { features, ..Behaviour::default() });
    let monitor = single(&system);
    let found = VcpMonitor::new(monitor.handle()).scan_vcp_features();
    assert_eq!(found.len(), 256);
    for pair in found.windows(2) {
        assert!(pair[0].vcp_code < pair[1].vcp_code);
    }
    assert_eq!(found[0].vcp_code, 0);
    assert_eq!(found[255].vcp_code, 255);
}

#[test]
fn capabilities_are_asked_for_in_two_phases() {
    let system = one_monitor(Behaviour {
        capabilities_length: Some(10),
        capabilities: Some(b"ABC\0\0\0\0\0\0\0".to_vec()),
        ..Behaviour::default()
    });
    let monitor = single(&system);
    let vcp = VcpMonitor::new(monitor.handle());
    assert_eq!(vcp.get_capabilities(), Ok("ABC".to_string()));
    assert_eq!(
        system.calls()[3..],
        ["100:GetCapabilitiesStringLength", "100:CapabilitiesRequest(10)"]
    );
    assert_eq!(system.journal.borrow().buffers, vec![vec![0u8; 10]]);
}

#[test]
fn capabilities_are_not_parsed() {
    let text = "(prot(monitor)type(LCD)model(U2720Q)cmds(01 02 03)vcp(10 12 14(04 05) D6(01 04)))";
    let mut bytes = text.as_bytes().to_vec();
    bytes.push(0);
    let system = one_monitor(Behaviour {
        capabilities_length: Some(bytes.len() as u32),
        capabilities: Some(bytes),
        ..Behaviour::default()
    });
    let monitor = single(&system);
    assert_eq!(VcpMonitor::new(monitor.handle()).get_capabilities(), Ok(text.to_string()));
}

#[test]
fn capabilities_fail_when_the_length_is_not_to_be_had() {
    let system = one_monitor(Behaviour {
        capabilities_length: None,
        capabilities: Some(b"ABC\0".to_vec()),
        ..Behaviour::default()
    });
    let monitor = single(&system);
    assert_eq!(
        VcpMonitor::new(monitor.handle()).get_capabilities(),
        Err(unsupported("GetCapabilitiesStringLength failed"))
    );
    assert_eq!(system.calls()[3..], ["100:GetCapabilitiesStringLength"]);
}

#[test]
fn capabilities_fail_when_the_string_is_not_to_be_had() {
    let system = one_monitor(Behaviour {
        capabilities_length: Some(4),
        capabilities: None,
        ..Behaviour::default()
    });
    let monitor = single(&system);
    assert_eq!(
        VcpMonitor::new(monitor.handle()).get_capabilities(),
        Err(unsupported("CapabilitiesRequestAndCapabilitiesReply failed"))
    );
    assert_eq!(
        system.calls()[3..],
        ["100:GetCapabilitiesStringLength", "100:CapabilitiesRequest(4)"]
    );
}

#[test]
fn settings_are_saved_and_restored() {
    let system = one_monitor(Behaviour {
        saves: true,
        restores: true,
        restores_color: true,
        ..Behaviour::default()
    });
    let monitor = single(&system);
    let vcp = VcpMonitor::new(monitor.handle());
    assert_eq!(vcp.save_settings(), Ok(()));
    assert_eq!(vcp.restore_factory_defaults(), Ok(()));
    assert_eq!(vcp.restore_factory_color_defaults(), Ok(()));
    assert_eq!(
        system.calls()[3..],
        [
            "100:SaveCurrentMonitorSettings",
            "100:RestoreMonitorFactoryDefaults",
            "100:RestoreMonitorFactoryColorDefaults",
        ]
    );
}

#[test]
fn settings_that_cannot_be_saved_or_restored() {
    let system = one_monitor(Behaviour::default());
    let monitor = single(&system);
    let vcp = VcpMonitor::new(monitor.handle());
    assert_eq!(vcp.save_settings(), Err(unsupported("SaveCurrentMonitorSettings failed")));
    assert_eq!(
        vcp.restore_factory_defaults(),
        Err(unsupported("RestoreMonitorFactoryDefaults failed"))
    );
    assert_eq!(
        vcp.restore_factory_color_defaults(),
        Err(unsupported("RestoreMonitorFactoryColorDefaults failed"))
    );
}

#[test]
fn a_command_means_the_primary_monitor_unless_it_names_one() {
    let system = StubSystem::new(desk());
    assert_eq!(get_monitor(&system, None, false).unwrap().handle().raw, 100);
    assert_eq!(get_monitor(&system, None, true).unwrap().handle().raw, 100);
    let named = Some("LG ULTRAFINE".to_string());
    assert_eq!(get_monitor(&system, named.clone(), false).unwrap().handle().raw, 200);
    assert_eq!(get_monitor(&system, named, true).unwrap().handle().raw, 100);
    let unknown = Some("nonexistent".to_string());
    assert_eq!(get_monitor(&system, unknown.clone(), false).err(), Some(not_found("nonexistent")));
    assert_eq!(get_monitor(&system, unknown, true).unwrap().handle().raw, 100);
}

fn lively() -> Behaviour {
    let mut features = HashMap::new();
    features.insert(0x10, VcpReply { code_type: 0, current_value: 50, maximum_value: 100 });
    features.insert(0xE9, VcpReply { code_type: 1, current_value: 2, maximum_value: 3 });
    Behaviour {
        brightness: Some(LevelReply { minimum: 0, current: 40, maximum: 100 }),
        contrast: Some(LevelReply { minimum: 0, current: 60, maximum: 100 }),
        takes_levels: true,
        features,
        takes_features: true,
        capabilities_length: Some(6),
        capabilities: Some(b"(vcp)\0".to_vec()),
        saves: true,
        restores: true,
        restores_color: true,
    }
}

fn carry_out(system: &StubSystem, command: Commands) -> Result<Report, MonitorError> {
    run(system, Cli { command })
}

#[test]
fn commands_report_what_they_did() {
    let system = StubSystem::with(desk(), lively());
    assert_eq!(
        carry_out(&system, Commands::List { json: false }),
        Ok(Report::Monitors(vec![
            info(0x10, "Dell U2720Q", true),
            info(0x20, "LG ULTRAFINE", false),
            info(0x20, "Generic PnP Monitor", false),
        ]))
    );
    assert_eq!(
        carry_out(&system, Commands::GetBrightness { device: None, primary: true, json: true }),
        Ok(Report::Brightness(BrightnessInfo { minimum: 0, current: 40, maximum: 100 }))
    );
    assert_eq!(
        carry_out(&system, Commands::SetBrightness { value: 80, device: None, primary: false }),
        Ok(Report::BrightnessSet(80))
    );
    assert_eq!(
        carry_out(&system, Commands::GetContrast { device: None, primary: false, json: false }),
        Ok(Report::Contrast(ContrastInfo { minimum: 0, current: 60, maximum: 100 }))
    );
    assert_eq!(
        carry_out(&system, Commands::SetContrast { value: 55, device: None, primary: true }),
        Ok(Report::ContrastSet(55))
    );
    assert_eq!(
        carry_out(&system, Commands::GetVcp { code: 0x10, device: None, primary: true, json: false }),
        Ok(Report::VcpFeature {
            response: VcpFeatureResponse {
                vcp_code: 0x10,
                current_value: 50,
                maximum_value: 100,
                code_type: VcpCodeType::SetParameter,
            },
            info: get_vcp_code_info(0x10),
        })
    );
    assert_eq!(
        carry_out(&system, Commands::SetVcp { code: 0x10, value: 30, device: None, primary: true }),
        Ok(Report::VcpSet { code: 0x10, value: 30 })
    );
    assert_eq!(
        carry_out(&system, Commands::ListVcp { json: true }),
        Ok(Report::VcpCodes(known_vcp_codes()))
    );
    assert_eq!(
        carry_out(&system, Commands::ScanVcp { device: None, primary: true, json: false }),
        Ok(Report::VcpScan(vec![
            VcpFeatureResponse {
                vcp_code: 0x10,
                current_value: 50,
                maximum_value: 100,
                code_type: VcpCodeType::SetParameter,
            },
            VcpFeatureResponse {
                vcp_code: 0xE9,
                current_value: 2,
                maximum_value: 3,
                code_type: VcpCodeType::Momentary,
            },
        ]))
    );
    assert_eq!(
        carry_out(&system, Commands::GetCapabilities { device: None, primary: true }),
        Ok(Report::Capabilities("(vcp)".to_string()))
    );
    assert_eq!(
        carry_out(&system, Commands::SaveSettings { device: None, primary: true }),
        Ok(Report::SettingsSaved)
    );
    assert_eq!(
        carry_out(
            &system,
            Commands::ResetDefaults { device: None, primary: true, color_only: false }
        ),
        Ok(Report::DefaultsRestored { color_only: false })
    );
    assert_eq!(
        carry_out(&system, Commands::ResetDefaults { device: None, primary: true, color_only: true }),
        Ok(Report::DefaultsRestored { color_only: true })
    );
    system.assert_every_bound_handle_released_once();
}

#[test]
fn commands_go_to_the_monitor_they_name() {
    let system = StubSystem::with(desk(), lively());
    let device = Some("Generic PnP Monitor".to_string());
    assert_eq!(
        carry_out(&system, Commands::SetVcp { code: 0x60, value: 15, device, primary: false }),
        Ok(Report::VcpSet { code: 0x60, value: 15 })
    );
    assert_eq!(system.calls().last().unwrap(), "201:SetVCPFeature(96,15)");
    let device = Some("nonexistent".to_string());
    assert_eq!(
        carry_out(&system, Commands::SaveSettings { device, primary: false }),
        Err(not_found("nonexistent"))
    );
    assert_eq!(system.calls().last().unwrap(), "GetMonitorInfo(32)");
}

#[test]
fn reset_asks_for_the_defaults_it_was_told() {
    let system = StubSystem::with(desk(), Behaviour { restores: true, ..Behaviour::default() });
    assert_eq!(reset_defaults(&system, None, true, false), Ok(Report::DefaultsRestored { color_only: false }));
    assert_eq!(system.calls().last().unwrap(), "100:RestoreMonitorFactoryDefaults");
    assert_eq!(
        reset_defaults(&system, None, true, true),
        Err(unsupported("RestoreMonitorFactoryColorDefaults failed"))
    );
    assert_eq!(system.calls().last().unwrap(), "100:RestoreMonitorFactoryColorDefaults");
}

#[test]
fn commands_pass_on_the_failure_of_their_operation() {
    let system = StubSystem::new(desk());
    assert_eq!(get_brightness(&system, None, true), Err(unsupported("GetMonitorBrightness failed")));
    assert_eq!(set_brightness(&system, 5, None, true), Err(unsupported("SetMonitorBrightness failed")));
    assert_eq!(get_contrast(&system, None, true), Err(unsupported("GetMonitorContrast failed")));
    assert_eq!(set_contrast(&system, 5, None, true), Err(unsupported("SetMonitorContrast failed")));
    assert_eq!(get_vcp(&system, 0x10, None, true), Err(MonitorError::VcpNotSupported));
    assert_eq!(set_vcp(&system, 0x10, 5, None, true), Err(unsupported("SetVCPFeature failed")));
    assert_eq!(scan_vcp(&system, None, true), Ok(Report::VcpScan(Vec::new())));
    assert_eq!(
        get_capabilities(&system, None, true),
        Err(unsupported("GetCapabilitiesStringLength failed"))
    );
    assert_eq!(save_settings(&system, None, true), Err(unsupported("SaveCurrentMonitorSettings failed")));
    system.assert_every_bound_handle_released_once();
}

#[test]
fn commands_pass_on_the_failure_to_find_monitors() {
    let system = StubSystem::new(Vec::new());
    assert_eq!(list_monitors(&system), Err(not_found("No monitors found")));
    assert_eq!(get_brightness(&system, None, false), Err(not_found("No monitors found")));
    assert_eq!(
        scan_vcp(&system, Some("Dell".to_string()), false),
        Err(not_found("No monitors found"))
    );
}

#[test]
fn an_undocumented_code_is_reported_without_catalog_entry() {
    let mut features = HashMap::new();
    features.insert(0x07, VcpReply { code_type: 0, current_value: 1, maximum_value: 1 });
    let system = StubSystem::with(desk(), Behaviour { features, ..Behaviour::default() });
    match get_vcp(&system, 0x07, None, true) {
        Ok(Report::VcpFeature { response, info }) => {
            assert_eq!(response.vcp_code, 0x07);
            assert_eq!(info, None);
        }
        other => panic!("{other:?}"),
    }
}

#[test]
fn a_vendor_code_is_reported_without_catalog_entry() {
    let mut features = HashMap::new();
    features.insert(0xE9, VcpReply { code_type: 1, current_value: 2, maximum_value: 3 });
    let system = StubSystem::with(desk(), Behaviour { features, ..Behaviour::default() });
    assert_eq!(
        get_vcp(&system, 0xE9, None, true),
        Ok(Report::VcpFeature {
            response: VcpFeatureResponse {
                vcp_code: 0xE9,
                current_value: 2,
                maximum_value: 3,
                code_type: VcpCodeType::Momentary,
            },
            info: None,
        })
    );
}

#[test]
fn the_catalog_needs_no_monitor() {
    assert_eq!(list_vcp(), Report::VcpCodes(known_vcp_codes()));
    let system = StubSystem::new(Vec::new());
    assert_eq!(
        carry_out(&system, Commands::ListVcp { json: false }),
        Ok(Report::VcpCodes(known_vcp_codes()))
    );
    assert_eq!(system.calls(), Vec::<String>::new());
}
