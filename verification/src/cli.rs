//! The commands of the front end, carried out against the library: which
//! monitor a command means, which operation it asks for, and what there is
//! to report afterwards. Reading the command line and writing the report
//! are left to the program around it.

use crate::error::{status_outcome, ErrorModel, MonitorError};
use crate::monitor::{
    brightness_outcome, contrast_outcome, enumerate_monitors, enumeration_outcome, find_monitor,
    found_by_name, found_primary, get_primary_monitor, has_name, is_first_named,
    is_first_primary, lemma_enumeration_fails, monitor_infos, monitor_outcome, monitors_outcome,
    BrightnessInfo, ContrastInfo, Monitor, MonitorInfo, MonitorInfoModel, OutputReport,
    PhysicalMonitor,
};
use crate::native::{DisplayApi, LevelReply, VcpReply};
use crate::text::{
    decimal_error_text, radix_error_text, u8_from_decimal, u8_from_str_radix, unsigned_value,
    writes_u8,
};
use crate::vcp::catalog::{
    catalog_below, catalog_entry, get_vcp_code_info, known_vcp_codes, VcpFeatureInfo,
};
use crate::vcp::{
    ascending_codes, capabilities_outcome, feature_outcome, scan_result, VcpFeatureResponse,
    VcpMonitor,
};
use vstd::prelude::*;

verus! {

/// Whether a text starts with the two characters `0x`.
pub open spec fn has_hex_prefix(text: Seq<char>) -> bool {
    text.len() >= 2 && text[0] == '0' && text[1] == 'x'
}

/// The part of a VCP code argument that holds the number, and the radix it
/// is written in: hexadecimal after a `0x` prefix, decimal without one.
pub open spec fn code_digits(text: Seq<char>) -> (Seq<char>, u32) {
    if has_hex_prefix(text) {
        (text.skip(2), 16)
    } else {
        (text, 10)
    }
}

/// Reads a VCP code given on the command line, such as `0x10` or `16`.
///
/// Succeeds exactly when the digits write a number from 0 to 255, and then
/// returns it. Otherwise the error is the text the standard parser reports
/// for those digits.
pub fn parse_hex(s: &str) -> (r: Result<u8, String>)
    ensures
        r is Ok <==> writes_u8(code_digits(s@).0, code_digits(s@).1),
        r matches Ok(code) ==> unsigned_value(code_digits(s@).0, code_digits(s@).1) == Some(
            code as nat,
        ),
        r matches Err(message) ==> message@ == if has_hex_prefix(s@) {
            radix_error_text(s@.skip(2), 16)
        } else {
            decimal_error_text(s@)
        },
{
    let length = s.unicode_len();
    if length >= 2 && s.get_char(0) == '0' && s.get_char(1) == 'x' {
        let stripped = s.substring_char(2, length);
        assert(stripped@ =~= s@.skip(2));
        u8_from_str_radix(stripped, 16)
    } else {
        u8_from_decimal(s)
    }
}

/// One command of the front end. `device` names a monitor, `primary` asks
/// for the primary one, and `json` only says how to write the report.
#[derive(Debug, Clone, PartialEq, Eq)]
pub enum Commands {
    List { json: bool },
    GetBrightness { device: Option<String>, primary: bool, json: bool },
    SetBrightness { value: u32, device: Option<String>, primary: bool },
    GetContrast { device: Option<String>, primary: bool, json: bool },
    SetContrast { value: u32, device: Option<String>, primary: bool },
    GetVcp { code: u8, device: Option<String>, primary: bool, json: bool },
    SetVcp { code: u8, value: u32, device: Option<String>, primary: bool },
    ListVcp { json: bool },
    ScanVcp { device: Option<String>, primary: bool, json: bool },
    GetCapabilities { device: Option<String>, primary: bool },
    SaveSettings { device: Option<String>, primary: bool },
    ResetDefaults { device: Option<String>, primary: bool, color_only: bool },
}

/// A parsed command line.
#[derive(Debug, Clone, PartialEq, Eq)]
pub struct Cli {
    pub command: Commands,
}

/// What a command has to report once it is done.
#[derive(Debug, Clone, PartialEq, Eq)]
pub enum Report {
    Monitors(Vec<MonitorInfo>),
    Brightness(BrightnessInfo),
    BrightnessSet(u32),
    Contrast(ContrastInfo),
    ContrastSet(u32),
    VcpFeature { response: VcpFeatureResponse, info: Option<VcpFeatureInfo> },
    VcpSet { code: u8, value: u32 },
    VcpCodes(Vec<VcpFeatureInfo>),
    VcpScan(Vec<VcpFeatureResponse>),
    Capabilities(String),
    SettingsSaved,
    DefaultsRestored { color_only: bool },
}

/// Mathematical value of a [`Report`].
pub enum ReportModel {
    Monitors(Seq<MonitorInfoModel>),
    Brightness(BrightnessInfo),
    BrightnessSet(u32),
    Contrast(ContrastInfo),
    ContrastSet(u32),
    VcpFeature { response: VcpFeatureResponse, info: Option<VcpFeatureInfo> },
    VcpSet { code: u8, value: u32 },
    VcpCodes(Seq<VcpFeatureInfo>),
    VcpScan(Seq<VcpFeatureResponse>),
    Capabilities(Seq<char>),
    SettingsSaved,
    DefaultsRestored { color_only: bool },
}

impl View for Report {
    type V = ReportModel;

    open spec fn view(&self) -> ReportModel {
        match self {
            Report::Monitors(found) => ReportModel::Monitors(
                found@.map_values(|info: MonitorInfo| info@),
            ),
            Report::Brightness(level) => ReportModel::Brightness(*level),
            Report::BrightnessSet(value) => ReportModel::BrightnessSet(*value),
            Report::Contrast(level) => ReportModel::Contrast(*level),
            Report::ContrastSet(value) => ReportModel::ContrastSet(*value),
            Report::VcpFeature { response, info } => ReportModel::VcpFeature {
                response: *response,
                info: *info,
            },
            Report::VcpSet { code, value } => ReportModel::VcpSet { code: *code, value: *value },
            Report::VcpCodes(entries) => ReportModel::VcpCodes(entries@),
            Report::VcpScan(features) => ReportModel::VcpScan(features@),
            Report::Capabilities(text) => ReportModel::Capabilities(text@),
            Report::SettingsSaved => ReportModel::SettingsSaved,
            Report::DefaultsRestored { color_only } => ReportModel::DefaultsRestored {
                color_only: *color_only,
            },
        }
    }
}

/// A report or the failure of its command, as mathematical values.
pub open spec fn report_outcome(r: Result<Report, MonitorError>) -> Result<
    ReportModel,
    ErrorModel,
> {
    match r {
        Ok(report) => Ok(report@),
        Err(e) => Err(e@),
    }
}

/// The report on an operation: the operation's failure, or the report that
/// `wrap` makes of what it yields.
pub open spec fn reported<T>(
    operation: Result<T, ErrorModel>,
    wrap: spec_fn(T) -> ReportModel,
) -> Result<ReportModel, ErrorModel> {
    match operation {
        Ok(value) => Ok(wrap(value)),
        Err(e) => Err(e),
    }
}

/// The name a command gives for its monitor, if it gives one.
pub open spec fn name_of(device: Option<String>) -> Option<Seq<char>> {
    match device {
        Some(name) => Some(name@),
        None => None,
    }
}

/// Whether `r` is what the choice of a command's monitor yields after an
/// enumeration that ended in `listing`: the primary monitor when the
/// command asks for it or names none, else the monitor it names.
pub open spec fn chosen(
    device: Option<Seq<char>>,
    primary: bool,
    listing: Result<Seq<MonitorInfoModel>, ErrorModel>,
    r: Result<MonitorInfoModel, ErrorModel>,
) -> bool {
    if !primary && device is Some {
        found_by_name(listing, device->0, r)
    } else {
        found_primary(listing, r)
    }
}

/// Whether some course of an enumeration lets the choice of a command's
/// monitor end in `r`.
pub open spec fn can_choose(
    device: Option<Seq<char>>,
    primary: bool,
    r: Result<MonitorInfoModel, ErrorModel>,
) -> bool {
    exists|reports: Seq<OutputReport>| chosen(device, primary, enumeration_outcome(reports), r)
}

/// The monitor chosen for a command is the one the command means, and the
/// choice fails only as the enumeration fails or for want of such a monitor.
pub proof fn lemma_can_choose(
    device: Option<Seq<char>>,
    primary: bool,
    r: Result<MonitorInfoModel, ErrorModel>,
)
    requires
        can_choose(device, primary, r),
    ensures
        r matches Ok(info) ==> if !primary && device is Some {
            has_name(info, device->0)
        } else {
            info.is_primary
        },
        r matches Err(e) ==> {
            ||| e == ErrorModel::MonitorNotFound("No monitors found"@)
            ||| e == ErrorModel::UnsupportedOperation("GetPhysicalMonitorsFromHMONITOR failed"@)
            ||| e == ErrorModel::MonitorNotFound(
                if !primary && device is Some {
                    device->0
                } else {
                    "Primary monitor"@
                },
            )
        },
{
    let reports = choose|reports: Seq<OutputReport>|
        chosen(device, primary, enumeration_outcome(reports), r);
    lemma_enumeration_fails(reports);
    if enumeration_outcome(reports) is Ok && r is Ok {
        let found = enumeration_outcome(reports)->Ok_0;
        let info = r->Ok_0;
        if !primary && device is Some {
            let at = choose|at: int| is_first_named(found, device->0, at) && found[at] == info;
            assert(has_name(found[at], device->0));
        } else {
            let at = choose|at: int| is_first_primary(found, at) && found[at] == info;
            assert(found[at].is_primary);
        }
    }
}

/// Whether `r` is what an operation on a command's monitor yields: the
/// failure to get the monitor, or else, with the monitor there, something
/// the operation itself can end in, which is what `possible` says of `r`.
pub open spec fn on_monitor(
    device: Option<Seq<char>>,
    primary: bool,
    r: Result<ReportModel, ErrorModel>,
    possible: bool,
) -> bool {
    ||| exists|e: ErrorModel| #[trigger]
        can_choose(device, primary, Err(e)) && r == Err::<ReportModel, ErrorModel>(e)
    ||| possible && exists|info: MonitorInfoModel| #[trigger] can_choose(device, primary, Ok(info))
}

/// Gets the monitor a command means.
pub fn get_monitor<A: DisplayApi>(api: &A, device: Option<String>, primary: bool) -> (r: Result<
    PhysicalMonitor<A::Handle>,
    MonitorError,
>)
    ensures
        can_choose(name_of(device), primary, monitor_outcome(r)),
{
    if primary {
        get_primary_monitor(api)
    } else {
        match device {
            Some(device_name) => find_monitor(api, device_name.as_str()),
            None => get_primary_monitor(api),
        }
    }
}

/// Whether `r` is a possible end of the command that lists the monitors.
pub open spec fn monitors_listed(r: Result<ReportModel, ErrorModel>) -> bool {
    exists|reports: Seq<OutputReport>|
        r == reported(
            #[trigger] enumeration_outcome(reports),
            |found: Seq<MonitorInfoModel>| ReportModel::Monitors(found),
        )
}

/// Whether `r` is a possible end of the command that reads the brightness.
pub open spec fn brightness_read(
    device: Option<Seq<char>>,
    primary: bool,
    r: Result<ReportModel, ErrorModel>,
) -> bool {
    on_monitor(
        device,
        primary,
        r,
        exists|reply: Option<LevelReply>|
            r == reported(
                #[trigger] brightness_outcome(reply),
                |level: BrightnessInfo| ReportModel::Brightness(level),
            ),
    )
}

/// Whether `r` is a possible end of the command that sets the brightness.
pub open spec fn brightness_written(
    value: u32,
    device: Option<Seq<char>>,
    primary: bool,
    r: Result<ReportModel, ErrorModel>,
) -> bool {
    on_monitor(
        device,
        primary,
        r,
        exists|succeeded: bool|
            r == reported(
                #[trigger] status_outcome(succeeded, "SetMonitorBrightness failed"@),
                |done: ()| ReportModel::BrightnessSet(value),
            ),
    )
}

/// Whether `r` is a possible end of the command that reads the contrast.
pub open spec fn contrast_read(
    device: Option<Seq<char>>,
    primary: bool,
    r: Result<ReportModel, ErrorModel>,
) -> bool {
    on_monitor(
        device,
        primary,
        r,
        exists|reply: Option<LevelReply>|
            r == reported(
                #[trigger] contrast_outcome(reply),
                |level: ContrastInfo| ReportModel::Contrast(level),
            ),
    )
}

/// Whether `r` is a possible end of the command that sets the contrast.
pub open spec fn contrast_written(
    value: u32,
    device: Option<Seq<char>>,
    primary: bool,
    r: Result<ReportModel, ErrorModel>,
) -> bool {
    on_monitor(
        device,
        primary,
        r,
        exists|succeeded: bool|
            r == reported(
                #[trigger] status_outcome(succeeded, "SetMonitorContrast failed"@),
                |done: ()| ReportModel::ContrastSet(value),
            ),
    )
}

/// Whether `r` is a possible end of the command that reads a VCP feature.
/// The report carries what the catalog holds of the code.
pub open spec fn feature_read(
    code: u8,
    device: Option<Seq<char>>,
    primary: bool,
    r: Result<ReportModel, ErrorModel>,
) -> bool {
    on_monitor(
        device,
        primary,
        r,
        exists|reply: Option<VcpReply>|
            r == reported(
                #[trigger] feature_outcome(code, reply),
                |response: VcpFeatureResponse|
                    ReportModel::VcpFeature { response, info: catalog_entry(code) },
            ),
    )
}

/// Whether `r` is a possible end of the command that writes a VCP feature.
pub open spec fn feature_written(
    code: u8,
    value: u32,
    device: Option<Seq<char>>,
    primary: bool,
    r: Result<ReportModel, ErrorModel>,
) -> bool {
    on_monitor(
        device,
        primary,
        r,
        exists|succeeded: bool|
            r == reported(
                #[trigger] status_outcome(succeeded, "SetVCPFeature failed"@),
                |done: ()| ReportModel::VcpSet { code, value },
            ),
    )
}

/// Whether `r` is a possible end of the command that scans a monitor.
pub open spec fn features_scanned(
    device: Option<Seq<char>>,
    primary: bool,
    r: Result<ReportModel, ErrorModel>,
) -> bool {
    on_monitor(
        device,
        primary,
        r,
        exists|replies: Seq<Option<VcpReply>>|
            replies.len() == 256 && r == Ok::<ReportModel, ErrorModel>(
                ReportModel::VcpScan(#[trigger] scan_result(replies)),
            ),
    )
}

/// Whether `r` is a possible end of the command that reads the capability
/// string.
pub open spec fn capabilities_read(
    device: Option<Seq<char>>,
    primary: bool,
    r: Result<ReportModel, ErrorModel>,
) -> bool {
    on_monitor(
        device,
        primary,
        r,
        exists|length: Option<u32>, filled: bool, buffer: Seq<u8>|
            r == reported(
                #[trigger] capabilities_outcome(length, filled, buffer),
                |text: Seq<char>| ReportModel::Capabilities(text),
            ),
    )
}

/// Whether `r` is a possible end of the command that saves the settings.
pub open spec fn settings_saved(
    device: Option<Seq<char>>,
    primary: bool,
    r: Result<ReportModel, ErrorModel>,
) -> bool {
    on_monitor(
        device,
        primary,
        r,
        exists|succeeded: bool|
            r == reported(
                #[trigger] status_outcome(succeeded, "SaveCurrentMonitorSettings failed"@),
                |done: ()| ReportModel::SettingsSaved,
            ),
    )
}

/// What the transport call behind a reset is called in its failure.
pub open spec fn reset_failure(color_only: bool) -> Seq<char> {
    if color_only {
        "RestoreMonitorFactoryColorDefaults failed"@
    } else {
        "RestoreMonitorFactoryDefaults failed"@
    }
}

/// Whether `r` is a possible end of the command that resets a monitor.
pub open spec fn defaults_restored(
    device: Option<Seq<char>>,
    primary: bool,
    color_only: bool,
    r: Result<ReportModel, ErrorModel>,
) -> bool {
    on_monitor(
        device,
        primary,
        r,
        exists|succeeded: bool|
            r == reported(
                #[trigger] status_outcome(succeeded, reset_failure(color_only)),
                |done: ()| ReportModel::DefaultsRestored { color_only },
            ),
    )
}

/// Lists the monitors with what is known of each. Their handles are
/// released before this returns.
pub fn list_monitors<A: DisplayApi>(api: &A) -> (r: Result<Report, MonitorError>)
    ensures
        monitors_listed(report_outcome(r)),
{
    let listing = enumerate_monitors(api);
    let ghost reports = choose|reports: Seq<OutputReport>|
        monitors_outcome(listing) == enumeration_outcome(reports);
    let monitors = match listing {
        Ok(monitors) => monitors,
        Err(e) => {
            return Err(e);
        },
    };
    let found = monitor_infos(&monitors);
    Ok(Report::Monitors(found))
}

/// Reads the brightness of the monitor the command means.
pub fn get_brightness<A: DisplayApi>(api: &A, device: Option<String>, primary: bool) -> (r: Result<
    Report,
    MonitorError,
>)
    ensures
        brightness_read(name_of(device), primary, report_outcome(r)),
{
    let mon = match get_monitor(api, device, primary) {
        Ok(mon) => mon,
        Err(e) => {
            return Err(e);
        },
    };
    match mon.get_brightness() {
        Ok(level) => Ok(Report::Brightness(level)),
        Err(e) => Err(e),
    }
}

/// Sets the brightness of the monitor the command means.
pub fn set_brightness<A: DisplayApi>(
    api: &A,
    value: u32,
    device: Option<String>,
    primary: bool,
) -> (r: Result<Report, MonitorError>)
    ensures
        brightness_written(value, name_of(device), primary, report_outcome(r)),
{
    let mon = match get_monitor(api, device, primary) {
        Ok(mon) => mon,
        Err(e) => {
            return Err(e);
        },
    };
    match mon.set_brightness(value) {
        Ok(()) => Ok(Report::BrightnessSet(value)),
        Err(e) => Err(e),
    }
}

/// Reads the contrast of the monitor the command means.
pub fn get_contrast<A: DisplayApi>(api: &A, device: Option<String>, primary: bool) -> (r: Result<
    Report,
    MonitorError,
>)
    ensures
        contrast_read(name_of(device), primary, report_outcome(r)),
{
    let mon = match get_monitor(api, device, primary) {
        Ok(mon) => mon,
        Err(e) => {
            return Err(e);
        },
    };
    match mon.get_contrast() {
        Ok(level) => Ok(Report::Contrast(level)),
        Err(e) => Err(e),
    }
}

/// Sets the contrast of the monitor the command means.
pub fn set_contrast<A: DisplayApi>(
    api: &A,
    value: u32,
    device: Option<String>,
    primary: bool,
) -> (r: Result<Report, MonitorError>)
    ensures
        contrast_written(value, name_of(device), primary, report_outcome(r)),
{
    let mon = match get_monitor(api, device, primary) {
        Ok(mon) => mon,
        Err(e) => {
            return Err(e);
        },
    };
    match mon.set_contrast(value) {
        Ok(()) => Ok(Report::ContrastSet(value)),
        Err(e) => Err(e),
    }
}

/// Reads one VCP feature of the monitor the command means, and looks its
/// code up in the catalog.
pub fn get_vcp<A: DisplayApi>(api: &A, code: u8, device: Option<String>, primary: bool) -> (r:
    Result<Report, MonitorError>)
    ensures
        feature_read(code, name_of(device), primary, report_outcome(r)),
{
    let mon = match get_monitor(api, device, primary) {
        Ok(mon) => mon,
        Err(e) => {
            return Err(e);
        },
    };
    let vcp_mon = VcpMonitor::new(mon.handle());
    match vcp_mon.get_vcp_feature(code) {
        Ok(response) => Ok(Report::VcpFeature { response, info: get_vcp_code_info(code) }),
        Err(e) => Err(e),
    }
}

/// Writes one VCP feature of the monitor the command means.
pub fn set_vcp<A: DisplayApi>(
    api: &A,
    code: u8,
    value: u32,
    device: Option<String>,
    primary: bool,
) -> (r: Result<Report, MonitorError>)
    ensures
        feature_written(code, value, name_of(device), primary, report_outcome(r)),
{
    let mon = match get_monitor(api, device, primary) {
        Ok(mon) => mon,
        Err(e) => {
            return Err(e);
        },
    };
    let vcp_mon = VcpMonitor::new(mon.handle());
    match vcp_mon.set_vcp_feature(code, value) {
        Ok(()) => Ok(Report::VcpSet { code, value }),
        Err(e) => Err(e),
    }
}

/// Lists the catalog of documented VCP codes. Needs no monitor and cannot
/// fail.
pub fn list_vcp() -> (report: Report)
    ensures
        report@ == ReportModel::VcpCodes(catalog_below(256)),
{
    Report::VcpCodes(known_vcp_codes())
}

/// Scans the monitor the command means for the VCP features it supports.
pub fn scan_vcp<A: DisplayApi>(api: &A, device: Option<String>, primary: bool) -> (r: Result<
    Report,
    MonitorError,
>)
    ensures
        features_scanned(name_of(device), primary, report_outcome(r)),
        r matches Ok(Report::VcpScan(features)) ==> ascending_codes(features@) && features.len()
            <= 256,
{
    let mon = match get_monitor(api, device, primary) {
        Ok(mon) => mon,
        Err(e) => {
            return Err(e);
        },
    };
    let vcp_mon = VcpMonitor::new(mon.handle());
    Ok(Report::VcpScan(vcp_mon.scan_vcp_features()))
}

/// Reads the capability string of the monitor the command means.
pub fn get_capabilities<A: DisplayApi>(api: &A, device: Option<String>, primary: bool) -> (r:
    Result<Report, MonitorError>)
    ensures
        capabilities_read(name_of(device), primary, report_outcome(r)),
{
    let mon = match get_monitor(api, device, primary) {
        Ok(mon) => mon,
        Err(e) => {
            return Err(e);
        },
    };
    let vcp_mon = VcpMonitor::new(mon.handle());
    match vcp_mon.get_capabilities() {
        Ok(text) => Ok(Report::Capabilities(text)),
        Err(e) => Err(e),
    }
}

/// Has the monitor the command means keep its current settings.
pub fn save_settings<A: DisplayApi>(api: &A, device: Option<String>, primary: bool) -> (r: Result<
    Report,
    MonitorError,
>)
    ensures
        settings_saved(name_of(device), primary, report_outcome(r)),
{
    let mon = match get_monitor(api, device, primary) {
        Ok(mon) => mon,
        Err(e) => {
            return Err(e);
        },
    };
    let vcp_mon = VcpMonitor::new(mon.handle());
    match vcp_mon.save_settings() {
        Ok(()) => Ok(Report::SettingsSaved),
        Err(e) => Err(e),
    }
}

/// Resets the monitor the command means to its factory settings: all of
/// them, or only those for color.
pub fn reset_defaults<A: DisplayApi>(
    api: &A,
    device: Option<String>,
    primary: bool,
    color_only: bool,
) -> (r: Result<Report, MonitorError>)
    ensures
        defaults_restored(name_of(device), primary, color_only, report_outcome(r)),
{
    let mon = match get_monitor(api, device, primary) {
        Ok(mon) => mon,
        Err(e) => {
            return Err(e);
        },
    };
    let vcp_mon = VcpMonitor::new(mon.handle());
    let done = if color_only {
        vcp_mon.restore_factory_color_defaults()
    } else {
        vcp_mon.restore_factory_defaults()
    };
    match done {
        Ok(()) => Ok(Report::DefaultsRestored { color_only }),
        Err(e) => Err(e),
    }
}

/// Whether `r` is a possible end of a command.
pub open spec fn carried_out(command: Commands, r: Result<ReportModel, ErrorModel>) -> bool {
    match command {
        Commands::List { .. } => monitors_listed(r),
        Commands::GetBrightness { device, primary, .. } => brightness_read(
            name_of(device),
            primary,
            r,
        ),
        Commands::SetBrightness { value, device, primary } => brightness_written(
            value,
            name_of(device),
            primary,
            r,
        ),
        Commands::GetContrast { device, primary, .. } => contrast_read(name_of(device), primary, r),
        Commands::SetContrast { value, device, primary } => contrast_written(
            value,
            name_of(device),
            primary,
            r,
        ),
        Commands::GetVcp { code, device, primary, .. } => feature_read(
            code,
            name_of(device),
            primary,
            r,
        ),
        Commands::SetVcp { code, value, device, primary } => feature_written(
            code,
            value,
            name_of(device),
            primary,
            r,
        ),
        Commands::ListVcp { .. } => r == Ok::<ReportModel, ErrorModel>(
            ReportModel::VcpCodes(catalog_below(256)),
        ),
        Commands::ScanVcp { device, primary, .. } => features_scanned(name_of(device), primary, r),
        Commands::GetCapabilities { device, primary } => capabilities_read(
            name_of(device),
            primary,
            r,
        ),
        Commands::SaveSettings { device, primary } => settings_saved(name_of(device), primary, r),
        Commands::ResetDefaults { device, primary, color_only } => defaults_restored(
            name_of(device),
            primary,
            color_only,
            r,
        ),
    }
}

/// Carries out a parsed command line against the display system and says
/// what there is to report.
pub fn run<A: DisplayApi>(api: &A, cli: Cli) -> (r: Result<Report, MonitorError>)
    ensures
        carried_out(cli.command, report_outcome(r)),
{
    match cli.command {
        Commands::List { json } => list_monitors(api),
        Commands::GetBrightness { device, primary, json } => get_brightness(api, device, primary),
        Commands::SetBrightness { value, device, primary } => set_brightness(
            api,
            value,
            device,
            primary,
        ),
        Commands::GetContrast { device, primary, json } => get_contrast(api, device, primary),
        Commands::SetContrast { value, device, primary } => set_contrast(
            api,
            value,
            device,
            primary,
        ),
        Commands::GetVcp { code, device, primary, json } => get_vcp(api, code, device, primary),
        Commands::SetVcp { code, value, device, primary } => set_vcp(
            api,
            code,
            value,
            device,
            primary,
        ),
        Commands::ListVcp { json } => Ok(list_vcp()),
        Commands::ScanVcp { device, primary, json } => scan_vcp(api, device, primary),
        Commands::GetCapabilities { device, primary } => get_capabilities(api, device, primary),
        Commands::SaveSettings { device, primary } => save_settings(api, device, primary),
        Commands::ResetDefaults { device, primary, color_only } => reset_defaults(
            api,
            device,
            primary,
            color_only,
        ),
    }
}


} // verus!
