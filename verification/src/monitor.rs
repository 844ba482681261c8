//! Physical monitors: how they are found, what is known of them, and who
//! owns their native handles.

use crate::error::{outcome, status_outcome, ErrorModel, MonitorError};
use crate::native::{DisplayApi, LevelReply, MonitorHandle, OutputInfo, PhysicalEndpoint};
use crate::text::{lower_hex, to_lower_hex};
use vstd::prelude::*;

verus! {

/// Brightness of a monitor, with the range the monitor reports for it.
#[derive(Debug, Clone, Copy, PartialEq, Eq, Structural)]
pub struct BrightnessInfo {
    pub minimum: u32,
    pub current: u32,
    pub maximum: u32,
}

/// Contrast of a monitor, with the range the monitor reports for it.
#[derive(Debug, Clone, Copy, PartialEq, Eq, Structural)]
pub struct ContrastInfo {
    pub minimum: u32,
    pub current: u32,
    pub maximum: u32,
}

/// What is known of a monitor besides its handle.
#[derive(Debug, Clone, PartialEq, Eq)]
pub struct MonitorInfo {
    pub device_name: String,
    pub friendly_name: String,
    pub instance_name: String,
    pub is_primary: bool,
}

/// Mathematical value of a [`MonitorInfo`].
pub struct MonitorInfoModel {
    pub device_name: Seq<char>,
    pub friendly_name: Seq<char>,
    pub instance_name: Seq<char>,
    pub is_primary: bool,
}

impl View for MonitorInfo {
    type V = MonitorInfoModel;

    open spec fn view(&self) -> MonitorInfoModel {
        MonitorInfoModel {
            device_name: self.device_name@,
            friendly_name: self.friendly_name@,
            instance_name: self.instance_name@,
            is_primary: self.is_primary,
        }
    }
}

/// What a brightness query yields for each answer of the transport.
pub open spec fn brightness_outcome(reply: Option<LevelReply>) -> Result<
    BrightnessInfo,
    ErrorModel,
> {
    match reply {
        Some(level) => Ok(
            BrightnessInfo {
                minimum: level.minimum,
                current: level.current,
                maximum: level.maximum,
            },
        ),
        None => Err(ErrorModel::UnsupportedOperation("GetMonitorBrightness failed"@)),
    }
}

/// What a contrast query yields for each answer of the transport.
pub open spec fn contrast_outcome(reply: Option<LevelReply>) -> Result<ContrastInfo, ErrorModel> {
    match reply {
        Some(level) => Ok(
            ContrastInfo {
                minimum: level.minimum,
                current: level.current,
                maximum: level.maximum,
            },
        ),
        None => Err(ErrorModel::UnsupportedOperation("GetMonitorContrast failed"@)),
    }
}

impl BrightnessInfo {
    /// Interprets the transport's answer to a brightness query. The three
    /// values are passed on as the monitor gave them.
    pub fn from_reply(reply: Option<LevelReply>) -> (r: Result<BrightnessInfo, MonitorError>)
        ensures
            outcome(r) == brightness_outcome(reply),
    {
        match reply {
            Some(level) => Ok(
                BrightnessInfo {
                    minimum: level.minimum,
                    current: level.current,
                    maximum: level.maximum,
                },
            ),
            None => Err(
                MonitorError::UnsupportedOperation("GetMonitorBrightness failed".to_string()),
            ),
        }
    }
}

impl ContrastInfo {
    /// Interprets the transport's answer to a contrast query. The three
    /// values are passed on as the monitor gave them.
    pub fn from_reply(reply: Option<LevelReply>) -> (r: Result<ContrastInfo, MonitorError>)
        ensures
            outcome(r) == contrast_outcome(reply),
    {
        match reply {
            Some(level) => Ok(
                ContrastInfo {
                    minimum: level.minimum,
                    current: level.current,
                    maximum: level.maximum,
                },
            ),
            None => Err(
                MonitorError::UnsupportedOperation("GetMonitorContrast failed".to_string()),
            ),
        }
    }
}

/// The device identifier of a display output: `DISPLAY_0x` and the output's
/// number in hexadecimal.
pub open spec fn device_name_of(output: usize) -> Seq<char> {
    "DISPLAY_0x"@ + lower_hex(output as nat)
}

/// Whether an output's geometry flags mark it as the primary one.
pub open spec fn is_primary_output(info: OutputInfo) -> bool {
    (info.flags & 1) != 0
}

/// What is known of the monitor behind an endpoint of `output`, given the
/// endpoint's description and the output's information.
pub open spec fn described(
    output: usize,
    description: Seq<char>,
    info: OutputInfo,
) -> MonitorInfoModel {
    MonitorInfoModel {
        device_name: device_name_of(output),
        friendly_name: description,
        instance_name: Seq::empty(),
        is_primary: is_primary_output(info),
    }
}

/// What setting an endpoint up yields for each answer to the query for its
/// output's information.
pub open spec fn construction_outcome(
    output: usize,
    description: Seq<char>,
    info: Option<OutputInfo>,
) -> Result<MonitorInfoModel, ErrorModel> {
    match info {
        Some(info) => Ok(described(output, description, info)),
        None => Err(ErrorModel::UnsupportedOperation("GetMonitorInfo failed"@)),
    }
}

impl MonitorInfo {
    /// Puts together what is known of the monitor behind an endpoint of
    /// `output`.
    pub fn for_endpoint(output: usize, description: &str, info: OutputInfo) -> (r: MonitorInfo)
        ensures
            r@ == described(output, description@, info),
    {
        let mut device_name = "DISPLAY_0x".to_string();
        let digits = to_lower_hex(output);
        device_name.append(digits.as_str());
        MonitorInfo {
            device_name,
            friendly_name: description.to_string(),
            instance_name: String::new(),
            is_primary: (info.flags & 1) != 0,
        }
    }
}

/// Decides how the monitor behind an endpoint of `output` is set up, given
/// the answer to the query for the output's information: with the
/// endpoint's own native handle and what `described` says of it, or not at
/// all when the information is not to be had.
pub fn endpoint_plan(output: usize, endpoint: &PhysicalEndpoint, info: Option<OutputInfo>) -> (r:
    Result<(usize, MonitorInfo), MonitorError>)
    ensures
        match r {
            Ok(plan) => info matches Some(given) && plan.0 == endpoint.handle && plan.1@
                == described(output, endpoint.description@, given),
            Err(e) => info is None && e@ == ErrorModel::UnsupportedOperation(
                "GetMonitorInfo failed"@,
            ),
        },
{
    match info {
        Some(given) => {
            let known = MonitorInfo::for_endpoint(output, endpoint.description.as_str(), given);
            Ok((endpoint.handle, known))
        },
        None => Err(MonitorError::UnsupportedOperation("GetMonitorInfo failed".to_string())),
    }
}

/// A monitor whose brightness and contrast can be read and set.
pub trait Monitor {
    fn get_brightness(&self) -> Result<BrightnessInfo, MonitorError>;

    fn set_brightness(&self, level: u32) -> Result<(), MonitorError>;

    fn get_contrast(&self) -> Result<ContrastInfo, MonitorError>;

    fn set_contrast(&self, level: u32) -> Result<(), MonitorError>;

    fn info(&self) -> &MonitorInfo;
}

/// One physical monitor: its native handle, owned by this value alone, and
/// what is known of it.
///
/// The handle cannot be copied out or replaced; it is released when the
/// monitor is dropped, on whatever path that happens.
pub struct PhysicalMonitor<H: MonitorHandle> {
    handle: H,
    info: MonitorInfo,
}

/// Mathematical value of a [`PhysicalMonitor`]: its native handle and what
/// is known of it.
pub struct PhysicalMonitorModel<H> {
    pub handle: H,
    pub info: MonitorInfoModel,
}

impl<H: MonitorHandle> View for PhysicalMonitor<H> {
    type V = PhysicalMonitorModel<H>;

    closed spec fn view(&self) -> PhysicalMonitorModel<H> {
        PhysicalMonitorModel { handle: self.handle, info: self.info@ }
    }
}

/// A monitor or the failure to set one up, as mathematical values.
pub open spec fn monitor_outcome<H: MonitorHandle>(
    r: Result<PhysicalMonitor<H>, MonitorError>,
) -> Result<MonitorInfoModel, ErrorModel> {
    match r {
        Ok(monitor) => Ok(monitor@.info),
        Err(e) => Err(e@),
    }
}

impl<H: MonitorHandle> PhysicalMonitor<H> {
    /// Sets up the monitor behind one endpoint of `output`. Asks for the
    /// output's information first; only when that is there does the
    /// monitor take the endpoint's handle into its ownership.
    pub fn new<A: DisplayApi<Handle = H>>(
        api: &A,
        output: usize,
        endpoint: &PhysicalEndpoint,
    ) -> (r: Result<Self, MonitorError>)
        ensures
            exists|info: Option<OutputInfo>|
                monitor_outcome(r) == construction_outcome(output, endpoint.description@, info),
    {
        let reply = api.get_monitor_info(output);
        let r = match endpoint_plan(output, endpoint, reply) {
            Ok((native, info)) => {
                let handle = api.bind(native);
                Ok(PhysicalMonitor { handle, info })
            },
            Err(e) => Err(e),
        };
        assert(monitor_outcome::<H>(r) == construction_outcome(
            output,
            endpoint.description@,
            reply,
        ));
        r
    }

    /// Lends the native handle, for issuing calls on it. The loan ends
    /// before the monitor does.
    pub fn handle(&self) -> (handle: &H)
        ensures
            *handle == self@.handle,
    {
        &self.handle
    }
}

impl<H: MonitorHandle> Monitor for PhysicalMonitor<H> {
    fn get_brightness(&self) -> (r: Result<BrightnessInfo, MonitorError>)
        ensures
            exists|reply: Option<LevelReply>| outcome(r) == brightness_outcome(reply),
    {
        let reply = self.handle.get_monitor_brightness();
        BrightnessInfo::from_reply(reply)
    }

    fn set_brightness(&self, level: u32) -> (r: Result<(), MonitorError>)
        ensures
            exists|succeeded: bool|
                outcome(r) == status_outcome(succeeded, "SetMonitorBrightness failed"@),
    {
        let succeeded = self.handle.set_monitor_brightness(level);
        MonitorError::check_status(succeeded, "SetMonitorBrightness failed")
    }

    fn get_contrast(&self) -> (r: Result<ContrastInfo, MonitorError>)
        ensures
            exists|reply: Option<LevelReply>| outcome(r) == contrast_outcome(reply),
    {
        let reply = self.handle.get_monitor_contrast();
        ContrastInfo::from_reply(reply)
    }

    fn set_contrast(&self, level: u32) -> (r: Result<(), MonitorError>)
        ensures
            exists|succeeded: bool|
                outcome(r) == status_outcome(succeeded, "SetMonitorContrast failed"@),
    {
        let succeeded = self.handle.set_monitor_contrast(level);
        MonitorError::check_status(succeeded, "SetMonitorContrast failed")
    }

    fn info(&self) -> (info: &MonitorInfo)
        ensures
            info@ == self@.info,
    {
        &self.info
    }
}

/// What the system answered while one endpoint was set up: the endpoint's
/// description, and the answer to the query for its output's information.
pub struct EndpointReport {
    pub description: Seq<char>,
    pub info: Option<OutputInfo>,
}

/// What the system answered about one display output: the output, and its
/// endpoints in the order listed, or `None` when listing them failed.
pub struct OutputReport {
    pub output: usize,
    pub endpoints: Option<Seq<EndpointReport>>,
}

/// The monitors of one output: one for each endpoint whose output
/// information was there, in the order of the endpoints.
pub open spec fn output_monitors(output: usize, endpoints: Seq<EndpointReport>) -> Seq<
    MonitorInfoModel,
>
    decreases endpoints.len(),
{
    if endpoints.len() == 0 {
        Seq::empty()
    } else {
        let earlier = output_monitors(output, endpoints.drop_last());
        match endpoints.last().info {
            Some(info) => earlier.push(described(output, endpoints.last().description, info)),
            None => earlier,
        }
    }
}

/// The monitors of a run of outputs, in the order of the outputs; the
/// failure to list the endpoints of any of them fails the whole.
pub open spec fn outputs_outcome(reports: Seq<OutputReport>) -> Result<
    Seq<MonitorInfoModel>,
    ErrorModel,
>
    decreases reports.len(),
{
    if reports.len() == 0 {
        Ok(Seq::empty())
    } else {
        match outputs_outcome(reports.drop_last()) {
            Err(e) => Err(e),
            Ok(earlier) => match reports.last().endpoints {
                Some(endpoints) => Ok(earlier + output_monitors(reports.last().output, endpoints)),
                None => Err(
                    ErrorModel::UnsupportedOperation("GetPhysicalMonitorsFromHMONITOR failed"@),
                ),
            },
        }
    }
}

/// What an enumeration yields from the system's answers about the outputs
/// it went through. With no output at all there is nothing to find.
pub open spec fn enumeration_outcome(reports: Seq<OutputReport>) -> Result<
    Seq<MonitorInfoModel>,
    ErrorModel,
> {
    if reports.len() == 0 {
        Err(ErrorModel::MonitorNotFound("No monitors found"@))
    } else {
        outputs_outcome(reports)
    }
}

/// A run of outputs fails exactly when the endpoints of one of them cannot
/// be listed, and then with the failure of that listing.
pub proof fn lemma_outputs_outcome_fails(reports: Seq<OutputReport>)
    ensures
        outputs_outcome(reports) is Err <==> exists|at: int|
            0 <= at < reports.len() && (#[trigger] reports[at]).endpoints is None,
        outputs_outcome(reports) matches Err(e) ==> e == ErrorModel::UnsupportedOperation(
            "GetPhysicalMonitorsFromHMONITOR failed"@,
        ),
    decreases reports.len(),
{
    if reports.len() > 0 {
        let earlier = reports.drop_last();
        lemma_outputs_outcome_fails(earlier);
        if outputs_outcome(earlier) is Err {
            let at = choose|at: int|
                0 <= at < earlier.len() && (#[trigger] earlier[at]).endpoints is None;
            assert(reports[at].endpoints is None);
        } else if reports.last().endpoints is None {
            assert(reports[reports.len() - 1].endpoints is None);
        } else {
            assert forall|at: int| 0 <= at < reports.len() implies !((
            #[trigger] reports[at]).endpoints is None) by {
                if at < earlier.len() {
                    assert(earlier[at] == reports[at]);
                }
            }
        }
    }
}

/// An enumeration fails in two cases and no other: with `MonitorNotFound`
/// when there is no output, and with the failure of the listing when the
/// endpoints of an output cannot be listed.
pub proof fn lemma_enumeration_fails(reports: Seq<OutputReport>)
    ensures
        enumeration_outcome(reports) is Err <==> reports.len() == 0 || exists|at: int|
            0 <= at < reports.len() && (#[trigger] reports[at]).endpoints is None,
        enumeration_outcome(reports) matches Err(e) ==> e == if reports.len() == 0 {
            ErrorModel::MonitorNotFound("No monitors found"@)
        } else {
            ErrorModel::UnsupportedOperation("GetPhysicalMonitorsFromHMONITOR failed"@)
        },
{
    lemma_outputs_outcome_fails(reports);
}

/// How many of an output's endpoints are left out: those whose output
/// information was not to be had.
pub open spec fn skipped_endpoints(endpoints: Seq<EndpointReport>) -> nat
    decreases endpoints.len(),
{
    if endpoints.len() == 0 {
        0
    } else {
        let earlier = skipped_endpoints(endpoints.drop_last());
        if endpoints.last().info is None {
            earlier + 1
        } else {
            earlier
        }
    }
}

/// How many endpoints the system listed in all.
pub open spec fn listed_in_all(reports: Seq<OutputReport>) -> nat
    decreases reports.len(),
{
    if reports.len() == 0 {
        0
    } else {
        listed_in_all(reports.drop_last()) + match reports.last().endpoints {
            Some(endpoints) => endpoints.len(),
            None => 0,
        }
    }
}

/// How many endpoints are left out in all.
pub open spec fn skipped_in_all(reports: Seq<OutputReport>) -> nat
    decreases reports.len(),
{
    if reports.len() == 0 {
        0
    } else {
        skipped_in_all(reports.drop_last()) + match reports.last().endpoints {
            Some(endpoints) => skipped_endpoints(endpoints),
            None => 0,
        }
    }
}

/// Each endpoint of an output either gives a monitor or is left out.
pub proof fn lemma_output_monitors_count(output: usize, endpoints: Seq<EndpointReport>)
    ensures
        output_monitors(output, endpoints).len() + skipped_endpoints(endpoints) == endpoints.len(),
    decreases endpoints.len(),
{
    if endpoints.len() > 0 {
        lemma_output_monitors_count(output, endpoints.drop_last());
    }
}

/// An enumeration that succeeds finds one monitor for each endpoint listed
/// but those left out, and no other.
pub proof fn lemma_enumeration_count(reports: Seq<OutputReport>)
    ensures
        outputs_outcome(reports) matches Ok(found) ==> found.len() + skipped_in_all(reports)
            == listed_in_all(reports),
    decreases reports.len(),
{
    if reports.len() > 0 {
        lemma_enumeration_count(reports.drop_last());
        if reports.last().endpoints is Some {
            lemma_output_monitors_count(reports.last().output, reports.last().endpoints->0);
        }
    }
}

/// What is known of each monitor of a sequence.
pub open spec fn infos<H: MonitorHandle>(monitors: Seq<PhysicalMonitor<H>>) -> Seq<
    MonitorInfoModel,
> {
    monitors.map_values(|monitor: PhysicalMonitor<H>| monitor@.info)
}

/// The monitors found or the failure to find them, as mathematical values.
pub open spec fn monitors_outcome<H: MonitorHandle>(
    r: Result<Vec<PhysicalMonitor<H>>, MonitorError>,
) -> Result<Seq<MonitorInfoModel>, ErrorModel> {
    match r {
        Ok(monitors) => Ok(infos(monitors@)),
        Err(e) => Err(e@),
    }
}

/// First step of an enumeration: with no display output there is nothing
/// to find.
pub fn require_outputs(outputs: &Vec<usize>) -> (r: Result<(), MonitorError>)
    ensures
        r is Err <==> outputs.len() == 0,
        r matches Err(e) ==> e@ == ErrorModel::MonitorNotFound("No monitors found"@),
{
    if outputs.len() == 0 {
        Err(MonitorError::MonitorNotFound("No monitors found".to_string()))
    } else {
        Ok(())
    }
}

/// Step of an enumeration for one output: the endpoints as the system
/// listed them, or the failure of the whole enumeration when it could not
/// list them.
pub fn listed_endpoints(listing: Option<Vec<PhysicalEndpoint>>) -> (r: Result<
    Vec<PhysicalEndpoint>,
    MonitorError,
>)
    ensures
        match listing {
            Some(endpoints) => r == Ok::<Vec<PhysicalEndpoint>, MonitorError>(endpoints),
            None => r matches Err(e) && e@ == ErrorModel::UnsupportedOperation(
                "GetPhysicalMonitorsFromHMONITOR failed"@,
            ),
        },
{
    match listing {
        Some(endpoints) => Ok(endpoints),
        None => {
            let detail = "GetPhysicalMonitorsFromHMONITOR failed".to_string();
            Err(MonitorError::UnsupportedOperation(detail))
        },
    }
}

/// Step of an enumeration for one endpoint: a monitor that was set up is
/// kept, behind those kept before; one that was not is left out, and its
/// failure handed back to be reported.
pub fn keep_or_skip<H: MonitorHandle>(
    monitors: &mut Vec<PhysicalMonitor<H>>,
    made: Result<PhysicalMonitor<H>, MonitorError>,
) -> (skipped: Option<MonitorError>)
    ensures
        match made {
            Ok(monitor) => final(monitors)@ == old(monitors)@.push(monitor) && skipped is None,
            Err(e) => final(monitors)@ == old(monitors)@ && skipped == Some(e),
        },
{
    match made {
        Ok(monitor) => {
            monitors.push(monitor);
            None
        },
        Err(e) => Some(e),
    }
}

/// What is known of each of the monitors, in their order.
pub fn monitor_infos<H: MonitorHandle>(monitors: &Vec<PhysicalMonitor<H>>) -> (found: Vec<
    MonitorInfo,
>)
    ensures
        found@.map_values(|info: MonitorInfo| info@) == infos(monitors@),
{
    let mut found: Vec<MonitorInfo> = Vec::new();
    let mut at: usize = 0;
    assert(found@.map_values(|info: MonitorInfo| info@) =~= infos(monitors@.take(0)));
    while at < monitors.len()
        invariant
            at <= monitors.len(),
            found@.map_values(|info: MonitorInfo| info@) == infos(monitors@.take(at as int)),
        decreases monitors.len() - at,
    {
        let info = monitors[at].info();
        let ghost before = found@.map_values(|info: MonitorInfo| info@);
        found.push(
            MonitorInfo {
                device_name: info.device_name.clone(),
                friendly_name: info.friendly_name.clone(),
                instance_name: info.instance_name.clone(),
                is_primary: info.is_primary,
            },
        );
        assert(found@.map_values(|info: MonitorInfo| info@) =~= before.push(
            monitors@[at as int]@.info,
        ));
        assert(infos(monitors@.take(at + 1)) =~= infos(monitors@.take(at as int)).push(
            monitors@[at as int]@.info,
        ));
        at += 1;
    }
    assert(monitors@.take(at as int) =~= monitors@);
    found
}

/// Finds the physical monitors of every active display output.
///
/// Goes through the outputs in the order the system reports them, and
/// through each output's endpoints in the order listed. An endpoint that
/// cannot be set up is reported to the system's `warn` and left out; the
/// others are still found. Fails when there is no output, and when the
/// endpoints of an output cannot be listed: the monitors set up until then
/// are dropped, which releases their handles.
pub fn enumerate_monitors<A: DisplayApi>(api: &A) -> (r: Result<
    Vec<PhysicalMonitor<A::Handle>>,
    MonitorError,
>)
    ensures
        exists|reports: Seq<OutputReport>| monitors_outcome(r) == enumeration_outcome(reports),
{
    let outputs = api.enumerate_outputs();
    match require_outputs(&outputs) {
        Ok(()) => {},
        Err(e) => {
            assert(monitors_outcome::<A::Handle>(Err(e)) == enumeration_outcome(Seq::empty()));
            return Err(e);
        },
    }
    let mut monitors: Vec<PhysicalMonitor<A::Handle>> = Vec::new();
    let ghost mut reports: Seq<OutputReport> = Seq::empty();
    let mut at: usize = 0;
    assert(infos(monitors@) =~= Seq::empty());
    while at < outputs.len()
        invariant
            at <= outputs.len(),
            reports.len() == at,
            outputs_outcome(reports) == Ok::<Seq<MonitorInfoModel>, ErrorModel>(infos(monitors@)),
        decreases outputs.len() - at,
    {
        let output = outputs[at];
        let ghost before = infos(monitors@);
        let endpoints = match listed_endpoints(api.get_physical_monitors(output)) {
            Ok(endpoints) => endpoints,
            Err(e) => {
                proof {
                    let failed = reports.push(OutputReport { output, endpoints: None });
                    assert(failed.drop_last() =~= reports);
                    assert(monitors_outcome::<A::Handle>(Err(e)) == enumeration_outcome(failed));
                }
                return Err(e);
            },
        };
        let ghost mut seen: Seq<EndpointReport> = Seq::empty();
        let mut next: usize = 0;
        while next < endpoints.len()
            invariant
                next <= endpoints.len(),
                seen.len() == next,
                infos(monitors@) == before + output_monitors(output, seen),
            decreases endpoints.len() - next,
        {
            let ghost earlier = monitors@;
            let made = PhysicalMonitor::new(api, output, &endpoints[next]);
            proof {
                let info = choose|info: Option<OutputInfo>|
                    monitor_outcome(made) == construction_outcome(
                        output,
                        endpoints[next as int].description@,
                        info,
                    );
                let extended = seen.push(
                    EndpointReport { description: endpoints[next as int].description@, info },
                );
                assert(extended.drop_last() =~= seen);
                seen = extended;
                if made is Ok {
                    assert(infos(earlier.push(made->Ok_0)) =~= infos(earlier).push(
                        made->Ok_0@.info,
                    ));
                }
            }
            match keep_or_skip(&mut monitors, made) {
                Some(failure) => api.warn(&failure),
                None => {},
            }
            assert(infos(monitors@) =~= before + output_monitors(output, seen));
            next += 1;
        }
        proof {
            let listed = reports.push(OutputReport { output, endpoints: Some(seen) });
            assert(listed.drop_last() =~= reports);
            reports = listed;
        }
        at += 1;
    }
    let r = Ok(monitors);
    assert(monitors_outcome(r) == enumeration_outcome(reports));
    r
}

/// Whether a monitor goes by a name: the name is its device identifier or
/// its friendly name, letter for letter.
pub open spec fn has_name(info: MonitorInfoModel, name: Seq<char>) -> bool {
    info.device_name == name || info.friendly_name == name
}

/// Whether `at` is the place of the first monitor that goes by `name`.
pub open spec fn is_first_named(found: Seq<MonitorInfoModel>, name: Seq<char>, at: int) -> bool {
    &&& 0 <= at < found.len()
    &&& has_name(found[at], name)
    &&& forall|before: int| 0 <= before < at ==> !has_name(#[trigger] found[before], name)
}

/// Whether `at` is the place of the first primary monitor.
pub open spec fn is_first_primary(found: Seq<MonitorInfoModel>, at: int) -> bool {
    &&& 0 <= at < found.len()
    &&& found[at].is_primary
    &&& forall|before: int| 0 <= before < at ==> !(#[trigger] found[before]).is_primary
}

/// Whether `r` is what a search by `name` among `found` yields: the first
/// monitor that goes by the name, or `MonitorNotFound(name)` when none does.
pub open spec fn selected_by_name(
    found: Seq<MonitorInfoModel>,
    name: Seq<char>,
    r: Result<MonitorInfoModel, ErrorModel>,
) -> bool {
    match r {
        Ok(info) => exists|at: int| is_first_named(found, name, at) && found[at] == info,
        Err(e) => {
            &&& e == ErrorModel::MonitorNotFound(name)
            &&& forall|at: int| 0 <= at < found.len() ==> !has_name(#[trigger] found[at], name)
        },
    }
}

/// Whether `r` is what a search for the primary monitor among `found`
/// yields: the first primary one, or `MonitorNotFound` when none is.
pub open spec fn selected_primary(
    found: Seq<MonitorInfoModel>,
    r: Result<MonitorInfoModel, ErrorModel>,
) -> bool {
    match r {
        Ok(info) => exists|at: int| is_first_primary(found, at) && found[at] == info,
        Err(e) => {
            &&& e == ErrorModel::MonitorNotFound("Primary monitor"@)
            &&& forall|at: int| 0 <= at < found.len() ==> !(#[trigger] found[at]).is_primary
        },
    }
}

/// Whether `r` is what a search by `name` yields after an enumeration that
/// ended in `listing`: the enumeration's failure, or the search's result.
pub open spec fn found_by_name(
    listing: Result<Seq<MonitorInfoModel>, ErrorModel>,
    name: Seq<char>,
    r: Result<MonitorInfoModel, ErrorModel>,
) -> bool {
    match listing {
        Ok(found) => selected_by_name(found, name, r),
        Err(e) => r == Err::<MonitorInfoModel, ErrorModel>(e),
    }
}

/// Whether `r` is what a search for the primary monitor yields after an
/// enumeration that ended in `listing`.
pub open spec fn found_primary(
    listing: Result<Seq<MonitorInfoModel>, ErrorModel>,
    r: Result<MonitorInfoModel, ErrorModel>,
) -> bool {
    match listing {
        Ok(found) => selected_primary(found, r),
        Err(e) => r == Err::<MonitorInfoModel, ErrorModel>(e),
    }
}

/// A search by name has one result: what `selected_by_name` holds of is
/// the same whichever way it was found.
pub proof fn lemma_selected_by_name_is_unique(
    found: Seq<MonitorInfoModel>,
    name: Seq<char>,
    r1: Result<MonitorInfoModel, ErrorModel>,
    r2: Result<MonitorInfoModel, ErrorModel>,
)
    requires
        selected_by_name(found, name, r1),
        selected_by_name(found, name, r2),
    ensures
        r1 == r2,
{
    if r1 is Ok && r2 is Ok {
        let at1 = choose|at: int| is_first_named(found, name, at) && found[at] == r1->Ok_0;
        let at2 = choose|at: int| is_first_named(found, name, at) && found[at] == r2->Ok_0;
        assert(at1 == at2);
    } else if r1 is Ok {
        let at1 = choose|at: int| is_first_named(found, name, at) && found[at] == r1->Ok_0;
        assert(has_name(found[at1], name));
    } else if r2 is Ok {
        let at2 = choose|at: int| is_first_named(found, name, at) && found[at] == r2->Ok_0;
        assert(has_name(found[at2], name));
    }
}

/// A search for the primary monitor has one result.
pub proof fn lemma_selected_primary_is_unique(
    found: Seq<MonitorInfoModel>,
    r1: Result<MonitorInfoModel, ErrorModel>,
    r2: Result<MonitorInfoModel, ErrorModel>,
)
    requires
        selected_primary(found, r1),
        selected_primary(found, r2),
    ensures
        r1 == r2,
{
    if r1 is Ok && r2 is Ok {
        let at1 = choose|at: int| is_first_primary(found, at) && found[at] == r1->Ok_0;
        let at2 = choose|at: int| is_first_primary(found, at) && found[at] == r2->Ok_0;
        assert(at1 == at2);
    } else if r1 is Ok {
        let at1 = choose|at: int| is_first_primary(found, at) && found[at] == r1->Ok_0;
        assert(found[at1].is_primary);
    } else if r2 is Ok {
        let at2 = choose|at: int| is_first_primary(found, at) && found[at] == r2->Ok_0;
        assert(found[at2].is_primary);
    }
}

/// A search by a name that none of the monitors goes by fails with
/// `MonitorNotFound` of that name, whatever monitors there are, and a
/// search that fails so has met no monitor of that name.
pub proof fn lemma_unknown_name_is_not_found(
    found: Seq<MonitorInfoModel>,
    name: Seq<char>,
    r: Result<MonitorInfoModel, ErrorModel>,
)
    requires
        selected_by_name(found, name, r),
    ensures
        (forall|at: int| 0 <= at < found.len() ==> !has_name(#[trigger] found[at], name)) <==> r
            == Err::<MonitorInfoModel, ErrorModel>(ErrorModel::MonitorNotFound(name)),
{
    if r is Ok {
        let at = choose|at: int| is_first_named(found, name, at) && found[at] == r->Ok_0;
        assert(has_name(found[at], name));
    }
}

/// Picks the first monitor that goes by `name`. The monitors not picked are
/// dropped, which releases their handles.
pub fn select_by_name<H: MonitorHandle>(monitors: Vec<PhysicalMonitor<H>>, name: &str) -> (r:
    Result<PhysicalMonitor<H>, MonitorError>)
    ensures
        selected_by_name(infos(monitors@), name@, monitor_outcome(r)),
        r matches Ok(monitor) ==> exists|at: int|
            is_first_named(infos(monitors@), name@, at) && monitors@[at] == monitor,
{
    let wanted = name.to_string();
    let mut rest = monitors;
    let mut at: usize = 0;
    while at < rest.len()
        invariant
            rest@ == monitors@,
            wanted@ == name@,
            at <= rest.len(),
            forall|before: int| 0 <= before < at ==> !has_name(
                (#[trigger] rest@[before])@.info,
                name@,
            ),
        decreases rest.len() - at,
    {
        let info = rest[at].info();
        if info.device_name == wanted || info.friendly_name == wanted {
            let monitor = rest.remove(at);
            assert(is_first_named(infos(monitors@), name@, at as int));
            return Ok(monitor);
        }
        at += 1;
    }
    Err(MonitorError::MonitorNotFound(wanted))
}

/// Picks the first primary monitor. The monitors not picked are dropped,
/// which releases their handles.
pub fn select_primary<H: MonitorHandle>(monitors: Vec<PhysicalMonitor<H>>) -> (r: Result<
    PhysicalMonitor<H>,
    MonitorError,
>)
    ensures
        selected_primary(infos(monitors@), monitor_outcome(r)),
        r matches Ok(monitor) ==> exists|at: int|
            is_first_primary(infos(monitors@), at) && monitors@[at] == monitor,
{
    let mut rest = monitors;
    let mut at: usize = 0;
    while at < rest.len()
        invariant
            rest@ == monitors@,
            at <= rest.len(),
            forall|before: int| 0 <= before < at ==> !(#[trigger] rest@[before])@.info.is_primary,
        decreases rest.len() - at,
    {
        if rest[at].info().is_primary {
            let monitor = rest.remove(at);
            assert(is_first_primary(infos(monitors@), at as int));
            return Ok(monitor);
        }
        at += 1;
    }
    Err(MonitorError::MonitorNotFound("Primary monitor".to_string()))
}

/// Enumerates the monitors and picks the first that goes by `device_name`,
/// be it as device identifier or as friendly name.
pub fn find_monitor<A: DisplayApi>(api: &A, device_name: &str) -> (r: Result<
    PhysicalMonitor<A::Handle>,
    MonitorError,
>)
    ensures
        exists|reports: Seq<OutputReport>|
            found_by_name(enumeration_outcome(reports), device_name@, monitor_outcome(r)),
{
    let listing = enumerate_monitors(api);
    let ghost reports = choose|reports: Seq<OutputReport>|
        monitors_outcome(listing) == enumeration_outcome(reports);
    let r = match listing {
        Ok(monitors) => select_by_name(monitors, device_name),
        Err(e) => Err(e),
    };
    assert(found_by_name(enumeration_outcome(reports), device_name@, monitor_outcome(r)));
    r
}

/// Enumerates the monitors and picks the first primary one.
pub fn get_primary_monitor<A: DisplayApi>(api: &A) -> (r: Result<
    PhysicalMonitor<A::Handle>,
    MonitorError,
>)
    ensures
        exists|reports: Seq<OutputReport>|
            found_primary(enumeration_outcome(reports), monitor_outcome(r)),
{
    let listing = enumerate_monitors(api);
    let ghost reports = choose|reports: Seq<OutputReport>|
        monitors_outcome(listing) == enumeration_outcome(reports);
    let r = match listing {
        Ok(monitors) => select_primary(monitors),
        Err(e) => Err(e),
    };
    assert(found_primary(enumeration_outcome(reports), monitor_outcome(r)));
    r
}


} // verus!
