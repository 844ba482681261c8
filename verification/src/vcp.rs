//! VCP operations on one monitor, and the catalog of documented VCP codes.

pub mod catalog;
pub mod codes;

pub use crate::vcp::catalog::{get_vcp_code_info, known_vcp_codes, VcpFeatureInfo};

use crate::error::{outcome, status_outcome, text_outcome, ErrorModel, MonitorError};
use crate::native::{MonitorHandle, VcpReply};
use crate::text::{buffer_text, text_end, text_from_buffer};
use vstd::prelude::*;
use vstd::utf8::{decode_utf8, valid_utf8};

verus! {

/// Kind of a VCP feature.
#[derive(Debug, Clone, Copy, PartialEq, Eq, Structural)]
pub enum VcpCodeType {
    /// The feature holds a value that stays as set.
    SetParameter,
    /// The feature triggers an action and falls back by itself.
    Momentary,
}

/// State of one VCP feature, as a monitor reported it.
#[derive(Debug, Clone, Copy, PartialEq, Eq, Structural)]
pub struct VcpFeatureResponse {
    pub vcp_code: u8,
    pub current_value: u32,
    pub maximum_value: u32,
    pub code_type: VcpCodeType,
}

/// The kind that a type discriminator of the transport stands for.
pub open spec fn code_type_of(discriminator: u32) -> VcpCodeType {
    if discriminator == 0 {
        VcpCodeType::SetParameter
    } else {
        VcpCodeType::Momentary
    }
}

/// The feature state that a successful reply to a query for `vcp_code` holds.
pub open spec fn response_of(vcp_code: u8, reply: VcpReply) -> VcpFeatureResponse {
    VcpFeatureResponse {
        vcp_code,
        current_value: reply.current_value,
        maximum_value: reply.maximum_value,
        code_type: code_type_of(reply.code_type),
    }
}

/// What a feature query yields for each answer of the transport.
pub open spec fn feature_outcome(vcp_code: u8, reply: Option<VcpReply>) -> Result<
    VcpFeatureResponse,
    ErrorModel,
> {
    match reply {
        Some(reply) => Ok(response_of(vcp_code, reply)),
        None => Err(ErrorModel::VcpNotSupported),
    }
}

impl VcpCodeType {
    /// Reads the transport's type discriminator: zero is a set-parameter
    /// feature, anything else a momentary one.
    pub fn from_raw(discriminator: u32) -> (kind: VcpCodeType)
        ensures
            kind == code_type_of(discriminator),
    {
        if discriminator == 0 {
            VcpCodeType::SetParameter
        } else {
            VcpCodeType::Momentary
        }
    }
}

impl VcpFeatureResponse {
    /// Interprets the transport's answer to a query for `vcp_code`. A failed
    /// query is `VcpNotSupported`, whatever made it fail.
    pub fn from_reply(vcp_code: u8, reply: Option<VcpReply>) -> (r: Result<
        VcpFeatureResponse,
        MonitorError,
    >)
        ensures
            outcome(r) == feature_outcome(vcp_code, reply),
    {
        match reply {
            Some(reply) => Ok(
                VcpFeatureResponse {
                    vcp_code,
                    current_value: reply.current_value,
                    maximum_value: reply.maximum_value,
                    code_type: VcpCodeType::from_raw(reply.code_type),
                },
            ),
            None => Err(MonitorError::VcpNotSupported),
        }
    }
}

/// Codes strictly ascending from one entry to the next; in particular no
/// code occurs twice.
pub open spec fn ascending_codes(features: Seq<VcpFeatureResponse>) -> bool {
    forall|i: int, j: int|
        0 <= i < j < features.len() ==> features[i].vcp_code < features[j].vcp_code
}

/// What a scan yields from the answers to the queries for codes 0, 1, 2 and
/// so on, at most 256 of them: the state of each feature whose query
/// succeeded, in the order of the codes.
pub open spec fn scan_result(replies: Seq<Option<VcpReply>>) -> Seq<VcpFeatureResponse>
    decreases replies.len(),
{
    if replies.len() == 0 {
        Seq::empty()
    } else {
        let earlier = scan_result(replies.drop_last());
        match replies.last() {
            Some(reply) => earlier.push(response_of((replies.len() - 1) as u8, reply)),
            None => earlier,
        }
    }
}

/// A scan result holds exactly the features whose query succeeded, each
/// once and under its own code, in strictly ascending order of the codes.
pub proof fn lemma_scan_result(replies: Seq<Option<VcpReply>>)
    requires
        replies.len() <= 256,
    ensures
        scan_result(replies).len() <= replies.len(),
        ascending_codes(scan_result(replies)),
        forall|i: int|
            0 <= i < scan_result(replies).len() ==> {
                let entry = #[trigger] scan_result(replies)[i];
                &&& entry.vcp_code < replies.len()
                &&& replies[entry.vcp_code as int] matches Some(reply) && entry == response_of(
                    entry.vcp_code,
                    reply,
                )
            },
        forall|code: int|
            0 <= code < replies.len() && (#[trigger] replies[code]) is Some ==> scan_result(
                replies,
            ).contains(response_of(code as u8, replies[code]->0)),
    decreases replies.len(),
{
    if replies.len() > 0 {
        let head = replies.drop_last();
        let earlier = scan_result(head);
        let all = scan_result(replies);
        lemma_scan_result(head);
        assert forall|code: int| 0 <= code < replies.len() && (#[trigger] replies[code]) is Some
            implies all.contains(response_of(code as u8, replies[code]->0)) by {
            if code < head.len() {
                assert(head[code] == replies[code]);
                let entry = response_of(code as u8, replies[code]->0);
                let at = choose|at: int| 0 <= at < earlier.len() && earlier[at] == entry;
                assert(all[at] == entry);
            } else {
                assert(all[all.len() - 1] == response_of(code as u8, replies[code]->0));
            }
        }
        assert forall|i: int| 0 <= i < all.len() implies {
            let entry = #[trigger] all[i];
            &&& entry.vcp_code < replies.len()
            &&& replies[entry.vcp_code as int] matches Some(reply) && entry == response_of(
                entry.vcp_code,
                reply,
            )
        } by {
            if i < earlier.len() {
                assert(all[i] == earlier[i]);
                assert(head[earlier[i].vcp_code as int] == replies[earlier[i].vcp_code as int]);
            }
        }
        assert forall|i: int, j: int| 0 <= i < j < all.len() implies all[i].vcp_code
            < all[j].vcp_code by {
            assert(all[i] == earlier[i]);
            if j < earlier.len() {
                assert(all[j] == earlier[j]);
            }
        }
    }
}

/// The codes a scan asks for, in the order it asks: every code from 0 to
/// 255, once, ascending.
pub fn scan_codes() -> (codes: Vec<u8>)
    ensures
        codes.len() == 256,
        forall|i: int| 0 <= i < 256 ==> codes@[i] == i as u8,
{
    let mut codes: Vec<u8> = Vec::new();
    let mut code: u8 = 0;
    loop
        invariant_except_break
            codes.len() == code,
            forall|i: int| 0 <= i < codes.len() ==> codes@[i] == i as u8,
        ensures
            codes.len() == 256,
            forall|i: int| 0 <= i < 256 ==> codes@[i] == i as u8,
        decreases 255 - code,
    {
        codes.push(code);
        if code == 255 {
            break ;
        }
        code += 1;
    }
    codes
}

/// Collects the result of a scan from the answers to the queries for codes
/// 0, 1, 2 and so on. Answers beyond the 256th belong to no code and are
/// left out.
pub fn features_from_replies(replies: &Vec<Option<VcpReply>>) -> (features: Vec<
    VcpFeatureResponse,
>)
    ensures
        features@ == scan_result(
            replies@.take(
                if replies.len() <= 256 {
                    replies.len() as int
                } else {
                    256
                },
            ),
        ),
        ascending_codes(features@),
        features.len() <= 256,
{
    let count: usize = if replies.len() <= 256 {
        replies.len()
    } else {
        256
    };
    let mut features: Vec<VcpFeatureResponse> = Vec::new();
    let mut next: usize = 0;
    while next < count
        invariant
            next <= count <= 256,
            count <= replies.len(),
            features@ == scan_result(replies@.take(next as int)),
        decreases count - next,
    {
        proof {
            let seen = replies@.take(next + 1);
            assert(seen.drop_last() =~= replies@.take(next as int));
            assert(seen.last() == replies@[next as int]);
        }
        match VcpFeatureResponse::from_reply(next as u8, replies[next]) {
            Ok(feature) => features.push(feature),
            Err(_) => {},
        }
        next += 1;
    }
    proof {
        lemma_scan_result(replies@.take(count as int));
    }
    features
}

/// A buffer of the given length that holds only zero bytes.
pub open spec fn zeroed(length: nat) -> Seq<u8> {
    Seq::new(length, |i: int| 0u8)
}

/// What the second phase of a capabilities request yields for each verdict
/// of the transport and each content of the buffer it wrote to.
pub open spec fn request_outcome(filled: bool, buffer: Seq<u8>) -> Result<Seq<char>, ErrorModel> {
    if filled {
        Ok(buffer_text(buffer))
    } else {
        Err(ErrorModel::UnsupportedOperation("CapabilitiesRequestAndCapabilitiesReply failed"@))
    }
}

/// What a capabilities request yields for each course the two transport
/// calls can take: the length query fails; or it succeeds, and the request
/// for the string ends as `filled` and `buffer` say.
pub open spec fn capabilities_outcome(length: Option<u32>, filled: bool, buffer: Seq<u8>) -> Result<
    Seq<char>,
    ErrorModel,
> {
    match length {
        Some(_) => request_outcome(filled, buffer),
        None => Err(ErrorModel::UnsupportedOperation("GetCapabilitiesStringLength failed"@)),
    }
}

/// First phase of a capabilities request: from the transport's answer to
/// the length query, the zeroed buffer to hand to the second phase.
pub fn capabilities_buffer(length: Option<u32>) -> (r: Result<Vec<u8>, MonitorError>)
    ensures
        match r {
            Ok(buffer) => length matches Some(n) && buffer@ == zeroed(n as nat),
            Err(e) => length is None && e@ == ErrorModel::UnsupportedOperation(
                "GetCapabilitiesStringLength failed"@,
            ),
        },
{
    match length {
        None => Err(
            MonitorError::UnsupportedOperation("GetCapabilitiesStringLength failed".to_string()),
        ),
        Some(n) => {
            let mut buffer: Vec<u8> = Vec::new();
            let mut filled: u32 = 0;
            while filled < n
                invariant
                    filled <= n,
                    buffer@ == zeroed(filled as nat),
                decreases n - filled,
            {
                buffer.push(0u8);
                filled += 1;
                assert(buffer@ =~= zeroed(filled as nat));
            }
            Ok(buffer)
        },
    }
}

/// Second phase of a capabilities request: from the transport's verdict
/// and the buffer it wrote to, the capability string. The string is the
/// buffer up to its first zero byte, decoded as UTF-8 with ill-formed
/// sequences replaced; it is not parsed any further.
pub fn capabilities_from_reply(filled: bool, buffer: &[u8]) -> (r: Result<String, MonitorError>)
    ensures
        text_outcome(r) == request_outcome(filled, buffer@),
        r matches Ok(text) ==> (valid_utf8(buffer@.take(text_end(buffer@))) ==> text@
            == decode_utf8(buffer@.take(text_end(buffer@)))),
{
    if filled {
        Ok(text_from_buffer(buffer))
    } else {
        Err(
            MonitorError::UnsupportedOperation(
                "CapabilitiesRequestAndCapabilitiesReply failed".to_string(),
            ),
        )
    }
}

/// VCP operations on a monitor handle that stays with its owner.
///
/// Every operation is one or more blocking calls of the transport, made in
/// the order given and never repeated.
pub struct VcpMonitor<'a, H: MonitorHandle> {
    handle: &'a H,
}

impl<'a, H: MonitorHandle> VcpMonitor<'a, H> {
    /// The handle that the operations go to.
    pub closed spec fn handle(&self) -> &'a H {
        self.handle
    }

    pub fn new(handle: &'a H) -> (monitor: Self)
        ensures
            monitor.handle() == handle,
    {
        VcpMonitor { handle }
    }

    /// Queries one feature. Whatever the transport answers, the result is
    /// what `feature_outcome` makes of that answer for this code.
    pub fn get_vcp_feature(&self, vcp_code: u8) -> (r: Result<VcpFeatureResponse, MonitorError>)
        ensures
            exists|reply: Option<VcpReply>| outcome(r) == feature_outcome(vcp_code, reply),
    {
        let reply = self.handle.get_vcp_feature_and_reply(vcp_code);
        VcpFeatureResponse::from_reply(vcp_code, reply)
    }

    /// Writes one feature. The value is not held against the feature's
    /// range: the monitor decides whether it takes it.
    pub fn set_vcp_feature(&self, vcp_code: u8, value: u32) -> (r: Result<(), MonitorError>)
        ensures
            exists|succeeded: bool|
                outcome(r) == status_outcome(succeeded, "SetVCPFeature failed"@),
    {
        let succeeded = self.handle.set_vcp_feature(vcp_code, value);
        MonitorError::check_status(succeeded, "SetVCPFeature failed")
    }

    /// Queries every code from 0 to 255 once, in ascending order, and keeps
    /// the features whose query succeeded.
    pub fn scan_vcp_features(&self) -> (features: Vec<VcpFeatureResponse>)
        ensures
            exists|replies: Seq<Option<VcpReply>>|
                replies.len() == 256 && features@ == scan_result(replies),
            ascending_codes(features@),
            features.len() <= 256,
    {
        let codes = scan_codes();
        let mut replies: Vec<Option<VcpReply>> = Vec::new();
        let mut at: usize = 0;
        while at < codes.len()
            invariant
                codes.len() == 256,
                replies.len() == at <= 256,
            decreases codes.len() - at,
        {
            let reply = self.handle.get_vcp_feature_and_reply(codes[at]);
            replies.push(reply);
            at += 1;
        }
        assert(replies@.take(256) =~= replies@);
        features_from_replies(&replies)
    }

    /// Asks for the monitor's capability string: first for its length, then
    /// for the string itself into a zeroed buffer of that length.
    pub fn get_capabilities(&self) -> (r: Result<String, MonitorError>)
        ensures
            exists|length: Option<u32>, filled: bool, buffer: Seq<u8>|
                text_outcome(r) == capabilities_outcome(length, filled, buffer),
    {
        let length = self.handle.get_capabilities_string_length();
        let mut buffer = match capabilities_buffer(length) {
            Ok(buffer) => buffer,
            Err(e) => {
                assert(text_outcome(Err(e)) == capabilities_outcome(None, false, Seq::empty()));
                return Err(e);
            },
        };
        let filled = self.handle.capabilities_request_and_reply(&mut buffer);
        let r = capabilities_from_reply(filled, buffer.as_slice());
        assert(text_outcome(r) == capabilities_outcome(length, filled, buffer@));
        r
    }

    /// Asks the monitor to keep its current settings.
    pub fn save_settings(&self) -> (r: Result<(), MonitorError>)
        ensures
            exists|succeeded: bool|
                outcome(r) == status_outcome(succeeded, "SaveCurrentMonitorSettings failed"@),
    {
        let succeeded = self.handle.save_current_monitor_settings();
        MonitorError::check_status(succeeded, "SaveCurrentMonitorSettings failed")
    }

    /// Asks the monitor to go back to its factory settings.
    pub fn restore_factory_defaults(&self) -> (r: Result<(), MonitorError>)
        ensures
            exists|succeeded: bool|
                outcome(r) == status_outcome(succeeded, "RestoreMonitorFactoryDefaults failed"@),
    {
        let succeeded = self.handle.restore_monitor_factory_defaults();
        MonitorError::check_status(succeeded, "RestoreMonitorFactoryDefaults failed")
    }

    /// Asks the monitor to go back to its factory color settings.
    pub fn restore_factory_color_defaults(&self) -> (r: Result<(), MonitorError>)
        ensures
            exists|succeeded: bool|
                outcome(r) == status_outcome(
                    succeeded,
                    "RestoreMonitorFactoryColorDefaults failed"@,
                ),
    {
        let succeeded = self.handle.restore_monitor_factory_color_defaults();
        MonitorError::check_status(succeeded, "RestoreMonitorFactoryColorDefaults failed")
    }
}

} // verus!
