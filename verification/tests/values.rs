use monitor_config::error::MonitorError;
use monitor_config::monitor::{
    endpoint_plan, listed_endpoints, require_outputs, BrightnessInfo, ContrastInfo, MonitorInfo,
};
use monitor_config::native::{LevelReply, OutputInfo, PhysicalEndpoint, VcpReply};
use monitor_config::vcp::{
    capabilities_buffer, capabilities_from_reply, features_from_replies, scan_codes, VcpCodeType,
    VcpFeatureResponse,
};

fn unsupported(detail: &str) -> MonitorError {
    MonitorError::UnsupportedOperation(detail.to_string())
}

#[test]
fn status_of_a_transport_call() {
    assert_eq!(MonitorError::check_status(true, "SetVCPFeature failed"), Ok(()));
    assert_eq!(
        MonitorError::check_status(false, "SetVCPFeature failed"),
        Err(unsupported("SetVCPFeature failed"))
    );
    assert_eq!(MonitorError::check_status(false, ""), Err(unsupported("")));
}

#[test]
fn discriminator_zero_is_a_set_parameter_feature() {
    assert_eq!(VcpCodeType::from_raw(0), VcpCodeType::SetParameter);
    assert_eq!(VcpCodeType::from_raw(1), VcpCodeType::Momentary);
    assert_eq!(VcpCodeType::from_raw(2), VcpCodeType::Momentary);
    assert_eq!(VcpCodeType::from_raw(u32::MAX), VcpCodeType::Momentary);
}

#[test]
fn successful_feature_reply() {
    let reply = VcpReply { code_type: 0, current_value: 50, maximum_value: 100 };
    assert_eq!(
        VcpFeatureResponse::from_reply(0x10, Some(reply)),
        Ok(VcpFeatureResponse {
            vcp_code: 0x10,
            current_value: 50,
            maximum_value: 100,
            code_type: VcpCodeType::SetParameter,
        })
    );
    let reply = VcpReply { code_type: 1, current_value: 0, maximum_value: 1 };
    assert_eq!(
        VcpFeatureResponse::from_reply(0x04, Some(reply)),
        Ok(VcpFeatureResponse {
            vcp_code: 0x04,
            current_value: 0,
            maximum_value: 1,
            code_type: VcpCodeType::Momentary,
        })
    );
}

#[test]
fn feature_values_are_not_held_against_the_maximum() {
    let reply = VcpReply { code_type: 0, current_value: 700, maximum_value: 100 };
    let feature = VcpFeatureResponse::from_reply(0x12, Some(reply)).unwrap();
    assert_eq!(feature.current_value, 700);
    assert_eq!(feature.maximum_value, 100);
}

#[test]
fn failed_feature_reply() {
    assert_eq!(VcpFeatureResponse::from_reply(0x10, None), Err(MonitorError::VcpNotSupported));
}

#[test]
fn scan_keeps_the_successful_replies_in_code_order() {
    let mut replies: Vec<Option<VcpReply>> = vec![None; 256];
    replies[0x10] = Some(VcpReply { code_type: 0, current_value: 50, maximum_value: 100 });
    replies[0x12] = Some(VcpReply { code_type: 0, current_value: 75, maximum_value: 100 });
    replies[0xFF] = Some(VcpReply { code_type: 7, current_value: 1, maximum_value: 2 });
    replies[0x00] = Some(VcpReply { code_type: 0, current_value: 3, maximum_value: 4 });
    let features = features_from_replies(&replies);
    assert_eq!(
        features,
        vec![
            VcpFeatureResponse {
                vcp_code: 0x00,
                current_value: 3,
                maximum_value: 4,
                code_type: VcpCodeType::SetParameter,
            },
            VcpFeatureResponse {
                vcp_code: 0x10,
                current_value: 50,
                maximum_value: 100,
                code_type: VcpCodeType::SetParameter,
            },
            VcpFeatureResponse {
                vcp_code: 0x12,
                current_value: 75,
                maximum_value: 100,
                code_type: VcpCodeType::SetParameter,
            },
            VcpFeatureResponse {
                vcp_code: 0xFF,
                current_value: 1,
                maximum_value: 2,
                code_type: VcpCodeType::Momentary,
            },
        ]
    );
}

#[test]
fn scan_of_no_or_few_replies() {
    assert_eq!(features_from_replies(&Vec::new()), Vec::new());
    assert_eq!(features_from_replies(&vec![None, None, None]), Vec::new());
    let reply = VcpReply { code_type: 0, current_value: 1, maximum_value: 1 };
    let features = features_from_replies(&vec![None, Some(reply)]);
    assert_eq!(features.len(), 1);
    assert_eq!(features[0].vcp_code, 1);
}

#[test]
fn scan_of_all_successful_replies_has_every_code_once() {
    let replies: Vec<Option<VcpReply>> = (0..256u32)
        .map(|code| Some(VcpReply { code_type: code % 2, current_value: code, maximum_value: 255 }))
        .collect();
    let features = features_from_replies(&replies);
    assert_eq!(features.len(), 256);
    for (at, feature) in features.iter().enumerate() {
        assert_eq!(feature.vcp_code as usize, at);
        assert_eq!(feature.current_value as usize, at);
    }
}

#[test]
fn scan_leaves_out_replies_beyond_the_last_code() {
    let reply = VcpReply { code_type: 0, current_value: 9, maximum_value: 9 };
    let mut replies: Vec<Option<VcpReply>> = vec![None; 300];
    replies[255] = Some(reply);
    replies[256] = Some(reply);
    replies[299] = Some(reply);
    let features = features_from_replies(&replies);
    assert_eq!(features.len(), 1);
    assert_eq!(features[0].vcp_code, 255);
}

#[test]
fn capabilities_buffer_is_zeroed_and_of_the_reported_length() {
    assert_eq!(capabilities_buffer(Some(10)), Ok(vec![0u8; 10]));
    assert_eq!(capabilities_buffer(Some(0)), Ok(Vec::new()));
    assert_eq!(capabilities_buffer(Some(4096)), Ok(vec![0u8; 4096]));
}

#[test]
fn capabilities_without_length_fail() {
    assert_eq!(capabilities_buffer(None), Err(unsupported("GetCapabilitiesStringLength failed")));
}

#[test]
fn capabilities_from_a_filled_buffer() {
    assert_eq!(capabilities_from_reply(true, b"ABC\0\0\0\0\0\0\0"), Ok("ABC".to_string()));
    assert_eq!(capabilities_from_reply(true, b"(vcp(10 12))"), Ok("(vcp(10 12))".to_string()));
    assert_eq!(capabilities_from_reply(true, b""), Ok(String::new()));
}

#[test]
fn capabilities_from_a_failed_request() {
    assert_eq!(
        capabilities_from_reply(false, b"ABC\0"),
        Err(unsupported("CapabilitiesRequestAndCapabilitiesReply failed"))
    );
}

#[test]
fn brightness_from_a_reply() {
    let reply = LevelReply { minimum: 0, current: 40, maximum: 100 };
    assert_eq!(
        BrightnessInfo::from_reply(Some(reply)),
        Ok(BrightnessInfo { minimum: 0, current: 40, maximum: 100 })
    );
    assert_eq!(BrightnessInfo::from_reply(None), Err(unsupported("GetMonitorBrightness failed")));
}

#[test]
fn contrast_from_a_reply() {
    let reply = LevelReply { minimum: 10, current: 5, maximum: 90 };
    assert_eq!(
        ContrastInfo::from_reply(Some(reply)),
        Ok(ContrastInfo { minimum: 10, current: 5, maximum: 90 })
    );
    assert_eq!(ContrastInfo::from_reply(None), Err(unsupported("GetMonitorContrast failed")));
}

#[test]
fn monitor_info_of_an_endpoint() {
    let info = MonitorInfo::for_endpoint(0x10001, "Generic PnP Monitor", OutputInfo { flags: 1 });
    assert_eq!(
        info,
        MonitorInfo {
            device_name: "DISPLAY_0x10001".to_string(),
            friendly_name: "Generic PnP Monitor".to_string(),
            instance_name: String::new(),
            is_primary: true,
        }
    );
}

#[test]
fn only_the_lowest_flag_marks_the_primary_output() {
    assert!(!MonitorInfo::for_endpoint(1, "", OutputInfo { flags: 0 }).is_primary);
    assert!(MonitorInfo::for_endpoint(1, "", OutputInfo { flags: 1 }).is_primary);
    assert!(!MonitorInfo::for_endpoint(1, "", OutputInfo { flags: 2 }).is_primary);
    assert!(MonitorInfo::for_endpoint(1, "", OutputInfo { flags: 3 }).is_primary);
    assert!(!MonitorInfo::for_endpoint(1, "", OutputInfo { flags: 0xFFFF_FFFE }).is_primary);
    assert!(MonitorInfo::for_endpoint(1, "", OutputInfo { flags: u32::MAX }).is_primary);
}

#[test]
fn device_name_is_the_output_in_hexadecimal() {
    assert_eq!(MonitorInfo::for_endpoint(0, "", OutputInfo { flags: 0 }).device_name, "DISPLAY_0x0");
    assert_eq!(
        MonitorInfo::for_endpoint(0xABCDEF, "", OutputInfo { flags: 0 }).device_name,
        "DISPLAY_0xabcdef"
    );
    let output = 0x7ff6_1234usize;
    assert_eq!(
        MonitorInfo::for_endpoint(output, "", OutputInfo { flags: 0 }).device_name,
        format!("DISPLAY_{:#x}", output)
    );
}

#[test]
fn a_scan_asks_for_every_code_in_ascending_order() {
    let codes = scan_codes();
    assert_eq!(codes.len(), 256);
    for (at, code) in codes.iter().enumerate() {
        assert_eq!(*code as usize, at);
    }
    assert_eq!(codes[0], 0);
    assert_eq!(codes[0x10], 0x10);
    assert_eq!(codes[255], 255);
}

#[test]
fn an_enumeration_needs_an_output() {
    assert_eq!(
        require_outputs(&Vec::new()),
        Err(MonitorError::MonitorNotFound("No monitors found".to_string()))
    );
    assert_eq!(require_outputs(&vec![0]), Ok(()));
    assert_eq!(require_outputs(&vec![0x10001, 0x10003]), Ok(()));
}

#[test]
fn endpoints_are_taken_as_listed() {
    let listed = vec![
        PhysicalEndpoint { handle: 7, description: "A".to_string() },
        PhysicalEndpoint { handle: 3, description: "B".to_string() },
    ];
    assert_eq!(listed_endpoints(Some(listed.clone())), Ok(listed));
    assert_eq!(listed_endpoints(Some(Vec::new())), Ok(Vec::new()));
}

#[test]
fn endpoints_that_cannot_be_listed_fail_the_enumeration() {
    assert_eq!(
        listed_endpoints(None),
        Err(unsupported("GetPhysicalMonitorsFromHMONITOR failed"))
    );
}

#[test]
fn an_endpoint_is_set_up_with_its_own_handle() {
    let endpoint = PhysicalEndpoint { handle: 0x2A, description: "Panel".to_string() };
    assert_eq!(
        endpoint_plan(0x10001, &endpoint, Some(OutputInfo { flags: 1 })),
        Ok((
            0x2A,
            MonitorInfo {
                device_name: "DISPLAY_0x10001".to_string(),
                friendly_name: "Panel".to_string(),
                instance_name: String::new(),
                is_primary: true,
            }
        ))
    );
    let (handle, info) = endpoint_plan(5, &endpoint, Some(OutputInfo { flags: 0 })).unwrap();
    assert_eq!(handle, 0x2A);
    assert!(!info.is_primary);
}

#[test]
fn an_endpoint_without_output_information_is_not_set_up() {
    let endpoint = PhysicalEndpoint { handle: 0x2A, description: "Panel".to_string() };
    assert_eq!(endpoint_plan(0x10001, &endpoint, None), Err(unsupported("GetMonitorInfo failed")));
}
