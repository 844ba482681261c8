use monitor_config::vcp::codes;
use monitor_config::vcp::{get_vcp_code_info, known_vcp_codes, VcpFeatureInfo};

#[test]
fn luminance_is_documented() {
    let info = get_vcp_code_info(0x10).unwrap();
    assert_eq!(info.code, 0x10);
    assert_eq!(info.name, "Luminance");
    assert_eq!(info.description, "Luminance of the image (Brightness control).");
}

#[test]
fn first_and_last_codes_are_documented() {
    assert_eq!(
        get_vcp_code_info(0x00),
        Some(VcpFeatureInfo {
            code: 0x00,
            name: "Code Page",
            description: "Returns the Code Page ID number Byte SL.",
        })
    );
    assert_eq!(
        get_vcp_code_info(0xDF),
        Some(VcpFeatureInfo {
            code: 0xDF,
            name: "VCP Version",
            description: "Defines the version number of the MCCS standard recognized by the display.",
        })
    );
}

#[test]
fn vendor_codes_have_no_entry() {
    assert_eq!(get_vcp_code_info(0xE0), None);
    assert_eq!(get_vcp_code_info(0xFF), None);
    for code in 0xE0u8..=0xFF {
        assert_eq!(get_vcp_code_info(code), None, "code {code:#04x}");
    }
    assert!(known_vcp_codes().iter().all(|entry| entry.code < 0xE0));
}

#[test]
fn reserved_codes_have_no_entry() {
    for code in [0x07u8, 0x09, 0x0D, 0x0F, 0x15, 0x4D, 0x50, 0x7F, 0x80, 0x81, 0xD8, 0xDD] {
        assert_eq!(get_vcp_code_info(code), None, "code {code:#04x}");
    }
}

#[test]
fn every_entry_stands_under_its_own_code() {
    let mut documented = 0;
    for code in 0u8..=255 {
        if let Some(info) = get_vcp_code_info(code) {
            assert_eq!(info.code, code);
            assert!(!info.name.is_empty());
            assert!(!info.description.is_empty());
            documented += 1;
        }
    }
    assert_eq!(documented, 152);
}

#[test]
fn lookup_gives_the_same_answer_every_time() {
    for code in 0u8..=255 {
        assert_eq!(get_vcp_code_info(code), get_vcp_code_info(code));
    }
}

#[test]
fn the_whole_catalog_is_ascending_and_complete() {
    let entries = known_vcp_codes();
    assert_eq!(entries.len(), 152);
    for pair in entries.windows(2) {
        assert!(pair[0].code < pair[1].code);
    }
    for entry in &entries {
        assert_eq!(get_vcp_code_info(entry.code), Some(*entry));
    }
    for code in 0u8..=255 {
        let listed = entries.iter().any(|entry| entry.code == code);
        assert_eq!(listed, get_vcp_code_info(code).is_some());
    }
    assert_eq!(entries[0].code, 0x00);
    assert_eq!(entries[151].code, 0xDF);
}

#[test]
fn common_codes_are_named_in_the_catalog() {
    assert_eq!(codes::BRIGHTNESS, 0x10);
    assert_eq!(codes::CONTRAST, 0x12);
    assert_eq!(codes::COLOR_TEMPERATURE, 0x14);
    assert_eq!(codes::RED_GAIN, 0x16);
    assert_eq!(codes::GREEN_GAIN, 0x18);
    assert_eq!(codes::BLUE_GAIN, 0x1A);
    assert_eq!(codes::POWER_MODE, 0xD6);
    assert_eq!(codes::INPUT_SOURCE, 0x60);
    assert_eq!(codes::AUDIO_VOLUME, 0x62);
    assert_eq!(codes::AUDIO_MUTE, 0x8D);
    assert_eq!(get_vcp_code_info(codes::CONTRAST).unwrap().name, "Contrast");
    assert_eq!(get_vcp_code_info(codes::COLOR_TEMPERATURE).unwrap().name, "Select Color Preset");
    assert_eq!(get_vcp_code_info(codes::RED_GAIN).unwrap().name, "Video Gain (Drive): Red");
    assert_eq!(get_vcp_code_info(codes::GREEN_GAIN).unwrap().name, "Video Gain (Drive): Green");
    assert_eq!(get_vcp_code_info(codes::BLUE_GAIN).unwrap().name, "Video Gain (Drive): Blue");
    assert_eq!(get_vcp_code_info(codes::POWER_MODE).unwrap().name, "Power Mode");
    assert_eq!(get_vcp_code_info(codes::INPUT_SOURCE).unwrap().name, "Input Select");
    assert_eq!(get_vcp_code_info(codes::AUDIO_VOLUME).unwrap().name, "Audio: Speaker Volume");
    assert_eq!(get_vcp_code_info(codes::AUDIO_MUTE).unwrap().name, "Audio Mute / Screen Blank");
}
