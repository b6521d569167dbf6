use std::collections::HashMap;

use bakawm::dbus::{
    apply_monitors_config, get_current_state, get_windows, is_laptop_panel, make_display_name, supported_scales,
    IpcOutput, IpcOutputLogical, IpcOutputMode, StateToIntrospect, WindowProperties,
};
use bakawm::float::F64;
use bakawm::ipc::{
    decode_binary, decode_request, decode_response, encode_request, encode_response, frame_length, handle_connection,
    request_error, response_error, socket_path, socket_path_under, ConnectionEvent, FrameError, IpcResponse,
};

fn d(x: f64) -> F64 {
    F64::from_bits(x.to_bits())
}

#[test]
fn requests_come_back_as_they_were_written() {
    let contents: Vec<u8> = (0..300u32).map(|n| n as u8).collect();
    let mut bytes = encode_request(&contents);
    assert_eq!(&bytes[0..4], &300u32.to_le_bytes());
    bytes.push(9);
    assert_eq!(decode_request(&bytes), Ok(contents));
    assert_eq!(decode_request(&vec![5, 0, 0]), Err(FrameError::Truncated));
    assert_eq!(decode_request(&vec![5, 0, 0, 0, 1]), Err(FrameError::Truncated));
    assert_eq!(decode_request(&vec![1, 0, 0, 1]), Err(FrameError::TooLarge));
    assert_eq!(frame_length(0, 0, 0, 1), Ok(16_777_216));
    assert_eq!(request_error(FrameError::TooLarge), Some("request too large".to_string()));
    assert_eq!(response_error(FrameError::TooLarge), Some("response too large".to_string()));
    assert_eq!(request_error(FrameError::Truncated), None);
}

#[test]
fn pictures_follow_their_response() {
    let bytes = encode_response(&vec![1, 2, 3], &Some(vec![7, 8]));
    assert_eq!(decode_response(&bytes), Ok(vec![1, 2, 3]));
    assert_eq!(decode_binary(&bytes), Ok(vec![7, 8]));
    let plain = encode_response(&vec![1, 2, 3], &None);
    assert_eq!(decode_binary(&plain), Err(FrameError::Truncated));
    assert!(IpcResponse::Screenshot { png_length: 2, width: 1, height: 1 }.carries_binary());
    assert!(!IpcResponse::Done.carries_binary());
}

#[test]
fn every_connection_is_answered_but_a_dead_one() {
    assert!(handle_connection(ConnectionEvent::Gone).is_none());
    let (r, _) = handle_connection(ConnectionEvent::Unanswered).unwrap();
    assert_eq!(r, IpcResponse::Error { message: "compositor did not respond".to_string() });
    let (r, _) = handle_connection(ConnectionEvent::Unreadable { reason: "bad".to_string() }).unwrap();
    assert_eq!(r, IpcResponse::Error { message: "bad".to_string() });
    let (r, b) =
        handle_connection(ConnectionEvent::Answered { response: IpcResponse::Done, binary: Some(vec![1]) }).unwrap();
    assert_eq!((r, b), (IpcResponse::Done, Some(vec![1])));
}

#[test]
fn the_socket_has_its_place() {
    assert_eq!(socket_path_under(&Some(b"/run/user/7".to_vec()), &b"/tmp".to_vec()), b"/run/user/7/bakawm.sock".to_vec());
    assert_eq!(socket_path_under(&None, &b"/tmp".to_vec()), b"/tmp/bakawm.sock".to_vec());
    assert!(socket_path(&b"/tmp".to_vec()).ends_with(b"/bakawm.sock"));
}

fn output(name: &str, model: &str, logical: bool) -> IpcOutput {
    IpcOutput {
        name: name.to_string(),
        make: "Acme".to_string(),
        model: model.to_string(),
        serial: String::new(),
        logical: if logical {
            Some(IpcOutputLogical {
                x: 5,
                y: 6,
                width: 3840,
                height: 2160,
                scale: d(2.0),
                transform: 1,
                current_mode_id: 4,
                modes: vec![
                    IpcOutputMode { id: 3, width: 1920, height: 1080, refresh_rate: d(60.0), refresh_text: "60.000".to_string() },
                    IpcOutputMode { id: 4, width: 3840, height: 2160, refresh_rate: d(30.0), refresh_text: "30.000".to_string() },
                ],
            })
        } else {
            None
        },
    }
}

#[test]
fn monitors_are_reported_in_order() {
    let outputs = vec![output("HDMI-A-1", "Unknown", false), output("eDP-1", "Panel", true), output("DP-2", "Screen", true)];
    let (monitors, logical) = get_current_state(&outputs);
    let names: Vec<&str> = monitors.iter().map(|m| m.names.connector.as_str()).collect();
    assert_eq!(names, vec!["DP-2", "HDMI-A-1", "eDP-1"]);
    assert_eq!(monitors[0].display_name, "Acme Screen");
    assert_eq!(monitors[1].display_name, "Acme");
    assert_eq!(monitors[2].display_name, "Built-in display");
    assert!(monitors[2].is_builtin && !monitors[0].is_builtin);
    assert!(monitors[1].modes.is_empty());
    assert_eq!(monitors[0].modes[1].id, "3840x2160@30.000");
    assert!(monitors[0].modes[1].is_current && !monitors[0].modes[0].is_current);
    assert_eq!(monitors[0].modes[1].supported_scales, vec![1, 2, 3]);
    assert_eq!(monitors[0].names.serial, "DP-2");
    assert_eq!(logical.len(), 2);
    assert_eq!(logical.iter().filter(|l| l.is_primary).count(), 1);
    assert!(logical[1].is_primary);
    assert_eq!((logical[0].x, logical[0].y, logical[0].transform), (5, 6, 1));
}

#[test]
fn panels_scales_and_refusals() {
    assert!(is_laptop_panel("eDP-1") && is_laptop_panel("LVDS-2") && is_laptop_panel("eDP"));
    assert!(!is_laptop_panel("DP-1") && !is_laptop_panel("eDPX-1"));
    assert_eq!(supported_scales(1920, 1080), vec![1]);
    assert_eq!(supported_scales(2560, 1440), vec![1, 2]);
    assert_eq!(make_display_name(&output("x", "Unknown", false), false), "Acme");
    assert_eq!(apply_monitors_config(0), Ok(()));
    assert_eq!(apply_monitors_config(1), Err("Applying monitor configuration is not supported".to_string()));
    let mut windows = HashMap::new();
    windows.insert(4, WindowProperties { title: "t".to_string(), app_id: "a".to_string() });
    let got = get_windows(true, Some(StateToIntrospect::Windows(windows))).unwrap();
    assert_eq!(got.get(&4).unwrap().title, "t");
    assert!(get_windows(false, None).is_err());
    assert!(get_windows(true, None).is_err());
}
