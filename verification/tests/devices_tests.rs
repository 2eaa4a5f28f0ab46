use player_core::devices::{
    card_part, device_candidates, device_label, hw_device_name, no_device_error, unique_names,
};

fn strings(v: &[&str]) -> Vec<String> {
    v.iter().map(|s| s.to_string()).collect()
}

#[test]
fn hw_names() {
    assert_eq!(hw_device_name(1, 0), "hw:1,0");
    assert_eq!(hw_device_name(31, 12), "hw:31,12");
}

#[test]
fn configured_device_is_tried_alone() {
    assert_eq!(device_candidates("  Generic ", Some(1), &strings(&["hw:0,0"])), strings(&["Generic", "hw:1,0"]));
    assert_eq!(device_candidates("hw:2,0", None, &Vec::new()), strings(&["hw:2,0"]));
}

#[test]
fn unconfigured_tries_hints_then_scan() {
    let hints = strings(&["default", "hw:0,0", "sysdefault:CARD=x", "hw:1,3"]);
    let c = device_candidates(" ", None, &hints);
    assert_eq!(c.len(), 2 + 1024);
    assert_eq!(c[0], "hw:0,0");
    assert_eq!(c[1], "hw:1,3");
    assert_eq!(c[2], "hw:0,0");
    assert_eq!(c[3], "hw:0,1");
    assert_eq!(c[2 + 32], "hw:1,0");
    assert_eq!(c[2 + 1023], "hw:31,31");
}

#[test]
fn device_list_has_each_name_once() {
    assert_eq!(unique_names(&strings(&["a", "b", "a", "c", "b"])), strings(&["a", "b", "c"]));
    assert!(unique_names(&Vec::new()).is_empty());
}

#[test]
fn device_labels() {
    assert_eq!(card_part("hw:1,0"), Some("hw:1".to_string()));
    assert_eq!(card_part("hw:1,0,2"), Some("hw:1".to_string()));
    assert_eq!(card_part("default"), None);
    assert_eq!(device_label("hw:1,0", Some("HDA Intel")), "hw:1,0 \u{b7} HDA Intel");
    assert_eq!(device_label("hw:1,0", None), "hw:1,0");
}

#[test]
fn no_device_messages() {
    assert_eq!(no_device_error("  hw:9,9 "), "cannot open configured ALSA device 'hw:9,9'");
    assert_eq!(no_device_error(""), "no usable hw: playback device found");
}
