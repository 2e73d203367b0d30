use self_updater::config::{group_by_level, join_url, ApiConfig};
use self_updater::helper::{helper_script, unix_script, windows_script};
use self_updater::submit::{
    build_payload, has_suffix, payload_from_encoded, pick_files, pick_files_lowered,
    request_body, response_file_name,
};
use std::io::Read;

fn api(level: Option<u8>) -> ApiConfig {
    ApiConfig {
        endpoint: "/e".to_string(),
        carpeta_archivos: "dir".to_string(),
        concurrencia: level,
        comprimir: None,
    }
}

#[test]
fn groups_run_in_ascending_order() {
    let apis = vec![api(Some(3)), api(None), api(Some(1)), api(Some(0)), api(Some(3))];
    let g = group_by_level(&apis);
    assert_eq!(g, vec![(0, vec![3]), (1, vec![1, 2]), (3, vec![0, 4])]);
    assert!(group_by_level(&vec![]).is_empty());
    assert_eq!(group_by_level(&vec![api(Some(255))]), vec![(255, vec![0])]);
}

#[test]
fn defaults_of_an_endpoint() {
    assert_eq!(api(None).level(), 1);
    assert!(!api(None).compress());
    let mut a = api(Some(7));
    a.comprimir = Some(true);
    assert_eq!(a.level(), 7);
    assert!(a.compress());
}

#[test]
fn urls_are_joined_as_they_are() {
    assert_eq!(join_url("https://h/api", "/x"), "https://h/api/x");
}

#[test]
fn first_json_and_first_xml_are_picked_in_any_case() {
    let names: Vec<String> = ["a.txt", "B.JSON", "c.xml", "d.json", "E.Xml"]
        .iter()
        .map(|s| s.to_string())
        .collect();
    assert_eq!(pick_files(&names), (Some(1), Some(2)));
    let none: Vec<String> = vec!["json".to_string(), "x.xmlx".to_string()];
    assert_eq!(pick_files(&none), (None, None));
    let lowered: Vec<String> = vec!["B.JSON".to_string(), "c.json".to_string()];
    assert_eq!(pick_files_lowered(&lowered), (Some(1), None));
}

#[test]
fn suffix_test() {
    assert!(has_suffix("a.json", ".json"));
    assert!(has_suffix(".json", ".json"));
    assert!(!has_suffix("json", ".json"));
    assert!(has_suffix("x", ""));
}

#[test]
fn payload_frames_both_members() {
    assert_eq!(payload_from_encoded(None, None), r#"{"rips":null,"xmlFevFile":null}"#);
    assert_eq!(
        payload_from_encoded(Some(r#"{"a":1}"#), Some("QQ==")),
        r#"{"rips":{"a":1},"xmlFevFile":"QQ=="}"#
    );
}

#[test]
fn xml_is_sent_base64_encoded() {
    assert_eq!(build_payload(None, Some("<a/>")), r#"{"rips":null,"xmlFevFile":"PGEvPg=="}"#);
    assert_eq!(build_payload(Some("[]"), Some("")), r#"{"rips":[],"xmlFevFile":""}"#);
    assert_eq!(build_payload(Some("1"), None), r#"{"rips":1,"xmlFevFile":null}"#);
}

#[test]
fn response_file_names() {
    assert_eq!(response_file_name("datos", 1, 0), "datos_envio1_res.txt");
    assert_eq!(response_file_name("datos", 12, 1), "datos_envio12_res_1.txt");
    assert_eq!(response_file_name("f", 255, 10), "f_envio255_res_10.txt");
    assert_eq!(response_file_name("f", 0, 0), "f_envio0_res.txt");
}

#[test]
fn unix_helper_script_text() {
    let s = unix_script("/bin/app", "/bin/app.new", "/bin/app.updating");
    assert_eq!(
        s,
        "#!/bin/bash\nsleep 3\nrm -f \"/bin/app\"\nmv \"/bin/app.new\" \"/bin/app\"\nchmod +x \"/bin/app\"\nrm -f \"/bin/app.updating\"\n\"/bin/app\" &\n"
    );
    assert_eq!(helper_script(false, "a", "b", "c"), unix_script("a", "b", "c"));
}

#[test]
fn windows_helper_script_text() {
    let s = windows_script("C:\\app.exe", "C:\\app.new", "C:\\app.updating");
    assert!(s.starts_with("@echo off\nchcp 65001 >nul\n"));
    assert!(s.contains("move /Y \"C:\\app.new\" \"C:\\app.exe\"\n"));
    assert!(s.contains("del /F /Q \"C:\\app.updating\"\n"));
    assert!(s.contains("if exist \"C:\\app.exe\" ( timeout /t 1 /nobreak >nul & goto retry )\n"));
    assert!(s.ends_with("start \"\" \"C:\\app.exe\"\ntimeout /t 1 /nobreak >nul\ndel \"%~f0\"\n"));
    assert_eq!(helper_script(true, "a", "b", "c"), windows_script("a", "b", "c"));
}

#[test]
fn request_body_plain_or_gzip() {
    let payload = r#"{"rips":null,"xmlFevFile":"QQ=="}"#;
    assert_eq!(request_body(payload, false), Some(payload.as_bytes().to_vec()));
    let z = request_body(payload, true).unwrap();
    assert_eq!(&z[..3], &[0x1f, 0x8b, 8]);
    assert_ne!(z, payload.as_bytes().to_vec());
    let mut back = String::new();
    flate2::read::GzDecoder::new(&z[..]).read_to_string(&mut back).unwrap();
    assert_eq!(back, payload);
    assert_eq!(request_body("ñ", false), Some(vec![0xc3, 0xb1]));
}
