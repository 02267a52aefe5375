use compactor_gui::decode::{decode_request, decode_response};
use compactor_gui::encode::{encode_request, encode_response};
use compactor_gui::protocol::{GuiRequest, GuiResponse};

fn req_round_trip(msg: GuiRequest) {
    let text = encode_request(&msg);
    assert_eq!(decode_request(&text), Some(msg));
}

fn resp_round_trip(msg: GuiResponse) {
    let text = encode_response(&msg);
    assert_eq!(decode_response(&text), Some(msg));
}

#[test]
fn encode_unit_requests_exactly() {
    assert_eq!(encode_request(&GuiRequest::ResetConfig), "{\"type\":\"ResetConfig\"}");
    assert_eq!(encode_request(&GuiRequest::ChooseFolder), "{\"type\":\"ChooseFolder\"}");
    assert_eq!(encode_request(&GuiRequest::Compress), "{\"type\":\"Compress\"}");
    assert_eq!(encode_request(&GuiRequest::Decompress), "{\"type\":\"Decompress\"}");
    assert_eq!(encode_request(&GuiRequest::Pause), "{\"type\":\"Pause\"}");
    assert_eq!(encode_request(&GuiRequest::Resume), "{\"type\":\"Resume\"}");
    assert_eq!(encode_request(&GuiRequest::Analyse), "{\"type\":\"Analyse\"}");
    assert_eq!(encode_request(&GuiRequest::Stop), "{\"type\":\"Stop\"}");
    assert_eq!(encode_request(&GuiRequest::Quit), "{\"type\":\"Quit\"}");
}

#[test]
fn encode_open_url_exactly() {
    let msg = GuiRequest::OpenUrl { url: String::from("https://example.com/a?b=1") };
    assert_eq!(
        encode_request(&msg),
        "{\"type\":\"OpenUrl\",\"url\":\"https://example.com/a?b=1\"}"
    );
}

#[test]
fn encode_save_config_exactly() {
    let msg = GuiRequest::SaveConfig {
        decimal: true,
        compression: String::from("lzx"),
        excludes: String::from("*.jpg\n*.png"),
    };
    assert_eq!(
        encode_request(&msg),
        "{\"type\":\"SaveConfig\",\"decimal\":true,\"compression\":\"lzx\",\"excludes\":\"*.jpg\\n*.png\"}"
    );
}

#[test]
fn encode_escapes_specials() {
    let msg = GuiRequest::OpenUrl { url: String::from("a\"b\\c\nd\re\tf") };
    assert_eq!(
        encode_request(&msg),
        "{\"type\":\"OpenUrl\",\"url\":\"a\\\"b\\\\c\\nd\\re\\tf\"}"
    );
    req_round_trip(msg);
}

#[test]
fn encode_status_pct_absent_vs_zero() {
    let absent = GuiResponse::Status { status: String::from("working"), pct: None };
    let zero = GuiResponse::Status { status: String::from("working"), pct: Some(0) };
    let some = GuiResponse::Status { status: String::from("working"), pct: Some(42) };
    assert_eq!(encode_response(&absent), "{\"type\":\"Status\",\"status\":\"working\",\"pct\":null}");
    assert_eq!(encode_response(&zero), "{\"type\":\"Status\",\"status\":\"working\",\"pct\":0}");
    assert_eq!(encode_response(&some), "{\"type\":\"Status\",\"status\":\"working\",\"pct\":42}");
    assert_ne!(encode_response(&absent), encode_response(&zero));
    resp_round_trip(absent);
    resp_round_trip(zero);
    resp_round_trip(some);
}

#[test]
fn encode_responses_exactly() {
    assert_eq!(
        encode_response(&GuiResponse::Version {
            date: String::from("2020-01-02"),
            version: String::from("1.0.0-abcd"),
        }),
        "{\"type\":\"Version\",\"date\":\"2020-01-02\",\"version\":\"1.0.0-abcd\"}"
    );
    assert_eq!(
        encode_response(&GuiResponse::Config {
            decimal: false,
            compression: String::from("xpress8k"),
            excludes: String::from("*.zip"),
        }),
        "{\"type\":\"Config\",\"decimal\":false,\"compression\":\"xpress8k\",\"excludes\":\"*.zip\"}"
    );
    assert_eq!(
        encode_response(&GuiResponse::Folder { path: String::from("C:\\data\\pics") }),
        "{\"type\":\"Folder\",\"path\":\"C:\\\\data\\\\pics\"}"
    );
    assert_eq!(
        encode_response(&GuiResponse::FolderSummary { info: String::from("7 files") }),
        "{\"type\":\"FolderSummary\",\"info\":\"7 files\"}"
    );
    assert_eq!(encode_response(&GuiResponse::Paused), "{\"type\":\"Paused\"}");
    assert_eq!(encode_response(&GuiResponse::Resumed), "{\"type\":\"Resumed\"}");
    assert_eq!(encode_response(&GuiResponse::Scanned), "{\"type\":\"Scanned\"}");
    assert_eq!(encode_response(&GuiResponse::Stopped), "{\"type\":\"Stopped\"}");
    assert_eq!(encode_response(&GuiResponse::Compacting), "{\"type\":\"Compacting\"}");
}

#[test]
fn round_trip_every_request() {
    req_round_trip(GuiRequest::OpenUrl { url: String::from("https://example.com") });
    req_round_trip(GuiRequest::SaveConfig {
        decimal: false,
        compression: String::from("xpress16k"),
        excludes: String::from(""),
    });
    req_round_trip(GuiRequest::ResetConfig);
    req_round_trip(GuiRequest::ChooseFolder);
    req_round_trip(GuiRequest::Compress);
    req_round_trip(GuiRequest::Decompress);
    req_round_trip(GuiRequest::Pause);
    req_round_trip(GuiRequest::Resume);
    req_round_trip(GuiRequest::Analyse);
    req_round_trip(GuiRequest::Stop);
    req_round_trip(GuiRequest::Quit);
}

#[test]
fn round_trip_every_response() {
    resp_round_trip(GuiResponse::Version {
        date: String::from("2019-12-31"),
        version: String::from("0.9"),
    });
    resp_round_trip(GuiResponse::Config {
        decimal: true,
        compression: String::from("lzx"),
        excludes: String::from("a\nb\nc"),
    });
    resp_round_trip(GuiResponse::Folder { path: String::from("/tmp/x y") });
    resp_round_trip(GuiResponse::Status { status: String::from("sizing \"big\" dir"), pct: Some(4294967295) });
    resp_round_trip(GuiResponse::FolderSummary { info: String::from("") });
    resp_round_trip(GuiResponse::Paused);
    resp_round_trip(GuiResponse::Resumed);
    resp_round_trip(GuiResponse::Scanned);
    resp_round_trip(GuiResponse::Stopped);
    resp_round_trip(GuiResponse::Compacting);
}

#[test]
fn decode_rejects_malformed() {
    assert_eq!(decode_request(""), None);
    assert_eq!(decode_request("hello"), None);
    assert_eq!(decode_request("{\"type\":\"Nonsense\"}"), None);
    assert_eq!(decode_request("{\"type\":\"Quit\"} "), None);
    assert_eq!(decode_request("{\"type\":\"Quit\""), None);
    assert_eq!(decode_request("{\"type\":\"OpenUrl\"}"), None);
    assert_eq!(decode_request("{\"type\":\"OpenUrl\",\"url\":\"unterminated}"), None);
    assert_eq!(decode_request("{\"type\":\"OpenUrl\",\"url\":\"bad\\qescape\"}"), None);
    assert_eq!(decode_response("{\"type\":\"Status\",\"status\":\"s\",\"pct\":}"), None);
    assert_eq!(decode_response("{\"type\":\"Status\",\"status\":\"s\",\"pct\":4294967296}"), None);
    assert_eq!(decode_response("{\"type\":\"Status\",\"status\":\"s\",\"pct\":12x}"), None);
}

#[test]
fn wire_text_is_json_for_the_ui_dispatcher() {
    let text = encode_request(&GuiRequest::SaveConfig {
        decimal: true,
        compression: String::from("lzx"),
        excludes: String::from("*.jpg\n*.mp4"),
    });
    let v: serde_json::Value = serde_json::from_str(&text).unwrap();
    assert_eq!(v["type"], "SaveConfig");
    assert_eq!(v["decimal"], true);
    assert_eq!(v["compression"], "lzx");
    assert_eq!(v["excludes"], "*.jpg\n*.mp4");

    let text = encode_response(&GuiResponse::Status {
        status: String::from("scan \"x\""),
        pct: Some(55),
    });
    let v: serde_json::Value = serde_json::from_str(&text).unwrap();
    assert_eq!(v["type"], "Status");
    assert_eq!(v["status"], "scan \"x\"");
    assert_eq!(v["pct"], 55);

    let text = encode_response(&GuiResponse::Status { status: String::from("idle"), pct: None });
    let v: serde_json::Value = serde_json::from_str(&text).unwrap();
    assert!(v["pct"].is_null());
}
