use rtwo::codec::{api_url, get_postdata, Deframer};

fn pairs(kv: &[(&str, &str)]) -> Vec<(String, String)> {
    kv.iter().map(|(k, v)| (k.to_string(), v.to_string())).collect()
}

#[test]
fn postdata_quotes_plain_fields_and_leaves_stream_raw() {
    let body = get_postdata(&pairs(&[("model", "llama3"), ("prompt", "hi"), ("stream", "false")]));
    assert_eq!(body, "{\"model\":\"llama3\",\"prompt\":\"hi\",\"stream\":false}");
}

#[test]
fn postdata_leaves_context_raw() {
    let body = get_postdata(&pairs(&[("name", "x"), ("context", "[1,2,3]")]));
    assert_eq!(body, "{\"name\":\"x\",\"context\":[1,2,3]}");
}

#[test]
fn postdata_single_pair_has_no_comma() {
    let body = get_postdata(&pairs(&[("name", "llama3")]));
    assert_eq!(body, "{\"name\":\"llama3\"}");
}

#[test]
fn postdata_parses_as_json() {
    let body = get_postdata(&pairs(&[("model", "llama3"), ("stream", "true")]));
    let v: serde_json::Value = serde_json::from_str(&body).unwrap();
    assert_eq!(v["model"], serde_json::Value::String("llama3".to_string()));
    assert_eq!(v["stream"], serde_json::Value::Bool(true));
}

#[test]
fn deframe_split_record_reconstructs_identical_parse() {
    let whole = "{\"response\":\"Hel\",\"done\":false}";
    let mut d = Deframer::new();
    assert!(d.feed("{\"response\":").is_none());
    assert!(d.feed("\"Hel\",\"do").is_none());
    let rec = d.feed("ne\":false}").expect("complete record");
    assert_eq!(rec, whole);
    let direct: serde_json::Value = serde_json::from_str(whole).unwrap();
    let reassembled: serde_json::Value = serde_json::from_str(&rec).unwrap();
    assert_eq!(direct, reassembled);
}

#[test]
fn deframe_whole_records_come_out_in_order() {
    let records = [
        "{\"status\":\"a\"}",
        "{\"status\":\"b\"}",
        "{\"status\":\"success\"}",
    ];
    let mut d = Deframer::new();
    for r in records {
        let out = d.feed(r).expect("each complete record is emitted at once");
        assert_eq!(out, r);
    }
}

#[test]
fn deframe_ignores_trailing_whitespace() {
    let mut d = Deframer::new();
    let out = d.feed("{\"done\":true}\n").expect("trailing newline is trimmed");
    assert_eq!(out, "{\"done\":true}\n");
    let v: serde_json::Value = serde_json::from_str(&out).unwrap();
    assert_eq!(v["done"], serde_json::Value::Bool(true));
}

#[test]
fn deframe_buffer_resets_after_a_record() {
    let mut d = Deframer::new();
    assert!(d.feed("{\"a\":1}").is_some());
    assert!(d.feed("{\"b\":").is_none());
    let out = d.feed("2}").unwrap();
    assert_eq!(out, "{\"b\":2}");
}

#[test]
fn api_url_builds_endpoint() {
    assert_eq!(api_url("localhost", 11434, "/api/tags"), "http://localhost:11434/api/tags");
    assert_eq!(api_url("192.168.1.5", 80, ""), "http://192.168.1.5:80");
}
