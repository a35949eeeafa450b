use mineru_sdk::{
    batch_file_request_to_vec, batch_url_request_to_vec, decode_extract_task_request,
    default_language, default_model_version, default_true, extract_task_request_to_vec, BatchFileItem,
    BatchFileRequest, BatchUrlItem, BatchUrlRequest, ExtractTaskRequest, JsonError, MineruError,
};

fn sample_request() -> ExtractTaskRequest {
    ExtractTaskRequest {
        url: "http://example.com".to_string(),
        is_ocr: false,
        enable_formula: true,
        enable_table: true,
        language: "ch".to_string(),
        data_id: None,
        callback: None,
        seed: None,
        extra_formats: None,
        page_ranges: None,
        model_version: "pipeline".to_string(),
    }
}

fn parse(bytes: &[u8]) -> serde_json::Value {
    serde_json::from_slice(bytes).unwrap()
}

#[test]
fn test_struct_serialization() {
    let req = sample_request();
    let json = String::from_utf8(extract_task_request_to_vec(&req)).unwrap();
    assert!(json.contains("http://example.com"));
}

#[test]
fn defaults_are_documented_values() {
    assert!(default_true());
    assert_eq!(default_language(), "ch");
    assert_eq!(default_model_version(), "pipeline");
}

#[test]
fn round_trip_keeps_every_field() {
    let req = ExtractTaskRequest {
        url: "https://a.b/doc \"quoted\".pdf".to_string(),
        is_ocr: true,
        enable_formula: false,
        enable_table: false,
        language: "en".to_string(),
        data_id: Some("d-1".to_string()),
        callback: Some("https://cb".to_string()),
        seed: Some("s".to_string()),
        extra_formats: Some(vec!["docx".to_string(), "html".to_string()]),
        page_ranges: Some("1-3,5".to_string()),
        model_version: "vlm".to_string(),
    };
    let back = decode_extract_task_request(&extract_task_request_to_vec(&req)).unwrap();
    assert_eq!(back, req);
}

#[test]
fn absent_fields_read_as_defaults() {
    let back = decode_extract_task_request(br#"{"url":"http://x"}"#).unwrap();
    assert_eq!(back.url, "http://x");
    assert!(!back.is_ocr);
    assert!(back.enable_formula);
    assert!(back.enable_table);
    assert_eq!(back.language, "ch");
    assert_eq!(back.model_version, "pipeline");
    assert_eq!(back.data_id, None);
    assert_eq!(back.extra_formats, None);
}

#[test]
fn null_optional_fields_read_as_absent() {
    let back = decode_extract_task_request(br#"{"url":"u","seed":null,"extra_formats":null}"#).unwrap();
    assert_eq!(back.seed, None);
    assert_eq!(back.extra_formats, None);
}

#[test]
fn absent_optional_fields_have_no_key() {
    let v = parse(&extract_task_request_to_vec(&sample_request()));
    let obj = v.as_object().unwrap();
    for key in ["data_id", "callback", "seed", "extra_formats", "page_ranges"] {
        assert!(!obj.contains_key(key), "{key}");
    }
    assert_eq!(obj.len(), 6);
    assert_eq!(v["url"], "http://example.com");
    assert_eq!(v["is_ocr"], false);
    assert_eq!(v["enable_formula"], true);
    assert_eq!(v["model_version"], "pipeline");
}

#[test]
fn present_optional_fields_have_their_key() {
    let mut req = sample_request();
    req.data_id = Some("id".to_string());
    req.extra_formats = Some(vec![]);
    req.page_ranges = Some("2".to_string());
    let v = parse(&extract_task_request_to_vec(&req));
    assert_eq!(v["data_id"], "id");
    assert_eq!(v["extra_formats"], serde_json::Value::Array(vec![]));
    assert_eq!(v["page_ranges"], "2");
    assert!(v.get("seed").is_none());
}

#[test]
fn request_of_wrong_shape_is_schema_error() {
    let r = decode_extract_task_request(br#"{"url":"u","is_ocr":"yes"}"#);
    assert!(matches!(r, Err(MineruError::Json(JsonError::Schema))));
    let r = decode_extract_task_request(br#"{"is_ocr":true}"#);
    assert!(matches!(r, Err(MineruError::Json(JsonError::Schema))));
    let r = decode_extract_task_request(b"[1,2]");
    assert!(matches!(r, Err(MineruError::Json(JsonError::Schema))));
}

#[test]
fn request_that_is_not_json_is_syntax_error() {
    let r = decode_extract_task_request(b"{url:");
    assert!(matches!(r, Err(MineruError::Json(JsonError::Syntax(_)))));
}

#[test]
fn batch_file_request_json_shape() {
    let req = BatchFileRequest {
        files: vec![
            BatchFileItem { name: "a.pdf".to_string(), data_id: None },
            BatchFileItem { name: "b.pdf".to_string(), data_id: Some("b".to_string()) },
        ],
        model_version: "pipeline".to_string(),
    };
    let v = parse(&batch_file_request_to_vec(&req));
    assert_eq!(v["model_version"], "pipeline");
    let files = v["files"].as_array().unwrap();
    assert_eq!(files.len(), 2);
    assert_eq!(files[0]["name"], "a.pdf");
    assert!(files[0].get("data_id").is_none());
    assert_eq!(files[1]["name"], "b.pdf");
    assert_eq!(files[1]["data_id"], "b");
}

#[test]
fn batch_url_request_json_shape() {
    let req = BatchUrlRequest {
        files: vec![BatchUrlItem { url: "https://x/y.pdf".to_string(), data_id: None }],
        model_version: "vlm".to_string(),
    };
    let v = parse(&batch_url_request_to_vec(&req));
    assert_eq!(v["model_version"], "vlm");
    assert_eq!(v["files"][0]["url"], "https://x/y.pdf");
    assert!(v["files"][0].get("data_id").is_none());
    assert_eq!(v.as_object().unwrap().len(), 2);
}
