use mineru_sdk::{
    BatchFileItem, BatchFileRequest, BatchUrlItem, BatchUrlRequest, ExtractTaskRequest, HttpMethod,
    HttpRequest, MineruClient,
};

fn header<'a>(r: &'a HttpRequest, name: &str) -> Option<&'a str> {
    r.headers.iter().find(|(k, _)| k == name).map(|(_, v)| v.as_str())
}

fn client() -> MineruClient {
    MineruClient::new("tok-123".to_string())
}

#[test]
fn new_fixes_production_host() {
    assert_eq!(client().base_url(), "https://mineru.net");
}

#[test]
fn get_task_result_is_get_without_body() {
    let r = client().get_task_result_request("t1");
    assert_eq!(r.method, HttpMethod::Get);
    assert_eq!(r.url, "https://mineru.net/api/v4/extract/task/t1");
    assert!(r.body.is_none());
    assert_eq!(header(&r, "Authorization"), Some("Bearer tok-123"));
    assert_eq!(r.headers.len(), 1);
}

#[test]
fn get_batch_results_path() {
    let r = client().get_batch_results_request("b9");
    assert_eq!(r.method, HttpMethod::Get);
    assert_eq!(r.url, "https://mineru.net/api/v4/extract-results/batch/b9");
    assert!(r.body.is_none());
    assert_eq!(header(&r, "Authorization"), Some("Bearer tok-123"));
}

#[test]
fn create_extract_task_is_json_post() {
    let req = ExtractTaskRequest {
        url: "http://example.com/a.pdf".to_string(),
        is_ocr: false,
        enable_formula: true,
        enable_table: true,
        language: "ch".to_string(),
        data_id: None,
        callback: None,
        seed: None,
        extra_formats: None,
        page_ranges: None,
        model_version: "pipeline".to_string(),
    };
    let r = client().create_extract_task_request(&req);
    assert_eq!(r.method, HttpMethod::Post);
    assert_eq!(r.url, "https://mineru.net/api/v4/extract/task");
    assert_eq!(header(&r, "Authorization"), Some("Bearer tok-123"));
    assert_eq!(header(&r, "Content-Type"), Some("application/json"));
    let body: serde_json::Value = serde_json::from_slice(r.body.as_ref().unwrap()).unwrap();
    assert_eq!(body["url"], "http://example.com/a.pdf");
}

#[test]
fn batch_file_upload_urls_is_json_post() {
    let req = BatchFileRequest {
        files: vec![BatchFileItem { name: "a.pdf".to_string(), data_id: None }],
        model_version: "pipeline".to_string(),
    };
    let r = client().batch_file_upload_urls_request(&req);
    assert_eq!(r.method, HttpMethod::Post);
    assert_eq!(r.url, "https://mineru.net/api/v4/file-urls/batch");
    assert_eq!(header(&r, "Content-Type"), Some("application/json"));
    assert_eq!(header(&r, "Authorization"), Some("Bearer tok-123"));
    let body: serde_json::Value = serde_json::from_slice(r.body.as_ref().unwrap()).unwrap();
    assert_eq!(body["files"][0]["name"], "a.pdf");
}

#[test]
fn batch_url_upload_is_json_post() {
    let req = BatchUrlRequest {
        files: vec![BatchUrlItem { url: "https://x".to_string(), data_id: Some("d".to_string()) }],
        model_version: "pipeline".to_string(),
    };
    let r = client().batch_url_upload_request(&req);
    assert_eq!(r.method, HttpMethod::Post);
    assert_eq!(r.url, "https://mineru.net/api/v4/extract/task/batch");
    assert_eq!(header(&r, "Authorization"), Some("Bearer tok-123"));
    let body: serde_json::Value = serde_json::from_slice(r.body.as_ref().unwrap()).unwrap();
    assert_eq!(body["files"][0]["data_id"], "d");
}
