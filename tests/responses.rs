use mineru_sdk::{
    decode_batch_file_response, decode_batch_result_response, decode_batch_url_response,
    decode_extract_task_response, decode_task_result_response, JsonError, MineruError,
};

#[test]
fn extract_task_response_gives_task_id() {
    let body = br#"{"code":0,"msg":"ok","trace_id":"t1","data":{"task_id":"abc123"}}"#;
    let r = decode_extract_task_response(body).unwrap();
    assert_eq!(r.data.task_id, "abc123");
    assert_eq!(r.code, 0);
    assert_eq!(r.msg, "ok");
    assert_eq!(r.trace_id, "t1");
}

fn is_syntax<T>(r: &Result<T, MineruError>) -> bool {
    matches!(r, Err(MineruError::Json(JsonError::Syntax(_))))
}

fn is_schema<T>(r: &Result<T, MineruError>) -> bool {
    matches!(r, Err(MineruError::Json(JsonError::Schema)))
}

#[test]
fn malformed_body_is_serialization_error_everywhere() {
    let body = b"<html>502 Bad Gateway</html>";
    assert!(is_syntax(&decode_extract_task_response(body)));
    assert!(is_syntax(&decode_task_result_response(body)));
    assert!(is_syntax(&decode_batch_file_response(body)));
    assert!(is_syntax(&decode_batch_url_response(body)));
    assert!(is_syntax(&decode_batch_result_response(body)));
}

#[test]
fn non_zero_code_is_api_error() {
    let body = br#"{"code":-10002,"msg":"invalid token","trace_id":"x","data":null}"#;
    for r in [
        decode_extract_task_response(body).map(|_| ()),
        decode_task_result_response(body).map(|_| ()),
        decode_batch_file_response(body).map(|_| ()),
        decode_batch_url_response(body).map(|_| ()),
        decode_batch_result_response(body).map(|_| ()),
    ] {
        match r {
            Err(MineruError::Api(m)) => assert_eq!(m, "invalid token"),
            other => panic!("unexpected {other:?}"),
        }
    }
}

#[test]
fn missing_status_is_schema_error() {
    assert!(is_schema(&decode_extract_task_response(br#"{"msg":"ok","data":{"task_id":"a"}}"#)));
    assert!(is_schema(&decode_batch_url_response(b"[]")));
}

#[test]
fn wrong_payload_is_schema_error() {
    let body = br#"{"code":0,"msg":"ok","trace_id":"t","data":{"task_id":7}}"#;
    assert!(is_schema(&decode_extract_task_response(body)));
    let body = br#"{"code":0,"msg":"ok","trace_id":"t","data":{"batch_id":"b","files":["u",1]}}"#;
    assert!(is_schema(&decode_batch_file_response(body)));
}

#[test]
fn task_result_with_progress() {
    let body = br#"{"code":0,"msg":"ok","trace_id":"t","data":{"task_id":"t1","state":"running",
        "err_msg":"","extract_progress":{"extracted_pages":3,"total_pages":10,"start_time":"2025-01-01 10:00:00"}}}"#;
    let r = decode_task_result_response(body).unwrap();
    assert_eq!(r.data.task_id, "t1");
    assert_eq!(r.data.state, "running");
    assert_eq!(r.data.err_msg.as_deref(), Some(""));
    assert_eq!(r.data.full_zip_url, None);
    assert_eq!(r.data.data_id, None);
    let p = r.data.extract_progress.unwrap();
    assert_eq!((p.extracted_pages, p.total_pages), (3, 10));
    assert_eq!(p.start_time, "2025-01-01 10:00:00");
}

#[test]
fn task_result_done_without_progress() {
    let body = br#"{"code":0,"msg":"ok","trace_id":"t","data":{"task_id":"t1","state":"done",
        "full_zip_url":"https://cdn/x.zip","extract_progress":null}}"#;
    let r = decode_task_result_response(body).unwrap();
    assert_eq!(r.data.full_zip_url.as_deref(), Some("https://cdn/x.zip"));
    assert!(r.data.extract_progress.is_none());
}

#[test]
fn page_count_beyond_i32_is_schema_error() {
    let body = br#"{"code":0,"msg":"ok","trace_id":"t","data":{"task_id":"t1","state":"running",
        "extract_progress":{"extracted_pages":3,"total_pages":4294967296,"start_time":"s"}}}"#;
    assert!(is_schema(&decode_task_result_response(body)));
}

#[test]
fn batch_file_urls_keep_order() {
    let body = br#"{"code":0,"msg":"ok","trace_id":"t","data":{"batch_id":"b1","files":["https://u/1","https://u/2"]}}"#;
    let r = decode_batch_file_response(body).unwrap();
    assert_eq!(r.data.batch_id, "b1");
    assert_eq!(r.data.files, vec!["https://u/1".to_string(), "https://u/2".to_string()]);
}

#[test]
fn batch_url_gives_batch_id() {
    let body = br#"{"code":0,"msg":"ok","trace_id":"t","data":{"batch_id":"b2"}}"#;
    assert_eq!(decode_batch_url_response(body).unwrap().data.batch_id, "b2");
}

#[test]
fn batch_results_per_file() {
    let body = br#"{"code":0,"msg":"ok","trace_id":"t","data":{"batch_id":"b3","extract_result":[
        {"file_name":"a.pdf","state":"done","full_zip_url":"https://z/a.zip","err_msg":""},
        {"state":"running","data_id":"d2","extract_progress":{"extracted_pages":1,"total_pages":2,"start_time":"s"}}]}}"#;
    let r = decode_batch_result_response(body).unwrap();
    assert_eq!(r.data.batch_id, "b3");
    assert_eq!(r.data.extract_result.len(), 2);
    let a = &r.data.extract_result[0];
    assert_eq!(a.file_name.as_deref(), Some("a.pdf"));
    assert_eq!(a.state, "done");
    assert_eq!(a.full_zip_url.as_deref(), Some("https://z/a.zip"));
    let b = &r.data.extract_result[1];
    assert_eq!(b.file_name, None);
    assert_eq!(b.data_id.as_deref(), Some("d2"));
    assert_eq!(b.extract_progress.as_ref().unwrap().total_pages, 2);
}

#[test]
fn batch_results_with_bad_item_is_schema_error() {
    let body = br#"{"code":0,"msg":"ok","trace_id":"t","data":{"batch_id":"b3","extract_result":[{"file_name":"a"}]}}"#;
    assert!(is_schema(&decode_batch_result_response(body)));
}
