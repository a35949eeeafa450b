use vstd::prelude::*;
use crate::error::{JsonError, MineruError};
use crate::fields::{
    get_i32, get_opt_str, get_str, get_strs, i32_at, opt_str_at, opt_view, str_at, strings_view, strs_at,
};
use crate::json::{field_of, json_as_array, json_from_bytes, json_get, json_is_null, json_of, parse_json, JsonModel};
use crate::types::{
    BatchExtractResult, BatchFileData, BatchFileResponse, BatchResultData, BatchResultResponse, BatchUrlData,
    BatchUrlResponse, ExtractProgress, ExtractTaskData, ExtractTaskResponse, TaskResultData,
    TaskResultResponse,
};

verus! {

/// The status of an answer: its `code` and `msg`, where both are there.
pub open spec fn status_of(m: JsonModel) -> Option<(i32, Seq<char>)> {
    match (i32_at(m, "code"@), str_at(m, "msg"@)) {
        (Some(c), Some(s)) => Some((c, s)),
        _ => None,
    }
}

/// How reading the answer `body` comes out, where `decodes` tells which
/// documents have the expected shape: a syntax error for bytes that are not
/// JSON; a schema error where the status is missing; an API error carrying the
/// message for a non-zero code; and otherwise a record exactly when the
/// document has the expected shape.
pub open spec fn answered<T>(
    body: Seq<u8>,
    r: Result<T, MineruError>,
    decodes: spec_fn(JsonModel) -> bool,
) -> bool {
    match parse_json(body) {
        None => r matches Err(MineruError::Json(JsonError::Syntax(_))),
        Some(m) => match status_of(m) {
            None => r matches Err(MineruError::Json(JsonError::Schema)),
            Some((code, msg)) => if code != 0 {
                r matches Err(MineruError::Api(t)) && t@ == msg
            } else if decodes(m) {
                r is Ok
            } else {
                r matches Err(MineruError::Json(JsonError::Schema))
            },
        },
    }
}

/// The fields that every answer carries, and a `data` key.
pub open spec fn envelope_decodes(m: JsonModel) -> bool {
    &&& i32_at(m, "code"@) is Some
    &&& str_at(m, "msg"@) is Some
    &&& str_at(m, "trace_id"@) is Some
    &&& field_of(m, "data"@) is Some
}

pub open spec fn envelope_from(m: JsonModel, code: i32, msg: String, trace_id: String) -> bool {
    &&& i32_at(m, "code"@) == Some(code)
    &&& str_at(m, "msg"@) == Some(msg@)
    &&& str_at(m, "trace_id"@) == Some(trace_id@)
}

pub open spec fn data_of(m: JsonModel) -> JsonModel {
    field_of(m, "data"@)->Some_0
}

pub open spec fn progress_decodes(m: JsonModel) -> bool {
    &&& i32_at(m, "extracted_pages"@) is Some
    &&& i32_at(m, "total_pages"@) is Some
    &&& str_at(m, "start_time"@) is Some
}

pub open spec fn progress_from(m: JsonModel, p: ExtractProgress) -> bool {
    &&& i32_at(m, "extracted_pages"@) == Some(p.extracted_pages)
    &&& i32_at(m, "total_pages"@) == Some(p.total_pages)
    &&& str_at(m, "start_time"@) == Some(p.start_time@)
}

/// An optional progress record under `key`: absent and `null` read as `None`.
pub open spec fn opt_progress_decodes(m: JsonModel, key: Seq<char>) -> bool {
    match field_of(m, key) {
        None => true,
        Some(JsonModel::Null) => true,
        Some(d) => progress_decodes(d),
    }
}

pub open spec fn opt_progress_from(m: JsonModel, key: Seq<char>, p: Option<ExtractProgress>) -> bool {
    match field_of(m, key) {
        None => p is None,
        Some(JsonModel::Null) => p is None,
        Some(d) => p is Some && progress_from(d, p->Some_0),
    }
}

pub open spec fn extract_task_response_decodes(m: JsonModel) -> bool {
    envelope_decodes(m) && str_at(data_of(m), "task_id"@) is Some
}

pub open spec fn extract_task_response_from(m: JsonModel, r: ExtractTaskResponse) -> bool {
    envelope_from(m, r.code, r.msg, r.trace_id) && str_at(data_of(m), "task_id"@) == Some(
        r.data.task_id@,
    )
}

pub open spec fn task_result_data_decodes(d: JsonModel) -> bool {
    &&& str_at(d, "task_id"@) is Some
    &&& opt_str_at(d, "data_id"@) is Some
    &&& str_at(d, "state"@) is Some
    &&& opt_str_at(d, "full_zip_url"@) is Some
    &&& opt_str_at(d, "err_msg"@) is Some
    &&& opt_progress_decodes(d, "extract_progress"@)
}

pub open spec fn task_result_data_from(d: JsonModel, t: TaskResultData) -> bool {
    &&& str_at(d, "task_id"@) == Some(t.task_id@)
    &&& opt_str_at(d, "data_id"@) == Some(opt_view(t.data_id))
    &&& str_at(d, "state"@) == Some(t.state@)
    &&& opt_str_at(d, "full_zip_url"@) == Some(opt_view(t.full_zip_url))
    &&& opt_str_at(d, "err_msg"@) == Some(opt_view(t.err_msg))
    &&& opt_progress_from(d, "extract_progress"@, t.extract_progress)
}

pub open spec fn task_result_response_decodes(m: JsonModel) -> bool {
    envelope_decodes(m) && task_result_data_decodes(data_of(m))
}

pub open spec fn task_result_response_from(m: JsonModel, r: TaskResultResponse) -> bool {
    envelope_from(m, r.code, r.msg, r.trace_id) && task_result_data_from(data_of(m), r.data)
}

pub open spec fn batch_file_response_decodes(m: JsonModel) -> bool {
    &&& envelope_decodes(m)
    &&& str_at(data_of(m), "batch_id"@) is Some
    &&& strs_at(data_of(m), "files"@) is Some
}

pub open spec fn batch_file_response_from(m: JsonModel, r: BatchFileResponse) -> bool {
    &&& envelope_from(m, r.code, r.msg, r.trace_id)
    &&& str_at(data_of(m), "batch_id"@) == Some(r.data.batch_id@)
    &&& strs_at(data_of(m), "files"@) == Some(strings_view(r.data.files@))
}

pub open spec fn batch_url_response_decodes(m: JsonModel) -> bool {
    envelope_decodes(m) && str_at(data_of(m), "batch_id"@) is Some
}

pub open spec fn batch_url_response_from(m: JsonModel, r: BatchUrlResponse) -> bool {
    envelope_from(m, r.code, r.msg, r.trace_id) && str_at(data_of(m), "batch_id"@) == Some(
        r.data.batch_id@,
    )
}

pub open spec fn batch_extract_result_decodes(d: JsonModel) -> bool {
    &&& opt_str_at(d, "file_name"@) is Some
    &&& str_at(d, "state"@) is Some
    &&& opt_str_at(d, "full_zip_url"@) is Some
    &&& opt_str_at(d, "err_msg"@) is Some
    &&& opt_str_at(d, "data_id"@) is Some
    &&& opt_progress_decodes(d, "extract_progress"@)
}

pub open spec fn batch_extract_result_from(d: JsonModel, b: BatchExtractResult) -> bool {
    &&& opt_str_at(d, "file_name"@) == Some(opt_view(b.file_name))
    &&& str_at(d, "state"@) == Some(b.state@)
    &&& opt_str_at(d, "full_zip_url"@) == Some(opt_view(b.full_zip_url))
    &&& opt_str_at(d, "err_msg"@) == Some(opt_view(b.err_msg))
    &&& opt_str_at(d, "data_id"@) == Some(opt_view(b.data_id))
    &&& opt_progress_from(d, "extract_progress"@, b.extract_progress)
}

/// The per-file results of a batch: an array of well-shaped records.
pub open spec fn batch_result_data_decodes(d: JsonModel) -> bool {
    &&& str_at(d, "batch_id"@) is Some
    &&& match field_of(d, "extract_result"@) {
        Some(JsonModel::Array(items)) => forall|i: int|
            0 <= i < items.len() ==> batch_extract_result_decodes(#[trigger] items[i]),
        _ => false,
    }
}

pub open spec fn batch_result_data_from(d: JsonModel, b: BatchResultData) -> bool {
    &&& str_at(d, "batch_id"@) == Some(b.batch_id@)
    &&& match field_of(d, "extract_result"@) {
        Some(JsonModel::Array(items)) => items.len() == b.extract_result@.len() && forall|i: int|
            0 <= i < items.len() ==> batch_extract_result_from(
                #[trigger] items[i],
                b.extract_result@[i],
            ),
        _ => false,
    }
}

pub open spec fn batch_result_response_decodes(m: JsonModel) -> bool {
    envelope_decodes(m) && batch_result_data_decodes(data_of(m))
}

pub open spec fn batch_result_response_from(m: JsonModel, r: BatchResultResponse) -> bool {
    envelope_from(m, r.code, r.msg, r.trace_id) && batch_result_data_from(data_of(m), r.data)
}

/// Parses an answer and checks its status; gives the document where the code
/// is zero.
fn read_answer(body: &[u8]) -> (r: Result<serde_json::Value, MineruError>)
    ensures
        match parse_json(body@) {
            None => r matches Err(MineruError::Json(JsonError::Syntax(_))),
            Some(m) => match status_of(m) {
                None => r matches Err(MineruError::Json(JsonError::Schema)),
                Some((code, msg)) => if code != 0 {
                    r matches Err(MineruError::Api(t)) && t@ == msg
                } else {
                    r is Ok && json_of(r->Ok_0) == m
                },
            },
        },
{
    let v = match json_from_bytes(body) {
        Ok(v) => v,
        Err(e) => return Err(MineruError::Json(JsonError::Syntax(e))),
    };
    let code = get_i32(&v, "code");
    let msg = get_str(&v, "msg");
    match (code, msg) {
        (Some(c), Some(s)) => if c != 0 {
            Err(MineruError::Api(s))
        } else {
            Ok(v)
        },
        _ => Err(MineruError::Json(JsonError::Schema)),
    }
}

/// The fields that every answer carries, and its `data`.
fn read_envelope(v: &serde_json::Value) -> (r: Option<(i32, String, String, serde_json::Value)>)
    ensures
        r is Some <==> envelope_decodes(json_of(*v)),
        r matches Some((c, msg, trace, data)) ==> envelope_from(json_of(*v), c, msg, trace) && json_of(
            data,
        ) == data_of(json_of(*v)),
{
    let code = match get_i32(v, "code") {
        Some(c) => c,
        None => return None,
    };
    let msg = match get_str(v, "msg") {
        Some(s) => s,
        None => return None,
    };
    let trace_id = match get_str(v, "trace_id") {
        Some(s) => s,
        None => return None,
    };
    let data = match json_get(v, "data") {
        Some(d) => d,
        None => return None,
    };
    Some((code, msg, trace_id, data))
}

fn progress_from_value(v: &serde_json::Value) -> (r: Option<ExtractProgress>)
    ensures
        r is Some <==> progress_decodes(json_of(*v)),
        r is Some ==> progress_from(json_of(*v), r->Some_0),
{
    let extracted_pages = match get_i32(v, "extracted_pages") {
        Some(n) => n,
        None => return None,
    };
    let total_pages = match get_i32(v, "total_pages") {
        Some(n) => n,
        None => return None,
    };
    let start_time = match get_str(v, "start_time") {
        Some(s) => s,
        None => return None,
    };
    Some(ExtractProgress { extracted_pages, total_pages, start_time })
}

fn get_opt_progress(v: &serde_json::Value, key: &str) -> (r: Option<Option<ExtractProgress>>)
    ensures
        r is Some <==> opt_progress_decodes(json_of(*v), key@),
        r is Some ==> opt_progress_from(json_of(*v), key@, r->Some_0),
{
    match json_get(v, key) {
        Some(x) => if json_is_null(&x) {
            Some(None)
        } else {
            match progress_from_value(&x) {
                Some(p) => Some(Some(p)),
                None => None,
            }
        },
        None => Some(None),
    }
}

fn batch_extract_result_from_value(v: &serde_json::Value) -> (r: Option<BatchExtractResult>)
    ensures
        r is Some <==> batch_extract_result_decodes(json_of(*v)),
        r is Some ==> batch_extract_result_from(json_of(*v), r->Some_0),
{
    let file_name = match get_opt_str(v, "file_name") {
        Some(o) => o,
        None => return None,
    };
    let state = match get_str(v, "state") {
        Some(s) => s,
        None => return None,
    };
    let full_zip_url = match get_opt_str(v, "full_zip_url") {
        Some(o) => o,
        None => return None,
    };
    let err_msg = match get_opt_str(v, "err_msg") {
        Some(o) => o,
        None => return None,
    };
    let data_id = match get_opt_str(v, "data_id") {
        Some(o) => o,
        None => return None,
    };
    let extract_progress = match get_opt_progress(v, "extract_progress") {
        Some(o) => o,
        None => return None,
    };
    Some(BatchExtractResult { file_name, state, full_zip_url, err_msg, data_id, extract_progress })
}

fn task_result_data_from_value(v: &serde_json::Value) -> (r: Option<TaskResultData>)
    ensures
        r is Some <==> task_result_data_decodes(json_of(*v)),
        r is Some ==> task_result_data_from(json_of(*v), r->Some_0),
{
    let task_id = match get_str(v, "task_id") {
        Some(s) => s,
        None => return None,
    };
    let data_id = match get_opt_str(v, "data_id") {
        Some(o) => o,
        None => return None,
    };
    let state = match get_str(v, "state") {
        Some(s) => s,
        None => return None,
    };
    let full_zip_url = match get_opt_str(v, "full_zip_url") {
        Some(o) => o,
        None => return None,
    };
    let err_msg = match get_opt_str(v, "err_msg") {
        Some(o) => o,
        None => return None,
    };
    let extract_progress = match get_opt_progress(v, "extract_progress") {
        Some(o) => o,
        None => return None,
    };
    Some(TaskResultData { task_id, data_id, state, full_zip_url, err_msg, extract_progress })
}

fn batch_result_data_from_value(v: &serde_json::Value) -> (r: Option<BatchResultData>)
    ensures
        r is Some <==> batch_result_data_decodes(json_of(*v)),
        r is Some ==> batch_result_data_from(json_of(*v), r->Some_0),
{
    let batch_id = match get_str(v, "batch_id") {
        Some(s) => s,
        None => return None,
    };
    let field = match json_get(v, "extract_result") {
        Some(x) => x,
        None => return None,
    };
    let items = match json_as_array(&field) {
        Some(items) => items,
        None => return None,
    };
    let ghost ms = json_of(field)->Array_0;
    let mut out: Vec<BatchExtractResult> = Vec::new();
    let mut i: usize = 0;
    while i < items.len()
        invariant
            json_of(field) == JsonModel::Array(ms),
            field_of(json_of(*v), "extract_result"@) == Some(JsonModel::Array(ms)),
            items@.len() == ms.len(),
            forall|j: int| 0 <= j < ms.len() ==> json_of(#[trigger] items@[j]) == ms[j],
            i <= items@.len(),
            out@.len() == i,
            forall|j: int| 0 <= j < i ==> batch_extract_result_decodes(#[trigger] ms[j]),
            forall|j: int| 0 <= j < i ==> batch_extract_result_from(#[trigger] ms[j], out@[j]),
        decreases items@.len() - i,
    {
        match batch_extract_result_from_value(&items[i]) {
            Some(b) => out.push(b),
            None => {
                proof {
                    let d = json_of(*v);
                    assert(!batch_extract_result_decodes(ms[i as int]));
                    if batch_result_data_decodes(d) {
                        assert(field_of(d, "extract_result"@)->Some_0->Array_0 == ms);
                        assert(batch_extract_result_decodes(ms[i as int]));
                    }
                }
                return None;
            },
        }
        i = i + 1;
    }
    Some(BatchResultData { batch_id, extract_result: out })
}

/// Reads the answer to a task creation.
pub fn decode_extract_task_response(body: &[u8]) -> (r: Result<ExtractTaskResponse, MineruError>)
    ensures
        answered(body@, r, |m: JsonModel| extract_task_response_decodes(m)),
        r is Ok ==> extract_task_response_from(parse_json(body@)->Some_0, r->Ok_0),
{
    let v = read_answer(body)?;
    let (code, msg, trace_id, data) = match read_envelope(&v) {
        Some(e) => e,
        None => return Err(MineruError::Json(JsonError::Schema)),
    };
    let task_id = match get_str(&data, "task_id") {
        Some(s) => s,
        None => return Err(MineruError::Json(JsonError::Schema)),
    };
    Ok(ExtractTaskResponse { code, msg, trace_id, data: ExtractTaskData { task_id } })
}

/// Reads the polled status of one task.
pub fn decode_task_result_response(body: &[u8]) -> (r: Result<TaskResultResponse, MineruError>)
    ensures
        answered(body@, r, |m: JsonModel| task_result_response_decodes(m)),
        r is Ok ==> task_result_response_from(parse_json(body@)->Some_0, r->Ok_0),
{
    let v = read_answer(body)?;
    let (code, msg, trace_id, data) = match read_envelope(&v) {
        Some(e) => e,
        None => return Err(MineruError::Json(JsonError::Schema)),
    };
    let data = match task_result_data_from_value(&data) {
        Some(d) => d,
        None => return Err(MineruError::Json(JsonError::Schema)),
    };
    Ok(TaskResultResponse { code, msg, trace_id, data })
}

/// Reads the presigned upload URLs of a batch.
pub fn decode_batch_file_response(body: &[u8]) -> (r: Result<BatchFileResponse, MineruError>)
    ensures
        answered(body@, r, |m: JsonModel| batch_file_response_decodes(m)),
        r is Ok ==> batch_file_response_from(parse_json(body@)->Some_0, r->Ok_0),
{
    let v = read_answer(body)?;
    let (code, msg, trace_id, data) = match read_envelope(&v) {
        Some(e) => e,
        None => return Err(MineruError::Json(JsonError::Schema)),
    };
    let batch_id = match get_str(&data, "batch_id") {
        Some(s) => s,
        None => return Err(MineruError::Json(JsonError::Schema)),
    };
    let files = match get_strs(&data, "files") {
        Some(f) => f,
        None => return Err(MineruError::Json(JsonError::Schema)),
    };
    Ok(BatchFileResponse { code, msg, trace_id, data: BatchFileData { batch_id, files } })
}

/// Reads the batch id assigned to a batch of URLs.
pub fn decode_batch_url_response(body: &[u8]) -> (r: Result<BatchUrlResponse, MineruError>)
    ensures
        answered(body@, r, |m: JsonModel| batch_url_response_decodes(m)),
        r is Ok ==> batch_url_response_from(parse_json(body@)->Some_0, r->Ok_0),
{
    let v = read_answer(body)?;
    let (code, msg, trace_id, data) = match read_envelope(&v) {
        Some(e) => e,
        None => return Err(MineruError::Json(JsonError::Schema)),
    };
    let batch_id = match get_str(&data, "batch_id") {
        Some(s) => s,
        None => return Err(MineruError::Json(JsonError::Schema)),
    };
    Ok(BatchUrlResponse { code, msg, trace_id, data: BatchUrlData { batch_id } })
}

/// Reads the polled status of a batch.
pub fn decode_batch_result_response(body: &[u8]) -> (r: Result<BatchResultResponse, MineruError>)
    ensures
        answered(body@, r, |m: JsonModel| batch_result_response_decodes(m)),
        r is Ok ==> batch_result_response_from(parse_json(body@)->Some_0, r->Ok_0),
{
    let v = read_answer(body)?;
    let (code, msg, trace_id, data) = match read_envelope(&v) {
        Some(e) => e,
        None => return Err(MineruError::Json(JsonError::Schema)),
    };
    let data = match batch_result_data_from_value(&data) {
        Some(d) => d,
        None => return Err(MineruError::Json(JsonError::Schema)),
    };
    Ok(BatchResultResponse { code, msg, trace_id, data })
}

/// A body that is not JSON is a serialization error, whatever was expected.
pub proof fn lemma_malformed_body_is_syntax_error<T>(
    body: Seq<u8>,
    r: Result<T, MineruError>,
    decodes: spec_fn(JsonModel) -> bool,
)
    requires
        answered(body, r, decodes),
        parse_json(body) is None,
    ensures
        r matches Err(MineruError::Json(JsonError::Syntax(_))),
{
}

/// A well-formed answer with a non-zero code is an API error that carries the
/// answer's message, never a record.
pub proof fn lemma_failed_status_is_api_error<T>(
    body: Seq<u8>,
    r: Result<T, MineruError>,
    decodes: spec_fn(JsonModel) -> bool,
    m: JsonModel,
    code: i32,
    msg: Seq<char>,
)
    requires
        answered(body, r, decodes),
        parse_json(body) == Some(m),
        i32_at(m, "code"@) == Some(code),
        code != 0,
        str_at(m, "msg"@) == Some(msg),
    ensures
        r matches Err(MineruError::Api(t)) && t@ == msg,
{
}

} // verus!
