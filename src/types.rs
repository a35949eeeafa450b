use vstd::prelude::*;

verus! {

/// Parameters of one document extraction job.
#[derive(Debug, PartialEq, Eq)]
pub struct ExtractTaskRequest {
    pub url: String,
    pub is_ocr: bool,
    pub enable_formula: bool,
    pub enable_table: bool,
    pub language: String,
    pub data_id: Option<String>,
    pub callback: Option<String>,
    pub seed: Option<String>,
    pub extra_formats: Option<Vec<String>>,
    pub page_ranges: Option<String>,
    pub model_version: String,
}

/// The value that `enable_formula` and `enable_table` take when absent.
pub fn default_true() -> (r: bool)
    ensures
        r,
{
    true
}

/// The language assumed when none is given.
pub fn default_language() -> (r: String)
    ensures
        r@ == "ch"@,
{
    String::from_str("ch")
}

/// The model version assumed when none is given.
pub fn default_model_version() -> (r: String)
    ensures
        r@ == "pipeline"@,
{
    String::from_str("pipeline")
}

/// Envelope of the answer to a task creation.
#[derive(Debug, PartialEq, Eq)]
pub struct ExtractTaskResponse {
    pub code: i32,
    pub msg: String,
    pub trace_id: String,
    pub data: ExtractTaskData,
}

#[derive(Debug, PartialEq, Eq)]
pub struct ExtractTaskData {
    pub task_id: String,
}

/// Polled status of one task.
#[derive(Debug, PartialEq, Eq)]
pub struct TaskResultResponse {
    pub code: i32,
    pub msg: String,
    pub trace_id: String,
    pub data: TaskResultData,
}

#[derive(Debug, PartialEq, Eq)]
pub struct TaskResultData {
    pub task_id: String,
    pub data_id: Option<String>,
    pub state: String,
    pub full_zip_url: Option<String>,
    pub err_msg: Option<String>,
    pub extract_progress: Option<ExtractProgress>,
}

/// Page-count progress of a running extraction.
#[derive(Debug, PartialEq, Eq)]
pub struct ExtractProgress {
    pub extracted_pages: i32,
    pub total_pages: i32,
    pub start_time: String,
}

/// Asks for presigned upload URLs, one per named file.
#[derive(Debug, PartialEq, Eq)]
pub struct BatchFileRequest {
    pub files: Vec<BatchFileItem>,
    pub model_version: String,
}

#[derive(Debug, PartialEq, Eq)]
pub struct BatchFileItem {
    pub name: String,
    pub data_id: Option<String>,
}

/// Presigned upload URLs, in the order of the request's files.
#[derive(Debug, PartialEq, Eq)]
pub struct BatchFileResponse {
    pub code: i32,
    pub msg: String,
    pub trace_id: String,
    pub data: BatchFileData,
}

#[derive(Debug, PartialEq, Eq)]
pub struct BatchFileData {
    pub batch_id: String,
    pub files: Vec<String>,
}

/// Batch extraction of documents that are already online.
#[derive(Debug, PartialEq, Eq)]
pub struct BatchUrlRequest {
    pub files: Vec<BatchUrlItem>,
    pub model_version: String,
}

#[derive(Debug, PartialEq, Eq)]
pub struct BatchUrlItem {
    pub url: String,
    pub data_id: Option<String>,
}

/// The batch id assigned to a batch of URLs.
#[derive(Debug, PartialEq, Eq)]
pub struct BatchUrlResponse {
    pub code: i32,
    pub msg: String,
    pub trace_id: String,
    pub data: BatchUrlData,
}

#[derive(Debug, PartialEq, Eq)]
pub struct BatchUrlData {
    pub batch_id: String,
}

/// Polled status of a batch.
#[derive(Debug, PartialEq, Eq)]
pub struct BatchResultResponse {
    pub code: i32,
    pub msg: String,
    pub trace_id: String,
    pub data: BatchResultData,
}

#[derive(Debug, PartialEq, Eq)]
pub struct BatchResultData {
    pub batch_id: String,
    pub extract_result: Vec<BatchExtractResult>,
}

/// Status of one file of a batch.
#[derive(Debug, PartialEq, Eq)]
pub struct BatchExtractResult {
    pub file_name: Option<String>,
    pub state: String,
    pub full_zip_url: Option<String>,
    pub err_msg: Option<String>,
    pub data_id: Option<String>,
    pub extract_progress: Option<ExtractProgress>,
}

} // verus!
