pub mod client;
pub mod error;
pub mod fields;
pub mod json;
pub mod requests;
pub mod responses;
pub mod types;

pub use client::{HttpMethod, HttpRequest, MineruClient};
pub use error::{JsonError, MineruError};
pub use requests::{
    batch_file_item_to_value, batch_file_request_to_value, batch_file_request_to_vec, batch_url_item_to_value,
    batch_url_request_to_value, batch_url_request_to_vec, decode_extract_task_request,
    extract_task_request_from_value, extract_task_request_to_value, extract_task_request_to_vec,
};
pub use responses::{
    decode_batch_file_response, decode_batch_result_response, decode_batch_url_response,
    decode_extract_task_response, decode_task_result_response,
};
pub use types::{
    default_language, default_model_version, default_true, BatchExtractResult, BatchFileData, BatchFileItem,
    BatchFileRequest, BatchFileResponse, BatchResultData, BatchResultResponse, BatchUrlData, BatchUrlItem,
    BatchUrlRequest, BatchUrlResponse, ExtractProgress, ExtractTaskData, ExtractTaskRequest,
    ExtractTaskResponse, TaskResultData, TaskResultResponse,
};
