use vstd::prelude::*;
use crate::json::json_text;
use crate::requests::{
    batch_file_request_json, batch_file_request_to_vec, batch_url_request_json, batch_url_request_to_vec,
    extract_task_request_json, extract_task_request_to_vec,
};
use crate::types::{BatchFileRequest, BatchUrlRequest, ExtractTaskRequest};

verus! {

/// The HTTP method of a request to the service.
#[derive(Debug, Clone, Copy, PartialEq, Eq, Structural)]
pub enum HttpMethod {
    Get,
    Post,
}

/// One request to the service, ready to be sent: the transport sends exactly
/// this and nothing else.
#[derive(Debug)]
pub struct HttpRequest {
    pub method: HttpMethod,
    pub url: String,
    pub headers: Vec<(String, String)>,
    pub body: Option<Vec<u8>>,
}

/// Authenticated access to the five endpoints of the extraction service.
pub struct MineruClient {
    base_url: String,
    token: String,
}

pub open spec fn production_base_url() -> Seq<char> {
    "https://mineru.net"@
}

pub open spec fn headers_view(h: Seq<(String, String)>) -> Seq<(Seq<char>, Seq<char>)> {
    h.map_values(|p: (String, String)| (p.0@, p.1@))
}

pub open spec fn authorization(token: Seq<char>) -> (Seq<char>, Seq<char>) {
    ("Authorization"@, "Bearer "@ + token)
}

/// A `GET` of `url`, carrying the token and no body.
pub open spec fn is_get(r: HttpRequest, url: Seq<char>, token: Seq<char>) -> bool {
    &&& r.method == HttpMethod::Get
    &&& r.url@ == url
    &&& headers_view(r.headers@) == seq![authorization(token)]
    &&& r.body is None
}

/// A `POST` of the JSON text `body` to `url`, carrying the token.
pub open spec fn is_post(r: HttpRequest, url: Seq<char>, token: Seq<char>, body: Seq<u8>) -> bool {
    &&& r.method == HttpMethod::Post
    &&& r.url@ == url
    &&& headers_view(r.headers@) == seq![
        authorization(token),
        ("Content-Type"@, "application/json"@),
    ]
    &&& r.body matches Some(b) && b@ == body
}

impl MineruClient {
    pub closed spec fn base_url_view(&self) -> Seq<char> {
        self.base_url@
    }

    pub closed spec fn token_view(&self) -> Seq<char> {
        self.token@
    }

    /// A client of the production service that authenticates with `token`.
    pub fn new(token: String) -> (c: Self)
        ensures
            c.base_url_view() == production_base_url(),
            c.token_view() == token@,
    {
        MineruClient { base_url: String::from_str("https://mineru.net"), token }
    }

    pub fn base_url(&self) -> (r: &str)
        ensures
            r@ == self.base_url_view(),
    {
        self.base_url.as_str()
    }

    fn url(&self, path: &str) -> (r: String)
        ensures
            r@ == self.base_url_view() + path@,
    {
        self.base_url.clone().concat(path)
    }

    fn auth_header(&self) -> (r: (String, String))
        ensures
            (r.0@, r.1@) == authorization(self.token_view()),
    {
        (String::from_str("Authorization"), String::from_str("Bearer ").concat(self.token.as_str()))
    }

    fn get(&self, url: String) -> (r: HttpRequest)
        ensures
            is_get(r, url@, self.token_view()),
    {
        let headers = vec![self.auth_header()];
        assert(headers_view(headers@) =~= seq![authorization(self.token_view())]);
        HttpRequest { method: HttpMethod::Get, url, headers, body: None }
    }

    fn post(&self, url: String, body: Vec<u8>) -> (r: HttpRequest)
        ensures
            is_post(r, url@, self.token_view(), body@),
    {
        let headers = vec![
            self.auth_header(),
            (String::from_str("Content-Type"), String::from_str("application/json")),
        ];
        assert(headers_view(headers@) =~= seq![
            authorization(self.token_view()),
            ("Content-Type"@, "application/json"@),
        ]);
        HttpRequest { method: HttpMethod::Post, url, headers, body: Some(body) }
    }

    /// The request that submits one extraction task.
    pub fn create_extract_task_request(&self, request: &ExtractTaskRequest) -> (r: HttpRequest)
        ensures
            is_post(
                r,
                self.base_url_view() + "/api/v4/extract/task"@,
                self.token_view(),
                json_text(extract_task_request_json(*request)),
            ),
    {
        let body = extract_task_request_to_vec(request);
        self.post(self.url("/api/v4/extract/task"), body)
    }

    /// The request that polls one task.
    pub fn get_task_result_request(&self, task_id: &str) -> (r: HttpRequest)
        ensures
            is_get(r, self.base_url_view() + "/api/v4/extract/task/"@ + task_id@, self.token_view()),
    {
        let url = self.url("/api/v4/extract/task/").concat(task_id);
        self.get(url)
    }

    /// The request that asks for presigned upload URLs.
    pub fn batch_file_upload_urls_request(&self, request: &BatchFileRequest) -> (r: HttpRequest)
        ensures
            is_post(
                r,
                self.base_url_view() + "/api/v4/file-urls/batch"@,
                self.token_view(),
                json_text(batch_file_request_json(*request)),
            ),
    {
        let body = batch_file_request_to_vec(request);
        self.post(self.url("/api/v4/file-urls/batch"), body)
    }

    /// The request that submits a batch of URLs for extraction.
    pub fn batch_url_upload_request(&self, request: &BatchUrlRequest) -> (r: HttpRequest)
        ensures
            is_post(
                r,
                self.base_url_view() + "/api/v4/extract/task/batch"@,
                self.token_view(),
                json_text(batch_url_request_json(*request)),
            ),
    {
        let body = batch_url_request_to_vec(request);
        self.post(self.url("/api/v4/extract/task/batch"), body)
    }

    /// The request that polls a batch.
    pub fn get_batch_results_request(&self, batch_id: &str) -> (r: HttpRequest)
        ensures
            is_get(
                r,
                self.base_url_view() + "/api/v4/extract-results/batch/"@ + batch_id@,
                self.token_view(),
            ),
    {
        let url = self.url("/api/v4/extract-results/batch/").concat(batch_id);
        self.get(url)
    }
}

} // verus!
