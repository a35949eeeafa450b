use vstd::prelude::*;
use crate::error::{JsonError, MineruError};
use crate::fields::{
    bool_or, strs_of, strings_view, get_bool_or, get_opt_str, get_opt_strs, get_str, get_str_or, opt_str_at, opt_strings_view,
    opt_strs_at, opt_view, str_at, str_or,
};
use crate::json::{
    field_of, json_array, json_bool, json_from_bytes, json_insert, json_is_object, json_object,
    json_of, json_string, json_text, json_to_bytes, parse_json, JsonModel,
};
use crate::types::{
    default_language, default_model_version, default_true, BatchFileItem, BatchFileRequest, BatchUrlItem,
    BatchUrlRequest, ExtractTaskRequest,
};

verus! {

pub type JsonFields = Map<Seq<char>, JsonModel>;

/// `m` with `key` set to the string, where there is one; `m` itself otherwise.
pub open spec fn with_opt_str(m: JsonFields, key: Seq<char>, o: Option<String>) -> JsonFields {
    match o {
        Some(s) => m.insert(key, JsonModel::Str(s@)),
        None => m,
    }
}

pub open spec fn strings_json(v: Seq<String>) -> JsonModel {
    JsonModel::Array(v.map_values(|s: String| JsonModel::Str(s@)))
}

/// The JSON object that stands for an extraction request: every field with a
/// value, and no key for an optional field that is absent.
pub open spec fn extract_task_request_json(r: ExtractTaskRequest) -> JsonModel {
    let base = Map::empty().insert("url"@, JsonModel::Str(r.url@)).insert(
        "is_ocr"@,
        JsonModel::Bool(r.is_ocr),
    ).insert("enable_formula"@, JsonModel::Bool(r.enable_formula)).insert(
        "enable_table"@,
        JsonModel::Bool(r.enable_table),
    ).insert("language"@, JsonModel::Str(r.language@)).insert(
        "model_version"@,
        JsonModel::Str(r.model_version@),
    );
    let m1 = with_opt_str(base, "data_id"@, r.data_id);
    let m2 = with_opt_str(m1, "callback"@, r.callback);
    let m3 = with_opt_str(m2, "seed"@, r.seed);
    let m4 = match r.extra_formats {
        Some(v) => m3.insert("extra_formats"@, strings_json(v@)),
        None => m3,
    };
    JsonModel::Object(with_opt_str(m4, "page_ranges"@, r.page_ranges))
}

/// A document that reads as an extraction request: `url` is a string, and
/// every other key is absent or of its field's type (`null` counting as absent
/// for the optional ones).
pub open spec fn extract_task_request_decodes(m: JsonModel) -> bool {
    &&& m is Object
    &&& str_at(m, "url"@) is Some
    &&& bool_or(m, "is_ocr"@, false) is Some
    &&& bool_or(m, "enable_formula"@, true) is Some
    &&& bool_or(m, "enable_table"@, true) is Some
    &&& str_or(m, "language"@, "ch"@) is Some
    &&& opt_str_at(m, "data_id"@) is Some
    &&& opt_str_at(m, "callback"@) is Some
    &&& opt_str_at(m, "seed"@) is Some
    &&& opt_strs_at(m, "extra_formats"@) is Some
    &&& opt_str_at(m, "page_ranges"@) is Some
    &&& str_or(m, "model_version"@, "pipeline"@) is Some
}

/// `r` is what `m` reads as, absent keys taking their documented defaults.
pub open spec fn extract_task_request_from(m: JsonModel, r: ExtractTaskRequest) -> bool {
    &&& str_at(m, "url"@) == Some(r.url@)
    &&& bool_or(m, "is_ocr"@, false) == Some(r.is_ocr)
    &&& bool_or(m, "enable_formula"@, true) == Some(r.enable_formula)
    &&& bool_or(m, "enable_table"@, true) == Some(r.enable_table)
    &&& str_or(m, "language"@, "ch"@) == Some(r.language@)
    &&& opt_str_at(m, "data_id"@) == Some(opt_view(r.data_id))
    &&& opt_str_at(m, "callback"@) == Some(opt_view(r.callback))
    &&& opt_str_at(m, "seed"@) == Some(opt_view(r.seed))
    &&& opt_strs_at(m, "extra_formats"@) == Some(opt_strings_view(r.extra_formats))
    &&& opt_str_at(m, "page_ranges"@) == Some(opt_view(r.page_ranges))
    &&& str_or(m, "model_version"@, "pipeline"@) == Some(r.model_version@)
}

/// Two requests that hold the same text in every field.
pub open spec fn same_extract_task_request(a: ExtractTaskRequest, b: ExtractTaskRequest) -> bool {
    &&& a.url@ == b.url@
    &&& a.is_ocr == b.is_ocr
    &&& a.enable_formula == b.enable_formula
    &&& a.enable_table == b.enable_table
    &&& a.language@ == b.language@
    &&& opt_view(a.data_id) == opt_view(b.data_id)
    &&& opt_view(a.callback) == opt_view(b.callback)
    &&& opt_view(a.seed) == opt_view(b.seed)
    &&& opt_strings_view(a.extra_formats) == opt_strings_view(b.extra_formats)
    &&& opt_view(a.page_ranges) == opt_view(b.page_ranges)
    &&& a.model_version@ == b.model_version@
}

fn insert_str(obj: &mut serde_json::Value, key: &str, s: String)
    requires
        json_of(*old(obj)) is Object,
    ensures
        json_of(*final(obj)) == JsonModel::Object(
            json_of(*old(obj))->Object_0.insert(key@, JsonModel::Str(s@)),
        ),
{
    json_insert(obj, String::from_str(key), json_string(s));
}

fn insert_bool(obj: &mut serde_json::Value, key: &str, b: bool)
    requires
        json_of(*old(obj)) is Object,
    ensures
        json_of(*final(obj)) == JsonModel::Object(
            json_of(*old(obj))->Object_0.insert(key@, JsonModel::Bool(b)),
        ),
{
    json_insert(obj, String::from_str(key), json_bool(b));
}

fn insert_opt_str(obj: &mut serde_json::Value, key: &str, o: &Option<String>)
    requires
        json_of(*old(obj)) is Object,
    ensures
        json_of(*final(obj)) == JsonModel::Object(
            with_opt_str(json_of(*old(obj))->Object_0, key@, *o),
        ),
{
    match o {
        Some(s) => insert_str(obj, key, s.clone()),
        None => {},
    }
}

fn strings_to_value(v: &Vec<String>) -> (r: serde_json::Value)
    ensures
        json_of(r) == strings_json(v@),
{
    let mut items: Vec<serde_json::Value> = Vec::new();
    let mut i: usize = 0;
    while i < v.len()
        invariant
            i <= v@.len(),
            items@.len() == i,
            forall|j: int| 0 <= j < i ==> json_of(#[trigger] items@[j]) == JsonModel::Str(v@[j]@),
        decreases v@.len() - i,
    {
        items.push(json_string(v[i].clone()));
        i = i + 1;
    }
    let r = json_array(items);
    assert(items@.map_values(|x: serde_json::Value| json_of(x)) =~= v@.map_values(
        |s: String| JsonModel::Str(s@),
    ));
    r
}

/// The JSON value of an extraction request.
pub fn extract_task_request_to_value(r: &ExtractTaskRequest) -> (v: serde_json::Value)
    ensures
        json_of(v) == extract_task_request_json(*r),
{
    let mut v = json_object();
    insert_str(&mut v, "url", r.url.clone());
    insert_bool(&mut v, "is_ocr", r.is_ocr);
    insert_bool(&mut v, "enable_formula", r.enable_formula);
    insert_bool(&mut v, "enable_table", r.enable_table);
    insert_str(&mut v, "language", r.language.clone());
    insert_str(&mut v, "model_version", r.model_version.clone());
    insert_opt_str(&mut v, "data_id", &r.data_id);
    insert_opt_str(&mut v, "callback", &r.callback);
    insert_opt_str(&mut v, "seed", &r.seed);
    match &r.extra_formats {
        Some(formats) => {
            let a = strings_to_value(formats);
            json_insert(&mut v, String::from_str("extra_formats"), a);
        },
        None => {},
    }
    insert_opt_str(&mut v, "page_ranges", &r.page_ranges);
    v
}

/// The JSON text of an extraction request, as sent to the service.
pub fn extract_task_request_to_vec(r: &ExtractTaskRequest) -> (b: Vec<u8>)
    ensures
        b@ == json_text(extract_task_request_json(*r)),
{
    let v = extract_task_request_to_value(r);
    json_to_bytes(&v)
}

/// Reads an extraction request from a JSON value, giving absent fields their
/// defaults; `None` where the value has another shape.
pub fn extract_task_request_from_value(v: &serde_json::Value) -> (r: Option<ExtractTaskRequest>)
    ensures
        r is Some <==> extract_task_request_decodes(json_of(*v)),
        r is Some ==> extract_task_request_from(json_of(*v), r->Some_0),
{
    if !json_is_object(v) {
        return None;
    }
    let url = match get_str(v, "url") {
        Some(s) => s,
        None => return None,
    };
    let is_ocr = match get_bool_or(v, "is_ocr", false) {
        Some(b) => b,
        None => return None,
    };
    let enable_formula = match get_bool_or(v, "enable_formula", default_true()) {
        Some(b) => b,
        None => return None,
    };
    let enable_table = match get_bool_or(v, "enable_table", default_true()) {
        Some(b) => b,
        None => return None,
    };
    let language = match get_str_or(v, "language", default_language()) {
        Some(s) => s,
        None => return None,
    };
    let data_id = match get_opt_str(v, "data_id") {
        Some(o) => o,
        None => return None,
    };
    let callback = match get_opt_str(v, "callback") {
        Some(o) => o,
        None => return None,
    };
    let seed = match get_opt_str(v, "seed") {
        Some(o) => o,
        None => return None,
    };
    let extra_formats = match get_opt_strs(v, "extra_formats") {
        Some(o) => o,
        None => return None,
    };
    let page_ranges = match get_opt_str(v, "page_ranges") {
        Some(o) => o,
        None => return None,
    };
    let model_version = match get_str_or(v, "model_version", default_model_version()) {
        Some(s) => s,
        None => return None,
    };
    Some(
        ExtractTaskRequest {
            url,
            is_ocr,
            enable_formula,
            enable_table,
            language,
            data_id,
            callback,
            seed,
            extra_formats,
            page_ranges,
            model_version,
        },
    )
}

/// Reads an extraction request from JSON text.
pub fn decode_extract_task_request(body: &[u8]) -> (r: Result<ExtractTaskRequest, MineruError>)
    ensures
        match parse_json(body@) {
            None => r matches Err(MineruError::Json(JsonError::Syntax(_))),
            Some(m) => if extract_task_request_decodes(m) {
                r is Ok && extract_task_request_from(m, r->Ok_0)
            } else {
                r matches Err(MineruError::Json(JsonError::Schema))
            },
        },
{
    match json_from_bytes(body) {
        Ok(v) => match extract_task_request_from_value(&v) {
            Some(req) => Ok(req),
            None => Err(MineruError::Json(JsonError::Schema)),
        },
        Err(e) => Err(MineruError::Json(JsonError::Syntax(e))),
    }
}

/// The keys of an extraction request are distinct: no two share both their
/// length and their first character.
proof fn lemma_request_keys()
    ensures
        "url"@.len() == 3,
        "is_ocr"@.len() == 6,
        "enable_formula"@.len() == 14,
        "enable_table"@.len() == 12,
        "language"@.len() == 8,
        "data_id"@.len() == 7,
        "callback"@.len() == 8,
        "seed"@.len() == 4,
        "extra_formats"@.len() == 13,
        "page_ranges"@.len() == 11,
        "model_version"@.len() == 13,
        "language"@[0] == 'l',
        "callback"@[0] == 'c',
        "extra_formats"@[0] == 'e',
        "model_version"@[0] == 'm',
{
    reveal_strlit("url");
    reveal_strlit("is_ocr");
    reveal_strlit("enable_formula");
    reveal_strlit("enable_table");
    reveal_strlit("language");
    reveal_strlit("data_id");
    reveal_strlit("callback");
    reveal_strlit("seed");
    reveal_strlit("extra_formats");
    reveal_strlit("page_ranges");
    reveal_strlit("model_version");
}

/// Writing an extraction request as JSON and reading it back gives a request
/// with the same text in every field.
pub proof fn lemma_extract_task_request_round_trip(r: ExtractTaskRequest, s: ExtractTaskRequest)
    ensures
        extract_task_request_decodes(extract_task_request_json(r)),
        extract_task_request_from(extract_task_request_json(r), s) ==> same_extract_task_request(r, s),
{
    lemma_request_keys();
    if let Some(v) = r.extra_formats {
        assert(strs_of(v@.map_values(|x: String| JsonModel::Str(x@))) =~= strings_view(v@));
    }
}

/// A document that holds only a `url` reads as a request for that url, every
/// other field at its documented default.
pub proof fn lemma_extract_task_request_defaults(url: Seq<char>, s: ExtractTaskRequest)
    ensures
        extract_task_request_decodes(
            JsonModel::Object(Map::empty().insert("url"@, JsonModel::Str(url))),
        ),
        extract_task_request_from(
            JsonModel::Object(Map::empty().insert("url"@, JsonModel::Str(url))),
            s,
        ) ==> {
            &&& s.url@ == url
            &&& !s.is_ocr
            &&& s.enable_formula
            &&& s.enable_table
            &&& s.language@ == "ch"@
            &&& s.data_id is None
            &&& s.callback is None
            &&& s.seed is None
            &&& s.extra_formats is None
            &&& s.page_ranges is None
            &&& s.model_version@ == "pipeline"@
        },
{
    lemma_request_keys();
}

/// What an optional string field puts under its key: nothing when absent.
pub open spec fn opt_str_json(o: Option<String>) -> Option<JsonModel> {
    match o {
        Some(s) => Some(JsonModel::Str(s@)),
        None => None,
    }
}

/// An optional field of an extraction request has a key in its JSON exactly
/// when it holds a value, and then the key holds that value.
pub proof fn lemma_extract_task_request_optional_keys(r: ExtractTaskRequest)
    ensures
        field_of(extract_task_request_json(r), "data_id"@) == opt_str_json(r.data_id),
        field_of(extract_task_request_json(r), "callback"@) == opt_str_json(r.callback),
        field_of(extract_task_request_json(r), "seed"@) == opt_str_json(r.seed),
        field_of(extract_task_request_json(r), "page_ranges"@) == opt_str_json(r.page_ranges),
        field_of(extract_task_request_json(r), "extra_formats"@) == match r.extra_formats {
            Some(v) => Some(strings_json(v@)),
            None => None::<JsonModel>,
        },
{
    lemma_request_keys();
}

/// The JSON object of one file of a batch upload.
pub open spec fn batch_file_item_json(i: BatchFileItem) -> JsonModel {
    JsonModel::Object(
        with_opt_str(Map::empty().insert("name"@, JsonModel::Str(i.name@)), "data_id"@, i.data_id),
    )
}

/// The JSON object of a batch upload request.
pub open spec fn batch_file_request_json(r: BatchFileRequest) -> JsonModel {
    JsonModel::Object(
        Map::empty().insert(
            "files"@,
            JsonModel::Array(r.files@.map_values(|i: BatchFileItem| batch_file_item_json(i))),
        ).insert("model_version"@, JsonModel::Str(r.model_version@)),
    )
}

/// The JSON object of one URL of a batch extraction.
pub open spec fn batch_url_item_json(i: BatchUrlItem) -> JsonModel {
    JsonModel::Object(
        with_opt_str(Map::empty().insert("url"@, JsonModel::Str(i.url@)), "data_id"@, i.data_id),
    )
}

/// The JSON object of a batch extraction request.
pub open spec fn batch_url_request_json(r: BatchUrlRequest) -> JsonModel {
    JsonModel::Object(
        Map::empty().insert(
            "files"@,
            JsonModel::Array(r.files@.map_values(|i: BatchUrlItem| batch_url_item_json(i))),
        ).insert("model_version"@, JsonModel::Str(r.model_version@)),
    )
}

/// An item of a batch has a `data_id` key exactly when it holds one.
pub proof fn lemma_batch_item_optional_keys(f: BatchFileItem, u: BatchUrlItem)
    ensures
        field_of(batch_file_item_json(f), "data_id"@) == opt_str_json(f.data_id),
        field_of(batch_url_item_json(u), "data_id"@) == opt_str_json(u.data_id),
{
    reveal_strlit("name");
    reveal_strlit("url");
    reveal_strlit("data_id");
    assert("name"@.len() == 4 && "url"@.len() == 3 && "data_id"@.len() == 7);
}

/// The JSON value of one file of a batch upload.
pub fn batch_file_item_to_value(i: &BatchFileItem) -> (v: serde_json::Value)
    ensures
        json_of(v) == batch_file_item_json(*i),
{
    let mut v = json_object();
    insert_str(&mut v, "name", i.name.clone());
    insert_opt_str(&mut v, "data_id", &i.data_id);
    v
}

/// The JSON value of one URL of a batch extraction.
pub fn batch_url_item_to_value(i: &BatchUrlItem) -> (v: serde_json::Value)
    ensures
        json_of(v) == batch_url_item_json(*i),
{
    let mut v = json_object();
    insert_str(&mut v, "url", i.url.clone());
    insert_opt_str(&mut v, "data_id", &i.data_id);
    v
}

/// The JSON value of a batch upload request.
pub fn batch_file_request_to_value(r: &BatchFileRequest) -> (v: serde_json::Value)
    ensures
        json_of(v) == batch_file_request_json(*r),
{
    let mut items: Vec<serde_json::Value> = Vec::new();
    let mut i: usize = 0;
    while i < r.files.len()
        invariant
            i <= r.files@.len(),
            items@.len() == i,
            forall|j: int| 0 <= j < i ==> json_of(#[trigger] items@[j]) == batch_file_item_json(r.files@[j]),
        decreases r.files@.len() - i,
    {
        items.push(batch_file_item_to_value(&r.files[i]));
        i = i + 1;
    }
    assert(items@.map_values(|x: serde_json::Value| json_of(x)) =~= r.files@.map_values(
        |x: BatchFileItem| batch_file_item_json(x),
    ));
    let mut v = json_object();
    json_insert(&mut v, String::from_str("files"), json_array(items));
    insert_str(&mut v, "model_version", r.model_version.clone());
    v
}

/// The JSON value of a batch extraction request.
pub fn batch_url_request_to_value(r: &BatchUrlRequest) -> (v: serde_json::Value)
    ensures
        json_of(v) == batch_url_request_json(*r),
{
    let mut items: Vec<serde_json::Value> = Vec::new();
    let mut i: usize = 0;
    while i < r.files.len()
        invariant
            i <= r.files@.len(),
            items@.len() == i,
            forall|j: int| 0 <= j < i ==> json_of(#[trigger] items@[j]) == batch_url_item_json(r.files@[j]),
        decreases r.files@.len() - i,
    {
        items.push(batch_url_item_to_value(&r.files[i]));
        i = i + 1;
    }
    assert(items@.map_values(|x: serde_json::Value| json_of(x)) =~= r.files@.map_values(
        |x: BatchUrlItem| batch_url_item_json(x),
    ));
    let mut v = json_object();
    json_insert(&mut v, String::from_str("files"), json_array(items));
    insert_str(&mut v, "model_version", r.model_version.clone());
    v
}

/// The JSON text of a batch upload request.
pub fn batch_file_request_to_vec(r: &BatchFileRequest) -> (b: Vec<u8>)
    ensures
        b@ == json_text(batch_file_request_json(*r)),
{
    let v = batch_file_request_to_value(r);
    json_to_bytes(&v)
}

/// The JSON text of a batch extraction request.
pub fn batch_url_request_to_vec(r: &BatchUrlRequest) -> (b: Vec<u8>)
    ensures
        b@ == json_text(batch_url_request_json(*r)),
{
    let v = batch_url_request_to_value(r);
    json_to_bytes(&v)
}

} // verus!
