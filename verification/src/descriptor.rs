use vstd::prelude::*;

use crate::error::{Up2bError, Up2bResult, UploadError};
use crate::json::{spec_resolve, JsonValue};
use crate::manager::{AllowedImageFormat, ImageItem};
use crate::util::{capture_of, CaptureOutcome};

verus! {

/// How an upload request carries the image: inside a JSON body under
/// a key, or as one part of a multipart form.
#[derive(Debug, Clone)]
pub enum UploadContentType {
    Json { key: String },
    Multipart { file_part_name: String, file_kind: FileKind },
}

/// Whether a multipart upload streams the file (with progress events)
/// or buffers it whole.
#[derive(Debug, PartialEq, Eq, Clone, Copy)]
pub enum FileKind {
    Stream,
    Buffer,
}

/// Where the bearer token goes on a JSON-style request: into a header
/// (`Authorization` when no key is named), or into the body.
#[derive(Debug, Clone)]
pub enum AuthMethod {
    Header { key: Option<String>, prefix: Option<String> },
    Body { key: String },
}

/// The abstract content of one hosted-image record: url, delete
/// token, optional thumbnail.
pub open spec fn item_view(it: ImageItem) -> (Seq<char>, Seq<char>, Option<Seq<char>>) {
    (
        it.url@,
        it.deleted_id@,
        match it.thumb {
            None => None,
            Some(t) => Some(t@),
        },
    )
}

// ---------------------------------------------------------------
// Listing
// ---------------------------------------------------------------
/// Which paths of a listing response name the array of records and,
/// inside each record, its fields.
#[derive(Debug, Clone)]
pub struct ListResponseController {
    pub items_key: String,
    pub image_url_key: String,
    pub thumb_key: Option<String>,
    pub deleted_id_key: String,
}

#[derive(Debug, Clone)]
pub enum ListRequestMethod {
    Get,
    Post { body: Vec<(String, JsonValue)> },
}

#[derive(Debug, Clone)]
pub struct List {
    pub path: String,
    pub controller: ListResponseController,
    pub method: ListRequestMethod,
}

impl List {
    pub fn new(url: &str, controller: ListResponseController, method: ListRequestMethod) -> (r:
        Self)
        ensures
            r.path@ == url@,
            r.controller == controller,
            r.method == method,
    {
        List { path: url.to_owned(), controller, method }
    }
}

/// One record of a listing, as the declared paths read it: `None`
/// with a message when the record misses its url or delete token.
pub open spec fn spec_list_item(ctrl: ListResponseController, item: JsonValue) -> Result<
    (Seq<char>, Seq<char>, Option<Seq<char>>),
    Seq<char>,
> {
    let url = spec_resolve(item, ctrl.image_url_key@);
    let del = spec_resolve(item, ctrl.deleted_id_key@);
    if !(url is Str) {
        Err("没有图片链接"@)
    } else if !(del is Str) {
        Err("没有删除 id"@)
    } else {
        let thumb = match ctrl.thumb_key {
            None => None,
            Some(k) => match spec_resolve(item, k@) {
                JsonValue::Str(s) => Some(s@),
                _ => None,
            },
        };
        Ok((url->Str_0@, del->Str_0@, thumb))
    }
}

/// The first failing record's message, reading the records in order.
pub open spec fn spec_list_err(ctrl: ListResponseController, elems: Seq<JsonValue>) -> Option<
    Seq<char>,
>
    decreases elems.len(),
{
    if elems.len() == 0 {
        None
    } else {
        match spec_list_item(ctrl, elems[0]) {
            Err(m) => Some(m),
            Ok(_) => spec_list_err(ctrl, elems.drop_first()),
        }
    }
}

/// The records' contents, in order, when every record parses.
pub open spec fn spec_list_ok(ctrl: ListResponseController, elems: Seq<JsonValue>) -> Seq<
    (Seq<char>, Seq<char>, Option<Seq<char>>),
>
    decreases elems.len(),
{
    if elems.len() == 0 {
        Seq::empty()
    } else {
        match spec_list_item(ctrl, elems[0]) {
            Err(_) => Seq::empty(),
            Ok(t) => seq![t] + spec_list_ok(ctrl, elems.drop_first()),
        }
    }
}

impl ListResponseController {
    pub fn new(
        items_key: &str,
        image_url_key: &str,
        deleted_id_key: &str,
        thumb_key: Option<String>,
    ) -> (r: Self)
        ensures
            r.items_key@ == items_key@,
            r.image_url_key@ == image_url_key@,
            r.deleted_id_key@ == deleted_id_key@,
            r.thumb_key == thumb_key,
    {
        ListResponseController {
            items_key: items_key.to_owned(),
            image_url_key: image_url_key.to_owned(),
            deleted_id_key: deleted_id_key.to_owned(),
            thumb_key,
        }
    }

    /// One record: its url and delete token must be strings at the
    /// declared paths; the thumbnail is best-effort and never fails.
    fn parse_item(&self, item: &JsonValue) -> (r: Up2bResult<ImageItem>)
        ensures
            match spec_list_item(*self, *item) {
                Ok(t) => r matches Ok(it) && item_view(it) == t,
                Err(m) => r matches Err(e) && (e matches Up2bError::Other(s) && s@ == m),
            },
    {
        let url: String = match crate::json::resolve_path(item, self.image_url_key.as_str()) {
            Some(JsonValue::Str(s)) => s.clone(),
            _ => {
                return Err(Up2bError::Other("没有图片链接".to_owned()));
            },
        };
        let deleted_id: String = match crate::json::resolve_path(
            item,
            self.deleted_id_key.as_str(),
        ) {
            Some(JsonValue::Str(s)) => s.clone(),
            _ => {
                return Err(Up2bError::Other("没有删除 id".to_owned()));
            },
        };
        let thumb: Option<String> = match &self.thumb_key {
            None => None,
            Some(k) => match crate::json::resolve_path(item, k.as_str()) {
                Some(JsonValue::Str(s)) => Some(s.clone()),
                _ => None,
            },
        };
        Ok(ImageItem { url, deleted_id, thumb })
    }

    /// The records from position `i` on.
    fn parse_items(&self, elems: &Vec<JsonValue>, i: usize) -> (r: Up2bResult<Vec<ImageItem>>)
        requires
            i <= elems@.len(),
        ensures
            match spec_list_err(*self, elems@.skip(i as int)) {
                Some(m) => r matches Err(e) && (e matches Up2bError::Other(s) && s@ == m),
                None => r matches Ok(v) && v@.map_values(|it: ImageItem| item_view(it))
                    == spec_list_ok(*self, elems@.skip(i as int)),
            },
        decreases elems@.len() - i,
    {
        if i == elems.len() {
            let empty: Vec<ImageItem> = Vec::new();
            proof {
                assert(elems@.skip(i as int).len() == 0);
                assert(empty@.map_values(|it: ImageItem| item_view(it)) =~= spec_list_ok(
                    *self,
                    elems@.skip(i as int),
                ));
            }
            return Ok(empty);
        }
        proof {
            assert(elems@.skip(i as int)[0] == elems@[i as int]);
            assert(elems@.skip(i as int).drop_first() =~= elems@.skip(i as int + 1));
        }
        let first = self.parse_item(&elems[i])?;
        let rest = self.parse_items(elems, i + 1)?;
        let mut out = rest;
        out.insert(0, first);
        proof {
            assert(out@.map_values(|it: ImageItem| item_view(it)) =~= spec_list_ok(
                *self,
                elems@.skip(i as int),
            ));
        }
        Ok(out)
    }

    /// The whole listing: the declared items path must name an array;
    /// each of its records is read in order, and the first bad record
    /// fails the call.
    pub fn parse(&self, json: &JsonValue) -> (r: Up2bResult<Vec<ImageItem>>)
        ensures
            match spec_resolve(*json, self.items_key@) {
                JsonValue::Arr(elems) => match spec_list_err(*self, elems@) {
                    Some(m) => r matches Err(e) && (e matches Up2bError::Other(s) && s@ == m),
                    None => r matches Ok(v) && v@.map_values(|it: ImageItem| item_view(it))
                        == spec_list_ok(*self, elems@),
                },
                _ => r matches Err(e) && (e matches Up2bError::Other(s) && s@
                    == "通过 items_key 无法获取列表"@),
            },
    {
        match crate::json::resolve_path(json, self.items_key.as_str()) {
            Some(JsonValue::Arr(elems)) => {
                proof {
                    assert(elems@.skip(0) =~= elems@);
                }
                self.parse_items(elems, 0)
            },
            _ => Err(Up2bError::Other("通过 items_key 无法获取列表".to_owned())),
        }
    }
}

// ---------------------------------------------------------------
// Upload
// ---------------------------------------------------------------
/// Where an upload response hides its error message, and the optional
/// pattern whose first group recovers the address of an image that
/// was uploaded before.
#[derive(Debug, Clone)]
pub struct UploadResponseErrorController {
    pub key: String,
    pub repeated_regex: Option<String>,
}

/// The error an upload response stands for, under this controller.
pub open spec fn spec_upload_error(ctrl: UploadResponseErrorController, json: JsonValue) -> Up2bError {
    match spec_resolve(json, ctrl.key@) {
        JsonValue::Str(msg) => match ctrl.repeated_regex {
            None => Up2bError::Upload(UploadError::Error(msg)),
            Some(p) => match capture_of(p@, msg@) {
                CaptureOutcome::BadPattern(e) => Up2bError::Regex(e),
                CaptureOutcome::NoMatch => Up2bError::Upload(UploadError::Error(msg)),
                CaptureOutcome::NoGroup => Up2bError::Upload(UploadError::Error(msg)),
                CaptureOutcome::Group(u) => Up2bError::Upload(UploadError::Repeat(u)),
            },
        },
        _ => Up2bError::KeyNotFound(ctrl.key),
    }
}

impl UploadResponseErrorController {
    pub fn new(key: &str, repeat_regex: Option<String>) -> (r: Self)
        ensures
            r.key@ == key@,
            r.repeated_regex == repeat_regex,
    {
        UploadResponseErrorController { key: key.to_owned(), repeated_regex: repeat_regex }
    }

    /// Reads a failed upload's message; a message that names an
    /// already-hosted copy of the image becomes the duplicate error
    /// carrying that address.
    pub fn parse(&self, json: &JsonValue) -> (r: Up2bError)
        ensures
            r == spec_upload_error(*self, *json),
    {
        let msg: String = match crate::json::resolve_path(json, self.key.as_str()) {
            Some(JsonValue::Str(s)) => s.clone(),
            _ => {
                return Up2bError::KeyNotFound(self.key.clone());
            },
        };
        match &self.repeated_regex {
            None => Up2bError::Upload(UploadError::Error(msg)),
            Some(p) => match crate::util::capture_first(p.as_str(), msg.as_str()) {
                CaptureOutcome::BadPattern(e) => Up2bError::Regex(e),
                CaptureOutcome::NoMatch => Up2bError::Upload(UploadError::Error(msg)),
                CaptureOutcome::NoGroup => Up2bError::Upload(UploadError::Error(msg)),
                CaptureOutcome::Group(u) => Up2bError::Upload(UploadError::Repeat(u)),
            },
        }
    }
}

/// Which paths of a successful upload response name the new record's
/// fields.
#[derive(Debug, Clone)]
pub struct UploadResponseSuccuessController {
    pub image_url_key: String,
    pub thumb_key: Option<String>,
    pub deleted_id_key: String,
}

/// The record a successful upload response carries: url and delete
/// token must be strings; a null thumbnail is simply absent, but one
/// of any other wrong shape is an error.
pub open spec fn spec_upload_success(
    ctrl: UploadResponseSuccuessController,
    json: JsonValue,
) -> Result<(Seq<char>, Seq<char>, Option<Seq<char>>), Seq<char>> {
    let url = spec_resolve(json, ctrl.image_url_key@);
    let del = spec_resolve(json, ctrl.deleted_id_key@);
    if url is Null {
        Err("没有图片链接"@)
    } else if !(url is Str) {
        Err("类型错误"@)
    } else if del is Null {
        Err("没有删除 id"@)
    } else if !(del is Str) {
        Err("类型错误"@)
    } else {
        match ctrl.thumb_key {
            None => Ok((url->Str_0@, del->Str_0@, None)),
            Some(k) => match spec_resolve(json, k@) {
                JsonValue::Str(s) => Ok((url->Str_0@, del->Str_0@, Some(s@))),
                JsonValue::Null => Ok((url->Str_0@, del->Str_0@, None)),
                _ => Err("类型错误"@),
            },
        }
    }
}

impl UploadResponseSuccuessController {
    pub fn new(image_url_key: &str, thumb_key: Option<String>, deleted_id_key: &str) -> (r: Self)
        ensures
            r.image_url_key@ == image_url_key@,
            r.deleted_id_key@ == deleted_id_key@,
            r.thumb_key == thumb_key,
    {
        UploadResponseSuccuessController {
            image_url_key: image_url_key.to_owned(),
            thumb_key,
            deleted_id_key: deleted_id_key.to_owned(),
        }
    }

    pub fn parse(&self, json: &JsonValue) -> (r: Up2bResult<ImageItem>)
        ensures
            match spec_upload_success(*self, *json) {
                Ok(t) => r matches Ok(it) && item_view(it) == t,
                Err(m) => r matches Err(e) && (e matches Up2bError::Other(s) && s@ == m),
            },
    {
        let url: String = match crate::json::resolve_path(json, self.image_url_key.as_str()) {
            Some(JsonValue::Str(s)) => s.clone(),
            None => {
                return Err(Up2bError::Other("没有图片链接".to_owned()));
            },
            Some(JsonValue::Null) => {
                return Err(Up2bError::Other("没有图片链接".to_owned()));
            },
            Some(_) => {
                return Err(Up2bError::Other("类型错误".to_owned()));
            },
        };
        let deleted_id: String = match crate::json::resolve_path(
            json,
            self.deleted_id_key.as_str(),
        ) {
            Some(JsonValue::Str(s)) => s.clone(),
            None => {
                return Err(Up2bError::Other("没有删除 id".to_owned()));
            },
            Some(JsonValue::Null) => {
                return Err(Up2bError::Other("没有删除 id".to_owned()));
            },
            Some(_) => {
                return Err(Up2bError::Other("类型错误".to_owned()));
            },
        };
        match &self.thumb_key {
            None => Ok(ImageItem { url, deleted_id, thumb: None }),
            Some(k) => match crate::json::resolve_path(json, k.as_str()) {
                Some(JsonValue::Str(s)) => Ok(
                    ImageItem { url, deleted_id, thumb: Some(s.clone()) },
                ),
                None => Ok(ImageItem { url, deleted_id, thumb: None }),
                Some(JsonValue::Null) => Ok(ImageItem { url, deleted_id, thumb: None }),
                Some(_) => Err(Up2bError::Other("类型错误".to_owned())),
            },
        }
    }
}

/// Which path of an upload response declares success, and the value
/// it must equal.
#[derive(Debug, Clone)]
pub struct UploadResponseStatus {
    pub key: String,
    pub value: JsonValue,
}

impl UploadResponseStatus {
    pub fn new(key: &str, value: JsonValue) -> (r: Self)
        ensures
            r.key@ == key@,
            r.value == value,
    {
        UploadResponseStatus { key: key.to_owned(), value }
    }
}

#[derive(Debug, Clone)]
pub struct UploadResponseController {
    pub status: UploadResponseStatus,
    pub error: UploadResponseErrorController,
    pub success: UploadResponseSuccuessController,
}

impl UploadResponseController {
    pub fn new(
        status: UploadResponseStatus,
        error: UploadResponseErrorController,
        success: UploadResponseSuccuessController,
    ) -> (r: Self)
        ensures
            r.status == status,
            r.error == error,
            r.success == success,
    {
        UploadResponseController { status, error, success }
    }

    /// An upload response: when the declared status path holds the
    /// expected value, the success paths give the new record; any
    /// other status value yields the error the response explains.
    pub fn parse(&self, json: &JsonValue) -> (r: Up2bResult<ImageItem>)
        ensures
            crate::json::json_eq(spec_resolve(*json, self.status.key@), self.status.value)
                ==> match spec_upload_success(self.success, *json) {
                Ok(t) => r matches Ok(it) && item_view(it) == t,
                Err(m) => r matches Err(e) && (e matches Up2bError::Other(s) && s@ == m),
            },
            !crate::json::json_eq(spec_resolve(*json, self.status.key@), self.status.value) ==> (
            r matches Err(e) && e == spec_upload_error(self.error, *json)),
    {
        let status_is_expected: bool = match crate::json::resolve_path(
            json,
            self.status.key.as_str(),
        ) {
            Some(v) => crate::json::value_eq(v, &self.status.value),
            None => {
                let null = JsonValue::Null;
                crate::json::value_eq(&null, &self.status.value)
            },
        };
        if !status_is_expected {
            return Err(self.error.parse(json));
        }
        self.success.parse(json)
    }
}

/// The whole upload contract of one host: endpoint, size cap,
/// accepted formats, request encoding, extra body fields, response
/// controller and timeout.
#[derive(Debug, Clone)]
pub struct Upload {
    pub path: String,
    pub max_size: u8,
    pub allowed_formats: Vec<AllowedImageFormat>,
    pub content_type: UploadContentType,
    pub other_body: Option<Vec<(String, JsonValue)>>,
    pub controller: UploadResponseController,
    pub timeout: u64,
}

impl Upload {
    pub fn new(
        url: &str,
        max_size: u8,
        allowed_formats: Vec<AllowedImageFormat>,
        content_type: UploadContentType,
        other_body: Option<Vec<(String, JsonValue)>>,
        controller: UploadResponseController,
        timeout: Option<u64>,
    ) -> (r: Self)
        ensures
            r.path@ == url@,
            r.max_size == max_size,
            r.allowed_formats == allowed_formats,
            r.content_type == content_type,
            r.other_body == other_body,
            r.controller == controller,
            r.timeout == (match timeout {
                Some(t) => if t == 0 {
                    5u64
                } else {
                    t
                },
                None => 5u64,
            }),
    {
        let secs: u64 = match timeout {
            Some(t) => if t == 0 {
                5
            } else {
                t
            },
            None => 5,
        };
        Upload {
            path: url.to_owned(),
            max_size,
            allowed_formats,
            content_type,
            other_body,
            controller,
            timeout: secs,
        }
    }
}

// ---------------------------------------------------------------
// Deletion
// ---------------------------------------------------------------
/// How the delete target's id reaches the host: appended to the
/// endpoint path, or as a query parameter.
#[derive(Debug, Clone)]
pub enum DeleteKeyKind {
    Path,
    Query { key: String },
}

#[derive(Debug, Clone)]
pub enum DeleteMethod {
    Get { kind: DeleteKeyKind },
    Delete { kind: DeleteKeyKind },
    Post { body: Vec<(String, JsonValue)>, key: String },
}

/// How a delete response declares success: by HTTP status 200 alone,
/// or by a JSON field that must equal an expected value.
#[derive(Debug, Clone)]
pub enum DeleteResponseController {
    Status,
    Json { key: String, should_be: JsonValue, message_key: Option<String> },
}

/// What a delete response means under the `Json` controller, given
/// the parsed body.
pub open spec fn spec_delete_json(
    key: Seq<char>,
    should_be: JsonValue,
    message_key: Option<String>,
    json: JsonValue,
) -> Result<(), Seq<char>> {
    let value = spec_resolve(json, key);
    if value is Null {
        Err("无法获取删除状态值"@)
    } else if !crate::json::json_eq(value, should_be) {
        match message_key {
            None => Err("unkown"@),
            Some(k) => match crate::json::spec_index(json, k@) {
                JsonValue::Str(s) => Err(s@),
                _ => Err("unkown"@),
            },
        }
    } else {
        Ok(())
    }
}

impl DeleteResponseController {
    /// A delete response.  Under `Status`, HTTP 200 alone means
    /// success.  Under `Json`, the declared field must equal the
    /// expected value, else the named message field (one level deep)
    /// explains the failure.
    pub fn parse(&self, status: u16, body: &str) -> (r: Up2bResult<()>)
        ensures
            match *self {
                DeleteResponseController::Status => (r is Ok <==> status == 200) && (status != 200
                    ==> (r matches Err(e) && (e matches Up2bError::Other(s) && s@ == "unkown"@))),
                DeleteResponseController::Json { key, should_be, message_key } => match crate::json::json_of(
                    body@,
                ) {
                    None => r matches Err(e) && (e matches Up2bError::Serde(s) && s@
                        == "invalid JSON body"@),
                    Some(json) => match spec_delete_json(key@, should_be, message_key, json) {
                        Ok(_) => r is Ok,
                        Err(m) => r matches Err(e) && (e matches Up2bError::Other(s) && s@ == m),
                    },
                },
            },
    {
        match self {
            DeleteResponseController::Status => {
                if status != 200 {
                    return Err(Up2bError::Other("unkown".to_owned()));
                }
                Ok(())
            },
            DeleteResponseController::Json { key, should_be, message_key } => {
                let json = match crate::json::parse_json(body) {
                    Some(j) => j,
                    None => {
                        return Err(Up2bError::Serde("invalid JSON body".to_owned()));
                    },
                };
                let value_matches: bool;
                let is_null: bool;
                match crate::json::resolve_path(&json, key.as_str()) {
                    Some(JsonValue::Null) | None => {
                        return Err(Up2bError::Other("无法获取删除状态值".to_owned()));
                    },
                    Some(v) => {
                        value_matches = crate::json::value_eq(v, should_be);
                    },
                }
                if !value_matches {
                    match message_key {
                        None => {
                            return Err(Up2bError::Other("unkown".to_owned()));
                        },
                        Some(k) => {
                            let mut segs_one: Vec<String> = Vec::new();
                            segs_one.push(k.clone());
                            proof {
                                let sv = crate::json::seg_views(segs_one@);
                                let rest = sv.drop_first();
                                assert(sv.len() == 1);
                                assert(sv[0] == k@);
                                assert(rest.len() == 0);
                                assert(crate::json::spec_resolve_segs(
                                    crate::json::spec_index(json, k@),
                                    rest,
                                ) == crate::json::spec_index(json, k@));
                                assert(crate::json::spec_resolve_segs(json, sv)
                                    == crate::json::spec_index(json, k@));
                            }
                            match crate::json::resolve_segs(&json, &segs_one) {
                                Some(JsonValue::Str(s)) => {
                                    return Err(Up2bError::Other(s.clone()));
                                },
                                _ => {
                                    return Err(Up2bError::Other("unkown".to_owned()));
                                },
                            }
                        },
                    }
                }
                Ok(())
            },
        }
    }
}

#[derive(Debug, Clone)]
pub struct Delete {
    pub path: String,
    pub method: DeleteMethod,
    pub controller: DeleteResponseController,
}

impl Delete {
    pub fn new(url: &str, method: DeleteMethod, controller: DeleteResponseController) -> (r: Self)
        ensures
            r.path@ == url@,
            r.method == method,
            r.controller == controller,
    {
        Delete { path: url.to_owned(), method, controller }
    }
}

// ---------------------------------------------------------------
// The whole descriptor
// ---------------------------------------------------------------
/// The full, declarative contract of one backend: where it lives, how
/// it authenticates, and its three operations.
#[derive(Debug, Clone)]
pub struct Api {
    pub base_url: String,
    pub auth_method: AuthMethod,
    pub upload: Upload,
    pub list: List,
    pub delete: Delete,
}

impl Api {
    pub fn new(
        base_url: &str,
        auth_method: AuthMethod,
        upload: Upload,
        list: List,
        delete: Delete,
    ) -> (r: Self)
        ensures
            r.base_url@ == base_url@,
            r.auth_method == auth_method,
            r.upload == upload,
            r.list == list,
            r.delete == delete,
    {
        Api { base_url: base_url.to_owned(), auth_method, upload, list, delete }
    }

    pub fn base_url(&self) -> (r: &str)
        ensures
            r@ == self.base_url@,
    {
        self.base_url.as_str()
    }

    pub fn max_size(&self) -> (r: u8)
        ensures
            r == self.upload.max_size,
    {
        self.upload.max_size
    }

    pub fn allowed_formats(&self) -> (r: &Vec<AllowedImageFormat>)
        ensures
            r == &self.upload.allowed_formats,
    {
        &self.upload.allowed_formats
    }
}

} // verus!
