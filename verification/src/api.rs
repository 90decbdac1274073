use vstd::prelude::*;

use crate::descriptor::{
    item_view, spec_upload_error, spec_upload_success, Api, AuthMethod, DeleteKeyKind,
    DeleteMethod, ListRequestMethod, UploadContentType,
};
use crate::error::{Up2bError, Up2bResult};
use crate::http::{HttpMethod, HttpRequest, RequestBody};
use crate::json::{
    clone_fields, fields_like, json_eq, json_of, obj_insert, spec_key_index, spec_resolve,
    JsonValue,
};
use crate::manager::{AllowedImageFormat, BaseManager, Extra, ImageItem, UploadResult};
use crate::util::base64_of;

verus! {

/// The key-and-value views of a header list.
pub open spec fn hdr_views(h: Seq<(String, String)>) -> Seq<(Seq<char>, Seq<char>)> {
    h.map_values(|p: (String, String)| (p.0@, p.1@))
}

/// The headers a descriptor-driven request carries: JSON is always
/// accepted, and a header-placed token is added under its configured
/// name and prefix.
pub open spec fn spec_headers(auth: AuthMethod, token: Seq<char>) -> Seq<(Seq<char>, Seq<char>)> {
    match auth {
        AuthMethod::Header { key, prefix } => seq![
            ("Accept"@, "application/json"@),
            (
                match key {
                    None => "Authorization"@,
                    Some(k) => k@,
                },
                match prefix {
                    None => token,
                    Some(p) => p@ + token,
                },
            ),
        ],
        AuthMethod::Body { .. } => seq![("Accept"@, "application/json"@)],
    }
}

/// Whether `out` is `ob` with `key` set to the string `data`: the
/// first field already named `key` is replaced, else the pair stands
/// appended; all other fields agree.
pub open spec fn spec_merged_fields(
    ob: Seq<(String, JsonValue)>,
    key: Seq<char>,
    data: Seq<char>,
    out: Seq<(String, JsonValue)>,
) -> bool {
    let i = spec_key_index(ob, key);
    if i < ob.len() {
        out.len() == ob.len() && (forall|j: int|
            0 <= j < ob.len() && j != i ==> (#[trigger] out[j]).0@ == ob[j].0@ && json_eq(
                out[j].1,
                ob[j].1,
            )) && out[i].0@ == key && out[i].1 is Str && out[i].1->Str_0@ == data
    } else {
        out.len() == ob.len() + 1 && (forall|j: int|
            0 <= j < ob.len() ==> (#[trigger] out[j]).0@ == ob[j].0@ && json_eq(out[j].1, ob[j].1))
            && out[ob.len() as int].0@ == key && out[ob.len() as int].1 is Str
            && out[ob.len() as int].1->Str_0@ == data
    }
}

/// Copies `fields` and sets `key` to the string `value` in the copy.
fn merge_string_field(fields: &Vec<(String, JsonValue)>, key: &str, value: &str) -> (r: Vec<
    (String, JsonValue),
>)
    ensures
        spec_merged_fields(fields@, key@, value@, r@),
{
    let mut out = clone_fields(fields);
    proof {
        crate::json::lemma_key_index_congruent(out@, fields@, key@);
        crate::json::lemma_key_index_range(fields@, key@);
    }
    obj_insert(&mut out, key.to_owned(), JsonValue::Str(value.to_owned()));
    out
}

/// The JSON body of a base64 upload: the file's encoding is merged
/// under `key` into the given extra body, an absent body standing for
/// an empty object; anything but an object is refused.
pub fn build_json_upload_body(form: Option<&JsonValue>, key: &str, file_bytes: &Vec<u8>) -> (r:
    Up2bResult<JsonValue>)
    ensures
        match form {
            None => r matches Ok(b) && b is Obj && spec_merged_fields(
                Seq::empty(),
                key@,
                base64_of(file_bytes@),
                b->Obj_0@,
            ),
            Some(f) => match *f {
                JsonValue::Obj(fields) => r matches Ok(b) && b is Obj && spec_merged_fields(
                    fields@,
                    key@,
                    base64_of(file_bytes@),
                    b->Obj_0@,
                ),
                _ => r matches Err(e) && (e matches Up2bError::Other(s) && s@ == "错误的类型"@),
            },
        },
{
    let data = crate::util::base64_encode(file_bytes);
    match form {
        None => {
            let mut out: Vec<(String, JsonValue)> = Vec::new();
            obj_insert(&mut out, key.to_owned(), JsonValue::Str(data));
            Ok(JsonValue::Obj(out))
        },
        Some(f) => match f {
            JsonValue::Obj(fields) => {
                let out = merge_string_field(fields, key, data.as_str());
                Ok(JsonValue::Obj(out))
            },
            _ => Err(Up2bError::Other("错误的类型".to_owned())),
        },
    }
}

/// One descriptor bound to a token: enough to phrase any of the three
/// operations as a plain request and to read its response.
#[derive(Debug)]
pub struct BaseApiManager {
    pub inner: BaseManager,
    pub token: String,
    pub api: Api,
}

impl BaseApiManager {
    pub fn new(inner: BaseManager, token: &str, api: Api) -> (r: Self)
        ensures
            r.inner == inner,
            r.token@ == token@,
            r.api == api,
    {
        BaseApiManager { inner, token: token.to_owned(), api }
    }

    pub fn allowed_formats(&self) -> (r: Vec<AllowedImageFormat>)
        ensures
            r@ == self.api.upload.allowed_formats@,
    {
        let src = &self.api.upload.allowed_formats;
        let mut out: Vec<AllowedImageFormat> = Vec::new();
        let mut i: usize = 0;
        while i < src.len()
            invariant
                i <= src@.len(),
                out@.len() == i,
                src == &self.api.upload.allowed_formats,
                forall|j: int| 0 <= j < i ==> out@[j] == src@[j],
            decreases src@.len() - i,
        {
            out.push(src[i]);
            i += 1;
        }
        proof {
            assert(out@ =~= src@);
        }
        out
    }

    /// The full address of one endpoint under this descriptor: root
    /// and path, joined as given.
    pub fn url(&self, path: &str) -> (r: String)
        ensures
            r@ == self.api.base_url@ + path@,
    {
        self.api.base_url.clone().concat(path)
    }

    /// The headers of every request this manager sends.
    pub fn headers(&self) -> (r: Vec<(String, String)>)
        ensures
            hdr_views(r@) == spec_headers(self.api.auth_method, self.token@),
    {
        let mut out: Vec<(String, String)> = Vec::new();
        out.push(("Accept".to_owned(), "application/json".to_owned()));
        match &self.api.auth_method {
            AuthMethod::Header { key, prefix } => {
                let name: String = match key {
                    None => "Authorization".to_owned(),
                    Some(k) => k.clone(),
                };
                let value: String = match prefix {
                    None => self.token.clone(),
                    Some(p) => p.clone().concat(self.token.as_str()),
                };
                out.push((name, value));
            },
            AuthMethod::Body { .. } => {},
        }
        proof {
            assert(hdr_views(out@) =~= spec_headers(self.api.auth_method, self.token@));
        }
        out
    }

    /// The listing request this descriptor prescribes: a bare GET of
    /// the listing endpoint, or a POST whose JSON body is the declared
    /// one, with a body-placed token merged in.
    pub fn list_request(&self) -> (r: HttpRequest)
        ensures
            hdr_views(r.headers@) == spec_headers(self.api.auth_method, self.token@),
            r.timeout == self.inner.timeout,
            match self.api.list.method {
                ListRequestMethod::Get => r.method is Get && r.url@ == self.api.base_url@
                    + self.api.list.path@ && r.body is Empty,
                ListRequestMethod::Post { body } => r.method is Post && r.url@
                    == self.api.list.path@ && (r.body matches RequestBody::Json(b) && b is Obj && (
                match self.api.auth_method {
                    AuthMethod::Body { key } => spec_merged_fields(
                        body@,
                        key@,
                        self.token@,
                        b->Obj_0@,
                    ),
                    _ => fields_like(b->Obj_0@, body@),
                })),
            },
    {
        match &self.api.list.method {
            ListRequestMethod::Get => HttpRequest {
                method: HttpMethod::Get,
                url: self.url(self.api.list.path.as_str()),
                headers: self.headers(),
                body: RequestBody::Empty,
                timeout: self.inner.timeout,
            },
            ListRequestMethod::Post { body } => {
                let merged: Vec<(String, JsonValue)> = match &self.api.auth_method {
                    AuthMethod::Body { key } => merge_string_field(
                        body,
                        key.as_str(),
                        self.token.as_str(),
                    ),
                    _ => clone_fields(body),
                };
                HttpRequest {
                    method: HttpMethod::Post,
                    url: self.api.list.path.clone(),
                    headers: self.headers(),
                    body: RequestBody::Json(JsonValue::Obj(merged)),
                    timeout: self.inner.timeout,
                }
            },
        }
    }

    /// Reads a listing response body: the declared items path must
    /// hold an array whose records all carry their url and delete
    /// token.
    pub fn list(&self, body: &str) -> (r: Up2bResult<Vec<ImageItem>>)
        ensures
            match json_of(body@) {
                None => r matches Err(e) && (e matches Up2bError::Serde(s) && s@
                    == "invalid JSON body"@),
                Some(json) => match spec_resolve(json, self.api.list.controller.items_key@) {
                    JsonValue::Arr(elems) => match crate::descriptor::spec_list_err(
                        self.api.list.controller,
                        elems@,
                    ) {
                        Some(m) => r matches Err(e) && (e matches Up2bError::Other(s) && s@ == m),
                        None => r matches Ok(v) && v@.map_values(|it: ImageItem| item_view(it))
                            == crate::descriptor::spec_list_ok(self.api.list.controller, elems@),
                    },
                    _ => r matches Err(e) && (e matches Up2bError::Other(s) && s@
                        == "通过 items_key 无法获取列表"@),
                },
            },
    {
        let json = match crate::json::parse_json(body) {
            Some(j) => j,
            None => {
                return Err(Up2bError::Serde("invalid JSON body".to_owned()));
            },
        };
        self.api.list.controller.parse(&json)
    }

    /// The delete request this descriptor prescribes: the target's id
    /// goes onto the path, into the query, or into a JSON body, and
    /// a body-placed token is merged in.
    pub fn delete_request(&self, id: &str) -> (r: HttpRequest)
        ensures
            hdr_views(r.headers@) == spec_headers(self.api.auth_method, self.token@),
            r.timeout == self.inner.timeout,
            match self.api.delete.method {
                DeleteMethod::Get { kind } => r.method is Get && r.body is Empty
                    && spec_delete_url(self.api.base_url@, self.api.delete.path@, kind, id@)
                    == r.url@,
                DeleteMethod::Delete { kind } => r.method is Delete && r.body is Empty
                    && spec_delete_url(self.api.base_url@, self.api.delete.path@, kind, id@)
                    == r.url@,
                DeleteMethod::Post { body, key } => r.method is Post && r.url@
                    == self.api.base_url@ + self.api.delete.path@ && (r.body
                    matches RequestBody::Json(b) && b is Obj && exists|mid: Seq<
                    (String, JsonValue),
                >|
                    spec_merged_fields(body@, key@, id@, mid) && (
                    match self.api.auth_method {
                        AuthMethod::Body { key: akey } => spec_merged_fields(
                            mid,
                            akey@,
                            self.token@,
                            b->Obj_0@,
                        ),
                        _ => b->Obj_0@ == mid,
                    })),
            },
    {
        match &self.api.delete.method {
            DeleteMethod::Get { kind } => HttpRequest {
                method: HttpMethod::Get,
                url: self.delete_url(kind, id),
                headers: self.headers(),
                body: RequestBody::Empty,
                timeout: self.inner.timeout,
            },
            DeleteMethod::Delete { kind } => HttpRequest {
                method: HttpMethod::Delete,
                url: self.delete_url(kind, id),
                headers: self.headers(),
                body: RequestBody::Empty,
                timeout: self.inner.timeout,
            },
            DeleteMethod::Post { body, key } => {
                let merged = merge_string_field(body, key.as_str(), id);
                let ghost mid = merged@;
                let full: Vec<(String, JsonValue)> = match &self.api.auth_method {
                    AuthMethod::Body { key: akey } => {
                        let with_token = merge_string_field(
                            &merged,
                            akey.as_str(),
                            self.token.as_str(),
                        );
                        with_token
                    },
                    _ => merged,
                };
                HttpRequest {
                    method: HttpMethod::Post,
                    url: self.url(self.api.delete.path.as_str()),
                    headers: self.headers(),
                    body: RequestBody::Json(JsonValue::Obj(full)),
                    timeout: self.inner.timeout,
                }
            },
        }
    }

    /// The address a GET- or DELETE-style removal uses.
    fn delete_url(&self, kind: &DeleteKeyKind, id: &str) -> (r: String)
        ensures
            r@ == spec_delete_url(self.api.base_url@, self.api.delete.path@, *kind, id@),
    {
        match kind {
            DeleteKeyKind::Path => self.url(self.api.delete.path.clone().concat(id).as_str()),
            DeleteKeyKind::Query { key } => self.api.base_url.clone().concat(
                self.api.delete.path.as_str(),
            ).concat("?").concat(key.as_str()).concat("=").concat(id),
        }
    }

    /// Reads a delete response per the descriptor's result kind.
    pub fn delete(&self, status: u16, body: &str) -> (r: Up2bResult<()>)
        ensures
            match self.api.delete.controller {
                crate::descriptor::DeleteResponseController::Status => (r is Ok <==> status == 200)
                    && (status != 200 ==> (r matches Err(e) && (e matches Up2bError::Other(s) && s@
                    == "unkown"@))),
                crate::descriptor::DeleteResponseController::Json { key, should_be, message_key } => match json_of(
                    body@,
                ) {
                    None => r matches Err(e) && (e matches Up2bError::Serde(s) && s@
                        == "invalid JSON body"@),
                    Some(json) => match crate::descriptor::spec_delete_json(
                        key@,
                        should_be,
                        message_key,
                        json,
                    ) {
                        Ok(_) => r is Ok,
                        Err(m) => r matches Err(e) && (e matches Up2bError::Other(s) && s@ == m),
                    },
                },
            },
    {
        self.api.delete.controller.parse(status, body)
    }

    /// Whether this backend's upload streams (and so reports
    /// progress).
    pub fn support_stream(&self) -> (r: bool)
        ensures
            r == match self.api.upload.content_type {
                UploadContentType::Json { .. } => true,
                UploadContentType::Multipart { file_kind, .. } => file_kind is Stream,
            },
    {
        match &self.api.upload.content_type {
            UploadContentType::Json { .. } => true,
            UploadContentType::Multipart { file_kind, .. } => match file_kind {
                crate::descriptor::FileKind::Stream => true,
                _ => false,
            },
        }
    }

    /// Token verification is not offered for descriptor-driven
    /// backends: there is nothing to hand back.
    pub fn verify(&self) -> (r: Up2bResult<Option<Extra>>)
        ensures
            r matches Ok(e) && e is None,
    {
        Ok(None)
    }

    /// The upload request this descriptor prescribes.  Either way the
    /// file is first held against the size cap: one over it, with
    /// automatic compression off, is refused with the oversize error.
    /// A JSON-encoded upload takes no extra form fields and carries
    /// the file base64 encoded under the declared key, merged into
    /// the descriptor's extra body fields.
    pub fn upload_request(
        &self,
        filename: &str,
        file_bytes: &Vec<u8>,
        file_size: u64,
        automatic_compression: bool,
        form: Option<&Vec<(String, String)>>,
    ) -> (r: Up2bResult<HttpRequest>)
        ensures
            (!automatic_compression && file_size > self.inner.max_size as u64 * 1024 * 1024) ==> (
            r matches Err(e) && (e matches Up2bError::OverSize(n, p, m, f) && n@
                == self.inner.name@ && p@ == filename@ && m == (self.inner.max_size as u64 * 1024
                * 1024) / 1024 / 1024 && f == file_size / 1024 / 1024)),
            !(!automatic_compression && file_size > self.inner.max_size as u64 * 1024 * 1024)
                ==> match self.api.upload.content_type {
                UploadContentType::Json { key } => match form {
                    Some(_) => r matches Err(e) && (e matches Up2bError::Other(s) && s@
                        == "错误的类型"@),
                    None => r matches Ok(req) && req.method is Post && req.url@
                        == self.api.base_url@ + self.api.upload.path@ && hdr_views(req.headers@)
                        == spec_headers(self.api.auth_method, self.token@) && req.timeout
                        == self.api.upload.timeout && (req.body matches RequestBody::Json(b) && b
                        is Obj && spec_merged_fields(
                        match self.api.upload.other_body {
                            None => Seq::empty(),
                            Some(ob) => ob@,
                        },
                        key@,
                        base64_of(file_bytes@),
                        b->Obj_0@,
                    )),
                },
                UploadContentType::Multipart { file_part_name, file_kind } => r matches Ok(req)
                    && req.method is Post && req.url@ == self.api.base_url@
                    + self.api.upload.path@ && hdr_views(req.headers@) == spec_headers(
                    self.api.auth_method,
                    self.token@,
                ) && req.timeout == self.api.upload.timeout && (req.body
                    matches RequestBody::Multipart { file_part_name: p, file_kind: k, mime_type: mt, extra: ex }
                    && p@ == file_part_name@ && k == file_kind && mt@ == spec_guessed_mime(
                    filename@,
                ) && (match form {
                    None => ex@.len() == 0,
                    Some(fs) => ex@ == fs@,
                })),
            },
    {
        let max_bytes = self.inner.max_size as u64 * 1024 * 1024;
        if !automatic_compression {
            crate::manager::is_exceeded(self.inner.name.as_str(), filename, max_bytes, file_size)?;
        }
        match &self.api.upload.content_type {
            UploadContentType::Json { key } => {
                if form.is_some() {
                    return Err(Up2bError::Other("错误的类型".to_owned()));
                }
                let body = match &self.api.upload.other_body {
                    None => build_json_upload_body(None, key.as_str(), file_bytes)?,
                    Some(ob) => {
                        let data = crate::util::base64_encode(file_bytes);
                        JsonValue::Obj(merge_string_field(ob, key.as_str(), data.as_str()))
                    },
                };
                Ok(
                    HttpRequest {
                        method: HttpMethod::Post,
                        url: self.url(self.api.upload.path.as_str()),
                        headers: self.headers(),
                        body: RequestBody::Json(body),
                        timeout: self.api.upload.timeout,
                    },
                )
            },
            UploadContentType::Multipart { file_part_name, file_kind } => {
                let mime = guessed_mime(filename);
                let extra: Vec<(String, String)> = match form {
                    None => Vec::new(),
                    Some(fs) => clone_string_pairs(fs),
                };
                Ok(
                    HttpRequest {
                        method: HttpMethod::Post,
                        url: self.url(self.api.upload.path.as_str()),
                        headers: self.headers(),
                        body: RequestBody::Multipart {
                            file_part_name: file_part_name.clone(),
                            file_kind: *file_kind,
                            mime_type: mime,
                            extra,
                        },
                        timeout: self.api.upload.timeout,
                    },
                )
            },
        }
    }

    /// Reads an upload response body: the declared status path must
    /// hold the expected value, then the success paths give the new
    /// record; else the response's own message explains the failure.
    pub fn upload(&self, body: &str) -> (r: Up2bResult<UploadResult>)
        ensures
            match json_of(body@) {
                None => r matches Err(e) && (e matches Up2bError::Serde(s) && s@
                    == "invalid JSON body"@),
                Some(json) => {
                    let ctrl = self.api.upload.controller;
                    if json_eq(spec_resolve(json, ctrl.status.key@), ctrl.status.value) {
                        match spec_upload_success(ctrl.success, json) {
                            Ok(t) => r matches Ok(u) && (u matches UploadResult::Response(it)
                                && item_view(it) == t),
                            Err(m) => r matches Err(e) && (e matches Up2bError::Other(s) && s@
                                == m),
                        }
                    } else {
                        r matches Err(e) && e == spec_upload_error(ctrl.error, json)
                    }
                },
            },
    {
        let json = match crate::json::parse_json(body) {
            Some(j) => j,
            None => {
                return Err(Up2bError::Serde("invalid JSON body".to_owned()));
            },
        };
        let item = self.api.upload.controller.parse(&json)?;
        Ok(UploadResult::Response(item))
    }
}

/// The address a GET- or DELETE-style removal uses: the id appended
/// to the path, or passed as the declared query parameter.
pub open spec fn spec_delete_url(
    base: Seq<char>,
    path: Seq<char>,
    kind: DeleteKeyKind,
    id: Seq<char>,
) -> Seq<char> {
    match kind {
        DeleteKeyKind::Path => base + path + id,
        DeleteKeyKind::Query { key } => base + path + "?"@ + key@ + "="@ + id,
    }
}

/// The mime type guessed for a file name: what follows its last dot
/// decides.
pub open spec fn spec_guessed_mime(filename: Seq<char>) -> Seq<char> {
    crate::util::spec_mime_text(
        crate::util::spec_ext_part(crate::util::spec_ext_tail(filename)),
    )
}

fn guessed_mime(filename: &str) -> (r: String)
    ensures
        r@ == spec_guessed_mime(filename@),
{
    crate::util::mime_for_filename(filename)
}

/// A plain copy of a list of text pairs.
fn clone_string_pairs(src: &Vec<(String, String)>) -> (r: Vec<(String, String)>)
    ensures
        r@ == src@,
{
    let mut out: Vec<(String, String)> = Vec::new();
    let mut i: usize = 0;
    while i < src.len()
        invariant
            i <= src@.len(),
            out@.len() == i,
            forall|j: int| 0 <= j < i ==> out@[j] == src@[j],
        decreases src@.len() - i,
    {
        out.push((src[i].0.clone(), src[i].1.clone()));
        i += 1;
    }
    proof {
        assert(out@ =~= src@);
    }
    out
}

} // verus!
