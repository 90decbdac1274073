use vstd::prelude::*;

use crate::api::{build_json_upload_body, spec_merged_fields};
use crate::error::{PathError, Up2bError, Up2bResult, UploadError};
use crate::http::{HttpMethod, HttpRequest, RequestBody};
use crate::json::{json_of, spec_index, JsonValue};
use crate::manager::{AllowedImageFormat, BaseManager, ImageItem, UploadResult};
use crate::util::{find_sub, sub_at};

verus! {

/// One string field of a response object, one level deep: an absent
/// or null field and a field of the wrong shape fail differently.
pub open spec fn spec_get_string(json: JsonValue, key: Seq<char>) -> Result<Seq<char>, bool> {
    match spec_index(json, key) {
        JsonValue::Str(s) => Ok(s@),
        JsonValue::Null => Err(true),
        _ => Err(false),
    }
}

/// Reads one string field, as `spec_get_string` describes it.
fn get_string(json: &JsonValue, key: &str) -> (r: Up2bResult<String>)
    ensures
        match spec_get_string(*json, key@) {
            Ok(t) => r matches Ok(s) && s@ == t,
            Err(missing) => r matches Err(e) && (if missing {
                e matches Up2bError::KeyNotFound(k) && k@ == key@
            } else {
                e matches Up2bError::KeyNotMatch(k) && k@ == key@
            }),
        },
{
    let mut segs_one: Vec<String> = Vec::new();
    segs_one.push(key.to_owned());
    proof {
        let sv = crate::json::seg_views(segs_one@);
        let rest = sv.drop_first();
        assert(sv.len() == 1);
        assert(sv[0] == key@);
        assert(rest.len() == 0);
        assert(crate::json::spec_resolve_segs(spec_index(*json, key@), rest) == spec_index(
            *json,
            key@,
        ));
        assert(crate::json::spec_resolve_segs(*json, sv) == spec_index(*json, key@));
    }
    match crate::json::resolve_segs(json, &segs_one) {
        Some(JsonValue::Str(s)) => Ok(s.clone()),
        Some(JsonValue::Null) | None => Err(Up2bError::KeyNotFound(key.to_owned())),
        Some(_) => Err(Up2bError::KeyNotMatch(key.to_owned())),
    }
}

/// One record of a repository listing: its download address, blob
/// hash and API address, each a string field.
pub open spec fn spec_git_item(item: JsonValue) -> Result<(Seq<char>, Seq<char>), (Seq<char>, bool)> {
    match spec_get_string(item, "download_url"@) {
        Err(m) => Err(("download_url"@, m)),
        Ok(download_url) => match spec_get_string(item, "sha"@) {
            Err(m) => Err(("sha"@, m)),
            Ok(sha) => match spec_get_string(item, "url"@) {
                Err(m) => Err(("url"@, m)),
                Ok(url) => Ok((download_url, url + "---"@ + sha)),
            },
        },
    }
}

/// The first failing record's error, reading records in order.
pub open spec fn spec_git_err(elems: Seq<JsonValue>) -> Option<(Seq<char>, bool)>
    decreases elems.len(),
{
    if elems.len() == 0 {
        None
    } else {
        match spec_git_item(elems[0]) {
            Err(m) => Some(m),
            Ok(_) => spec_git_err(elems.drop_first()),
        }
    }
}

/// The records' contents when every record parses.
pub open spec fn spec_git_ok(elems: Seq<JsonValue>) -> Seq<(Seq<char>, Seq<char>)>
    decreases elems.len(),
{
    if elems.len() == 0 {
        Seq::empty()
    } else {
        match spec_git_item(elems[0]) {
            Err(_) => Seq::empty(),
            Ok(t) => seq![t] + spec_git_ok(elems.drop_first()),
        }
    }
}

pub open spec fn git_key_error(e: Up2bError, key: Seq<char>, missing: bool) -> bool {
    if missing {
        e matches Up2bError::KeyNotFound(k) && k@ == key
    } else {
        e matches Up2bError::KeyNotMatch(k) && k@ == key
    }
}

/// The adapter for hosts that store images through a Git contents
/// API: list is a directory listing, upload a PUT with base64
/// content, delete a DELETE with the blob hash.
#[derive(Debug)]
pub struct GitManager {
    pub inner: BaseManager,
    pub headers: Option<Vec<(String, String)>>,
    pub token: String,
}

impl GitManager {
    /// Binds the adapter to one repository path:
    /// `{base}/repos/{user}/{repository}/contents/{path}`, with
    /// `up2b` standing in for an unnamed path.
    pub fn new(
        name: &str,
        base_url: &str,
        headers: Option<Vec<(String, String)>>,
        token: &str,
        username: &str,
        repository: &str,
        path: Option<&str>,
        timeout: Option<u8>,
        max_size: u8,
    ) -> (r: Self)
        ensures
            r.inner.name@ == name@,
            r.inner.base_url@ == base_url@ + "/repos/"@ + username@ + "/"@ + repository@
                + "/contents/"@ + (match path {
                Some(p) => p@,
                None => "up2b"@,
            }),
            r.inner.max_size == max_size,
            r.inner.timeout == (match timeout {
                Some(t) => t as u64,
                None => 5u64,
            }),
            r.inner.allowed_formats@.len() == 6,
            r.headers == headers,
            r.token@ == token@,
    {
        let p: &str = match path {
            Some(p) => p,
            None => "up2b",
        };
        let full = base_url.to_owned().concat("/repos/").concat(username).concat("/").concat(
            repository,
        ).concat("/contents/").concat(p);
        let mut formats: Vec<AllowedImageFormat> = Vec::new();
        formats.push(AllowedImageFormat::Jpeg);
        formats.push(AllowedImageFormat::Png);
        formats.push(AllowedImageFormat::Gif);
        formats.push(AllowedImageFormat::Bmp);
        formats.push(AllowedImageFormat::Webp);
        formats.push(AllowedImageFormat::Avif);
        let inner = BaseManager::new(name.to_owned(), full, max_size, formats, timeout);
        GitManager { inner, headers, token: token.to_owned() }
    }

    pub fn allowed_formats(&self) -> (r: &Vec<AllowedImageFormat>)
        ensures
            r == &self.inner.allowed_formats,
    {
        &self.inner.allowed_formats
    }

    /// Token verification is not offered for Git hosts: there is
    /// nothing to hand back.
    pub fn verify(&self) -> (r: Up2bResult<Option<crate::manager::Extra>>)
        ensures
            r matches Ok(e) && e is None,
    {
        Ok(None)
    }

    /// Git uploads always stream, so progress is always reported.
    pub fn support_stream(&self) -> (r: bool)
        ensures
            r == true,
    {
        true
    }

    /// The headers of every request: the configured ones (or a JSON
    /// accept line), then the bearer token.
    pub fn headers(&self) -> (r: Vec<(String, String)>)
        ensures
            match self.headers {
                None => r@.len() == 2 && r@[0].0@ == "Accept"@ && r@[0].1@ == "application/json"@,
                Some(m) => r@.len() == m@.len() + 1 && (forall|j: int|
                    0 <= j < m@.len() ==> (#[trigger] r@[j]).0@ == m@[j].0@ && r@[j].1@
                        == m@[j].1@),
            },
            r@.len() >= 1 && r@[r@.len() - 1].0@ == "Authorization"@ && r@[r@.len() - 1].1@
                == "Bearer "@ + self.token@,
    {
        let mut out: Vec<(String, String)> = Vec::new();
        match &self.headers {
            None => {
                out.push(("Accept".to_owned(), "application/json".to_owned()));
            },
            Some(m) => {
                let mut i: usize = 0;
                while i < m.len()
                    invariant
                        i <= m@.len(),
                        out@.len() == i,
                        self.headers matches Some(mm) && mm == *m,
                        forall|j: int|
                            0 <= j < i ==> (#[trigger] out@[j]).0@ == m@[j].0@ && out@[j].1@
                                == m@[j].1@,
                    decreases m@.len() - i,
                {
                    out.push((m[i].0.clone(), m[i].1.clone()));
                    i += 1;
                }
            },
        }
        out.push(("Authorization".to_owned(), "Bearer ".to_owned().concat(self.token.as_str())));
        out
    }

    /// The records from position `i` on.
    fn parse_images_from(&self, elems: &Vec<JsonValue>, i: usize) -> (r: Up2bResult<
        Vec<ImageItem>,
    >)
        requires
            i <= elems@.len(),
        ensures
            match spec_git_err(elems@.skip(i as int)) {
                Some(m) => r matches Err(e) && git_key_error(e, m.0, m.1),
                None => r matches Ok(v) && v@.map_values(
                    |it: ImageItem| (it.url@, it.deleted_id@),
                ) == spec_git_ok(elems@.skip(i as int)) && (forall|j: int|
                    0 <= j < v@.len() ==> (#[trigger] v@[j]).thumb is None),
            },
        decreases elems@.len() - i,
    {
        if i == elems.len() {
            let empty: Vec<ImageItem> = Vec::new();
            proof {
                assert(elems@.skip(i as int).len() == 0);
                assert(empty@.map_values(|it: ImageItem| (it.url@, it.deleted_id@))
                    =~= spec_git_ok(elems@.skip(i as int)));
            }
            return Ok(empty);
        }
        proof {
            assert(elems@.skip(i as int)[0] == elems@[i as int]);
            assert(elems@.skip(i as int).drop_first() =~= elems@.skip(i as int + 1));
        }
        let item = &elems[i];
        let download_url = get_string(item, "download_url")?;
        let sha = get_string(item, "sha")?;
        let url = get_string(item, "url")?;
        let deleted_id = url.concat("---").concat(sha.as_str());
        let first = ImageItem { url: download_url, deleted_id, thumb: None };
        let rest = self.parse_images_from(elems, i + 1)?;
        let mut out = rest;
        out.insert(0, first);
        proof {
            assert(out@.map_values(|it: ImageItem| (it.url@, it.deleted_id@)) =~= spec_git_ok(
                elems@.skip(i as int),
            ));
        }
        Ok(out)
    }

    /// Reads records of a directory listing into image records: the
    /// delete token joins the record's API address and blob hash with
    /// `---`.
    pub fn parse_images(&self, elems: &Vec<JsonValue>) -> (r: Up2bResult<Vec<ImageItem>>)
        ensures
            match spec_git_err(elems@) {
                Some(m) => r matches Err(e) && git_key_error(e, m.0, m.1),
                None => r matches Ok(v) && v@.map_values(
                    |it: ImageItem| (it.url@, it.deleted_id@),
                ) == spec_git_ok(elems@) && (forall|j: int|
                    0 <= j < v@.len() ==> (#[trigger] v@[j]).thumb is None),
            },
    {
        proof {
            assert(elems@.skip(0) =~= elems@);
        }
        self.parse_images_from(elems, 0)
    }

    /// The listing request: a GET of the bound repository path.
    pub fn list_request(&self) -> (r: HttpRequest)
        ensures
            r.method is Get,
            r.url@ == self.inner.base_url@,
            r.body is Empty,
            r.timeout == self.inner.timeout,
    {
        HttpRequest {
            method: HttpMethod::Get,
            url: self.inner.base_url.clone(),
            headers: self.headers(),
            body: RequestBody::Empty,
            timeout: self.inner.timeout,
        }
    }

    /// Reads a listing response: anything but HTTP 200 carries a
    /// `message` that classifies the failure; a 200 body must be the
    /// array of records.
    pub fn list(&self, status: u16, body: &str) -> (r: Up2bResult<Vec<ImageItem>>)
        ensures
            match json_of(body@) {
                None => r matches Err(e) && (e matches Up2bError::Serde(s) && s@
                    == "invalid JSON body"@),
                Some(json) => if status != 200 {
                    match spec_get_string(json, "message"@) {
                        Err(m) => r matches Err(e) && git_key_error(e, "message"@, m),
                        Ok(msg) => r matches Err(e) && (e matches Up2bError::Git(g) && (if msg
                            == "Not Found"@ {
                            g is NotFound
                        } else {
                            g matches crate::error::GitError::Other(s) && s@ == msg
                        })),
                    }
                } else {
                    match json {
                        JsonValue::Arr(elems) => match spec_git_err(elems@) {
                            Some(m) => r matches Err(e) && git_key_error(e, m.0, m.1),
                            None => r matches Ok(v) && v@.map_values(
                                |it: ImageItem| (it.url@, it.deleted_id@),
                            ) == spec_git_ok(elems@),
                        },
                        _ => r matches Err(e) && (e matches Up2bError::Other(s) && s@
                            == "响应体不是数组"@),
                    }
                },
            },
    {
        let json = match crate::json::parse_json(body) {
            Some(j) => j,
            None => {
                return Err(Up2bError::Serde("invalid JSON body".to_owned()));
            },
        };
        if status != 200 {
            let message = get_string(&json, "message")?;
            let error = crate::error::git_error_of_message(message);
            return Err(Up2bError::Git(error));
        }
        match &json {
            JsonValue::Arr(elems) => self.parse_images(elems),
            _ => Err(Up2bError::Other("响应体不是数组".to_owned())),
        }
    }

    /// The delete request for one delete token (`{api-url}---{sha}`):
    /// a DELETE of the token's address whose body names the blob hash
    /// and a fixed commit message.  A token without the separator is
    /// refused.
    pub fn delete_request(&self, id: &str) -> (r: Up2bResult<HttpRequest>)
        ensures
            (exists|j: int| sub_at(id@, "---"@, j)) <==> r is Ok,
            r matches Ok(req) ==> req.method is Delete && req.timeout == self.inner.timeout && (
            exists|j: int|
                {
                    &&& #[trigger] sub_at(id@, "---"@, j)
                    &&& req.url@ == id@.subrange(0, j)
                    &&& (req.body matches RequestBody::Json(b) && b is Obj && {
                        let flds = b->Obj_0@;
                        flds.len() == 2 && flds[0].0@ == "sha"@ && (flds[0].1
                            matches JsonValue::Str(s) && s@ == id@.subrange(j + 3, id@.len() as int))
                            && flds[1].0@ == "message"@ && (flds[1].1 matches JsonValue::Str(m)
                            && m@ == "up2b: delete the picture that is no longer used"@)
                    })
                }),
            !(exists|j: int| sub_at(id@, "---"@, j)) ==> (r matches Err(e) && (e
                matches Up2bError::Other(s) && s@ == "删除 id 缺少分隔符"@)),
    {
        let sep_at = match find_sub(id, "---") {
            Some(j) => j,
            None => {
                return Err(Up2bError::Other("删除 id 缺少分隔符".to_owned()));
            },
        };
        let n = id.unicode_len();
        let url = id.substring_char(0, sep_at).to_owned();
        proof {
            reveal_strlit("---");
        }
        let sha = id.substring_char(sep_at + 3, n).to_owned();
        let mut flds: Vec<(String, JsonValue)> = Vec::new();
        flds.push(("sha".to_owned(), JsonValue::Str(sha)));
        flds.push(
            (
                "message".to_owned(),
                JsonValue::Str("up2b: delete the picture that is no longer used".to_owned()),
            ),
        );
        Ok(
            HttpRequest {
                method: HttpMethod::Delete,
                url,
                headers: self.headers(),
                body: RequestBody::Json(JsonValue::Obj(flds)),
                timeout: self.inner.timeout,
            },
        )
    }

    /// Reads a delete response: HTTP 200 means deleted; anything else
    /// carries a `message` that becomes the failure's text.
    pub fn delete(&self, status: u16, body: &str) -> (r: Up2bResult<crate::manager::DeleteResponse>)
        ensures
            status == 200 ==> (r matches Ok(d) && d.success && d.error is None),
            status != 200 ==> match json_of(body@) {
                None => r matches Err(e) && (e matches Up2bError::Serde(s) && s@
                    == "invalid JSON body"@),
                Some(json) => match spec_get_string(json, "message"@) {
                    Err(m) => r matches Err(e) && git_key_error(e, "message"@, m),
                    Ok(msg) => r matches Ok(d) && !d.success && (d.error matches Some(de) && (de
                        matches crate::manager::DeleteError::Other(s) && s@ == msg)),
                },
            },
    {
        if status != 200 {
            let json = match crate::json::parse_json(body) {
                Some(j) => j,
                None => {
                    return Err(Up2bError::Serde("invalid JSON body".to_owned()));
                },
            };
            let message = get_string(&json, "message")?;
            return Ok(
                crate::manager::DeleteResponse {
                    success: false,
                    error: Some(crate::manager::DeleteError::Other(message)),
                },
            );
        }
        Ok(crate::manager::DeleteResponse { success: true, error: None })
    }

    /// The upload request for one file: a PUT of
    /// `{base}/{stem}_{timestamp}.{ext}` whose JSON body carries the
    /// commit message and the file base64 encoded under `content`.
    /// A file name without a dot is refused.
    pub fn upload_request(&self, filename: &str, timestamp_millis: &str, file_bytes: &Vec<u8>) -> (r:
        Up2bResult<HttpRequest>)
        ensures
            !crate::util::spec_has_char(filename@, '.') ==> (r matches Err(e) && e
                matches Up2bError::Path(PathError::NotFile)),
            crate::util::spec_has_char(filename@, '.') ==> (r matches Ok(req) && req.method is Put
                && req.timeout == self.inner.timeout && (exists|i: int|
                {
                    let fname = filename@.subrange(0, i) + "_"@ + timestamp_millis@ + "."@
                        + filename@.subrange(i + 1, filename@.len() as int);
                    &&& 0 <= i < filename@.len()
                    &&& #[trigger] filename@[i] == '.'
                    &&& (forall|j: int| i < j < filename@.len() ==> filename@[j] != '.')
                    &&& req.url@ == (if fname.len() > 0 && fname[0] == '/' {
                        self.inner.base_url@ + fname
                    } else {
                        self.inner.base_url@ + "/"@ + fname
                    })
                }) && (req.body matches RequestBody::Json(b) && b is Obj && exists|
                    mid: Seq<(String, JsonValue)>,
                |
                    {
                        &&& mid.len() == 1
                        &&& mid[0].0@ == "message"@
                        &&& (mid[0].1 matches JsonValue::Str(m) && m@ == "up2b: "@ + filename@)
                        &&& spec_merged_fields(
                            mid,
                            "content"@,
                            crate::util::base64_of(file_bytes@),
                            b->Obj_0@,
                        )
                    })),
    {
        let dot = match crate::util::rfind_char(filename, '.') {
            Some(i) => i,
            None => {
                return Err(Up2bError::Path(PathError::NotFile));
            },
        };
        let n = filename.unicode_len();
        let stem = filename.substring_char(0, dot);
        let ext = filename.substring_char(dot + 1, n);
        let with_timestamp = stem.to_owned().concat("_").concat(timestamp_millis).concat(
            ".",
        ).concat(ext);
        let url = self.inner.url(with_timestamp.as_str());
        let mut form_fields: Vec<(String, JsonValue)> = Vec::new();
        form_fields.push(
            ("message".to_owned(), JsonValue::Str("up2b: ".to_owned().concat(filename))),
        );
        let ghost mid = form_fields@;
        let form = JsonValue::Obj(form_fields);
        let body = match build_json_upload_body(Some(&form), "content", file_bytes) {
            Ok(b) => b,
            Err(_) => vstd::pervasive::unreached(),
        };
        Ok(
            HttpRequest {
                method: HttpMethod::Put,
                url,
                headers: self.headers(),
                body: RequestBody::Json(body),
                timeout: self.inner.timeout,
            },
        )
    }

    /// Reads an upload response: HTTP 201 means created, and the
    /// record under `content` gives the new image; anything else
    /// carries a `message` that becomes the upload failure's text.
    pub fn upload(&self, status: u16, body: &str) -> (r: Up2bResult<UploadResult>)
        ensures
            match json_of(body@) {
                None => r matches Err(e) && (e matches Up2bError::Serde(s) && s@
                    == "invalid JSON body"@),
                Some(json) => if status != 201 {
                    match spec_get_string(json, "message"@) {
                        Err(m) => r matches Err(e) && git_key_error(e, "message"@, m),
                        Ok(msg) => r matches Err(e) && (e matches Up2bError::Upload(u) && (u
                            matches UploadError::Error(s) && s@ == msg)),
                    }
                } else {
                    match spec_git_item(spec_index(json, "content"@)) {
                        Err(m) => r matches Err(e) && git_key_error(e, m.0, m.1),
                        Ok(t) => r matches Ok(u) && (u matches UploadResult::Response(it) && it.url@
                            == t.0 && it.deleted_id@ == t.1 && it.thumb is None),
                    }
                },
            },
    {
        let json = match crate::json::parse_json(body) {
            Some(j) => j,
            None => {
                return Err(Up2bError::Serde("invalid JSON body".to_owned()));
            },
        };
        if status != 201 {
            let message = get_string(&json, "message")?;
            return Err(Up2bError::Upload(UploadError::Error(message)));
        }
        let mut segs_one: Vec<String> = Vec::new();
        segs_one.push("content".to_owned());
        proof {
            let sv = crate::json::seg_views(segs_one@);
            let rest = sv.drop_first();
            assert(sv.len() == 1);
            assert(sv[0] == "content"@);
            assert(rest.len() == 0);
            assert(crate::json::spec_resolve_segs(spec_index(json, "content"@), rest)
                == spec_index(json, "content"@));
            assert(crate::json::spec_resolve_segs(json, sv) == spec_index(json, "content"@));
        }
        let null = JsonValue::Null;
        let content: &JsonValue = match crate::json::resolve_segs(&json, &segs_one) {
            Some(c) => c,
            None => &null,
        };
        let download_url = get_string(content, "download_url")?;
        let sha = get_string(content, "sha")?;
        let url = get_string(content, "url")?;
        let deleted_id = url.concat("---").concat(sha.as_str());
        Ok(
            UploadResult::Response(
                ImageItem { url: download_url, deleted_id, thumb: None },
            ),
        )
    }
}

} // verus!
