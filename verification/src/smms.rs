use vstd::prelude::*;

use crate::api::BaseApiManager;
use crate::descriptor::{
    Api, AuthMethod, Delete, DeleteKeyKind, DeleteMethod, DeleteResponseController, FileKind, List,
    ListRequestMethod, ListResponseController, Upload, UploadContentType, UploadResponseController,
    UploadResponseErrorController, UploadResponseStatus, UploadResponseSuccuessController,
};
use crate::json::JsonValue;
use crate::manager::{AllowedImageFormat, BaseManager};

verus! {

/// What the SM.MS descriptor declares: a multipart upload of at most
/// five megabytes whose response says `success: true` and hides the
/// new record under `data`, a GET listing under `data`, and a
/// GET-by-path delete judged by its `success` field.
pub open spec fn spec_is_smms_api(api: Api) -> bool {
    &&& api.base_url@ == "https://smms.app/api/v2"@
    &&& api.auth_method matches AuthMethod::Header { key: None, prefix: None }
    &&& api.upload.path@ == "/upload"@
    &&& api.upload.max_size == 5
    &&& api.upload.allowed_formats@.len() == 5
    &&& api.upload.content_type matches UploadContentType::Multipart {
        file_part_name: p,
        file_kind: FileKind::Stream,
    } && p@ == "smfile"@
    &&& api.upload.other_body is None
    &&& api.upload.timeout == 5
    &&& api.upload.controller.status.key@ == "success"@
    &&& api.upload.controller.status.value == JsonValue::Bool(true)
    &&& api.upload.controller.error.key@ == "message"@
    &&& api.upload.controller.error.repeated_regex matches Some(p) && p@
        == "^Image upload repeated limit, this image exists at: (.+?)$"@
    &&& api.upload.controller.success.image_url_key@ == "data.url"@
    &&& api.upload.controller.success.thumb_key is None
    &&& api.upload.controller.success.deleted_id_key@ == "data.hash"@
    &&& api.list.path@ == "/upload_history"@
    &&& api.list.method is Get
    &&& api.list.controller.items_key@ == "data"@
    &&& api.list.controller.image_url_key@ == "url"@
    &&& api.list.controller.deleted_id_key@ == "hash"@
    &&& api.list.controller.thumb_key is None
    &&& api.delete.path@ == "/delete/"@
    &&& api.delete.method matches DeleteMethod::Get { kind: DeleteKeyKind::Path }
    &&& api.delete.controller matches DeleteResponseController::Json {
        key,
        should_be: JsonValue::Bool(true),
        message_key: Some(mk),
    } && key@ == "success"@ && mk@ == "message"@
}

/// The built-in SM.MS descriptor.
pub fn smms_api() -> (r: Api)
    ensures
        spec_is_smms_api(r),
{
    let status = UploadResponseStatus::new("success", JsonValue::Bool(true));
    let error = UploadResponseErrorController::new(
        "message",
        Some("^Image upload repeated limit, this image exists at: (.+?)$".to_owned()),
    );
    let success = UploadResponseSuccuessController::new("data.url", None, "data.hash");
    let controller = UploadResponseController::new(status, error, success);
    let mut formats: Vec<AllowedImageFormat> = Vec::new();
    formats.push(AllowedImageFormat::Jpeg);
    formats.push(AllowedImageFormat::Png);
    formats.push(AllowedImageFormat::Gif);
    formats.push(AllowedImageFormat::Bmp);
    formats.push(AllowedImageFormat::Webp);
    let upload = Upload::new(
        "/upload",
        5,
        formats,
        UploadContentType::Multipart {
            file_part_name: "smfile".to_owned(),
            file_kind: FileKind::Stream,
        },
        None,
        controller,
        Some(5),
    );
    let list = List::new(
        "/upload_history",
        ListResponseController::new("data", "url", "hash", None),
        ListRequestMethod::Get,
    );
    let delete = Delete::new(
        "/delete/",
        DeleteMethod::Get { kind: DeleteKeyKind::Path },
        DeleteResponseController::Json {
            key: "success".to_owned(),
            should_be: JsonValue::Bool(true),
            message_key: Some("message".to_owned()),
        },
    );
    let auth_method = AuthMethod::Header { key: None, prefix: None };
    Api::new("https://smms.app/api/v2", auth_method, upload, list, delete)
}

/// The built-in SM.MS backend: the generic executor bound to the
/// SM.MS descriptor and a bearer token.
#[derive(Debug)]
pub struct SmMs {
    pub inner: BaseApiManager,
}

impl SmMs {
    pub fn new(token: String) -> (r: Self)
        ensures
            spec_is_smms_api(r.inner.api),
            r.inner.token@ == token@,
            r.inner.inner.name@ == "sm.ms"@,
            r.inner.inner.base_url@ == "https://smms.app/api/v2"@,
            r.inner.inner.max_size == 5,
            r.inner.inner.timeout == 30,
    {
        let api = smms_api();
        let mut formats: Vec<AllowedImageFormat> = Vec::new();
        formats.push(AllowedImageFormat::Jpeg);
        formats.push(AllowedImageFormat::Png);
        formats.push(AllowedImageFormat::Gif);
        formats.push(AllowedImageFormat::Bmp);
        formats.push(AllowedImageFormat::Webp);
        let manager = BaseManager::new(
            "sm.ms".to_owned(),
            "https://smms.app/api/v2".to_owned(),
            5,
            formats,
            Some(30),
        );
        let inner = BaseApiManager::new(manager, token.as_str(), api);
        SmMs { inner }
    }
}

} // verus!
