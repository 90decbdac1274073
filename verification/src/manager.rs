use vstd::prelude::*;

use crate::error::{Up2bError, Up2bResult};

verus! {

/// The normalized record of one hosted image: where it is served
/// from, the opaque token that later deletes it, and an optional
/// thumbnail address.
#[derive(Debug, PartialEq, Eq, Clone)]
pub struct ImageItem {
    pub url: String,
    pub deleted_id: String,
    pub thumb: Option<String>,
}

#[derive(Debug, PartialEq, Eq, Clone)]
pub enum DeleteError {
    NotFound,
    Other(String),
}

impl DeleteError {
    /// The text a caller shows for this failure.
    pub fn message(&self) -> (r: &str)
        ensures
            r@ == spec_delete_error_message(*self),
    {
        match self {
            DeleteError::NotFound => "图片不存在",
            DeleteError::Other(s) => s.as_str(),
        }
    }
}

pub open spec fn spec_delete_error_message(e: DeleteError) -> Seq<char> {
    match e {
        DeleteError::NotFound => "图片不存在"@,
        DeleteError::Other(s) => s@,
    }
}

#[derive(Debug, PartialEq, Eq, Clone)]
pub struct DeleteResponse {
    pub success: bool,
    pub error: Option<DeleteError>,
}

#[derive(Debug, PartialEq, Eq, Clone)]
pub enum UploadResult {
    Response(ImageItem),
    Error { detail: Up2bError, code: String },
}

#[derive(Debug, PartialEq, Eq, Clone, Copy)]
pub enum AllowedImageFormat {
    Jpeg,
    Png,
    Webp,
    Avif,
    Gif,
    Bmp,
}

#[derive(Debug, PartialEq, Eq, Clone, Copy)]
pub enum CompressedFormat {
    JPEG,
    WEBP,
}

#[derive(Debug, PartialEq, Eq, Clone)]
pub enum ManagerKind {
    API,
    Git,
    Chevereto,
}

/// The stable key naming one hosting service.
#[derive(Debug, Eq, Hash, Clone)]
pub enum ManagerCode {
    Smms,
    Imgse,
    Imgtg,
    Github,
    Custom(String),
}

impl PartialEq for ManagerCode {
    fn eq(&self, other: &ManagerCode) -> (r: bool) {
        match self {
            ManagerCode::Smms => matches!(other, ManagerCode::Smms),
            ManagerCode::Imgse => matches!(other, ManagerCode::Imgse),
            ManagerCode::Imgtg => matches!(other, ManagerCode::Imgtg),
            ManagerCode::Github => matches!(other, ManagerCode::Github),
            ManagerCode::Custom(a) => match other {
                ManagerCode::Custom(b) => *a == *b,
                _ => false,
            },
        }
    }
}

impl vstd::std_specs::cmp::PartialEqSpecImpl for ManagerCode {
    open spec fn obeys_eq_spec() -> bool {
        true
    }

    open spec fn eq_spec(&self, other: &ManagerCode) -> bool {
        spec_code_eq(*self, *other)
    }
}

pub open spec fn spec_code_eq(a: ManagerCode, b: ManagerCode) -> bool {
    match a {
        ManagerCode::Smms => b is Smms,
        ManagerCode::Imgse => b is Imgse,
        ManagerCode::Imgtg => b is Imgtg,
        ManagerCode::Github => b is Github,
        ManagerCode::Custom(x) => b matches ManagerCode::Custom(y) && x@ == y@,
    }
}

impl Default for ManagerCode {
    fn default() -> (r: Self)
        ensures
            r is Smms,
    {
        ManagerCode::Smms
    }
}

pub open spec fn spec_manager_name(c: ManagerCode) -> Seq<char> {
    match c {
        ManagerCode::Smms => "sm.ms"@,
        ManagerCode::Imgse => "imgse.com"@,
        ManagerCode::Imgtg => "imgtg.com"@,
        ManagerCode::Github => "github.com"@,
        ManagerCode::Custom(s) => "CUSTOM-"@ + s@,
    }
}

#[derive(Debug, PartialEq, Eq, Clone)]
pub struct ManagerItem {
    pub key: ManagerCode,
    pub name: String,
    pub index: Option<String>,
    pub kind: ManagerKind,
}

impl ManagerCode {
    pub fn name(&self) -> (r: String)
        ensures
            r@ == spec_manager_name(*self),
    {
        match self {
            ManagerCode::Smms => "sm.ms".to_owned(),
            ManagerCode::Imgse => "imgse.com".to_owned(),
            ManagerCode::Imgtg => "imgtg.com".to_owned(),
            ManagerCode::Github => "github.com".to_owned(),
            ManagerCode::Custom(s) => "CUSTOM-".to_owned().concat(s.as_str()),
        }
    }

    /// The service's front page, for the built-in hosts.
    pub fn index(&self) -> (r: Option<String>)
        ensures
            match *self {
                ManagerCode::Smms => r matches Some(u) && u@ == "https://sm.ms"@,
                ManagerCode::Imgse => r matches Some(u) && u@ == "https://imgse.com"@,
                ManagerCode::Imgtg => r matches Some(u) && u@ == "https://imgtg.com"@,
                ManagerCode::Github => r matches Some(u) && u@ == "https://github.com"@,
                ManagerCode::Custom(_) => r is None,
            },
    {
        match self {
            ManagerCode::Smms => Some("https://sm.ms".to_owned()),
            ManagerCode::Imgse => Some("https://imgse.com".to_owned()),
            ManagerCode::Imgtg => Some("https://imgtg.com".to_owned()),
            ManagerCode::Github => Some("https://github.com".to_owned()),
            ManagerCode::Custom(_) => None,
        }
    }

    /// The catalogue entry for this service: its key, display name,
    /// front page and family.
    pub fn to_manager_item(self) -> (r: ManagerItem)
        ensures
            r.key == self,
            match self {
                ManagerCode::Custom(s) => r.name@ == s@ && r.index is None && r.kind is API,
                _ => r.name@ == spec_manager_name(self),
            },
            (self is Smms) ==> r.kind is API,
            (self is Imgse || self is Imgtg) ==> r.kind is Chevereto,
            (self is Github) ==> r.kind is Git,
    {
        match self {
            ManagerCode::Smms => ManagerItem {
                name: self.name(),
                index: self.index(),
                key: self,
                kind: ManagerKind::API,
            },
            ManagerCode::Imgse => ManagerItem {
                name: self.name(),
                index: self.index(),
                key: self,
                kind: ManagerKind::Chevereto,
            },
            ManagerCode::Imgtg => ManagerItem {
                name: self.name(),
                index: self.index(),
                key: self,
                kind: ManagerKind::Chevereto,
            },
            ManagerCode::Github => ManagerItem {
                name: self.name(),
                index: self.index(),
                key: self,
                kind: ManagerKind::Git,
            },
            ManagerCode::Custom(ref s) => ManagerItem {
                name: s.clone(),
                index: None,
                key: self,
                kind: ManagerKind::API,
            },
        }
    }
}

/// The stored text of a backend key: a fixed upper-case word for the
/// built-in hosts, and `CUSTOM-` plus the upper-cased name for a
/// custom one.
pub open spec fn spec_code_string(c: ManagerCode) -> Seq<char> {
    match c {
        ManagerCode::Smms => "SMMS"@,
        ManagerCode::Imgse => "IMGSE"@,
        ManagerCode::Imgtg => "IMGTG"@,
        ManagerCode::Github => "GITHUB"@,
        ManagerCode::Custom(s) => "CUSTOM-"@ + crate::util::upper_of(s@),
    }
}

impl ManagerCode {
    /// The text this key is stored under.
    pub fn code_str(&self) -> (r: String)
        ensures
            r@ == spec_code_string(*self),
    {
        match self {
            ManagerCode::Smms => "SMMS".to_owned(),
            ManagerCode::Imgse => "IMGSE".to_owned(),
            ManagerCode::Imgtg => "IMGTG".to_owned(),
            ManagerCode::Github => "GITHUB".to_owned(),
            ManagerCode::Custom(s) => "CUSTOM-".to_owned().concat(
                crate::util::uppercase(s.as_str()).as_str(),
            ),
        }
    }

    /// A copy of this key, equal to it.
    pub fn duplicate(&self) -> (r: ManagerCode)
        ensures
            r == *self,
    {
        match self {
            ManagerCode::Smms => ManagerCode::Smms,
            ManagerCode::Imgse => ManagerCode::Imgse,
            ManagerCode::Imgtg => ManagerCode::Imgtg,
            ManagerCode::Github => ManagerCode::Github,
            ManagerCode::Custom(s) => ManagerCode::Custom(s.clone()),
        }
    }

    /// Reads a stored text back into a key.
    pub fn from_code_str(value: &str) -> (r: Option<ManagerCode>)
        ensures
            value@.len() >= 7 && value@.subrange(0, 7) == "CUSTOM-"@ ==> (r matches Some(c) && (c
                matches ManagerCode::Custom(x) && x@ == value@.skip(7))),
            !(value@.len() >= 7 && value@.subrange(0, 7) == "CUSTOM-"@) ==> r == (
            if crate::util::upper_of(value@) == "SMMS"@ {
                Some(ManagerCode::Smms)
            } else if crate::util::upper_of(value@) == "IMGSE"@ {
                Some(ManagerCode::Imgse)
            } else if crate::util::upper_of(value@) == "IMGTG"@ {
                Some(ManagerCode::Imgtg)
            } else if crate::util::upper_of(value@) == "GITHUB"@ {
                Some(ManagerCode::Github)
            } else {
                None
            }),
    {
        if crate::util::str_starts_with(value, "CUSTOM-") {
            proof {
                reveal_strlit("CUSTOM-");
            }
            let n = value.unicode_len();
            let rest = value.substring_char(7, n);
            return Some(ManagerCode::Custom(rest.to_owned()));
        }
        let upper = crate::util::uppercase(value);
        if upper == "SMMS".to_owned() {
            Some(ManagerCode::Smms)
        } else if upper == "IMGSE".to_owned() {
            Some(ManagerCode::Imgse)
        } else if upper == "IMGTG".to_owned() {
            Some(ManagerCode::Imgtg)
        } else if upper == "GITHUB".to_owned() {
            Some(ManagerCode::Github)
        } else {
            None
        }
    }
}

/// The catalogue of the four built-in hosts.
pub fn builtin_managers() -> (r: Vec<ManagerItem>)
    ensures
        r@.len() == 4,
        r@[0].key is Smms && r@[0].kind is API,
        r@[1].key is Imgse && r@[1].kind is Chevereto,
        r@[2].key is Imgtg && r@[2].kind is Chevereto,
        r@[3].key is Github && r@[3].kind is Git,
{
    let mut out: Vec<ManagerItem> = Vec::new();
    out.push(ManagerCode::Smms.to_manager_item());
    out.push(ManagerCode::Imgse.to_manager_item());
    out.push(ManagerCode::Imgtg.to_manager_item());
    out.push(ManagerCode::Github.to_manager_item());
    out
}

/// The file-size gate before an upload: a file within the limit
/// passes; a larger one is rejected with the limit and the actual
/// size, both given in whole megabytes.
pub fn is_exceeded(image_bed_name: &str, image_path: &str, max_size: u64, file_size: u64) -> (r:
    Up2bResult<()>)
    ensures
        max_size >= file_size <==> r is Ok,
        max_size < file_size ==> (r matches Err(e) && (e matches Up2bError::OverSize(n, p, m, f)
            && n@ == image_bed_name@ && p@ == image_path@ && m == max_size / 1024 / 1024 && f
            == file_size / 1024 / 1024)),
{
    if max_size >= file_size {
        return Ok(());
    }
    Err(
        Up2bError::OverSize(
            image_bed_name.to_owned(),
            image_path.to_owned(),
            max_size / 1024 / 1024,
            file_size / 1024 / 1024,
        ),
    )
}

pub type Extra = Vec<(String, String)>;

/// What every manager keeps of its host: the display name, the root
/// address, the size cap in megabytes, the accepted raster formats
/// and the request timeout in seconds.
#[derive(Debug, Clone)]
pub struct BaseManager {
    pub name: String,
    pub base_url: String,
    pub max_size: u8,
    pub allowed_formats: Vec<AllowedImageFormat>,
    pub timeout: u64,
}

impl BaseManager {
    pub fn new(
        name: String,
        base_url: String,
        max_size: u8,
        allowed_formats: Vec<AllowedImageFormat>,
        timeout: Option<u8>,
    ) -> (r: Self)
        ensures
            r.name == name,
            r.base_url == base_url,
            r.max_size == max_size,
            r.allowed_formats == allowed_formats,
            r.timeout == (match timeout {
                Some(t) => t as u64,
                None => 5u64,
            }),
    {
        let secs: u64 = match timeout {
            Some(t) => t as u64,
            None => 5,
        };
        BaseManager { name, base_url, max_size, allowed_formats, timeout: secs }
    }

    /// The full address of one endpoint: a missing leading slash on
    /// the path is supplied.
    pub fn url(&self, path: &str) -> (r: String)
        ensures
            path@.len() > 0 && path@[0] == '/' ==> r@ == self.base_url@ + path@,
            !(path@.len() > 0 && path@[0] == '/') ==> r@ == self.base_url@ + "/"@ + path@,
    {
        let n = path.unicode_len();
        if n == 0 || path.get_char(0) != '/' {
            return self.base_url.clone().concat("/").concat(path);
        }
        self.base_url.clone().concat(path)
    }
}

/// A plain copy of a format list.
pub fn copy_formats(src: &Vec<AllowedImageFormat>) -> (r: Vec<AllowedImageFormat>)
    ensures
        r@ == src@,
{
    let mut out: Vec<AllowedImageFormat> = Vec::new();
    let mut i: usize = 0;
    while i < src.len()
        invariant
            i <= src@.len(),
            out@.len() == i,
            forall|j: int| 0 <= j < i ==> out@[j] == src@[j],
        decreases src@.len() - i,
    {
        out.push(src[i]);
        i += 1;
    }
    proof {
        assert(out@ =~= src@);
    }
    out
}

/// One executable backend: the generic descriptor-driven executor, a
/// Git-contents adapter, or a Chevereto session adapter.
#[derive(Debug)]
pub enum Manager {
    Api(crate::api::BaseApiManager),
    Git(crate::git::GitManager),
    Chevereto(crate::chevereto::Chevereto),
}

impl Manager {
    /// The formats the chosen backend accepts.
    pub fn allowed_formats(&self) -> (r: Vec<AllowedImageFormat>)
        ensures
            r@ == match *self {
                Manager::Api(m) => m.api.upload.allowed_formats@,
                Manager::Git(g) => g.inner.allowed_formats@,
                Manager::Chevereto(c) => c.inner.allowed_formats@,
            },
    {
        match self {
            Manager::Api(m) => m.allowed_formats(),
            Manager::Git(g) => copy_formats(g.allowed_formats()),
            Manager::Chevereto(c) => copy_formats(c.allowed_formats()),
        }
    }

    /// Whether the chosen backend's upload streams (and so reports
    /// progress).
    pub fn support_stream(&self) -> (r: bool)
        ensures
            r == match *self {
                Manager::Api(m) => match m.api.upload.content_type {
                    crate::descriptor::UploadContentType::Json { .. } => true,
                    crate::descriptor::UploadContentType::Multipart { file_kind, .. } => file_kind
                        is Stream,
                },
                Manager::Git(_) => true,
                Manager::Chevereto(c) => c.file_kind is Stream,
            },
    {
        match self {
            Manager::Api(m) => m.support_stream(),
            Manager::Git(g) => g.support_stream(),
            Manager::Chevereto(c) => c.support_stream(),
        }
    }
}

/// Whether a stored credential fits a backend identity.  A mismatch
/// anywhere but SM.MS is a configuration-integrity violation that the
/// store rules out.
pub open spec fn spec_credential_fits(
    using: ManagerCode,
    cfg: crate::config::ManagerAuthConfigKind,
) -> bool {
    match using {
        ManagerCode::Smms => true,
        ManagerCode::Imgse => cfg is Chevereto,
        ManagerCode::Imgtg => cfg is Chevereto,
        ManagerCode::Github => cfg is Git,
        ManagerCode::Custom(_) => cfg is API,
    }
}

/// Builds the manager one backend identity and its stored credential
/// call for: SM.MS and custom hosts run the generic executor, GitHub
/// runs the Git-contents adapter, and the Chevereto sites run the
/// session adapter.  SM.MS with a credential of the wrong kind is
/// the configuration type error.
pub fn use_manager(using: &ManagerCode, auth_config: crate::config::ManagerAuthConfigKind) -> (r:
    Up2bResult<Manager>)
    requires
        spec_credential_fits(*using, auth_config),
    ensures
        match *using {
            ManagerCode::Smms => match auth_config {
                crate::config::ManagerAuthConfigKind::API { token, .. } => r matches Ok(m) && (m
                    matches Manager::Api(a) && a.token@ == token@
                    && crate::smms::spec_is_smms_api(a.api)),
                _ => r matches Err(e) && (e matches Up2bError::Config(
                    crate::error::ConfigError::Type(n),
                ) && n@ == spec_manager_name(*using)),
            },
            ManagerCode::Imgse => r matches Ok(m) && (m matches Manager::Chevereto(c) && c.code
                is Imgse && (auth_config matches crate::config::ManagerAuthConfigKind::Chevereto {
                username,
                password,
                ..
            } && c.username@ == username@ && c.password@ == password@)),
            ManagerCode::Imgtg => r matches Ok(m) && (m matches Manager::Chevereto(c) && c.code
                is Imgtg && (auth_config matches crate::config::ManagerAuthConfigKind::Chevereto {
                username,
                password,
                ..
            } && c.username@ == username@ && c.password@ == password@)),
            ManagerCode::Github => r matches Ok(m) && (m matches Manager::Git(g) && (auth_config
                matches crate::config::ManagerAuthConfigKind::Git {
                token,
                username,
                repository,
                path,
            } && g.token@ == token@ && g.inner.name@ == "github"@ && g.inner.base_url@
                == "https://api.github.com"@ + "/repos/"@ + username@ + "/"@ + repository@
                + "/contents/"@ + (match path {
                Some(p) => p@,
                None => "up2b"@,
            }) && g.inner.max_size == 20 && g.inner.timeout == 180 && (g.headers matches Some(h)
                && h@.len() == 4))),
            ManagerCode::Custom(ref s) => r matches Ok(m) && (m matches Manager::Api(a) && (
            auth_config matches crate::config::ManagerAuthConfigKind::API { token, api } && a.token@
                == token@ && a.api == api && a.inner.name@ == s@ && a.inner.base_url@
                == api.base_url@ && a.inner.max_size == api.upload.max_size && a.inner.timeout
                == api.upload.timeout)),
        },
{
    match using {
        ManagerCode::Smms => match auth_config {
            crate::config::ManagerAuthConfigKind::API { token, .. } => {
                let manager = crate::smms::SmMs::new(token);
                Ok(Manager::Api(manager.inner))
            },
            _ => Err(Up2bError::Config(crate::error::ConfigError::Type(using.name()))),
        },
        ManagerCode::Imgse => match auth_config {
            crate::config::ManagerAuthConfigKind::Chevereto { username, password, timeout, extra } => {
                let imgse = crate::chevereto::Imgse::new(
                    username.as_str(),
                    password.as_str(),
                    timeout,
                    extra.as_ref(),
                );
                Ok(Manager::Chevereto(imgse.inner))
            },
            _ => vstd::pervasive::unreached(),
        },
        ManagerCode::Imgtg => match auth_config {
            crate::config::ManagerAuthConfigKind::Chevereto { username, password, timeout, extra } => {
                let imgtg = crate::chevereto::Imgtg::new(
                    username.as_str(),
                    password.as_str(),
                    timeout,
                    extra.as_ref(),
                );
                Ok(Manager::Chevereto(imgtg.inner))
            },
            _ => vstd::pervasive::unreached(),
        },
        ManagerCode::Github => match auth_config {
            crate::config::ManagerAuthConfigKind::Git { token, username, repository, path } => {
                let authorization = "Bearer ".to_owned().concat(token.as_str());
                let mut headers: Vec<(String, String)> = Vec::new();
                headers.push(("Accept".to_owned(), "application/vnd.github+json".to_owned()));
                headers.push(
                    (
                        "User-Agent".to_owned(),
                        "Mozilla/5.0 (Macintosh; Intel Mac OS X 10_15_7) AppleWebKit/537.36 (KHTML, like Gecko) Chrome/120.0.0.0 Safari/537.36".to_owned(),
                    ),
                );
                headers.push(("Authorization".to_owned(), authorization));
                headers.push(("X-GitHub-Api-Version".to_owned(), "2022-11-28".to_owned()));
                let path_ref: Option<&str> = match &path {
                    Some(p) => Some(p.as_str()),
                    None => None,
                };
                let github = crate::git::GitManager::new(
                    "github",
                    "https://api.github.com",
                    Some(headers),
                    token.as_str(),
                    username.as_str(),
                    repository.as_str(),
                    path_ref,
                    Some(180),
                    20,
                );
                Ok(Manager::Git(github))
            },
            _ => vstd::pervasive::unreached(),
        },
        ManagerCode::Custom(s) => match auth_config {
            crate::config::ManagerAuthConfigKind::API { token, api } => {
                let formats = copy_formats(&api.upload.allowed_formats);
                let manager = BaseManager {
                    name: s.clone(),
                    base_url: api.base_url.clone(),
                    max_size: api.upload.max_size,
                    allowed_formats: formats,
                    timeout: api.upload.timeout,
                };
                let custom = crate::api::BaseApiManager::new(manager, token.as_str(), api);
                Ok(Manager::Api(custom))
            },
            _ => vstd::pervasive::unreached(),
        },
    }
}

} // verus!
