use vstd::prelude::*;

verus! {

#[derive(Debug, PartialEq, Eq, Clone)]
pub enum ConfigError {
    NotFound,
    IsNull(String),
    Type(String),
}

#[derive(Debug, PartialEq, Eq, Clone)]
pub enum CheveretoError {
    AuthToken,
    InvalidContentOwnerRequest,
    Other(String),
}

impl CheveretoError {
    /// The text a caller shows for this failure.
    pub fn message(&self) -> (r: &str)
        ensures
            r@ == spec_chevereto_message(*self),
    {
        match self {
            CheveretoError::AuthToken => "auth_token 失效",
            CheveretoError::InvalidContentOwnerRequest => "图片不存在",
            CheveretoError::Other(s) => s.as_str(),
        }
    }
}

pub open spec fn spec_chevereto_message(e: CheveretoError) -> Seq<char> {
    match e {
        CheveretoError::AuthToken => "auth_token 失效"@,
        CheveretoError::InvalidContentOwnerRequest => "图片不存在"@,
        CheveretoError::Other(s) => s@,
    }
}

#[derive(Debug, PartialEq, Eq, Clone)]
pub enum ProxyError {
    Null,
}

#[derive(Debug, PartialEq, Eq, Clone)]
pub enum AuthConfigError {
    Null(String),
}

#[derive(Debug, PartialEq, Eq, Clone)]
pub enum HeaderError {
    InvalidName(String),
    InvalidValue(String),
}

#[derive(Debug, PartialEq, Eq, Clone)]
pub enum UploadError {
    Error(String),
    Repeat(String),
}

#[derive(Debug, PartialEq, Eq, Clone)]
pub enum PathError {
    NotExists,
    NotFile,
}

impl PathError {
    pub fn as_str(&self) -> (r: &str)
        ensures
            r@ == spec_path_error_code(*self),
    {
        match self {
            PathError::NotExists => "NOT_EXISTS",
            PathError::NotFile => "NOT_FILE",
        }
    }
}

pub open spec fn spec_path_error_code(e: PathError) -> Seq<char> {
    match e {
        PathError::NotExists => "NOT_EXISTS"@,
        PathError::NotFile => "NOT_FILE"@,
    }
}

#[derive(Debug, PartialEq, Eq, Clone)]
pub enum GitError {
    NotFound,
    Other(String),
}

impl GitError {
    pub fn as_str(&self) -> (r: &str)
        ensures
            r@ == spec_git_error_code(*self),
    {
        match self {
            GitError::NotFound => "NOT_FOUND",
            GitError::Other(s) => s.as_str(),
        }
    }
}

pub open spec fn spec_git_error_code(e: GitError) -> Seq<char> {
    match e {
        GitError::NotFound => "NOT_FOUND"@,
        GitError::Other(s) => s@,
    }
}

/// Classifies a remote Git host's error message: the exact text
/// `"Not Found"` stands for a missing resource.
pub fn git_error_of_message(message: String) -> (r: GitError)
    ensures
        r == spec_git_error_of_message(message),
{
    let probe = "Not Found".to_owned();
    if message == probe {
        GitError::NotFound
    } else {
        GitError::Other(message)
    }
}

pub open spec fn spec_git_error_of_message(message: String) -> GitError {
    if message@ == "Not Found"@ {
        GitError::NotFound
    } else {
        GitError::Other(message)
    }
}

/// The structured error body a Chevereto host returns.
#[derive(Debug, PartialEq, Eq, Clone)]
pub struct CheveretoErrorDetail {
    pub message: String,
    pub code: u16,
}

pub open spec fn spec_chevereto_kind(message: String) -> CheveretoError {
    if message@ == "请求被拒绝 (auth_token)"@ {
        CheveretoError::AuthToken
    } else if message@ == "Invalid content owner request"@ {
        CheveretoError::InvalidContentOwnerRequest
    } else {
        CheveretoError::Other(message)
    }
}

impl CheveretoErrorDetail {
    /// The session engine's reading of a structured error: a rejected
    /// `auth_token` is transient, a bad content owner means the image
    /// is gone, and anything else is terminal as-is.
    pub fn kind(self) -> (r: CheveretoError)
        ensures
            r == spec_chevereto_kind(self.message),
    {
        let auth = "请求被拒绝 (auth_token)".to_owned();
        let owner = "Invalid content owner request".to_owned();
        if self.message == auth {
            CheveretoError::AuthToken
        } else if self.message == owner {
            CheveretoError::InvalidContentOwnerRequest
        } else {
            CheveretoError::Other(self.message)
        }
    }
}

#[derive(Debug, PartialEq, Eq, Clone)]
pub enum Up2bError {
    Io(String),
    Request(String),
    Status(u16),
    Serde(String),
    Config(ConfigError),
    OverSize(String, String, u64, u64),
    Auth,
    AuthConfig(AuthConfigError),
    Proxy(ProxyError),
    Other(String),
    Chevereto(CheveretoError),
    Header(HeaderError),
    CustomUnique(String),
    Regex(String),
    Upload(UploadError),
    KeyNotFound(String),
    KeyNotMatch(String),
    Path(PathError),
    Git(GitError),
}

pub open spec fn spec_error_code(e: Up2bError) -> Seq<char> {
    match e {
        Up2bError::OverSize(_, _, _, _) => "OVER_SIZE"@,
        Up2bError::Path(p) => spec_path_error_code(p),
        Up2bError::Upload(u) => match u {
            UploadError::Repeat(_) => "REPEATED"@,
            _ => "UNKOWN"@,
        },
        _ => "UNKOWN"@,
    }
}

impl Up2bError {
    /// The short machine-readable code a caller may branch on.
    pub fn as_string(&self) -> (r: String)
        ensures
            r@ == spec_error_code(*self),
    {
        match self {
            Up2bError::OverSize(_, _, _, _) => "OVER_SIZE".to_owned(),
            Up2bError::Path(e) => e.as_str().to_owned(),
            Up2bError::Upload(e) => match e {
                UploadError::Repeat(_) => "REPEATED".to_owned(),
                _ => "UNKOWN".to_owned(),
            },
            _ => "UNKOWN".to_owned(),
        }
    }
}

pub type Up2bResult<T> = Result<T, Up2bError>;

} // verus!
