use vstd::prelude::*;

use crate::error::{CheveretoError, Up2bError, Up2bResult};
use crate::descriptor::FileKind;
use crate::http::{HttpMethod, HttpRequest, RequestBody};
use crate::json::{json_of, spec_resolve, JsonValue};
use crate::manager::{
    AllowedImageFormat, BaseManager, DeleteError, DeleteResponse, Extra, ImageItem, ManagerCode,
};
use crate::util::{capture_of, captures_of, spec_u64_string, CaptureOutcome};

verus! {

/// How many times one operation may refresh an expired session before
/// its last error is terminal.
pub open spec fn max_retry_count() -> int {
    3
}

// ---------------------------------------------------------------
// URL-escape decoding of the embedded image records
// ---------------------------------------------------------------
pub open spec fn spec_is_escape(t: Seq<char>) -> bool {
    t == "%7B"@ || t == "%22"@ || t == "%3A"@ || t == "%2C"@ || t == "%7D"@ || t == "%5C"@ || t
        == "%2F"@
}

pub open spec fn spec_escape_char(t: Seq<char>) -> char {
    if t == "%7B"@ {
        '{'
    } else if t == "%22"@ {
        '"'
    } else if t == "%3A"@ {
        ':'
    } else if t == "%2C"@ {
        ','
    } else if t == "%7D"@ {
        '}'
    } else if t == "%5C"@ {
        '\\'
    } else {
        '/'
    }
}

/// The text with every URL-escape of the seven characters
/// `{ " : , } \ /` decoded, scanning left to right.
pub open spec fn spec_unquote(s: Seq<char>) -> Seq<char>
    decreases s.len(),
{
    if s.len() == 0 {
        s
    } else if s.len() >= 3 && spec_is_escape(s.subrange(0, 3)) {
        seq![spec_escape_char(s.subrange(0, 3))] + spec_unquote(s.skip(3))
    } else {
        seq![s[0]] + spec_unquote(s.drop_first())
    }
}

/// The decoded text of one escape, keyed by its two hex characters.
fn escape_rep(c1: char, c2: char) -> (r: Option<String>)
    ensures
        match r {
            Some(t) => spec_is_escape(seq!['%', c1, c2]) && t@ == seq![
                spec_escape_char(seq!['%', c1, c2]),
            ],
            None => !spec_is_escape(seq!['%', c1, c2]),
        },
{
    proof {
        reveal_strlit("%7B");
        reveal_strlit("%22");
        reveal_strlit("%3A");
        reveal_strlit("%2C");
        reveal_strlit("%7D");
        reveal_strlit("%5C");
        reveal_strlit("%2F");
        reveal_strlit("{");
        reveal_strlit("\"");
        reveal_strlit(":");
        reveal_strlit(",");
        reveal_strlit("}");
        reveal_strlit("\\");
        reveal_strlit("/");
    }
    if c1 == '7' && c2 == 'B' {
        proof {
            assert(seq!['%', c1, c2] =~= "%7B"@);
        }
        Some("{".to_owned())
    } else if c1 == '2' && c2 == '2' {
        proof {
            assert(seq!['%', c1, c2] =~= "%22"@);
        }
        Some("\"".to_owned())
    } else if c1 == '3' && c2 == 'A' {
        proof {
            assert(seq!['%', c1, c2] =~= "%3A"@);
        }
        Some(":".to_owned())
    } else if c1 == '2' && c2 == 'C' {
        proof {
            assert(seq!['%', c1, c2] =~= "%2C"@);
        }
        Some(",".to_owned())
    } else if c1 == '7' && c2 == 'D' {
        proof {
            assert(seq!['%', c1, c2] =~= "%7D"@);
        }
        Some("}".to_owned())
    } else if c1 == '5' && c2 == 'C' {
        proof {
            assert(seq!['%', c1, c2] =~= "%5C"@);
        }
        Some("\\".to_owned())
    } else if c1 == '2' && c2 == 'F' {
        proof {
            assert(seq!['%', c1, c2] =~= "%2F"@);
        }
        Some("/".to_owned())
    } else {
        None
    }
}

/// Decodes the URL-escapes a page's embedded image records carry.
pub fn unquote(text: &str) -> (r: String)
    ensures
        r@ == spec_unquote(text@),
{
    proof {
        reveal_strlit("%7B");
        reveal_strlit("%22");
        reveal_strlit("%3A");
        reveal_strlit("%2C");
        reveal_strlit("%7D");
        reveal_strlit("%5C");
        reveal_strlit("%2F");
    }
    let n = text.unicode_len();
    let mut out = String::new();
    let mut i: usize = 0;
    proof {
        assert(text@.skip(0) =~= text@);
    }
    while i < n
        invariant
            i <= n,
            n == text@.len(),
            spec_unquote(text@) == out@ + spec_unquote(text@.skip(i as int)),
        decreases n - i,
    {
        let ghost pre_out = out@;
        let ghost pre_i = i as int;
        let ghost tail = text@.skip(i as int);
        let mut rep: Option<String> = None;
        if n - i >= 3 && text.get_char(i) == '%' {
            let c1 = text.get_char(i + 1);
            let c2 = text.get_char(i + 2);
            proof {
                assert(tail.subrange(0, 3) =~= seq!['%', c1, c2]);
            }
            rep = escape_rep(c1, c2);
            proof {
                if rep is Some {
                    assert(spec_is_escape(tail.subrange(0, 3)));
                } else {
                    assert(!spec_is_escape(tail.subrange(0, 3)));
                }
            }
        } else {
            proof {
                if tail.len() >= 3 {
                    reveal_strlit("%7B");
                    reveal_strlit("%22");
                    reveal_strlit("%3A");
                    reveal_strlit("%2C");
                    reveal_strlit("%7D");
                    reveal_strlit("%5C");
                    reveal_strlit("%2F");
                    assert(tail.subrange(0, 3)[0] == text@[pre_i]);
                    assert("%7B"@[0] == '%' && "%22"@[0] == '%' && "%3A"@[0] == '%' && "%2C"@[0]
                        == '%' && "%7D"@[0] == '%' && "%5C"@[0] == '%' && "%2F"@[0] == '%');
                    assert(!spec_is_escape(tail.subrange(0, 3)));
                }
            }
        }
        match rep {
            Some(rs) => {
                proof {
                    assert(spec_is_escape(tail.subrange(0, 3)));
                    assert(rs@ == seq![spec_escape_char(tail.subrange(0, 3))]);
                    assert(tail.skip(3) =~= text@.skip(pre_i + 3));
                    assert(spec_unquote(tail) == rs@ + spec_unquote(text@.skip(pre_i + 3)));
                }
                out.append(rs.as_str());
                i += 3;
                proof {
                    assert(out@ =~= pre_out + rs@);
                    assert(pre_out + (rs@ + spec_unquote(text@.skip(pre_i + 3))) =~= (pre_out
                        + rs@) + spec_unquote(text@.skip(pre_i + 3)));
                }
            },
            None => {
                proof {
                    assert(!(tail.len() >= 3 && spec_is_escape(tail.subrange(0, 3))));
                    assert(tail.drop_first() =~= text@.skip(pre_i + 1));
                    assert(tail[0] == text@[pre_i]);
                    assert(spec_unquote(tail) == seq![text@[pre_i]] + spec_unquote(
                        text@.skip(pre_i + 1),
                    ));
                }
                let one = text.substring_char(i, i + 1);
                proof {
                    assert(one@ =~= seq![text@[pre_i]]);
                }
                out.append(one);
                i += 1;
                proof {
                    assert(out@ =~= pre_out + seq![text@[pre_i]]);
                    assert(pre_out + (seq![text@[pre_i]] + spec_unquote(text@.skip(pre_i + 1)))
                        =~= (pre_out + seq![text@[pre_i]]) + spec_unquote(text@.skip(pre_i + 1)));
                }
            },
        }
    }
    proof {
        assert(text@.skip(n as int).len() == 0);
    }
    out
}

// ---------------------------------------------------------------
// Session scraping
// ---------------------------------------------------------------
/// The pattern that finds the per-request `auth_token` inside the
/// login page's embedded script.
pub open spec fn auth_token_pattern() -> Seq<char> {
    "PF\\.obj\\.config\\.auth_token = \"([a-f0-9]{40})\";"@
}

/// Reads the `auth_token` out of a login page.  `Ok(None)` means the
/// page carries none; a match without its group is a scrape failure.
pub fn parse_auth_token(html: &str) -> (r: Up2bResult<Option<String>>)
    ensures
        match capture_of(auth_token_pattern(), html@) {
            CaptureOutcome::Group(t) => r matches Ok(o) && (o matches Some(s) && s == t),
            CaptureOutcome::NoMatch => r matches Ok(o) && o is None,
            CaptureOutcome::NoGroup => r matches Err(e) && (e matches Up2bError::Other(s) && s@
                == "解析 auth_token 失败"@),
            CaptureOutcome::BadPattern(m) => r matches Err(e) && (e matches Up2bError::Regex(s)
                && s == m),
        },
{
    match crate::util::capture_first("PF\\.obj\\.config\\.auth_token = \"([a-f0-9]{40})\";", html) {
        CaptureOutcome::Group(t) => Ok(Some(t)),
        CaptureOutcome::NoMatch => Ok(None),
        CaptureOutcome::NoGroup => Err(Up2bError::Other("解析 auth_token 失败".to_owned())),
        CaptureOutcome::BadPattern(m) => Err(Up2bError::Regex(m)),
    }
}

/// The first attribute of a `Set-Cookie` line: everything before the
/// first `';'`, or the whole line without one.
pub fn parse_session_cookie(set_cookie: &str) -> (r: String)
    ensures
        (exists|j: int| crate::util::sub_at(set_cookie@, ";"@, j)) ==> (exists|j: int|
            {
                &&& #[trigger] crate::util::sub_at(set_cookie@, ";"@, j)
                &&& (forall|k: int| 0 <= k < j ==> !crate::util::sub_at(set_cookie@, ";"@, k))
                &&& r@ == set_cookie@.subrange(0, j)
            }),
        !(exists|j: int| crate::util::sub_at(set_cookie@, ";"@, j)) ==> r@ == set_cookie@,
{
    match crate::util::find_sub(set_cookie, ";") {
        Some(j) => set_cookie.substring_char(0, j).to_owned(),
        None => set_cookie.to_owned(),
    }
}

/// The pattern that finds a login page's red error banner.
pub open spec fn login_error_pattern() -> Seq<char> {
    "PF\\.fn\\.growl\\.expirable\\(\"(.+?)\"\\)"@
}

/// Explains a login response that was not the expected redirect: a
/// known bad-credentials banner is an authentication failure, any
/// other banner is terminal as given, and a page without one falls
/// back to the HTTP status.
pub fn login_failure(status: u16, html: &str) -> (r: Up2bError)
    ensures
        match capture_of(login_error_pattern(), html@) {
            CaptureOutcome::Group(t) => if t@ == "错误的用户名或密码"@ {
                r is Auth
            } else {
                r matches Up2bError::Other(s) && s == t
            },
            CaptureOutcome::NoMatch => r matches Up2bError::Status(c) && c == status,
            CaptureOutcome::NoGroup => r matches Up2bError::Status(c) && c == status,
            CaptureOutcome::BadPattern(m) => r matches Up2bError::Regex(s) && s == m,
        },
{
    match crate::util::capture_first("PF\\.fn\\.growl\\.expirable\\(\"(.+?)\"\\)", html) {
        CaptureOutcome::Group(t) => {
            let bad = "错误的用户名或密码".to_owned();
            if t == bad {
                Up2bError::Auth
            } else {
                Up2bError::Other(t)
            }
        },
        CaptureOutcome::NoMatch => Up2bError::Status(status),
        CaptureOutcome::NoGroup => Up2bError::Status(status),
        CaptureOutcome::BadPattern(m) => Up2bError::Regex(m),
    }
}

// ---------------------------------------------------------------
// The bounded session-refresh engine
// ---------------------------------------------------------------
/// What the engine does after a failed attempt: refresh the session
/// and try again, or give the error up as terminal.
#[derive(Debug, PartialEq, Eq, Clone)]
pub enum RetryDecision {
    Refresh,
    GiveUp(CheveretoError),
}

/// Only an expired `auth_token` is retried, and only while fewer than
/// `max_retry_count()` refreshes have happened.
pub open spec fn spec_retry_decision(error: CheveretoError, retry_counter: int) -> RetryDecision {
    match error {
        CheveretoError::AuthToken => if retry_counter == max_retry_count() {
            RetryDecision::GiveUp(CheveretoError::AuthToken)
        } else {
            RetryDecision::Refresh
        },
        _ => RetryDecision::GiveUp(error),
    }
}

pub fn retry_decision(error: &CheveretoError, retry_counter: u8) -> (r: RetryDecision)
    ensures
        r == spec_retry_decision(*error, retry_counter as int),
{
    match error {
        CheveretoError::AuthToken => {
            if retry_counter == 3 {
                RetryDecision::GiveUp(CheveretoError::AuthToken)
            } else {
                RetryDecision::Refresh
            }
        },
        CheveretoError::InvalidContentOwnerRequest => RetryDecision::GiveUp(
            CheveretoError::InvalidContentOwnerRequest,
        ),
        CheveretoError::Other(s) => RetryDecision::GiveUp(CheveretoError::Other(s.clone())),
    }
}

/// How many refreshes an operation starting at `counter` performs
/// against a backend that reports an expired session on every
/// attempt.
pub open spec fn spec_refresh_count(counter: int) -> int
    decreases max_retry_count() + 1 - counter,
{
    if counter < 0 || counter >= max_retry_count() {
        0
    } else if spec_retry_decision(CheveretoError::AuthToken, counter) is Refresh {
        1 + spec_refresh_count(counter + 1)
    } else {
        0
    }
}

/// Law: a backend that always reports an expired session causes
/// exactly three refreshes, after which the expired session is the
/// terminal error.
pub proof fn lemma_session_retry_bound()
    ensures
        spec_refresh_count(0) == 3,
        spec_retry_decision(CheveretoError::AuthToken, max_retry_count())
            == RetryDecision::GiveUp(CheveretoError::AuthToken),
{
    assert(spec_refresh_count(3) == 0);
    assert(spec_refresh_count(2) == 1);
    assert(spec_refresh_count(1) == 2);
    assert(spec_refresh_count(0) == 3);
}

// ---------------------------------------------------------------
// The adapter
// ---------------------------------------------------------------
/// Finds the first value stored under `key`.
fn extra_get(extra: &Extra, key: &str) -> (r: Option<String>)
    ensures
        match r {
            Some(v) => exists|j: int|
                0 <= j < extra@.len() && (#[trigger] extra@[j]).0@ == key@ && extra@[j].1@ == v@,
            None => forall|j: int| 0 <= j < extra@.len() ==> (#[trigger] extra@[j]).0@ != key@,
        },
{
    let probe = key.to_owned();
    let mut i: usize = 0;
    while i < extra.len()
        invariant
            i <= extra@.len(),
            probe@ == key@,
            forall|j: int| 0 <= j < i ==> (#[trigger] extra@[j]).0@ != key@,
        decreases extra@.len() - i,
    {
        if extra[i].0 == probe {
            return Some(extra[i].1.clone());
        }
        i += 1;
    }
    None
}

/// The adapter for Chevereto-family hosts, whose credential is a
/// scraped, expiring session: an `auth_token` and a cookie.
#[derive(Debug)]
pub struct Chevereto {
    pub inner: BaseManager,
    pub code: ManagerCode,
    pub file_kind: FileKind,
    pub file_part_name: String,
    pub username: String,
    pub password: String,
    pub token: Option<String>,
    pub cookie: Option<String>,
}

impl Chevereto {
    pub fn new(
        code: ManagerCode,
        name: &str,
        base_url: &str,
        username: &str,
        password: &str,
        max_size: u8,
        file_kind: FileKind,
        allowed_formats: Vec<AllowedImageFormat>,
        timeout: Option<u8>,
        extra: Option<&Extra>,
    ) -> (r: Self)
        ensures
            r.code == code,
            r.inner.name@ == name@,
            r.inner.base_url@ == base_url@,
            r.inner.max_size == max_size,
            r.inner.allowed_formats == allowed_formats,
            r.file_kind == file_kind,
            r.file_part_name@ == "source"@,
            r.username@ == username@,
            r.password@ == password@,
            extra is None ==> r.token is None && r.cookie is None,
    {
        let (token, cookie) = match extra {
            None => (None, None),
            Some(m) => (extra_get(m, "token"), extra_get(m, "cookie")),
        };
        let inner = BaseManager::new(
            name.to_owned(),
            base_url.to_owned(),
            max_size,
            allowed_formats,
            timeout,
        );
        Chevereto {
            inner,
            code,
            file_kind,
            file_part_name: "source".to_owned(),
            username: username.to_owned(),
            password: password.to_owned(),
            token,
            cookie,
        }
    }

    /// Whether an operation must log in before it can be attempted.
    pub fn needs_login(&self) -> (r: bool)
        ensures
            r == (self.token is None || self.cookie is None),
    {
        self.token.is_none() || self.cookie.is_none()
    }

    /// The headers every scrape and delete request carries: JSON
    /// accepted, a browser user agent, and the session cookie when
    /// one is held.
    pub fn header(&self) -> (r: Vec<(String, String)>)
        ensures
            r@.len() == (if self.cookie is Some {
                3int
            } else {
                2int
            }),
            r@[0].0@ == "Accept"@ && r@[0].1@ == "application/json"@,
            r@[1].0@ == "User-Agent"@,
            self.cookie matches Some(c) ==> r@[2].0@ == "Cookie"@ && r@[2].1@ == c@,
    {
        let mut out: Vec<(String, String)> = Vec::new();
        out.push(("Accept".to_owned(), "application/json".to_owned()));
        out.push(
            (
                "User-Agent".to_owned(),
                "Mozilla/5.0 (Macintosh; Intel Mac OS X 10_15_7) AppleWebKit/537.36 (KHTML, like Gecko) Chrome/120.0.0.0 Safari/537.36".to_owned(),
            ),
        );
        match &self.cookie {
            Some(c) => {
                out.push(("Cookie".to_owned(), c.clone()));
            },
            None => {},
        }
        out
    }

    /// Applies a freshly scraped `auth_token` to the session.
    pub fn apply_refreshed_token(&mut self, token: String)
        ensures
            *final(self) == (Chevereto { token: Some(token), ..*old(self) }),
    {
        self.token = Some(token);
    }

    /// Applies a full login: the fresh token, and the pre-login
    /// cookie joined with the captured keep-login cookie.  Hands back
    /// the session pair for the credential store.
    pub fn apply_login(&mut self, auth_token: String, base_cookie: &str, keeplogin: &str) -> (r:
        Extra)
        ensures
            final(self).token matches Some(t) && t == auth_token,
            final(self).cookie matches Some(c) && c@ == base_cookie@ + "; "@ + keeplogin@,
            final(self).inner == old(self).inner,
            final(self).code == old(self).code,
            final(self).username == old(self).username,
            final(self).password == old(self).password,
            r@.len() == 2,
            r@[0].0@ == "token"@ && r@[0].1@ == auth_token@,
            r@[1].0@ == "cookie"@ && r@[1].1@ == base_cookie@ + "; "@ + keeplogin@,
    {
        let cookie = base_cookie.to_owned().concat("; ").concat(keeplogin);
        self.token = Some(auth_token.clone());
        self.cookie = Some(cookie.clone());
        let mut out: Extra = Vec::new();
        out.push(("token".to_owned(), auth_token));
        out.push(("cookie".to_owned(), cookie));
        out
    }

    /// The session pair for the credential store.
    pub fn session_extra(&self) -> (r: Up2bResult<Extra>)
        requires
            self.token is Some,
            self.cookie is Some,
        ensures
            r matches Ok(v) && v@.len() == 2 && v@[0].0@ == "cookie"@ && v@[0].1@
                == self.cookie->0@ && v@[1].0@ == "token"@ && v@[1].1@ == self.token->0@,
    {
        let mut out: Extra = Vec::new();
        match (&self.cookie, &self.token) {
            (Some(c), Some(t)) => {
                out.push(("cookie".to_owned(), c.clone()));
                out.push(("token".to_owned(), t.clone()));
                Ok(out)
            },
            _ => vstd::pervasive::unreached(),
        }
    }

    /// The GET of the login page that the token scrape reads: the
    /// session cookie is withheld when a fresh pre-login token is
    /// wanted, and the page is asked for as HTML.
    pub fn auth_page_request(&self, no_cookie: bool) -> (r: HttpRequest)
        ensures
            r.method is Get,
            r.url@ == self.inner.base_url@ + "/"@ + "login"@,
            r.body is Empty,
            r.timeout == self.inner.timeout,
            r.headers@.len() >= 1,
            r.headers@[r.headers@.len() - 1].0@ == "Accept"@ && r.headers@[r.headers@.len()
                - 1].1@ == "text/html"@,
            no_cookie ==> forall|j: int|
                0 <= j < r.headers@.len() ==> (#[trigger] r.headers@[j]).0@ != "Cookie"@,
    {
        proof {
            reveal_strlit("login");
            reveal_strlit("Cookie");
            reveal_strlit("Accept");
        }
        let mut headers = self.header();
        if no_cookie {
            let mut kept: Vec<(String, String)> = Vec::new();
            let mut i: usize = 0;
            let n = headers.len();
            while i < n
                invariant
                    i <= n,
                    n == headers@.len(),
                    forall|j: int| 0 <= j < kept@.len() ==> (#[trigger] kept@[j]).0@ != "Cookie"@,
                decreases n - i,
            {
                let probe = "Cookie".to_owned();
                if !(headers[i].0 == probe) {
                    kept.push((headers[i].0.clone(), headers[i].1.clone()));
                }
                i += 1;
            }
            headers = kept;
            proof {
                assert(forall|j: int|
                    0 <= j < headers@.len() ==> (#[trigger] headers@[j]).0@ != "Cookie"@);
            }
        }
        let mut hs = headers;
        let ghost pre = hs@;
        hs.push(("Accept".to_owned(), "text/html".to_owned()));
        proof {
            if no_cookie {
                assert forall|j: int| 0 <= j < hs@.len() implies (#[trigger] hs@[j]).0@
                    != "Cookie"@ by {
                    reveal_strlit("Accept");
                    reveal_strlit("Cookie");
                    if j < pre.len() {
                        assert(hs@[j] == pre[j]);
                        assert((pre[j]).0@ != "Cookie"@);
                    } else {
                        assert(hs@[j].0@ == "Accept"@);
                        assert("Accept"@[0] == 'A');
                        assert("Cookie"@[0] == 'C');
                        assert("Accept"@ != "Cookie"@);
                    }
                }
            }
        }
        HttpRequest {
            method: HttpMethod::Get,
            url: self.inner.url("login"),
            headers: hs,
            body: RequestBody::Empty,
            timeout: self.inner.timeout,
        }
    }

    /// The address of one album page: the user's album, a page
    /// number, and the continuation token from page two on.
    pub fn album_page_url(&self, page: u32, seek: Option<&str>) -> (r: String)
        ensures
            r@ == spec_album_page_url(
                self.inner.base_url@,
                self.username@,
                page as int,
                match seek {
                    None => None,
                    Some(s) => Some(s@),
                },
            ),
    {
        let base = self.inner.url(self.username.as_str()).concat("/?page=").concat(
            crate::util::u64_to_string(page as u64).as_str(),
        );
        match seek {
            None => base,
            Some(s) => base.concat("&seek=").concat(s),
        }
    }

    /// The multipart upload POST for one file: the size cap is held
    /// first (a file over it, with automatic compression off, is the
    /// oversize error), and the form carries the session's
    /// `auth_token` beside the fixed upload fields.
    pub fn upload_request(
        &self,
        filename: &str,
        file_size: u64,
        automatic_compression: bool,
        timestamp_millis: &str,
    ) -> (r: Up2bResult<HttpRequest>)
        requires
            self.token is Some,
            self.cookie is Some,
        ensures
            (!automatic_compression && file_size > self.inner.max_size as u64 * 1024 * 1024) ==> (
            r matches Err(e) && (e matches Up2bError::OverSize(n, p, m, f) && n@
                == self.inner.name@ && p@ == filename@ && m == (self.inner.max_size as u64 * 1024
                * 1024) / 1024 / 1024 && f == file_size / 1024 / 1024)),
            !(!automatic_compression && file_size > self.inner.max_size as u64 * 1024 * 1024)
                ==> (r matches Ok(req) && req.method is Post && req.url@ == self.inner.base_url@
                + "/"@ + "json"@ && req.timeout == self.inner.timeout && req.headers@.len() == 3
                && req.headers@[0].0@ == "Accept"@ && req.headers@[0].1@ == "application/json"@
                && req.headers@[1].0@ == "User-Agent"@ && req.headers@[2].0@ == "Cookie"@
                && req.headers@[2].1@ == self.cookie->0@ && (req.body
                matches RequestBody::Multipart { file_part_name: p, file_kind: k, mime_type: mt, extra: ex }
                && p@ == self.file_part_name@ && k == self.file_kind && mt@
                == crate::api::spec_guessed_mime(filename@) && ex@.len() == 5 && ex@[0].0@
                == "type"@ && ex@[0].1@ == "file"@ && ex@[1].0@ == "action"@ && ex@[1].1@
                == "upload"@ && ex@[2].0@ == "timestamp"@ && ex@[2].1@ == timestamp_millis@
                && ex@[3].0@ == "auth_token"@ && ex@[3].1@ == self.token->0@ && ex@[4].0@
                == "nsfw"@ && ex@[4].1@ == "0"@)),
    {
        proof {
            reveal_strlit("json");
        }
        let max_bytes = self.inner.max_size as u64 * 1024 * 1024;
        if !automatic_compression {
            crate::manager::is_exceeded(self.inner.name.as_str(), filename, max_bytes, file_size)?;
        }
        let token: String = match &self.token {
            Some(t) => t.clone(),
            None => vstd::pervasive::unreached(),
        };
        let cookie: String = match &self.cookie {
            Some(c) => c.clone(),
            None => vstd::pervasive::unreached(),
        };
        let mut headers: Vec<(String, String)> = Vec::new();
        headers.push(("Accept".to_owned(), "application/json".to_owned()));
        headers.push(
            (
                "User-Agent".to_owned(),
                "Mozilla/5.0 (X11; Linux x86_64; rv:85.0) Gecko/20100101 Firefox/85.0".to_owned(),
            ),
        );
        headers.push(("Cookie".to_owned(), cookie));
        let mut form: Vec<(String, String)> = Vec::new();
        form.push(("type".to_owned(), "file".to_owned()));
        form.push(("action".to_owned(), "upload".to_owned()));
        form.push(("timestamp".to_owned(), timestamp_millis.to_owned()));
        form.push(("auth_token".to_owned(), token));
        form.push(("nsfw".to_owned(), "0".to_owned()));
        let mime = crate::util::mime_for_filename(filename);
        Ok(
            HttpRequest {
                method: HttpMethod::Post,
                url: self.inner.url("json"),
                headers,
                body: RequestBody::Multipart {
                    file_part_name: self.file_part_name.clone(),
                    file_kind: self.file_kind,
                    mime_type: mime,
                    extra: form,
                },
                timeout: self.inner.timeout,
            },
        )
    }

    /// The delete POST for one image name: the fixed delete fields
    /// beside the session's `auth_token`.
    pub fn delete_request(&self, id: &str) -> (r: HttpRequest)
        requires
            self.token is Some,
        ensures
            r.method is Post,
            r.url@ == self.inner.base_url@ + "/"@ + "json"@,
            r.timeout == self.inner.timeout,
            r.body matches RequestBody::Form(f) && f@.len() == 6 && f@[0].0@ == "auth_token"@
                && f@[0].1@ == self.token->0@ && f@[1].0@ == "action"@ && f@[1].1@ == "delete"@
                && f@[2].0@ == "from"@ && f@[2].1@ == "list"@ && f@[3].0@ == "delete"@ && f@[3].1@
                == "images"@ && f@[4].0@ == "multiple"@ && f@[4].1@ == "true"@ && f@[5].0@
                == "deleting[ids][]"@ && f@[5].1@ == id@,
    {
        proof {
            reveal_strlit("json");
        }
        let token: String = match &self.token {
            Some(t) => t.clone(),
            None => vstd::pervasive::unreached(),
        };
        let mut form: Vec<(String, String)> = Vec::new();
        form.push(("auth_token".to_owned(), token));
        form.push(("action".to_owned(), "delete".to_owned()));
        form.push(("from".to_owned(), "list".to_owned()));
        form.push(("delete".to_owned(), "images".to_owned()));
        form.push(("multiple".to_owned(), "true".to_owned()));
        form.push(("deleting[ids][]".to_owned(), id.to_owned()));
        HttpRequest {
            method: HttpMethod::Post,
            url: self.inner.url("json"),
            headers: self.header(),
            body: RequestBody::Form(form),
            timeout: self.inner.timeout,
        }
    }

    /// The login form POST: username, password and the scraped
    /// `auth_token`, sent with the pre-login cookie.
    pub fn login_request(&self, auth_token: &str, cookie: &str) -> (r: HttpRequest)
        ensures
            r.method is Post,
            r.url@ == self.inner.base_url@ + "/"@ + "login"@,
            r.timeout == self.inner.timeout,
            r.body matches RequestBody::Form(f) && f@.len() == 3 && f@[0].0@ == "login-subject"@
                && f@[0].1@ == self.username@ && f@[1].0@ == "password"@ && f@[1].1@
                == self.password@ && f@[2].0@ == "auth_token"@ && f@[2].1@ == auth_token@,
    {
        proof {
            reveal_strlit("login");
        }
        let mut headers = self.header();
        headers.push(("Cookie".to_owned(), cookie.to_owned()));
        let mut form: Vec<(String, String)> = Vec::new();
        form.push(("login-subject".to_owned(), self.username.clone()));
        form.push(("password".to_owned(), self.password.clone()));
        form.push(("auth_token".to_owned(), auth_token.to_owned()));
        HttpRequest {
            method: HttpMethod::Post,
            url: self.inner.url("login"),
            headers,
            body: RequestBody::Form(form),
            timeout: self.inner.timeout,
        }
    }
}

/// The address of one album page.
pub open spec fn spec_album_page_url(
    base: Seq<char>,
    username: Seq<char>,
    page: int,
    seek: Option<Seq<char>>,
) -> Seq<char> {
    let album = if username.len() > 0 && username[0] == '/' {
        base + username
    } else {
        base + "/"@ + username
    };
    let paged = album + "/?page="@ + spec_u64_string(page);
    match seek {
        None => paged,
        Some(s) => paged + "&seek="@ + s,
    }
}

/// The pattern that finds each embedded image record on an album
/// page.
pub open spec fn data_object_pattern() -> Seq<char> {
    "data-object='(.+?)'"@
}

/// One embedded record: unescaped, parsed as JSON, and read at its
/// `url`, `name` and `thumb.url` fields, all of which must be
/// strings.
pub open spec fn spec_chev_item(c: Seq<char>) -> Option<(Seq<char>, Seq<char>, Seq<char>)> {
    match json_of(spec_unquote(c)) {
        None => None,
        Some(j) => {
            let url = spec_resolve(j, "url"@);
            let name = spec_resolve(j, "name"@);
            let th = spec_resolve(j, "thumb.url"@);
            if url is Str && name is Str && th is Str {
                Some((url->Str_0@, name->Str_0@, th->Str_0@))
            } else {
                None
            }
        },
    }
}

/// Whether some record fails to parse, reading records in order.
pub open spec fn spec_chev_bad(cs: Seq<Seq<char>>) -> bool
    decreases cs.len(),
{
    if cs.len() == 0 {
        false
    } else if spec_chev_item(cs[0]) is None {
        true
    } else {
        spec_chev_bad(cs.drop_first())
    }
}

/// The records' contents when every record parses.
pub open spec fn spec_chev_items(cs: Seq<Seq<char>>) -> Seq<(Seq<char>, Seq<char>, Seq<char>)>
    decreases cs.len(),
{
    if cs.len() == 0 {
        Seq::empty()
    } else {
        match spec_chev_item(cs[0]) {
            None => Seq::empty(),
            Some(t) => seq![t] + spec_chev_items(cs.drop_first()),
        }
    }
}

fn chev_item(c: &String) -> (r: Up2bResult<ImageItem>)
    ensures
        match spec_chev_item(c@) {
            Some(t) => r matches Ok(it) && it.url@ == t.0 && it.deleted_id@ == t.1 && (it.thumb
                matches Some(x) && x@ == t.2),
            None => r matches Err(e) && (e matches Up2bError::Serde(s) && s@
                == "invalid image data"@),
        },
{
    let unquoted = unquote(c.as_str());
    let json = match crate::json::parse_json(unquoted.as_str()) {
        Some(j) => j,
        None => {
            return Err(Up2bError::Serde("invalid image data".to_owned()));
        },
    };
    let url: String = match crate::json::resolve_path(&json, "url") {
        Some(JsonValue::Str(s)) => s.clone(),
        _ => {
            return Err(Up2bError::Serde("invalid image data".to_owned()));
        },
    };
    let name: String = match crate::json::resolve_path(&json, "name") {
        Some(JsonValue::Str(s)) => s.clone(),
        _ => {
            return Err(Up2bError::Serde("invalid image data".to_owned()));
        },
    };
    let thumb: String = match crate::json::resolve_path(&json, "thumb.url") {
        Some(JsonValue::Str(s)) => s.clone(),
        _ => {
            return Err(Up2bError::Serde("invalid image data".to_owned()));
        },
    };
    Ok(ImageItem { url, deleted_id: name, thumb: Some(thumb) })
}

fn chev_items_from(cs: &Vec<String>, i: usize) -> (r: Up2bResult<Vec<ImageItem>>)
    requires
        i <= cs@.len(),
    ensures
        ({
            let views = cs@.map_values(|s: String| s@).skip(i as int);
            if spec_chev_bad(views) {
                r matches Err(e) && (e matches Up2bError::Serde(s) && s@ == "invalid image data"@)
            } else {
                r matches Ok(v) && v@.len() == spec_chev_items(views).len() && (forall|j: int|
                    0 <= j < v@.len() ==> (#[trigger] v@[j]).url@ == spec_chev_items(views)[j].0
                        && v@[j].deleted_id@ == spec_chev_items(views)[j].1 && (v@[j].thumb
                        matches Some(x) && x@ == spec_chev_items(views)[j].2))
            }
        }),
    decreases cs@.len() - i,
{
    let ghost views = cs@.map_values(|s: String| s@).skip(i as int);
    if i == cs.len() {
        let empty: Vec<ImageItem> = Vec::new();
        proof {
            assert(views.len() == 0);
        }
        return Ok(empty);
    }
    proof {
        assert(views[0] == cs@[i as int]@);
        assert(views.drop_first() =~= cs@.map_values(|s: String| s@).skip(i as int + 1));
    }
    let first = chev_item(&cs[i])?;
    let rest = chev_items_from(cs, i + 1)?;
    let mut out = rest;
    out.insert(0, first);
    Ok(out)
}

/// Reads the image records an album page embeds in its
/// `data-object` attributes.
pub fn extract_page_items(html: &str) -> (r: Up2bResult<Vec<ImageItem>>)
    ensures
        match captures_of(data_object_pattern(), html@) {
            None => r matches Err(e) && (e matches Up2bError::Regex(s) && s@.len() == 0),
            Some(cs) => if spec_chev_bad(cs) {
                r matches Err(e) && (e matches Up2bError::Serde(s) && s@ == "invalid image data"@)
            } else {
                r matches Ok(v) && v@.len() == spec_chev_items(cs).len() && (forall|j: int|
                    0 <= j < v@.len() ==> (#[trigger] v@[j]).url@ == spec_chev_items(cs)[j].0
                        && v@[j].deleted_id@ == spec_chev_items(cs)[j].1 && (v@[j].thumb
                        matches Some(x) && x@ == spec_chev_items(cs)[j].2))
            },
        },
{
    let captures = match crate::util::capture_all("data-object='(.+?)'", html) {
        Some(cs) => cs,
        None => {
            return Err(Up2bError::Regex(String::new()));
        },
    };
    proof {
        assert(captures@.map_values(|s: String| s@).skip(0) =~= captures@.map_values(
            |s: String| s@,
        ));
    }
    chev_items_from(&captures, 0)
}

/// The pattern that finds an album page's declared image count.
pub open spec fn image_count_pattern() -> Seq<char> {
    "<b data-text=\"image-count\">(\\d+)</b>"@
}

/// The pattern that finds an album page's continuation token.
pub open spec fn seek_pattern() -> Seq<char> {
    "&seek=(.+?)\""@
}

/// How many album pages a declared image count fills, at eighty
/// records per page.
pub open spec fn spec_page_count(count: int) -> int {
    (count + 79) / 80
}

/// Reads the first album page's continuation: `None` when one page
/// holds everything, else the total page count beside the
/// continuation token that the later pages need.
pub fn page_continuation(html: &str) -> (r: Up2bResult<Option<(u32, String)>>)
    ensures
        match capture_of(image_count_pattern(), html@) {
            CaptureOutcome::NoMatch => r matches Ok(o) && o is None,
            CaptureOutcome::NoGroup => r matches Err(e) && (e matches Up2bError::Other(s) && s@
                == "无法解析图片数量"@),
            CaptureOutcome::BadPattern(m) => r matches Err(e) && (e matches Up2bError::Regex(s)
                && s == m),
            CaptureOutcome::Group(digits) => if !crate::util::spec_is_digits(digits@)
                || crate::util::spec_dec_value(digits@) > u32::MAX {
                r matches Err(e) && (e matches Up2bError::Other(s) && s@ == "无法解析图片数量"@)
            } else if spec_page_count(crate::util::spec_dec_value(digits@)) <= 1 {
                r matches Ok(o) && o is None
            } else {
                match capture_of(seek_pattern(), html@) {
                    CaptureOutcome::Group(s) => r matches Ok(o) && (o matches Some(p) && p.0 as int
                        == spec_page_count(crate::util::spec_dec_value(digits@)) && p.1 == s),
                    CaptureOutcome::BadPattern(m) => r matches Err(e) && (e
                        matches Up2bError::Regex(s) && s == m),
                    _ => r matches Err(e) && (e matches Up2bError::Other(s) && s@
                        == "无法解析 seek"@),
                }
            },
        },
{
    let digits = match crate::util::capture_first("<b data-text=\"image-count\">(\\d+)</b>", html) {
        CaptureOutcome::NoMatch => {
            return Ok(None);
        },
        CaptureOutcome::NoGroup => {
            return Err(Up2bError::Other("无法解析图片数量".to_owned()));
        },
        CaptureOutcome::BadPattern(m) => {
            return Err(Up2bError::Regex(m));
        },
        CaptureOutcome::Group(d) => d,
    };
    let count = match crate::util::parse_u32(digits.as_str()) {
        Some(c) => c,
        None => {
            return Err(Up2bError::Other("无法解析图片数量".to_owned()));
        },
    };
    let pages: u32 = (count / 80) + (if count % 80 != 0 {
        1
    } else {
        0
    });
    proof {
        assert(pages as int == spec_page_count(count as int)) by (nonlinear_arith)
            requires
                pages as int == count as int / 80 + (if count as int % 80 != 0 {
                    1int
                } else {
                    0int
                }),
                0 <= count <= u32::MAX,
        ;
    }
    if pages <= 1 {
        return Ok(None);
    }
    match crate::util::capture_first("&seek=(.+?)\"", html) {
        CaptureOutcome::Group(s) => Ok(Some((pages, s))),
        CaptureOutcome::BadPattern(m) => Err(Up2bError::Regex(m)),
        _ => Err(Up2bError::Other("无法解析 seek".to_owned())),
    }
}

/// What the engine does next after an upload attempt's response.
#[derive(Debug, PartialEq, Eq, Clone)]
pub enum UploadDecision {
    Done(ImageItem),
    RetryAfterRefresh,
}

/// What the engine does next after a delete attempt's response.
#[derive(Debug, PartialEq, Eq, Clone)]
pub enum DeleteDecision {
    Done(DeleteResponse),
    RetryAfterRefresh,
}

impl Chevereto {
    /// Reads an upload response and decides the next step.  A 200
    /// carries the new image under `image`; any other status carries
    /// a structured error, of which only an expired `auth_token` is
    /// retried, and only below the retry bound.
    pub fn upload_response_decision(&self, status: u16, body: &str, retry_counter: u8) -> (r:
        Up2bResult<UploadDecision>)
        ensures
            match json_of(body@) {
                None => r matches Err(e) && (e matches Up2bError::Request(s) && s@
                    == "invalid JSON body"@),
                Some(json) => if status == 200 {
                    ({
                        let url = spec_resolve(json, "image.url"@);
                        let name = spec_resolve(json, "image.name"@);
                        let th = spec_resolve(json, "image.thumb.url"@);
                        if url is Str && name is Str && th is Str {
                            r matches Ok(d) && (d matches UploadDecision::Done(it) && it.url@
                                == url->Str_0@ && it.deleted_id@ == name->Str_0@ && (it.thumb
                                matches Some(x) && x@ == th->Str_0@))
                        } else {
                            r matches Err(e) && (e matches Up2bError::Request(s) && s@
                                == "invalid JSON body"@)
                        }
                    })
                } else {
                    match spec_resolve(json, "error.message"@) {
                        JsonValue::Str(msg) => match crate::error::spec_chevereto_kind(msg) {
                            CheveretoError::AuthToken => if retry_counter as int
                                == max_retry_count() {
                                r matches Err(e) && e == Up2bError::Chevereto(
                                    CheveretoError::AuthToken,
                                )
                            } else {
                                r matches Ok(d) && d is RetryAfterRefresh
                            },
                            k => r matches Err(e) && e == Up2bError::Chevereto(k),
                        },
                        _ => r matches Err(e) && (e matches Up2bError::Request(s) && s@
                            == "invalid JSON body"@),
                    }
                },
            },
    {
        let json = match crate::json::parse_json(body) {
            Some(j) => j,
            None => {
                return Err(Up2bError::Request("invalid JSON body".to_owned()));
            },
        };
        if status == 200 {
            let url: String = match crate::json::resolve_path(&json, "image.url") {
                Some(JsonValue::Str(s)) => s.clone(),
                _ => {
                    return Err(Up2bError::Request("invalid JSON body".to_owned()));
                },
            };
            let name: String = match crate::json::resolve_path(&json, "image.name") {
                Some(JsonValue::Str(s)) => s.clone(),
                _ => {
                    return Err(Up2bError::Request("invalid JSON body".to_owned()));
                },
            };
            let thumb: String = match crate::json::resolve_path(&json, "image.thumb.url") {
                Some(JsonValue::Str(s)) => s.clone(),
                _ => {
                    return Err(Up2bError::Request("invalid JSON body".to_owned()));
                },
            };
            return Ok(
                UploadDecision::Done(ImageItem { url, deleted_id: name, thumb: Some(thumb) }),
            );
        }
        let message: String = match crate::json::resolve_path(&json, "error.message") {
            Some(JsonValue::Str(s)) => s.clone(),
            _ => {
                return Err(Up2bError::Request("invalid JSON body".to_owned()));
            },
        };
        let detail = crate::error::CheveretoErrorDetail { message, code: status };
        let kind = detail.kind();
        match retry_decision(&kind, retry_counter) {
            RetryDecision::Refresh => Ok(UploadDecision::RetryAfterRefresh),
            RetryDecision::GiveUp(e) => Err(Up2bError::Chevereto(e)),
        }
    }

    /// Reads a delete response and decides the next step.  A 200 is
    /// success; a missing content owner means the image was not
    /// there; an expired `auth_token` is retried below the bound and
    /// is otherwise reported as this failure's text.
    pub fn delete_response_decision(&self, status: u16, body: &str, retry_counter: u8) -> (r:
        Up2bResult<DeleteDecision>)
        ensures
            status == 200 ==> (r matches Ok(d) && (d matches DeleteDecision::Done(resp)
                && resp.success && resp.error is None)),
            status != 200 ==> match json_of(body@) {
                None => r matches Err(e) && (e matches Up2bError::Request(s) && s@
                    == "invalid JSON body"@),
                Some(json) => match spec_resolve(json, "error.message"@) {
                    JsonValue::Str(msg) => match crate::error::spec_chevereto_kind(msg) {
                        CheveretoError::InvalidContentOwnerRequest => r matches Ok(d) && (d
                            matches DeleteDecision::Done(resp) && !resp.success && (resp.error
                            matches Some(de) && de is NotFound)),
                        CheveretoError::Other(s) => r matches Ok(d) && (d
                            matches DeleteDecision::Done(resp) && !resp.success && (resp.error
                            matches Some(de) && (de matches DeleteError::Other(t) && t == s))),
                        CheveretoError::AuthToken => if retry_counter as int == max_retry_count() {
                            r matches Ok(d) && (d matches DeleteDecision::Done(resp)
                                && !resp.success && (resp.error matches Some(de) && (de
                                matches DeleteError::Other(t) && t@ == "auth_token 失效"@)))
                        } else {
                            r matches Ok(d) && d is RetryAfterRefresh
                        },
                    },
                    _ => r matches Err(e) && (e matches Up2bError::Request(s) && s@
                        == "invalid JSON body"@),
                },
            },
    {
        if status == 200 {
            return Ok(DeleteDecision::Done(DeleteResponse { success: true, error: None }));
        }
        let json = match crate::json::parse_json(body) {
            Some(j) => j,
            None => {
                return Err(Up2bError::Request("invalid JSON body".to_owned()));
            },
        };
        let message: String = match crate::json::resolve_path(&json, "error.message") {
            Some(JsonValue::Str(s)) => s.clone(),
            _ => {
                return Err(Up2bError::Request("invalid JSON body".to_owned()));
            },
        };
        let detail = crate::error::CheveretoErrorDetail { message, code: status };
        let kind = detail.kind();
        match kind {
            CheveretoError::InvalidContentOwnerRequest => Ok(
                DeleteDecision::Done(
                    DeleteResponse { success: false, error: Some(DeleteError::NotFound) },
                ),
            ),
            CheveretoError::Other(s) => Ok(
                DeleteDecision::Done(
                    DeleteResponse { success: false, error: Some(DeleteError::Other(s)) },
                ),
            ),
            CheveretoError::AuthToken => {
                if retry_counter == 3 {
                    let text = CheveretoError::AuthToken.message().to_owned();
                    Ok(
                        DeleteDecision::Done(
                            DeleteResponse { success: false, error: Some(DeleteError::Other(text)) },
                        ),
                    )
                } else {
                    Ok(DeleteDecision::RetryAfterRefresh)
                }
            },
        }
    }

    pub fn allowed_formats(&self) -> (r: &Vec<AllowedImageFormat>)
        ensures
            r == &self.inner.allowed_formats,
    {
        &self.inner.allowed_formats
    }

    pub fn support_stream(&self) -> (r: bool)
        ensures
            r == (self.file_kind is Stream),
    {
        match self.file_kind {
            FileKind::Stream => true,
            FileKind::Buffer => false,
        }
    }
}

/// The imgse.com host: a Chevereto site taking JPEG, PNG and GIF
/// files of at most ten megabytes, uploaded buffered.
#[derive(Debug)]
pub struct Imgse {
    pub inner: Chevereto,
}

impl Imgse {
    pub fn new(username: &str, password: &str, timeout: Option<u8>, extra: Option<&Extra>) -> (r:
        Self)
        ensures
            r.inner.code is Imgse,
            r.inner.inner.name@ == "imgse.com"@,
            r.inner.inner.base_url@ == "https://imgse.com/"@,
            r.inner.inner.max_size == 10,
            r.inner.file_kind is Buffer,
            r.inner.username@ == username@,
            r.inner.password@ == password@,
            r.inner.inner.allowed_formats@.len() == 3,
    {
        let mut formats: Vec<AllowedImageFormat> = Vec::new();
        formats.push(AllowedImageFormat::Jpeg);
        formats.push(AllowedImageFormat::Png);
        formats.push(AllowedImageFormat::Gif);
        Imgse {
            inner: Chevereto::new(
                ManagerCode::Imgse,
                "imgse.com",
                "https://imgse.com/",
                username,
                password,
                10,
                FileKind::Buffer,
                formats,
                timeout,
                extra,
            ),
        }
    }
}

/// The img.tg host: a Chevereto site taking five-megabyte files,
/// uploaded as a stream.
#[derive(Debug)]
pub struct Imgtg {
    pub inner: Chevereto,
}

impl Imgtg {
    pub fn new(username: &str, password: &str, timeout: Option<u8>, extra: Option<&Extra>) -> (r:
        Self)
        ensures
            r.inner.code is Imgtg,
            r.inner.inner.name@ == "img.tg"@,
            r.inner.inner.base_url@ == "https://img.tg/"@,
            r.inner.inner.max_size == 5,
            r.inner.file_kind is Stream,
            r.inner.username@ == username@,
            r.inner.password@ == password@,
            r.inner.inner.allowed_formats@.len() == 5,
    {
        let mut formats: Vec<AllowedImageFormat> = Vec::new();
        formats.push(AllowedImageFormat::Jpeg);
        formats.push(AllowedImageFormat::Png);
        formats.push(AllowedImageFormat::Bmp);
        formats.push(AllowedImageFormat::Gif);
        formats.push(AllowedImageFormat::Webp);
        Imgtg {
            inner: Chevereto::new(
                ManagerCode::Imgtg,
                "img.tg",
                "https://img.tg/",
                username,
                password,
                5,
                FileKind::Stream,
                formats,
                timeout,
                extra,
            ),
        }
    }
}

} // verus!
