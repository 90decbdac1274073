use vstd::prelude::*;

use crate::descriptor::Api;
use crate::manager::{spec_code_eq, Extra, ManagerCode};

verus! {

#[derive(Debug, Clone)]
pub enum ProxyKind {
    Http { host: String, port: u32 },
    Https { host: String, port: u32 },
    Socks5 { host: String, port: u32 },
    Socks5h { host: String, port: u32 },
}

/// The credential stored for one backend: a bearer token with its
/// descriptor, a Git token with its repository coordinates, or a
/// Chevereto account with its cached session.
#[derive(Debug)]
pub enum ManagerAuthConfigKind {
    API { token: String, api: Api },
    Git { token: String, username: String, repository: String, path: Option<String> },
    Chevereto { username: String, password: String, timeout: Option<u8>, extra: Option<Extra> },
}

pub fn default_image_bed() -> (r: ManagerCode)
    ensures
        r is Smms,
{
    ManagerCode::Smms
}

pub fn default_use_proxy() -> (r: bool)
    ensures
        r == false,
{
    false
}

pub fn default_automatic_compression() -> (r: bool)
    ensures
        r == false,
{
    false
}

/// The whole stored configuration: which backend is in use, whether
/// oversized files are compressed, the proxy, and one credential per
/// backend.
#[derive(Debug)]
pub struct Config {
    pub using: ManagerCode,
    pub automatic_compression: bool,
    pub use_proxy: bool,
    pub proxy: Option<ProxyKind>,
    pub auth_config: Vec<(ManagerCode, ManagerAuthConfigKind)>,
}

/// Each backend holds at most one credential.
pub open spec fn spec_config_wf(c: Config) -> bool {
    forall|i: int, j: int|
        0 <= i < j < c.auth_config@.len() ==> !spec_code_eq(
            (#[trigger] c.auth_config@[i]).0,
            (#[trigger] c.auth_config@[j]).0,
        )
}

impl Default for Config {
    fn default() -> (r: Self)
        ensures
            r.using is Smms,
            !r.automatic_compression,
            !r.use_proxy,
            r.proxy is None,
            r.auth_config@.len() == 0,
            spec_config_wf(r),
    {
        Config {
            using: ManagerCode::Smms,
            automatic_compression: false,
            use_proxy: false,
            proxy: None,
            auth_config: Vec::new(),
        }
    }
}

/// The position of a backend's credential, or the length when none
/// is stored.
pub open spec fn spec_auth_index(
    entries: Seq<(ManagerCode, ManagerAuthConfigKind)>,
    code: ManagerCode,
) -> int
    decreases entries.len(),
{
    if entries.len() == 0 {
        0
    } else if spec_code_eq(entries[0].0, code) {
        0
    } else {
        1 + spec_auth_index(entries.drop_first(), code)
    }
}

pub proof fn lemma_auth_index_range(
    entries: Seq<(ManagerCode, ManagerAuthConfigKind)>,
    code: ManagerCode,
)
    ensures
        0 <= spec_auth_index(entries, code) <= entries.len(),
        spec_auth_index(entries, code) < entries.len() ==> spec_code_eq(
            entries[spec_auth_index(entries, code)].0,
            code,
        ),
        forall|j: int|
            0 <= j < spec_auth_index(entries, code) ==> !spec_code_eq(
                (#[trigger] entries[j]).0,
                code,
            ),
    decreases entries.len(),
{
    if entries.len() != 0 && !spec_code_eq(entries[0].0, code) {
        lemma_auth_index_range(entries.drop_first(), code);
        assert(forall|j: int|
            1 <= j < spec_auth_index(entries, code) ==> (#[trigger] entries[j])
                == entries.drop_first()[j - 1]);
    }
}

impl Config {
    pub fn using(&self) -> (r: &ManagerCode)
        ensures
            r == &self.using,
    {
        &self.using
    }

    pub fn set_using(&mut self, manager_code: ManagerCode)
        ensures
            *final(self) == (Config { using: manager_code, ..*old(self) }),
    {
        self.using = manager_code;
    }

    pub fn automatic_compression(&self) -> (r: bool)
        ensures
            r == self.automatic_compression,
    {
        self.automatic_compression
    }

    /// The stored credential of one backend, when any.
    pub fn get_auth_config(&self, manage_code: &ManagerCode) -> (r: Option<
        &ManagerAuthConfigKind,
    >)
        ensures
            ({
                let i = spec_auth_index(self.auth_config@, *manage_code);
                if i < self.auth_config@.len() {
                    r matches Some(c) && c == &self.auth_config@[i].1
                } else {
                    r is None
                }
            }),
    {
        proof {
            lemma_auth_index_range(self.auth_config@, *manage_code);
        }
        let n = self.auth_config.len();
        let mut i: usize = 0;
        while i < n
            invariant
                i <= n,
                n == self.auth_config@.len(),
                forall|j: int|
                    0 <= j < i ==> !spec_code_eq((#[trigger] self.auth_config@[j]).0, *manage_code),
                spec_auth_index(self.auth_config@, *manage_code) < n ==> spec_code_eq(
                    self.auth_config@[spec_auth_index(self.auth_config@, *manage_code)].0,
                    *manage_code,
                ),
                0 <= spec_auth_index(self.auth_config@, *manage_code) <= n,
                forall|j: int|
                    0 <= j < spec_auth_index(self.auth_config@, *manage_code) ==> !spec_code_eq(
                        (#[trigger] self.auth_config@[j]).0,
                        *manage_code,
                    ),
            decreases n - i,
        {
            if self.auth_config[i].0 == *manage_code {
                proof {
                    let k = spec_auth_index(self.auth_config@, *manage_code);
                    if k < i {
                        assert(!spec_code_eq(self.auth_config@[k].0, *manage_code));
                    }
                    if k > i {
                        assert(!spec_code_eq(self.auth_config@[i as int].0, *manage_code));
                    }
                }
                return Some(&self.auth_config[i].1);
            }
            i += 1;
        }
        proof {
            let k = spec_auth_index(self.auth_config@, *manage_code);
            if k < n {
                assert(!spec_code_eq(self.auth_config@[k].0, *manage_code));
            }
        }
        None
    }

    /// Whether a backend already holds a credential.
    pub fn has_auth_config(&self, manager_code: &ManagerCode) -> (r: bool)
        ensures
            r == (spec_auth_index(self.auth_config@, *manager_code) < self.auth_config@.len()),
    {
        match self.get_auth_config(manager_code) {
            Some(_) => true,
            None => false,
        }
    }

    /// Registers a new backend and switches to it; a key already in
    /// use is refused with its display name.
    pub fn new_custom_manager(
        &mut self,
        manager_code: ManagerCode,
        auth_config: ManagerAuthConfigKind,
    ) -> (r: crate::error::Up2bResult<()>)
        ensures
            spec_auth_index(old(self).auth_config@, manager_code) < old(self).auth_config@.len()
                ==> (r matches Err(e) && (e matches crate::error::Up2bError::CustomUnique(n) && n@
                == crate::manager::spec_manager_name(manager_code)) && *final(self) == *old(self)),
            spec_auth_index(old(self).auth_config@, manager_code) >= old(self).auth_config@.len()
                ==> r is Ok && final(self).using == manager_code && final(self).auth_config@ == old(
                self,
            ).auth_config@.push((manager_code, auth_config)) && (spec_config_wf(*old(self))
                ==> spec_config_wf(*final(self))),
    {
        if self.has_auth_config(&manager_code) {
            return Err(crate::error::Up2bError::CustomUnique(manager_code.name()));
        }
        proof {
            lemma_auth_index_range(self.auth_config@, manager_code);
        }
        let key = manager_code.duplicate();
        self.insert_auth_config(key, auth_config);
        self.set_using(manager_code);
        Ok(())
    }

    /// Stores a backend's credential, replacing any held before; no
    /// backend ever holds two.
    pub fn insert_auth_config(&mut self, manage_code: ManagerCode, config: ManagerAuthConfigKind)
        ensures
            ({
                let i = spec_auth_index(old(self).auth_config@, manage_code);
                if i < old(self).auth_config@.len() {
                    final(self).auth_config@ == old(self).auth_config@.update(
                        i,
                        (manage_code, config),
                    )
                } else {
                    final(self).auth_config@ == old(self).auth_config@.push((manage_code, config))
                }
            }),
            final(self).using == old(self).using,
            final(self).automatic_compression == old(self).automatic_compression,
            final(self).use_proxy == old(self).use_proxy,
            final(self).proxy == old(self).proxy,
            spec_config_wf(*old(self)) ==> spec_config_wf(*final(self)),
    {
        proof {
            lemma_auth_index_range(self.auth_config@, manage_code);
        }
        let n = self.auth_config.len();
        let mut i: usize = 0;
        while i < n
            invariant
                i <= n,
                n == self.auth_config@.len(),
                self.auth_config@ == old(self).auth_config@,
                self.using == old(self).using,
                self.automatic_compression == old(self).automatic_compression,
                self.use_proxy == old(self).use_proxy,
                self.proxy == old(self).proxy,
                forall|j: int|
                    0 <= j < i ==> !spec_code_eq((#[trigger] self.auth_config@[j]).0, manage_code),
                spec_auth_index(self.auth_config@, manage_code) < n ==> spec_code_eq(
                    self.auth_config@[spec_auth_index(self.auth_config@, manage_code)].0,
                    manage_code,
                ),
                0 <= spec_auth_index(self.auth_config@, manage_code) <= n,
                forall|j: int|
                    0 <= j < spec_auth_index(self.auth_config@, manage_code) ==> !spec_code_eq(
                        (#[trigger] self.auth_config@[j]).0,
                        manage_code,
                    ),
            decreases n - i,
        {
            if self.auth_config[i].0 == manage_code {
                proof {
                    let k = spec_auth_index(self.auth_config@, manage_code);
                    if k < i {
                        assert(!spec_code_eq(self.auth_config@[k].0, manage_code));
                    }
                    if k > i {
                        assert(!spec_code_eq(self.auth_config@[i as int].0, manage_code));
                    }
                }
                self.auth_config.remove(i);
                self.auth_config.insert(i, (manage_code, config));
                proof {
                    assert(self.auth_config@ =~= old(self).auth_config@.update(
                        i as int,
                        (manage_code, config),
                    ));
                    if spec_config_wf(*old(self)) {
                        assert(spec_config_wf(*self));
                    }
                }
                return ;
            }
            i += 1;
        }
        proof {
            let k = spec_auth_index(self.auth_config@, manage_code);
            if k < n {
                assert(!spec_code_eq(self.auth_config@[k].0, manage_code));
            }
        }
        self.auth_config.push((manage_code, config));
        proof {
            if spec_config_wf(*old(self)) {
                assert forall|i2: int, j2: int|
                    0 <= i2 < j2 < self.auth_config@.len() implies !spec_code_eq(
                    (#[trigger] self.auth_config@[i2]).0,
                    (#[trigger] self.auth_config@[j2]).0,
                ) by {
                    if j2 == self.auth_config@.len() - 1 {
                        assert(!spec_code_eq(self.auth_config@[i2].0, manage_code));
                        assert(spec_code_eq(manage_code, manage_code));
                    }
                }
            }
        }
    }
}

/// The names of the custom backends among stored credentials, in
/// order.
pub open spec fn spec_custom_names(entries: Seq<(ManagerCode, ManagerAuthConfigKind)>) -> Seq<
    Seq<char>,
>
    decreases entries.len(),
{
    if entries.len() == 0 {
        Seq::empty()
    } else {
        match entries[0].0 {
            ManagerCode::Custom(s) => seq![s@] + spec_custom_names(entries.drop_first()),
            _ => spec_custom_names(entries.drop_first()),
        }
    }
}

fn custom_items_from(entries: &Vec<(ManagerCode, ManagerAuthConfigKind)>, i: usize) -> (r: Vec<
    crate::manager::ManagerItem,
>)
    requires
        i <= entries@.len(),
    ensures
        ({
            let names = spec_custom_names(entries@.skip(i as int));
            r@.len() == names.len() && forall|k: int|
                0 <= k < r@.len() ==> ((#[trigger] r@[k]).key matches ManagerCode::Custom(x) && x@
                    == names[k]) && r@[k].name@ == names[k] && r@[k].index is None && r@[k].kind
                    is API
        }),
    decreases entries@.len() - i,
{
    if i == entries.len() {
        proof {
            assert(entries@.skip(i as int).len() == 0);
        }
        return Vec::new();
    }
    proof {
        assert(entries@.skip(i as int)[0] == entries@[i as int]);
        assert(entries@.skip(i as int).drop_first() =~= entries@.skip(i as int + 1));
    }
    let rest = custom_items_from(entries, i + 1);
    match &entries[i].0 {
        ManagerCode::Custom(s) => {
            let item = ManagerCode::Custom(s.clone()).to_manager_item();
            let mut out = rest;
            out.insert(0, item);
            out
        },
        _ => rest,
    }
}

impl Config {
    /// The whole backend catalogue: the four built-in hosts, then
    /// every custom host a credential is stored for.
    pub fn manager_items(&self) -> (r: Vec<crate::manager::ManagerItem>)
        ensures
            ({
                let names = spec_custom_names(self.auth_config@);
                r@.len() == 4 + names.len() && r@[0].key is Smms && r@[1].key is Imgse && r@[2].key
                    is Imgtg && r@[3].key is Github && forall|k: int|
                    0 <= k < names.len() ==> ((#[trigger] r@[4 + k]).key
                        matches ManagerCode::Custom(x) && x@ == names[k]) && r@[4 + k].name@
                        == names[k] && r@[4 + k].kind is API
            }),
    {
        let mut out = crate::manager::builtin_managers();
        proof {
            assert(self.auth_config@.skip(0) =~= self.auth_config@);
        }
        let mut customs = custom_items_from(&self.auth_config, 0);
        out.append(&mut customs);
        out
    }
}

} // verus!
