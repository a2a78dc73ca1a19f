//! The plugin registry and the dispatch decision for a request: which
//! plugin answers, whether an admin-only plugin stays hidden, and which data
//! directory the plugin is handed.

use crate::text::push_str;
use vstd::prelude::*;

verus! {

/// What a plugin says of itself.
#[derive(Debug, Clone, PartialEq, Eq)]
pub struct PluginInfo {
    pub name: String,
    pub source: String,
    pub version: String,
    pub description: String,
    pub admin_only: bool,
}

/// The caller of a plugin request, once authenticated.
#[derive(Debug, Clone, PartialEq, Eq)]
pub struct User {
    pub name: String,
    pub is_admin: bool,
}

/// The web interface a plugin contributes.
#[derive(Debug, Clone, PartialEq, Eq)]
pub struct WebUI {
    pub html: String,
    pub js: String,
    pub css: String,
}

/// What to do with a request addressed to a plugin.
#[derive(Debug, Clone, PartialEq, Eq)]
pub enum Dispatch {
    /// Answer 404, exactly as for a plugin that does not exist.
    NotFound,
    /// Hand the request to the plugin at `index` in the registry, with its
    /// data directory.
    Invoke { index: usize, data_path: String },
}

/// `a` and `b` joined by one `/`, as a path push does for a relative `b`.
pub open spec fn join(a: Seq<char>, b: Seq<char>) -> Seq<char> {
    if a.len() == 0 {
        b
    } else if a.last() == '/' {
        a + b
    } else {
        a + seq!['/'] + b
    }
}

/// `<root>/users/<user>/<plugin>` for a known caller, `<root>/unauth/<plugin>`
/// for an anonymous one.
pub open spec fn plugin_data_path(root: Seq<char>, user: Option<Seq<char>>, plugin: Seq<char>) -> Seq<char> {
    match user {
        Some(u) => join(join(join(root, "users"@), u), plugin),
        None => join(join(root, "unauth"@), plugin),
    }
}

/// Under a root that does not end in `/`, a known caller's data path is
/// `<root>/users/<user>/<plugin>` and an anonymous caller's
/// `<root>/unauth/<plugin>`, for any username that is not empty and does not
/// end in `/`.
pub proof fn lemma_isolated_path(root: Seq<char>, user: Seq<char>, plugin: Seq<char>)
    requires
        root.len() > 0,
        root.last() != '/',
        user.len() > 0,
        user.last() != '/',
    ensures
        plugin_data_path(root, Some(user), plugin) == root + "/users/"@ + user + "/"@ + plugin,
        plugin_data_path(root, None, plugin) == root + "/unauth/"@ + plugin,
{
    reveal_strlit("users");
    reveal_strlit("unauth");
    reveal_strlit("/users/");
    reveal_strlit("/unauth/");
    reveal_strlit("/");
    let a = join(root, "users"@);
    assert(a == root + seq!['/'] + "users"@);
    assert(a.last() == 's');
    let b = join(a, user);
    assert(b == a + seq!['/'] + user);
    assert(b.last() == user.last());
    assert(join(b, plugin) =~= root + "/users/"@ + user + "/"@ + plugin);
    let c = join(root, "unauth"@);
    assert(c.last() == 'h');
    assert(join(c, plugin) =~= root + "/unauth/"@ + plugin);
}

/// The caller's name, if any.
pub open spec fn caller_name(user: Option<User>) -> Option<Seq<char>> {
    match user {
        Some(u) => Some(u.name@),
        None => None,
    }
}

/// The caller is an authenticated administrator.
pub open spec fn caller_is_admin(user: Option<User>) -> bool {
    match user {
        Some(u) => u.is_admin,
        None => false,
    }
}

/// Appends `/` and `b`, unless `s` is empty or already ends with `/`.
pub(crate) fn push_component(s: &mut String, b: &str)
    ensures
        final(s)@ == join(old(s)@, b@),
{
    let n = s.as_str().unicode_len();
    if n > 0 && s.as_str().get_char(n - 1) != '/' {
        proof {
            reveal_strlit("/");
            assert("/"@ == seq!['/']);
        }
        push_str(s, "/");
    }
    push_str(s, b);
}

/// The data directory handed to `plugin` for `user`.
pub fn plugin_path(data_root: &str, user: &Option<User>, plugin: &str) -> (r: String)
    ensures
        r@ == plugin_data_path(data_root@, caller_name(*user), plugin@),
{
    let mut path = data_root.to_string();
    match user {
        Some(u) => {
            push_component(&mut path, "users");
            push_component(&mut path, u.name.as_str());
            push_component(&mut path, plugin);
        },
        None => {
            push_component(&mut path, "unauth");
            push_component(&mut path, plugin);
        },
    }
    path
}

/// No two plugins share a name.
pub open spec fn names_unique(infos: Seq<PluginInfo>) -> bool {
    forall|i: int, j: int|
        0 <= i < infos.len() && 0 <= j < infos.len() && (#[trigger] infos[i]).name@ == (
        #[trigger] infos[j]).name@ ==> i == j
}

/// Some plugin is called `name`.
pub open spec fn has_plugin(infos: Seq<PluginInfo>, name: Seq<char>) -> bool {
    exists|i: int| 0 <= i < infos.len() && (#[trigger] infos[i]).name@ == name
}

/// The registry: the plugins' descriptions in registration order. The
/// plugin at an index is the one that answers for that description.
pub struct Plugins {
    infos: Vec<PluginInfo>,
}

impl Plugins {
    /// The plugins' descriptions, in registration order.
    pub closed spec fn infos(&self) -> Seq<PluginInfo> {
        self.infos@
    }

    /// Plugin names are unique.
    pub closed spec fn wf(&self) -> bool {
        names_unique(self.infos@)
    }

    /// A registry of the given plugins, or none where two share a name.
    pub fn new(infos: Vec<PluginInfo>) -> (r: Option<Plugins>)
        ensures
            r is Some <==> names_unique(infos@),
            r matches Some(p) ==> p.wf() && p.infos() == infos@,
    {
        let n = infos.len();
        let mut i: usize = 0;
        while i < n
            invariant
                n == infos@.len(),
                i <= n,
                forall|a: int, b: int|
                    0 <= a < i && 0 <= b < n && a != b ==> (#[trigger] infos@[a]).name@ != (
                    #[trigger] infos@[b]).name@,
            decreases n - i,
        {
            let mut j: usize = 0;
            while j < n
                invariant
                    n == infos@.len(),
                    i < n,
                    j <= n,
                    forall|a: int, b: int|
                        0 <= a < i && 0 <= b < n && a != b ==> (#[trigger] infos@[a]).name@ != (
                        #[trigger] infos@[b]).name@,
                    forall|b: int| 0 <= b < j && b != i ==> infos@[i as int].name@ != (#[trigger] infos@[b]).name@,
                decreases n - j,
            {
                if j != i && infos[i].name == infos[j].name {
                    return None;
                }
                j += 1;
            }
            i += 1;
        }
        Some(Plugins { infos })
    }

    /// The plugins' descriptions, in registration order.
    pub fn list(&self) -> (r: &Vec<PluginInfo>)
        ensures
            r@ == self.infos(),
    {
        &self.infos
    }

    /// Index of the plugin called `name`, if any.
    fn find(&self, name: &String) -> (r: Option<usize>)
        requires
            self.wf(),
        ensures
            match r {
                Some(i) => i < self.infos@.len() && self.infos@[i as int].name@ == name@,
                None => !has_plugin(self.infos@, name@),
            },
    {
        let mut i: usize = 0;
        while i < self.infos.len()
            invariant
                i <= self.infos@.len(),
                forall|k: int| 0 <= k < i ==> (#[trigger] self.infos@[k]).name@ != name@,
            decreases self.infos@.len() - i,
        {
            if self.infos[i].name == *name {
                return Some(i);
            }
            i += 1;
        }
        None
    }

    /// Decides what happens to a request for plugin `name` from `user`: an
    /// unknown plugin, and an admin-only plugin asked for by anyone but an
    /// administrator, are both `NotFound`; otherwise the plugin is invoked
    /// with its data directory under `data_root`.
    pub fn dispatch(&self, name: &String, user: &Option<User>, data_root: &str) -> (r: Dispatch)
        requires
            self.wf(),
        ensures
            !has_plugin(self.infos(), name@) ==> r is NotFound,
            has_plugin(self.infos(), name@) && self.infos()[plugin_index(self.infos(), name@)].admin_only
                && !caller_is_admin(*user) ==> r is NotFound,
            r matches Dispatch::Invoke { index, data_path } ==> {
                &&& index < self.infos().len()
                &&& self.infos()[index as int].name@ == name@
                &&& index == plugin_index(self.infos(), name@)
                &&& !self.infos()[index as int].admin_only || caller_is_admin(*user)
                &&& data_path@ == plugin_data_path(data_root@, caller_name(*user), name@)
            },
            has_plugin(self.infos(), name@) && (!self.infos()[plugin_index(self.infos(), name@)].admin_only
                || caller_is_admin(*user)) ==> r is Invoke,
    {
        match self.find(name) {
            None => Dispatch::NotFound,
            Some(i) => {
                proof {
                    lemma_plugin_index(self.infos@, i as int);
                }
                let admin = match user {
                    Some(u) => u.is_admin,
                    None => false,
                };
                if self.infos[i].admin_only && !admin {
                    Dispatch::NotFound
                } else {
                    Dispatch::Invoke { index: i, data_path: plugin_path(data_root, user, name.as_str()) }
                }
            },
        }
    }
}

/// The index of the plugin called `name` (meaningful where `has_plugin`).
pub open spec fn plugin_index(infos: Seq<PluginInfo>, name: Seq<char>) -> int {
    choose|i: int| 0 <= i < infos.len() && (#[trigger] infos[i]).name@ == name
}

proof fn lemma_plugin_index(infos: Seq<PluginInfo>, i: int)
    requires
        names_unique(infos),
        0 <= i < infos.len(),
    ensures
        has_plugin(infos, infos[i].name@),
        plugin_index(infos, infos[i].name@) == i,
{
    let n = infos[i].name@;
    assert(has_plugin(infos, n));
    let j = plugin_index(infos, n);
    assert(infos[j].name@ == n);
}

/// The bundled archive plugin, open to every user.
#[derive(Debug)]
pub struct ArchivePlugin {}

impl ArchivePlugin {
    pub fn new() -> (r: ArchivePlugin) {
        ArchivePlugin {}
    }

    /// Its description in the registry.
    pub fn info(&self) -> (r: PluginInfo)
        ensures
            r.name@ == "archive"@,
            !r.admin_only,
    {
        PluginInfo {
            name: "archive".to_string(),
            source: "https://github.com/personal-tiny-cloud".to_string(),
            version: "0.1.0".to_string(),
            description: "Archive of the user's files".to_string(),
            admin_only: false,
        }
    }
}

} // verus!
