//! Layout of the on-disk data tree: one directory per user and plugin, and
//! one per plugin for anonymous callers.

use crate::plugins::{caller_name, join, plugin_data_path, plugin_path, push_component, Plugins, User};
use vstd::prelude::*;

verus! {

/// `<root>/users/<user>`, removed with everything in it when the account goes.
pub fn user_dir(data_root: &str, username: &str) -> (r: String)
    ensures
        r@ == join(join(data_root@, "users"@), username@),
{
    let mut s = data_root.to_string();
    push_component(&mut s, "users");
    push_component(&mut s, username);
    s
}

/// The directories to ensure for a caller (`user`, or anonymous): one per
/// registered plugin, in registration order.
pub fn plugin_dirs(data_root: &str, user: &Option<User>, plugins: &Plugins) -> (r: Vec<String>)
    ensures
        r@.len() == plugins.infos().len(),
        forall|i: int|
            0 <= i < r@.len() ==> (#[trigger] r@[i])@ == plugin_data_path(
                data_root@,
                caller_name(*user),
                plugins.infos()[i].name@,
            ),
{
    let infos = plugins.list();
    let mut out: Vec<String> = Vec::new();
    let mut i: usize = 0;
    while i < infos.len()
        invariant
            infos@ == plugins.infos(),
            i <= infos@.len(),
            out@.len() == i,
            forall|k: int|
                0 <= k < i ==> (#[trigger] out@[k])@ == plugin_data_path(
                    data_root@,
                    caller_name(*user),
                    infos@[k].name@,
                ),
        decreases infos@.len() - i,
    {
        out.push(plugin_path(data_root, user, infos[i].name.as_str()));
        i += 1;
    }
    out
}

} // verus!
