//! Bootstrap profiles and the plugin sets they attach.
//!
//! The application ships two mutually exclusive bootstrap configurations:
//! the full plugin set (shell, HTTP client, SQL access, key-value store,
//! auto-updater) and a shell-only variant.  A build selects exactly one
//! profile; the profile alone decides which plugins are attached before
//! the event loop starts and whether the update command is registered.

use vstd::prelude::*;

verus! {

/// A capability plugin attached to the host before the event loop starts.
#[derive(Clone, Copy, PartialEq, Eq, Structural, Debug)]
pub enum Plugin {
    Shell,
    Http,
    Sql,
    Store,
    Updater,
}

/// One of the two mutually exclusive bootstrap configurations.
#[derive(Clone, Copy, PartialEq, Eq, Structural, Debug)]
pub enum Profile {
    /// Attaches shell, HTTP, SQL, key-value store and auto-updater.
    Full,
    /// Attaches the shell plugin alone, and registers the update command.
    ShellOnly,
}

/// The plugins a profile attaches, in attachment order.
pub open spec fn profile_plugins(p: Profile) -> Seq<Plugin> {
    match p {
        Profile::Full => seq![
            Plugin::Shell,
            Plugin::Http,
            Plugin::Sql,
            Plugin::Store,
            Plugin::Updater,
        ],
        Profile::ShellOnly => seq![Plugin::Shell],
    }
}

/// Whether a profile attaches a given plugin.
pub open spec fn attaches(p: Profile, plugin: Plugin) -> bool {
    profile_plugins(p).contains(plugin)
}

/// Whether a profile registers the `check_for_updates` command: only the
/// shell-only variant does.
pub open spec fn registers_command(p: Profile) -> bool {
    p is ShellOnly
}

/// The plugin list a profile attaches, in attachment order.
pub fn plugins_of(p: Profile) -> (v: Vec<Plugin>)
    ensures
        v@ == profile_plugins(p),
{
    match p {
        Profile::Full => {
            let v: Vec<Plugin> = vec![
                Plugin::Shell,
                Plugin::Http,
                Plugin::Sql,
                Plugin::Store,
                Plugin::Updater,
            ];
            proof {
                assert(v@ =~= profile_plugins(p));
            }
            v
        },
        Profile::ShellOnly => {
            let v: Vec<Plugin> = vec![Plugin::Shell];
            proof {
                assert(v@ =~= profile_plugins(p));
            }
            v
        },
    }
}

/// Whether this build's profile attaches the given plugin; a capability
/// call can succeed only when its plugin is attached.
pub fn attaches_plugin(p: Profile, plugin: Plugin) -> (r: bool)
    ensures
        r == attaches(p, plugin),
{
    match p {
        Profile::Full => {
            proof {
                assert(attaches(p, plugin)) by {
                    let s = profile_plugins(Profile::Full);
                    match plugin {
                        Plugin::Shell => assert(s[0] == plugin),
                        Plugin::Http => assert(s[1] == plugin),
                        Plugin::Sql => assert(s[2] == plugin),
                        Plugin::Store => assert(s[3] == plugin),
                        Plugin::Updater => assert(s[4] == plugin),
                    }
                }
            }
            true
        },
        Profile::ShellOnly => {
            let r = matches!(plugin, Plugin::Shell);
            proof {
                if plugin is Shell {
                    assert(profile_plugins(Profile::ShellOnly)[0] == plugin);
                } else {
                    assert forall|i: int|
                        0 <= i < profile_plugins(Profile::ShellOnly).len() implies profile_plugins(
                        Profile::ShellOnly,
                    )[i] != plugin by {}
                }
            }
            r
        },
    }
}

/// The two profiles are mutually exclusive configurations, not stages of
/// one bootstrap: they attach different plugin sets, every plugin of the
/// shell-only set also belongs to the full set, and SQL access is
/// available under the full profile alone.
pub proof fn lemma_profiles_mutually_exclusive()
    ensures
        profile_plugins(Profile::Full) != profile_plugins(Profile::ShellOnly),
        attaches(Profile::Full, Plugin::Sql),
        !attaches(Profile::ShellOnly, Plugin::Sql),
        forall|plugin: Plugin|
            attaches(Profile::ShellOnly, plugin) ==> attaches(Profile::Full, plugin),
{
    let full = profile_plugins(Profile::Full);
    let shell = profile_plugins(Profile::ShellOnly);
    assert(full.len() != shell.len());
    assert(full[2] == Plugin::Sql);
    assert(forall|i: int| 0 <= i < shell.len() ==> shell[i] == Plugin::Shell);
    assert forall|plugin: Plugin|
        attaches(Profile::ShellOnly, plugin) implies attaches(Profile::Full, plugin) by {
        assert(plugin == Plugin::Shell);
        assert(full[0] == plugin);
    }
}

} // verus!
