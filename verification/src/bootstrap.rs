//! The bootstrap state machine.
//!
//! The process has exactly two macro-states: `Initializing` (build the
//! host, attach the profile's plugins, register the command, run the
//! setup hook) and `Running` (the host's event loop owns the thread),
//! with a single forward transition and no way back.  The host framework
//! performs the outside work — resolving the main window, emitting an
//! event to it, running the loop — and hands each outcome to a function
//! here, which decides what follows.  Every failure is fatal by policy:
//! nothing is retried and no error is reported through a structured
//! channel.

use crate::banner::banner_line;
use crate::banner::banner_matches;
use crate::profile::Plugin;
use crate::profile::Profile;
use crate::profile::plugins_of;
use crate::profile::profile_plugins;
use crate::profile::registers_command;
use vstd::prelude::*;

verus! {

/// The two macro-states of the process.
#[derive(Clone, Copy, PartialEq, Eq, Structural, Debug)]
pub enum Phase {
    /// Plugins are being attached and the setup hook has not finished.
    Initializing,
    /// The host's event loop owns the thread until shutdown.
    Running,
}

/// What the setup hook decides once the host reports whether the main
/// window resolved.
pub enum SetupAction {
    /// The main window could not be resolved: terminate the process
    /// before the event loop starts.  No banner accompanies this
    /// outcome; nothing is printed.
    Fatal,
    /// Setup succeeded: print the banner line, if one is owed, and enter
    /// the event loop.
    Proceed { banner: Option<String> },
}

/// An event pushed to a window through the host's messaging channel.
pub struct UiEvent {
    pub name: String,
    pub payload: String,
}

/// The one event the update command emits: name `"update-check"`,
/// payload `"checking"`.
pub open spec fn is_update_check_event(e: UiEvent) -> bool {
    e.name@ == "update-check"@ && e.payload@ == "checking"@
}

/// What the `check_for_updates` command decides once the host reports
/// whether the invoking window resolved.
pub enum CommandStep {
    /// Deliver exactly this one event to the window.
    Emit(UiEvent),
    /// The window could not be resolved: abort the process.  The caller
    /// never receives an error value.
    Abort,
}

/// How the command ends once the host reports whether the emit call
/// succeeded.
pub enum CommandEnd {
    /// The emit succeeded; the command returns to its caller.
    Returned,
    /// The emit failed: abort the process rather than report an error.
    Abort,
}

/// How the process exits once the host's run call returns.
pub enum HostExit {
    /// Normal shutdown: exit with success.
    Success,
    /// The host failed to start or to run: terminate abruptly with this
    /// diagnostic message.
    Fatal { diagnostic: String },
}

/// The application bootstrap: one per process, created once, driven
/// forward once.
pub struct Bootstrap {
    /// The build-time configuration this process was started with.
    pub profile: Profile,
    /// The current macro-state.
    pub phase: Phase,
    /// The plugins attached to the host, in attachment order.
    pub attached: Vec<Plugin>,
    /// Whether the `check_for_updates` command was registered.
    pub command_registered: bool,
    /// The banner line printed during setup, if any.
    pub banner: Option<String>,
}

impl Bootstrap {
    /// The bootstrap's invariant: the attached plugins and the command
    /// registration are exactly what the profile prescribes, and no
    /// banner exists before setup has run.
    pub open spec fn wf(self) -> bool {
        &&& self.attached@ == profile_plugins(self.profile)
        &&& self.command_registered == registers_command(self.profile)
        &&& (self.phase is Initializing ==> self.banner is None)
    }

    /// Builds the host for the given profile: attaches the profile's
    /// plugins in order and registers the update command exactly when
    /// the profile prescribes it.  The process starts in `Initializing`.
    pub fn new(profile: Profile) -> (b: Bootstrap)
        ensures
            b.wf(),
            b.profile == profile,
            b.phase is Initializing,
            b.attached@ == profile_plugins(profile),
            b.command_registered == registers_command(profile),
            b.banner is None,
    {
        let attached = plugins_of(profile);
        let command_registered = matches!(profile, Profile::ShellOnly);
        Bootstrap {
            profile,
            phase: Phase::Initializing,
            attached,
            command_registered,
            banner: None,
        }
    }

    /// The setup hook.  The host reports whether the main window
    /// resolved and hands over the build-time version string.
    ///
    /// An unresolvable window is fatal: the process terminates before
    /// ever reaching `Running`, and no banner is printed.  Otherwise the
    /// owed banner (present exactly when the version starts with `'v'`)
    /// is recorded and returned for printing, and the process enters
    /// `Running`.
    pub fn on_setup(&mut self, window_resolved: bool, version: &str) -> (r: SetupAction)
        requires
            old(self).wf(),
            old(self).phase is Initializing,
        ensures
            final(self).wf(),
            final(self).profile == old(self).profile,
            final(self).attached@ == old(self).attached@,
            final(self).command_registered == old(self).command_registered,
            !window_resolved ==> {
                &&& r is Fatal
                &&& final(self).phase is Initializing
                &&& final(self).banner is None
            },
            window_resolved ==> {
                &&& final(self).phase is Running
                &&& (r matches SetupAction::Proceed { banner } && banner_matches(
                    banner,
                    version@,
                ))
                &&& banner_matches(final(self).banner, version@)
            },
    {
        if window_resolved {
            let line = banner_line(version);
            let stored: Option<String> = match &line {
                Some(l) => Some(l.clone()),
                None => None,
            };
            self.banner = stored;
            self.phase = Phase::Running;
            SetupAction::Proceed { banner: line }
        } else {
            SetupAction::Fatal
        }
    }

    /// The `check_for_updates` command, invocable from the UI layer once
    /// the process is running and the command is registered.
    ///
    /// Against a resolvable window the command emits exactly one event,
    /// named `"update-check"` with payload `"checking"`, to that window.
    /// Against an unresolvable window the process aborts; no error value
    /// is ever returned to the caller.
    pub fn check_for_updates(&self, window_resolved: bool) -> (r: CommandStep)
        requires
            self.wf(),
            self.phase is Running,
            self.command_registered,
        ensures
            window_resolved ==> (r matches CommandStep::Emit(e) && is_update_check_event(e)),
            !window_resolved ==> r is Abort,
    {
        if window_resolved {
            let e = UiEvent {
                name: String::from_str("update-check"),
                payload: String::from_str("checking"),
            };
            CommandStep::Emit(e)
        } else {
            CommandStep::Abort
        }
    }

    /// How the command ends after the host reports the emit's outcome: a
    /// successful emit returns to the caller, a failed one aborts the
    /// process.
    pub fn on_emit_result(&self, emit_ok: bool) -> (r: CommandEnd)
        requires
            self.wf(),
            self.phase is Running,
        ensures
            emit_ok <==> r is Returned,
            !emit_ok <==> r is Abort,
    {
        if emit_ok {
            CommandEnd::Returned
        } else {
            CommandEnd::Abort
        }
    }

}

/// How the process exits once the host's run call returns: success on
/// normal shutdown, abrupt termination with a diagnostic when the host
/// failed to be constructed or to run.
pub fn host_exit(run_ok: bool) -> (r: HostExit)
    ensures
        run_ok <==> r is Success,
        !run_ok ==> (r matches HostExit::Fatal { diagnostic } && diagnostic@
            == "error while running SERVE"@),
{
    if run_ok {
        HostExit::Success
    } else {
        HostExit::Fatal { diagnostic: String::from_str("error while running SERVE") }
    }
}

} // verus!
