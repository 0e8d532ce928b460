//! The capture engine: lifecycle of the native hook and the per-event
//! pipeline the native callback runs.
//!
//! Installing, uninstalling and running the OS hook are opaque platform
//! primitives; they sit behind the [`NativeHook`] trait, injected by the
//! caller.  `Core` owns the decisions around them: when to install, when a
//! second start must not install again, what to tear down on stop, and what
//! the native callback does with each raw event.  After a successful first
//! [`Core::start`] the caller runs the platform's blocking event loop on a
//! dedicated thread; [`Core::stop`] is the one cancellation path and may be
//! called from any thread, without a prior start.

use vstd::prelude::*;

use crate::dispatcher::EventCallback;
use crate::event::{Event, RawEvent};
use crate::grab::{spec_should_block, Grab};
use crate::listen::{spec_next_last_flags, spec_normalize, Listen};
use crate::mask::{category_bit, MASK_MOUSE_MOVE};

verus! {

/// Why capturing OS events could not start.  Only hook installation can fail
/// fatally; each variant names the failing stage and platform.
#[derive(Debug, Clone, PartialEq, Eq)]
#[non_exhaustive]
pub enum CoreError {
    /// macOS: failed to create an event tap.
    MacEventTapError,
    /// macOS: failed to add the event tap to the run loop.
    MacLoopSourceError,
    /// Linux: could not open the X11 display.
    LinuxMissingDisplayError,
    /// Linux: keyboard-related error in the X11 or Wayland backend.
    LinuxKeyboardError,
    /// Linux: failed to enable the XRecord context.
    LinuxRecordContextEnablingError,
    /// Linux: general XRecord context error.
    LinuxRecordContextError,
    /// Linux: the XRecord extension is missing or incompatible.
    LinuxXRecordExtensionError,
    /// Windows: failed to set the low-level keyboard hook.
    WindowsKeyHookError(String),
    /// Windows: failed to set the low-level mouse hook.
    WindowsMouseHookError(String),
    /// Windows: failed to register for raw-input devices.
    WindowsRegisterRawInputError(String),
}

/// The two native hooks the capture engine manages.
#[derive(Debug, Copy, Clone, PartialEq, Eq, Structural)]
pub enum HookKind {
    /// The low-level mouse hook.
    Mouse,
    /// The low-level keyboard hook.
    Keyboard,
}

/// The opaque native hook primitives, supplied by the platform layer.
/// Installation may fail with a platform message; nothing further is assumed
/// about either call.
pub trait NativeHook {
    /// Registers the native hook of the given kind with the OS.
    fn install(&mut self, kind: HookKind) -> Result<(), String>;

    /// Removes a previously registered native hook.
    fn uninstall(&mut self, kind: HookKind);
}

/// What the native callback must do with the raw event it reported.
#[derive(Debug, Copy, Clone, PartialEq, Eq, Structural)]
pub enum HookAction {
    /// Pass the event on to the next consumer.
    Forward,
    /// Consume the event so it reaches no other application; when `warp` is
    /// set the caller must re-assert the cursor's pre-event position once,
    /// to counteract platforms that begin applying a blocked movement.
    Block { warp: bool },
}

/// The capture engine: the running flag and which native hooks are
/// currently installed.
pub struct Core {
    /// Whether captured events are currently processed.
    pub running: bool,
    /// Whether the native mouse hook is installed.
    pub mouse_hook: bool,
    /// Whether the native keyboard hook is installed.
    pub keyboard_hook: bool,
}

/// Whether the hook of the given kind is installed.
pub open spec fn spec_hook_installed(core: Core, kind: HookKind) -> bool {
    match kind {
        HookKind::Mouse => core.mouse_hook,
        HookKind::Keyboard => core.keyboard_hook,
    }
}

/// The decision the native callback acts on: nothing is blocked while the
/// capture engine is paused; otherwise an event is consumed exactly when the
/// interceptor blocks it, and a blocked pointer motion additionally warps
/// the cursor back.
pub open spec fn spec_hook_action(core: Core, grab: Grab, raw: RawEvent) -> HookAction {
    if !core.running {
        HookAction::Forward
    } else if spec_should_block(grab, raw) {
        HookAction::Block { warp: category_bit(raw) == MASK_MOUSE_MOVE }
    } else {
        HookAction::Forward
    }
}

/// The event the listener observes for a raw event: none while the capture
/// engine is paused — pausing capture gates the listener and the interceptor
/// alike — and the normalization outcome otherwise.
pub open spec fn spec_observed_event(
    core: Core,
    listen_running: bool,
    listen_flags: u32,
    listen_last_flags: u64,
    raw: RawEvent,
) -> Option<Event> {
    if core.running {
        spec_normalize(listen_running, listen_flags, listen_last_flags, raw)
    } else {
        None
    }
}

/// One step of the native callback, as a pair: what the listener observes
/// and what the callback does with the native event.
pub open spec fn spec_pipeline_step(
    core: Core,
    listen_running: bool,
    listen_flags: u32,
    listen_last_flags: u64,
    grab: Grab,
    raw: RawEvent,
) -> (Option<Event>, HookAction) {
    (
        spec_observed_event(core, listen_running, listen_flags, listen_last_flags, raw),
        spec_hook_action(core, grab, raw),
    )
}

/// Law: listener and interceptor independence.  What the listener observes
/// for a raw event is the same under any two interceptor states, and the
/// blocking decision is the same under any two listener states: blocking a
/// category in the interceptor cannot keep the listener from normalizing and
/// dispatching events of that category, and pausing the listener cannot
/// change what is blocked.
pub proof fn lemma_listener_interceptor_independence(
    core: Core,
    listen_running: bool,
    listen_flags: u32,
    listen_last_flags: u64,
    other_running: bool,
    other_flags: u32,
    other_last_flags: u64,
    grab: Grab,
    other_grab: Grab,
    raw: RawEvent,
)
    ensures
        spec_pipeline_step(core, listen_running, listen_flags, listen_last_flags, grab, raw).0
            == spec_pipeline_step(
            core,
            listen_running,
            listen_flags,
            listen_last_flags,
            other_grab,
            raw,
        ).0,
        spec_pipeline_step(core, listen_running, listen_flags, listen_last_flags, grab, raw).1
            == spec_pipeline_step(core, other_running, other_flags, other_last_flags, grab, raw).1,
{
}

impl Core {
    /// A stopped capture engine with no hook installed.
    pub fn new() -> (r: Self)
        ensures
            !r.running,
            !r.mouse_hook,
            !r.keyboard_hook,
    {
        Core { running: false, mouse_hook: false, keyboard_hook: false }
    }

    /// Marks the engine running; returns whether it already was.
    fn is_run(&mut self) -> (r: bool)
        ensures
            r == old(self).running,
            final(self).running,
            final(self).mouse_hook == old(self).mouse_hook,
            final(self).keyboard_hook == old(self).keyboard_hook,
    {
        if self.running {
            true
        } else {
            self.running = true;
            false
        }
    }

    /// Ensures the native hook of the given kind is installed: an already
    /// installed hook is kept as it is, never registered twice; otherwise one
    /// installation is attempted and a failure message is mapped to the typed
    /// error of that kind.
    pub fn handle_hook<H: NativeHook>(&mut self, hook: &mut H, kind: HookKind) -> (r: Result<
        (),
        CoreError,
    >)
        ensures
            final(self).running == old(self).running,
            kind is Mouse ==> final(self).keyboard_hook == old(self).keyboard_hook,
            kind is Keyboard ==> final(self).mouse_hook == old(self).mouse_hook,
            spec_hook_installed(*old(self), kind) ==> r is Ok && *final(self) == *old(self)
                && *final(hook) == *old(hook),
            r is Ok ==> spec_hook_installed(*final(self), kind),
            r is Err ==> *final(self) == *old(self),
            r matches Err(e) ==> (kind is Mouse ==> e is WindowsMouseHookError) && (
            kind is Keyboard ==> e is WindowsKeyHookError),
    {
        let installed = match kind {
            HookKind::Mouse => self.mouse_hook,
            HookKind::Keyboard => self.keyboard_hook,
        };
        if installed {
            return Ok(());
        }
        match hook.install(kind) {
            Ok(()) => {
                match kind {
                    HookKind::Mouse => {
                        self.mouse_hook = true;
                    },
                    HookKind::Keyboard => {
                        self.keyboard_hook = true;
                    },
                }
                Ok(())
            },
            Err(msg) => Err(
                match kind {
                    HookKind::Mouse => CoreError::WindowsMouseHookError(msg),
                    HookKind::Keyboard => CoreError::WindowsKeyHookError(msg),
                },
            ),
        }
    }

    /// Starts the capture engine.  A start while already running is a no-op
    /// success: nothing is installed again.  A first start installs the
    /// mouse and keyboard hooks; if either installation fails, the typed
    /// error is returned and the engine is left stopped.  On success the
    /// caller must run the platform's blocking event loop on a dedicated
    /// thread; `stop` terminates it.
    pub fn start<H: NativeHook>(&mut self, hook: &mut H) -> (r: Result<(), CoreError>)
        ensures
            old(self).running ==> r is Ok && *final(self) == *old(self)
                && *final(hook) == *old(hook),
            r is Ok <==> final(self).running,
            !old(self).running && r is Ok ==> final(self).mouse_hook
                && final(self).keyboard_hook,
            r matches Err(e) ==> e is WindowsMouseHookError || e is WindowsKeyHookError,
    {
        if self.is_run() {
            return Ok(());
        }
        match self.handle_hook(hook, HookKind::Mouse) {
            Err(e) => {
                self.running = false;
                return Err(e);
            },
            Ok(()) => {},
        }
        match self.handle_hook(hook, HookKind::Keyboard) {
            Err(e) => {
                self.running = false;
                return Err(e);
            },
            Ok(()) => {},
        }
        Ok(())
    }

    /// Whether the capture engine is currently running.
    pub fn is_runing(&self) -> (r: bool)
        ensures
            r == self.running,
    {
        self.running
    }

    /// Pauses capture processing without touching the installed hooks: raw
    /// events are still delivered by the OS but dropped before the listener
    /// and the interceptor see them.
    pub fn pause(&mut self)
        ensures
            !final(self).running,
            final(self).mouse_hook == old(self).mouse_hook,
            final(self).keyboard_hook == old(self).keyboard_hook,
    {
        self.running = false;
    }

    /// Resumes capture processing with the hooks as they are.
    pub fn resume(&mut self)
        ensures
            final(self).running,
            final(self).mouse_hook == old(self).mouse_hook,
            final(self).keyboard_hook == old(self).keyboard_hook,
    {
        self.running = true;
    }

    /// Stops the capture engine: pauses it, stops the listener (clearing its
    /// mask and every subscription) and the interceptor, and uninstalls
    /// whichever hooks are installed, which terminates the native loop.
    /// Safe and idempotent without a prior start: the final state is fully
    /// stopped whatever held before.
    pub fn stop<H: NativeHook, C>(
        &mut self,
        listen: &mut Listen<C>,
        grab: &mut Grab,
        hook: &mut H,
    )
        ensures
            !final(self).running,
            !final(self).mouse_hook,
            !final(self).keyboard_hook,
            final(listen).wf(),
            !final(listen).running,
            final(listen).flags == 0,
            final(listen).registry.subs@.len() == 0,
            final(listen).registry.next_id == 0,
            final(listen).last_flags == old(listen).last_flags,
            !final(grab).running,
            final(grab).flags == 0,
    {
        self.pause();
        listen.stop();
        grab.stop();
        if self.mouse_hook {
            hook.uninstall(HookKind::Mouse);
            self.mouse_hook = false;
        }
        if self.keyboard_hook {
            hook.uninstall(HookKind::Keyboard);
            self.keyboard_hook = false;
        }
    }
}

/// One step of the native hook callback: while the capture engine runs, the
/// raw event is offered to the listener (which normalizes and dispatches it)
/// and the interceptor decides whether it is blocked; while the capture
/// engine is paused nothing sees the event and it is forwarded.  Returns the
/// action the native callback must take.
pub fn process_event<C: EventCallback>(
    core: &Core,
    listen: &mut Listen<C>,
    grab: &Grab,
    raw: RawEvent,
) -> (r: HookAction)
    ensures
        r == spec_hook_action(*core, *grab, raw),
        core.running ==> final(listen).last_flags == spec_next_last_flags(
            old(listen).running,
            old(listen).flags,
            old(listen).last_flags,
            raw,
        ),
        !core.running ==> *final(listen) == *old(listen),
        final(listen).running == old(listen).running,
        final(listen).flags == old(listen).flags,
        final(listen).registry == old(listen).registry,
{
    if !core.running {
        return HookAction::Forward;
    }
    let _ = listen.handle(raw);
    if grab.should_block(&raw) {
        let warp = matches!(raw, RawEvent::MouseMove { .. });
        HookAction::Block { warp }
    } else {
        HookAction::Forward
    }
}

} // verus!
