//! The run/pause/exit signals and the rules by which key events change
//! them.
//!
//! A listener hands every key event to `handle_key_event` together with the
//! signals and the bindings as they are at that moment. The function changes
//! the signals and says what the listener has to do next; it performs no
//! effect itself.

use vstd::prelude::*;
use crate::keys::Key;
use crate::settings::Settings;

verus! {

/// The flags that the engine and the program's lifecycle observe.
#[derive(Clone, Copy, Debug, PartialEq, Eq, Structural)]
pub struct ControlSignals {
    /// The program should keep operating.
    pub running: bool,
    /// Movement is suspended; key events are still handled.
    pub paused: bool,
    /// A Shift key is held down.
    pub shift_held: bool,
}

/// The two states of the engine.
#[derive(Clone, Copy, Debug, PartialEq, Eq, Structural)]
pub enum EngineState {
    /// The engine emits motion.
    Active,
    /// The engine sleeps and polls the pause signal.
    Suspended,
}

/// A key event as a global listener delivers it.
#[derive(Clone, Copy, Debug, PartialEq, Eq, Structural)]
pub enum KeyEvent {
    /// The key went down.
    Press(Key),
    /// The key went up.
    Release(Key),
}

/// How the pause and resume bindings act on the pause signal.
#[derive(Clone, Copy, Debug, PartialEq, Eq, Structural)]
pub enum PausePolicy {
    /// Either binding flips the signal. This is the policy of
    /// `handle_key_event`.
    Toggle,
    /// The pause binding sets the signal and the resume binding clears it,
    /// each on its own. Where both bindings name one key, both rules apply
    /// to a press of it, pause first, so the press resumes.
    SetClear,
}

/// What the listener has to do after an event has been handled.
#[derive(Clone, Copy, Debug, PartialEq, Eq, Structural)]
pub enum HotkeyAction {
    /// Nothing to do or to announce.
    Nothing,
    /// End the program at once.
    Exit,
    /// Announce that movement is paused.
    Paused,
    /// Announce that movement is resumed.
    Resumed,
}

impl ControlSignals {
    /// The signals at start-up: running, not paused, no Shift key held.
    pub open spec fn initial() -> ControlSignals {
        ControlSignals { running: true, paused: false, shift_held: false }
    }

    /// The state that the engine takes on its next poll.
    pub open spec fn spec_engine_state(&self) -> EngineState {
        if self.paused {
            EngineState::Suspended
        } else {
            EngineState::Active
        }
    }

    /// The signals at start-up.
    pub fn new() -> (signals: ControlSignals)
        ensures
            signals == ControlSignals::initial(),
    {
        ControlSignals { running: true, paused: false, shift_held: false }
    }

    /// The state that the engine takes on its next poll: it depends on the
    /// pause signal alone.
    #[verifier::when_used_as_spec(spec_engine_state)]
    pub fn engine_state(&self) -> (state: EngineState)
        ensures
            state == self.spec_engine_state(),
    {
        if self.paused {
            EngineState::Suspended
        } else {
            EngineState::Active
        }
    }
}

/// Whether a press of `key` ends the program: the key is the exit binding,
/// a Shift key is held, and the key is not itself a Shift key.
pub open spec fn press_exits(signals: ControlSignals, settings: Settings, key: Key) -> bool {
    !key.spec_is_shift() && key == settings.exit_key && signals.shift_held
}

/// Whether a press of `key` acts on the pause signal: the key is the pause
/// or the resume binding, it is not a Shift key, and the press does not end
/// the program.
pub open spec fn press_acts_on_pause(signals: ControlSignals, settings: Settings, key: Key) -> bool {
    &&& !key.spec_is_shift()
    &&& !press_exits(signals, settings, key)
    &&& (key == settings.pause_key || key == settings.resume_key)
}

/// The pause signal after a press that acts on it.
pub open spec fn paused_after_press(
    policy: PausePolicy,
    settings: Settings,
    paused: bool,
    key: Key,
) -> bool {
    match policy {
        PausePolicy::Toggle => !paused,
        PausePolicy::SetClear => key != settings.resume_key,
    }
}

/// The signals after an event.
///
/// A Shift key sets the modifier on its press and clears it on its release.
/// Any other press ends the program if it is the exit binding under Shift,
/// and otherwise acts on the pause signal if it is a pause or resume
/// binding. Every other event leaves the signals as they are.
pub open spec fn next_signals(
    policy: PausePolicy,
    signals: ControlSignals,
    settings: Settings,
    event: KeyEvent,
) -> ControlSignals {
    match event {
        KeyEvent::Press(key) => {
            if key.spec_is_shift() {
                ControlSignals { shift_held: true, ..signals }
            } else if press_exits(signals, settings, key) {
                ControlSignals { running: false, ..signals }
            } else if press_acts_on_pause(signals, settings, key) {
                ControlSignals {
                    paused: paused_after_press(policy, settings, signals.paused, key),
                    ..signals
                }
            } else {
                signals
            }
        },
        KeyEvent::Release(key) => {
            if key.spec_is_shift() {
                ControlSignals { shift_held: false, ..signals }
            } else {
                signals
            }
        },
    }
}

/// What the listener has to do after an event: exit where the press ends
/// the program, announce the new pause signal where the press acts on it,
/// and nothing otherwise.
pub open spec fn action_for(
    policy: PausePolicy,
    signals: ControlSignals,
    settings: Settings,
    event: KeyEvent,
) -> HotkeyAction {
    match event {
        KeyEvent::Press(key) => {
            if press_exits(signals, settings, key) {
                HotkeyAction::Exit
            } else if press_acts_on_pause(signals, settings, key) {
                if paused_after_press(policy, settings, signals.paused, key) {
                    HotkeyAction::Paused
                } else {
                    HotkeyAction::Resumed
                }
            } else {
                HotkeyAction::Nothing
            }
        },
        KeyEvent::Release(_) => HotkeyAction::Nothing,
    }
}

/// Handles one key event under the given pause policy: updates the signals
/// and returns what the listener has to do.
pub fn handle_key_event_under(
    policy: PausePolicy,
    signals: &mut ControlSignals,
    settings: &Settings,
    event: KeyEvent,
) -> (action: HotkeyAction)
    ensures
        *final(signals) == next_signals(policy, *old(signals), *settings, event),
        action == action_for(policy, *old(signals), *settings, event),
{
    match event {
        KeyEvent::Press(key) => {
            if key.is_shift() {
                signals.shift_held = true;
                HotkeyAction::Nothing
            } else if key == settings.exit_key && signals.shift_held {
                signals.running = false;
                HotkeyAction::Exit
            } else if key == settings.pause_key || key == settings.resume_key {
                let paused = match policy {
                    PausePolicy::Toggle => !signals.paused,
                    PausePolicy::SetClear => key != settings.resume_key,
                };
                signals.paused = paused;
                if paused {
                    HotkeyAction::Paused
                } else {
                    HotkeyAction::Resumed
                }
            } else {
                HotkeyAction::Nothing
            }
        },
        KeyEvent::Release(key) => {
            if key.is_shift() {
                signals.shift_held = false;
            }
            HotkeyAction::Nothing
        },
    }
}

/// Handles one key event under the toggle policy: updates the signals and
/// returns what the listener has to do.
pub fn handle_key_event(signals: &mut ControlSignals, settings: &Settings, event: KeyEvent) -> (action:
    HotkeyAction)
    ensures
        *final(signals) == next_signals(PausePolicy::Toggle, *old(signals), *settings, event),
        action == action_for(PausePolicy::Toggle, *old(signals), *settings, event),
{
    handle_key_event_under(PausePolicy::Toggle, signals, settings, event)
}

/// Under the toggle policy, a press of the pause or the resume binding
/// followed by its release flips the pause signal, and with it the engine's
/// state, exactly once: the press flips it and the release changes nothing.
/// This holds of every binding that is not a Shift key, unless the key is
/// also the exit binding and Shift is held.
pub proof fn lemma_press_and_release_toggle_once(
    signals: ControlSignals,
    settings: Settings,
    key: Key,
)
    requires
        key == settings.pause_key || key == settings.resume_key,
        !key.spec_is_shift(),
        !(key == settings.exit_key && signals.shift_held),
    ensures
        ({
            let pressed = next_signals(PausePolicy::Toggle, signals, settings, KeyEvent::Press(key));
            let released = next_signals(
                PausePolicy::Toggle,
                pressed,
                settings,
                KeyEvent::Release(key),
            );
            &&& pressed.paused == !signals.paused
            &&& released == pressed
            &&& released.running == signals.running
            &&& released.shift_held == signals.shift_held
            &&& released.spec_engine_state() != signals.spec_engine_state()
        }),
{
}

/// While no Shift key is held, a press of the exit binding leaves the
/// running signal as it is and does not ask for an exit.
pub proof fn lemma_exit_key_without_shift(
    policy: PausePolicy,
    signals: ControlSignals,
    settings: Settings,
)
    requires
        !signals.shift_held,
    ensures
        next_signals(policy, signals, settings, KeyEvent::Press(settings.exit_key)).running
            == signals.running,
        action_for(policy, signals, settings, KeyEvent::Press(settings.exit_key))
            != HotkeyAction::Exit,
{
}

/// While a Shift key is held, a press of the exit binding clears the
/// running signal and asks for an exit, and it changes nothing else. This
/// holds of every exit binding that is not itself a Shift key.
pub proof fn lemma_exit_key_with_shift(
    policy: PausePolicy,
    signals: ControlSignals,
    settings: Settings,
)
    requires
        signals.shift_held,
        !settings.exit_key.spec_is_shift(),
    ensures
        next_signals(policy, signals, settings, KeyEvent::Press(settings.exit_key))
            == (ControlSignals { running: false, ..signals }),
        action_for(policy, signals, settings, KeyEvent::Press(settings.exit_key))
            == HotkeyAction::Exit,
{
}

/// No event sets the running signal, and an event clears it exactly when
/// it asks for an exit.
pub proof fn lemma_running_falls_only_on_exit(
    policy: PausePolicy,
    signals: ControlSignals,
    settings: Settings,
    event: KeyEvent,
)
    ensures
        next_signals(policy, signals, settings, event).running == (signals.running && action_for(
            policy,
            signals,
            settings,
            event,
        ) != HotkeyAction::Exit),
{
}

/// Releases of keys other than Shift, and presses of keys that are neither
/// Shift nor a binding, change no signal.
pub proof fn lemma_unbound_events_change_nothing(
    policy: PausePolicy,
    signals: ControlSignals,
    settings: Settings,
    key: Key,
)
    requires
        !key.spec_is_shift(),
    ensures
        next_signals(policy, signals, settings, KeyEvent::Release(key)) == signals,
        key != settings.exit_key && key != settings.pause_key && key != settings.resume_key
            ==> next_signals(policy, signals, settings, KeyEvent::Press(key)) == signals,
{
}

/// Under the set/clear policy a press of the pause binding alone pauses and
/// a press of the resume binding resumes, whatever the signal was before.
pub proof fn lemma_set_clear_is_idempotent(
    signals: ControlSignals,
    settings: Settings,
    key: Key,
)
    requires
        press_acts_on_pause(signals, settings, key),
    ensures
        next_signals(PausePolicy::SetClear, signals, settings, KeyEvent::Press(key)).paused == (key
            != settings.resume_key),
        next_signals(
            PausePolicy::SetClear,
            next_signals(PausePolicy::SetClear, signals, settings, KeyEvent::Press(key)),
            settings,
            KeyEvent::Press(key),
        ) == next_signals(PausePolicy::SetClear, signals, settings, KeyEvent::Press(key)),
{
}

} // verus!
