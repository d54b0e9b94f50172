//! The global hotkey engine: a set of currently pressed keys maintained
//! from key events, strict chord matching over it, the start/stop
//! decisions for the three session kinds (press, toggle, release-lock),
//! and the watchdog that recovers from lost key-up events.
//!
//! The engine is the decision half of the observer thread: the process
//! around it feeds key edges and watchdog ticks in and carries the
//! returned actions (invoke the start callback, invoke the stop
//! callback, spawn the watchdog) out. It never blocks and never probes
//! hardware itself; the watchdog tick receives the hardware probe's
//! verdict as an argument.

use vstd::prelude::*;
use vstd::seq_lib::seq_to_set_is_finite;

use crate::config::DualHotkeyConfig;
use crate::config::DualHotkeyError;
use crate::config::HotkeyConfig;
use crate::config::HotkeyMode;
use crate::config::TriggerMode;
use crate::config::contains_key;
use crate::config::key_set;
use crate::config::keys_subset_of;
use crate::keys::HotkeyKey;
use crate::keys::spec_is_modifier;

verus! {

/// Milliseconds between two watchdog checks.
pub const WATCHDOG_INTERVAL_MS: u64 = 100;

/// Milliseconds the chord must look released before the watchdog acts.
pub const KEY_RELEASE_STABLE_MS: u64 = 200;

/// Consecutive released-looking ticks before the watchdog acts.
pub const WATCHDOG_REQUIRED_TICKS: u64 = KEY_RELEASE_STABLE_MS / WATCHDOG_INTERVAL_MS;

// ===========================================================================
// Strict chord matching
// ===========================================================================

/// A chord strictly matches when every one of its keys is pressed and the
/// number of pressed tracked keys equals the chord's size, so that a
/// larger combination being held never fires a smaller chord inside it.
pub open spec fn spec_strict_match(pressed: Set<HotkeyKey>, chord: Seq<HotkeyKey>) -> bool {
    key_set(chord).subset_of(pressed) && pressed.len() == chord.len()
}

/// The set of keys of a duplicate-free sequence is finite and has the
/// sequence's length.
pub proof fn lemma_key_set_len(s: Seq<HotkeyKey>)
    requires
        s.no_duplicates(),
    ensures
        key_set(s).finite(),
        key_set(s).len() == s.len(),
{
    broadcast use seq_to_set_is_finite;

    assert(key_set(s) =~= s.to_set());
    s.unique_seq_to_set();
}

/// The set of keys of any sequence is finite.
pub proof fn lemma_key_set_finite(s: Seq<HotkeyKey>)
    ensures
        key_set(s).finite(),
{
    broadcast use seq_to_set_is_finite;

    assert(key_set(s) =~= s.to_set());
}

/// A subset of a finite set with the same cardinality is that set.
pub proof fn lemma_subset_same_len_equal(s1: Set<HotkeyKey>, s2: Set<HotkeyKey>)
    requires
        s1.subset_of(s2),
        s2.finite(),
        s1.len() == s2.len(),
    ensures
        s1 == s2,
{
    if s1 != s2 {
        assert(exists|x: HotkeyKey| s2.contains(x) && !s1.contains(x)) by {
            if forall|x: HotkeyKey| s2.contains(x) ==> #[trigger] s1.contains(x) {
                assert(s1 =~= s2);
            }
        }
        let x = choose|x: HotkeyKey| s2.contains(x) && !s1.contains(x);
        assert(s1.subset_of(s2.remove(x)));
        vstd::set_lib::lemma_len_subset(s1, s2.remove(x));
    }
}

/// With a well-formed dual binding, no pressed set strictly matches the
/// dictation chord and the assistant chord at the same time: the two
/// chords would then have the same size, and each, being contained in a
/// pressed set of its own size, would equal it.
pub proof fn lemma_no_double_match(d: DualHotkeyConfig, pressed: Set<HotkeyKey>)
    requires
        crate::config::spec_dual_wf(d),
        pressed.finite(),
    ensures
        !(spec_strict_match(pressed, d.dictation.keys@) && spec_strict_match(
            pressed,
            d.assistant.keys@,
        )),
{
    if spec_strict_match(pressed, d.dictation.keys@) && spec_strict_match(
        pressed,
        d.assistant.keys@,
    ) {
        lemma_key_set_len(d.dictation.keys@);
        lemma_key_set_len(d.assistant.keys@);
        lemma_key_set_finite(d.dictation.keys@);
        let dk = key_set(d.dictation.keys@);
        let ak = key_set(d.assistant.keys@);
        lemma_subset_same_len_equal(dk, pressed);
        lemma_subset_same_len_equal(ak, pressed);
        assert(dk.subset_of(ak));
    }
}

/// Whether the pressed keys strictly match the chord.
pub fn strict_chord_match(pressed: &Vec<HotkeyKey>, chord: &Vec<HotkeyKey>) -> (r: bool)
    requires
        pressed@.no_duplicates(),
    ensures
        r == spec_strict_match(key_set(pressed@), chord@),
{
    proof {
        lemma_key_set_len(pressed@);
    }
    let contains_all = keys_subset_of(chord, pressed);
    contains_all && pressed.len() == chord.len()
}

// ===========================================================================
// Pressed-set maintenance
// ===========================================================================

/// Records the key as pressed, once.
fn insert_pressed(v: &mut Vec<HotkeyKey>, k: HotkeyKey)
    requires
        old(v)@.no_duplicates(),
    ensures
        final(v)@.no_duplicates(),
        key_set(final(v)@) == key_set(old(v)@).insert(k),
{
    if !contains_key(v, k) {
        v.push(k);
        proof {
            assert forall|p: int, q: int| 0 <= p < q < v@.len() implies v@[p] != v@[q] by {
                if q < v@.len() - 1 {
                    assert(old(v)@[p] != old(v)@[q]);
                } else {
                    assert(old(v)@.contains(old(v)@[p]));
                }
            }
            assert(key_set(v@) =~= key_set(old(v)@).insert(k)) by {
                assert forall|x: HotkeyKey| key_set(v@).contains(x) implies key_set(
                    old(v)@,
                ).insert(k).contains(x) by {
                    let j = choose|j: int| 0 <= j < v@.len() && v@[j] == x;
                    if j < v@.len() - 1 {
                        assert(old(v)@.contains(x));
                    }
                }
                assert forall|x: HotkeyKey|
                    key_set(old(v)@).insert(k).contains(x) implies key_set(v@).contains(x) by {
                    if x == k {
                        assert(v@[v@.len() - 1] == k);
                    } else {
                        let j = choose|j: int| 0 <= j < old(v)@.len() && old(v)@[j] == x;
                        assert(v@[j] == x);
                    }
                }
            }
        }
    } else {
        proof {
            assert(key_set(v@) =~= key_set(old(v)@).insert(k));
        }
    }
}

/// Removes the key from the pressed set, if present.
fn remove_pressed(v: &mut Vec<HotkeyKey>, k: HotkeyKey)
    requires
        old(v)@.no_duplicates(),
    ensures
        final(v)@.no_duplicates(),
        key_set(final(v)@) == key_set(old(v)@).remove(k),
{
    let ghost orig = old(v)@;
    let mut i: usize = 0;
    while i < v.len()
        invariant
            0 <= i <= v@.len(),
            orig == old(v)@,
            v@ == orig,
            orig.no_duplicates(),
            forall|j: int| 0 <= j < i ==> orig[j] != k,
        decreases v@.len() - i,
    {
        if v[i] == k {
            v.remove(i);
            proof {
                assert forall|j: int| 0 <= j < v@.len() implies v@[j] == (if j < i {
                    orig[j]
                } else {
                    orig[j + 1]
                }) by {}
                assert forall|p: int, q: int| 0 <= p < q < v@.len() implies v@[p] != v@[q] by {
                    let po: int = if p < i {
                        p
                    } else {
                        p + 1
                    };
                    let qo: int = if q < i {
                        q
                    } else {
                        q + 1
                    };
                    assert(orig[po] != orig[qo]);
                }
                assert(key_set(v@) =~= key_set(orig).remove(k)) by {
                    assert forall|x: HotkeyKey| key_set(v@).contains(x) implies key_set(
                        orig,
                    ).remove(k).contains(x) by {
                        let j = choose|j: int| 0 <= j < v@.len() && v@[j] == x;
                        let jo: int = if j < i {
                            j
                        } else {
                            j + 1
                        };
                        assert(orig[jo] == x);
                        assert(x != k) by {
                            assert(orig[i as int] == k);
                            if jo != i {
                                assert(orig[jo] != orig[i as int]);
                            }
                        }
                    }
                    assert forall|x: HotkeyKey|
                        key_set(orig).remove(k).contains(x) implies key_set(v@).contains(x) by {
                        let jo = choose|jo: int| 0 <= jo < orig.len() && orig[jo] == x;
                        if jo < i {
                            assert(v@[jo] == x);
                        } else {
                            assert(jo != i);
                            assert(v@[jo - 1] == x);
                        }
                    }
                }
            }
            return;
        }
        i = i + 1;
    }
    proof {
        assert(!orig.contains(k));
        assert(key_set(v@) =~= key_set(orig).remove(k));
    }
}

/// A fresh copy of a key vector.
fn clone_keys(v: &Vec<HotkeyKey>) -> (r: Vec<HotkeyKey>)
    ensures
        r@ == v@,
{
    let mut out: Vec<HotkeyKey> = Vec::new();
    let mut i: usize = 0;
    while i < v.len()
        invariant
            0 <= i <= v@.len(),
            out@ == v@.subrange(0, i as int),
        decreases v@.len() - i,
    {
        out.push(v[i]);
        i = i + 1;
    }
    proof {
        assert(out@ =~= v@);
    }
    out
}

// ===========================================================================
// Runtime state and actions
// ===========================================================================

/// The mutable state of the engine while it observes keys.
#[derive(Clone, Debug)]
pub struct HotkeyState {
    /// Whether a session is running.
    pub is_recording: bool,
    /// The tracked keys currently held, each at most once.
    pub pressed_keys: Vec<HotkeyKey>,
    /// Whether a watchdog loop is alive for the session.
    pub watchdog_running: bool,
    /// Which chord started the running session.
    pub current_trigger_mode: Option<TriggerMode>,
    /// Whether the running session was started by the release-lock chord.
    pub is_release_mode_triggered: bool,
    /// Consecutive watchdog ticks on which the chord looked released.
    pub watchdog_release_ticks: u64,
}

/// Internal consistency of the runtime state: the pressed keys form a
/// set, a trigger mode is stored exactly while a session runs, only a
/// running session can be release-locked, and the watchdog counter never
/// reaches its firing bound between ticks.
pub open spec fn spec_state_wf(s: HotkeyState) -> bool {
    &&& s.pressed_keys@.no_duplicates()
    &&& (s.is_recording <==> s.current_trigger_mode is Some)
    &&& (s.is_release_mode_triggered ==> s.is_recording)
    &&& s.watchdog_release_ticks < WATCHDOG_REQUIRED_TICKS
}

/// The empty runtime state.
fn empty_state() -> (r: HotkeyState)
    ensures
        spec_state_wf(r),
        !r.is_recording,
        key_set(r.pressed_keys@) == Set::<HotkeyKey>::empty(),
        r.pressed_keys@.len() == 0,
        !r.watchdog_running,
        r.current_trigger_mode is None,
        !r.is_release_mode_triggered,
        r.watchdog_release_ticks == 0,
{
    let r = HotkeyState {
        is_recording: false,
        pressed_keys: Vec::new(),
        watchdog_running: false,
        current_trigger_mode: None,
        is_release_mode_triggered: false,
        watchdog_release_ticks: 0,
    };
    proof {
        assert(key_set(r.pressed_keys@) =~= Set::<HotkeyKey>::empty());
    }
    r
}

/// What the observer thread must do after a key edge was handled.
#[derive(Clone, Copy, Debug, PartialEq, Eq, Structural)]
pub enum KeyEventAction {
    /// Nothing to dispatch.
    Nothing,
    /// Invoke the start callback; `spawn_watchdog` says whether a fresh
    /// watchdog loop must be started for this session.
    Start { mode: TriggerMode, via_release_lock: bool, spawn_watchdog: bool },
    /// Invoke the stop callback. `is_release_mode` marks the cancellation
    /// of a release-locked session by its own chord.
    Stop { mode: TriggerMode, is_release_mode: bool },
}

/// What the watchdog loop must do after one tick.
#[derive(Clone, Copy, Debug, PartialEq, Eq, Structural)]
pub enum WatchdogAction {
    /// Sleep one interval and tick again.
    KeepWatching,
    /// Leave the loop without stopping anything.
    Exit,
    /// Leave the loop and invoke the stop callback: the chord was
    /// released but the release was never reported.
    ForceStop { mode: TriggerMode },
}

// ===========================================================================
// The engine
// ===========================================================================

/// The hotkey engine: the two bindings, the activation switch, and the
/// runtime state. One instance serves the whole process.
#[derive(Clone, Debug)]
pub struct HotkeyService {
    /// Whether key events are acted upon at all.
    pub is_active: bool,
    /// Binding of the dictation mode, release-lock chord included.
    pub dictation_config: HotkeyConfig,
    /// Binding of the assistant mode.
    pub assistant_config: HotkeyConfig,
    /// The runtime state.
    pub state: HotkeyState,
    /// Whether the observer thread was started once.
    pub listener_started: bool,
}

impl HotkeyService {
    /// The set of currently pressed tracked keys.
    pub open spec fn pressed_set(self) -> Set<HotkeyKey> {
        key_set(self.state.pressed_keys@)
    }

    /// The binding that started the running session.
    pub open spec fn spec_active_binding(self) -> Option<HotkeyConfig> {
        match self.state.current_trigger_mode {
            Some(TriggerMode::Dictation) => Some(self.dictation_config),
            Some(TriggerMode::AiAssistant) => Some(self.assistant_config),
            None => None,
        }
    }

    /// Whether the running session belongs to a toggle binding, which
    /// ends on its chord's next rising edge, not on release.
    pub open spec fn spec_active_binding_is_toggle(self) -> bool {
        match self.spec_active_binding() {
            Some(b) => b.mode == HotkeyMode::Toggle,
            None => false,
        }
    }

    /// The engine's invariant: a consistent runtime state.
    pub open spec fn wf(self) -> bool {
        spec_state_wf(self.state)
    }

    /// A fresh engine: inactive, the stock bindings, empty state, no
    /// observer thread yet.
    pub fn new() -> (r: Self)
        ensures
            r.wf(),
            !r.is_active,
            !r.listener_started,
            r.dictation_config.keys@ =~= seq![HotkeyKey::ControlLeft, HotkeyKey::MetaLeft],
            r.dictation_config.mode == HotkeyMode::Press,
            r.dictation_config.release_mode_keys is None,
            r.assistant_config.keys@ =~= seq![HotkeyKey::AltLeft, HotkeyKey::Space],
            r.assistant_config.mode == HotkeyMode::Press,
            r.assistant_config.release_mode_keys is None,
            !r.state.is_recording,
            r.state.pressed_keys@.len() == 0,
    {
        let mut assistant_keys: Vec<HotkeyKey> = Vec::new();
        assistant_keys.push(HotkeyKey::AltLeft);
        assistant_keys.push(HotkeyKey::Space);
        HotkeyService {
            is_active: false,
            dictation_config: HotkeyConfig::default(),
            assistant_config: HotkeyConfig {
                keys: assistant_keys,
                mode: HotkeyMode::Press,
                enable_release_lock: false,
                release_mode_keys: None,
            },
            state: empty_state(),
            listener_started: false,
        }
    }
}

// ===========================================================================
// Transition conditions
// ===========================================================================

/// Some key of the set is a modifier.
pub open spec fn spec_set_has_modifier(s: Set<HotkeyKey>) -> bool {
    exists|k: HotkeyKey| s.contains(k) && spec_is_modifier(k)
}

/// A rising edge cancels a release-locked session when the release-lock
/// chord strictly matches the pressed keys.
pub open spec fn spec_release_cancel_fires(svc: HotkeyService, pressed: Set<HotkeyKey>) -> bool {
    &&& svc.state.is_recording
    &&& svc.state.is_release_mode_triggered
    &&& match svc.dictation_config.release_mode_keys {
        Some(r) => spec_strict_match(pressed, r@),
        None => false,
    }
}

/// A rising edge stops a toggle session when the session's own chord
/// strictly matches again.
pub open spec fn spec_toggle_stop_fires(svc: HotkeyService, pressed: Set<HotkeyKey>) -> bool {
    &&& svc.state.is_recording
    &&& !svc.state.is_release_mode_triggered
    &&& match svc.spec_active_binding() {
        Some(b) => b.mode == HotkeyMode::Toggle && spec_strict_match(pressed, b.keys@),
        None => false,
    }
}

/// The trigger decision on an idle engine, by priority: the release-lock
/// chord of the dictation binding, then the dictation chord, then the
/// assistant chord. The boolean marks a release-lock start.
pub open spec fn spec_press_trigger(svc: HotkeyService, pressed: Set<HotkeyKey>) -> Option<
    (TriggerMode, bool),
> {
    if (match svc.dictation_config.release_mode_keys {
        Some(r) => spec_strict_match(pressed, r@),
        None => false,
    }) {
        Some((TriggerMode::Dictation, true))
    } else if spec_strict_match(pressed, svc.dictation_config.keys@) {
        Some((TriggerMode::Dictation, false))
    } else if spec_strict_match(pressed, svc.assistant_config.keys@) {
        Some((TriggerMode::AiAssistant, false))
    } else {
        None
    }
}

/// The trigger decision of the polling observation mode: a physically
/// held modifier that no binding tracks suppresses every trigger, as the
/// strict count does for tracked keys; without one, the decision is the
/// ordinary one.
pub open spec fn spec_press_trigger_guarded(
    svc: HotkeyService,
    pressed: Set<HotkeyKey>,
    untracked_modifier_down: bool,
) -> Option<(TriggerMode, bool)> {
    if untracked_modifier_down {
        None
    } else {
        spec_press_trigger(svc, pressed)
    }
}

/// Every key of the running session's chord lies in `pressed`.
pub open spec fn spec_chord_held(svc: HotkeyService, pressed: Set<HotkeyKey>) -> bool {
    match svc.spec_active_binding() {
        Some(b) => key_set(b.keys@).subset_of(pressed),
        None => false,
    }
}

/// Releasing a modifier outside a session clears the whole pressed set
/// once no modifier is held any more, against keys stuck by lost events.
pub open spec fn spec_release_cleanup_fires(svc: HotkeyService, key: HotkeyKey) -> bool {
    &&& spec_is_modifier(key)
    &&& !svc.state.is_recording
    &&& !spec_set_has_modifier(svc.pressed_set().remove(key))
}

/// The keys of the stock assistant binding that `activate` pairs the
/// given binding with.
pub open spec fn spec_stock_assistant_keys() -> Seq<HotkeyKey> {
    seq![HotkeyKey::AltLeft, HotkeyKey::Space]
}

/// The verdict of the single-binding activation: the given binding is
/// checked as the dictation slot of a pair whose other slot is the stock
/// Alt+Space assistant binding, exactly as `DualHotkeyConfig::validate`
/// checks that pair.
pub open spec fn spec_validate_single(c: HotkeyConfig) -> Result<(), DualHotkeyError> {
    match crate::config::spec_validate_binding(c) {
        Err(e) => Err(DualHotkeyError::Dictation(e)),
        Ok(_) => {
            if key_set(c.keys@) == key_set(spec_stock_assistant_keys()) {
                Err(DualHotkeyError::SameKeys)
            } else if key_set(c.keys@).subset_of(key_set(spec_stock_assistant_keys())) || key_set(
                spec_stock_assistant_keys(),
            ).subset_of(key_set(c.keys@)) {
                Err(DualHotkeyError::SubsetConflict)
            } else {
                Ok(())
            }
        },
    }
}

/// On a pair whose assistant slot holds the stock Alt+Space binding, the
/// dual verdict is the single-binding verdict of the dictation slot.
proof fn lemma_validate_single_matches_dual(c: HotkeyConfig, d: DualHotkeyConfig)
    requires
        d.dictation == c,
        d.assistant.keys@ == spec_stock_assistant_keys(),
        d.assistant.release_mode_keys is None,
    ensures
        crate::config::spec_validate_dual(d) == spec_validate_single(c),
{
    assert(crate::config::spec_binding_wf(d.assistant)) by {
        assert(crate::config::spec_has_modifier(d.assistant.keys@)) by {
            assert(spec_is_modifier(d.assistant.keys@[0]));
        }
        assert(d.assistant.keys@.no_duplicates());
    }
    crate::config::lemma_validate_binding_ok_iff_wf(d.assistant);
}

impl HotkeyService {
    /// Handles one key-down edge: records the key, then decides. During a
    /// release-locked session only the release-lock chord acts, and it
    /// cancels; during a toggle session the session's own chord stops it;
    /// any other running session ignores key-down edges. On an idle engine
    /// a strict chord match starts a session, release-lock chord first,
    /// then dictation, then assistant; a session never starts while
    /// another runs. `untracked_modifier_down` is the polling observer's
    /// probe verdict on the modifiers no binding tracks: a held one
    /// suppresses every trigger; the hook path, which has no probe,
    /// passes false.
    pub fn handle_key_press(&mut self, key: HotkeyKey, untracked_modifier_down: bool) -> (r:
        KeyEventAction)
        requires
            old(self).wf(),
        ensures
            final(self).wf(),
            final(self).is_active == old(self).is_active,
            final(self).dictation_config == old(self).dictation_config,
            final(self).assistant_config == old(self).assistant_config,
            final(self).listener_started == old(self).listener_started,
            // an inactive engine ignores the event entirely
            !old(self).is_active ==> *final(self) == *old(self) && r == KeyEventAction::Nothing,
            // an active engine records the key as pressed
            old(self).is_active ==> final(self).pressed_set() == old(self).pressed_set().insert(
                key,
            ),
            // a locked session is cancelled by its own chord, and by nothing else
            old(self).is_active && spec_release_cancel_fires(
                *old(self),
                old(self).pressed_set().insert(key),
            ) ==> r == (KeyEventAction::Stop {
                mode: TriggerMode::Dictation,
                is_release_mode: true,
            }) && !final(self).state.is_recording && final(self).state.current_trigger_mode
                is None && !final(self).state.watchdog_running
                && !final(self).state.is_release_mode_triggered,
            old(self).is_active && old(self).state.is_recording
                && old(self).state.is_release_mode_triggered && !spec_release_cancel_fires(
                *old(self),
                old(self).pressed_set().insert(key),
            ) ==> r == KeyEventAction::Nothing && final(self).state.is_recording && final(self).state.current_trigger_mode == old(self).state.current_trigger_mode && final(self).state.is_release_mode_triggered,
            // a toggle session stops on the fresh rising edge of its chord
            old(self).is_active && spec_toggle_stop_fires(
                *old(self),
                old(self).pressed_set().insert(key),
            ) ==> (old(self).state.current_trigger_mode matches Some(m) ==> r
                == (KeyEventAction::Stop { mode: m, is_release_mode: false })) && !final(self).state.is_recording && final(self).state.current_trigger_mode is None && !final(self).state.watchdog_running,
            // every other edge during a session changes nothing
            old(self).is_active && old(self).state.is_recording
                && !old(self).state.is_release_mode_triggered && !spec_toggle_stop_fires(
                *old(self),
                old(self).pressed_set().insert(key),
            ) ==> r == KeyEventAction::Nothing && final(self).state.is_recording == old(self).state.is_recording && final(self).state.current_trigger_mode == old(self).state.current_trigger_mode && final(self).state.is_release_mode_triggered == old(self).state.is_release_mode_triggered && final(self).state.watchdog_running == old(self).state.watchdog_running,
            // on an idle engine, a chord triggers exactly when it strictly
            // matches and no untracked modifier is held
            old(self).is_active && !old(self).state.is_recording ==> match spec_press_trigger_guarded(
                *old(self),
                old(self).pressed_set().insert(key),
                untracked_modifier_down,
            ) {
                Some(t) => r == (KeyEventAction::Start {
                    mode: t.0,
                    via_release_lock: t.1,
                    spawn_watchdog: !old(self).state.watchdog_running,
                }) && final(self).state.is_recording && final(self).state.current_trigger_mode
                    == Some(t.0) && final(self).state.is_release_mode_triggered == t.1 && final(self).state.watchdog_running && final(self).state.watchdog_release_ticks == 0,
                None => r == KeyEventAction::Nothing && !final(self).state.is_recording && final(self).state.current_trigger_mode is None && final(self).state.watchdog_running == old(self).state.watchdog_running,
            },
            // a session only ever starts from an idle engine
            r matches KeyEventAction::Start { .. } ==> !old(self).state.is_recording,
    {
        if !self.is_active {
            return KeyEventAction::Nothing;
        }
        insert_pressed(&mut self.state.pressed_keys, key);

        let matches_release = match &self.dictation_config.release_mode_keys {
            Some(release_keys) => strict_chord_match(&self.state.pressed_keys, release_keys),
            None => false,
        };
        let matches_dictation = strict_chord_match(
            &self.state.pressed_keys,
            &self.dictation_config.keys,
        );
        let matches_assistant = strict_chord_match(
            &self.state.pressed_keys,
            &self.assistant_config.keys,
        );

        if self.state.is_recording {
            if self.state.is_release_mode_triggered {
                if matches_release {
                    self.state.is_recording = false;
                    self.state.watchdog_running = false;
                    self.state.current_trigger_mode = None;
                    self.state.is_release_mode_triggered = false;
                    return KeyEventAction::Stop {
                        mode: TriggerMode::Dictation,
                        is_release_mode: true,
                    };
                }
                return KeyEventAction::Nothing;
            }
            let toggle_hit = match self.state.current_trigger_mode {
                Some(TriggerMode::Dictation) => self.dictation_config.mode == HotkeyMode::Toggle
                    && matches_dictation,
                Some(TriggerMode::AiAssistant) => self.assistant_config.mode == HotkeyMode::Toggle
                    && matches_assistant,
                None => false,
            };
            if toggle_hit {
                let mode = if let Some(m) = self.state.current_trigger_mode {
                    m
                } else {
                    TriggerMode::Dictation
                };
                self.state.is_recording = false;
                self.state.watchdog_running = false;
                self.state.current_trigger_mode = None;
                self.state.is_release_mode_triggered = false;
                return KeyEventAction::Stop { mode, is_release_mode: false };
            }
            return KeyEventAction::Nothing;
        }

        let trigger: Option<(TriggerMode, bool)> = if untracked_modifier_down {
            None
        } else if matches_release {
            Some((TriggerMode::Dictation, true))
        } else if matches_dictation {
            Some((TriggerMode::Dictation, false))
        } else if matches_assistant {
            Some((TriggerMode::AiAssistant, false))
        } else {
            None
        };
        match trigger {
            Some(t) => {
                self.state.is_recording = true;
                self.state.current_trigger_mode = Some(t.0);
                self.state.is_release_mode_triggered = t.1;
                let spawn_watchdog = !self.state.watchdog_running;
                self.state.watchdog_running = true;
                self.state.watchdog_release_ticks = 0;
                KeyEventAction::Start { mode: t.0, via_release_lock: t.1, spawn_watchdog }
            },
            None => KeyEventAction::Nothing,
        }
    }

    /// Handles one key-up edge: forgets the key; outside a session, once
    /// the last modifier went up, clears stuck keys. A falling edge stops
    /// a running press-mode session when its chord is no longer fully
    /// held; it never stops a release-locked session, and never a toggle
    /// session.
    pub fn handle_key_release(&mut self, key: HotkeyKey) -> (r: KeyEventAction)
        requires
            old(self).wf(),
        ensures
            final(self).wf(),
            final(self).is_active == old(self).is_active,
            final(self).dictation_config == old(self).dictation_config,
            final(self).assistant_config == old(self).assistant_config,
            final(self).listener_started == old(self).listener_started,
            // an inactive engine ignores the event entirely
            !old(self).is_active ==> *final(self) == *old(self) && r == KeyEventAction::Nothing,
            // the key is forgotten; stuck keys go with the last modifier
            old(self).is_active && spec_release_cleanup_fires(*old(self), key) ==> final(self).pressed_set() == Set::<HotkeyKey>::empty(),
            old(self).is_active && !spec_release_cleanup_fires(*old(self), key) ==> final(self).pressed_set() == old(self).pressed_set().remove(key),
            // outside a session nothing is dispatched
            old(self).is_active && !old(self).state.is_recording ==> r == KeyEventAction::Nothing
                && !final(self).state.is_recording && final(self).state.current_trigger_mode
                is None && final(self).state.watchdog_running == old(self).state.watchdog_running,
            // a release-locked session survives every falling edge
            old(self).is_active && old(self).state.is_recording
                && old(self).state.is_release_mode_triggered ==> r == KeyEventAction::Nothing
                && final(self).state.is_recording && final(self).state.current_trigger_mode == old(self).state.current_trigger_mode && final(self).state.is_release_mode_triggered,
            // a toggle session survives every falling edge
            old(self).is_active && old(self).state.is_recording
                && !old(self).state.is_release_mode_triggered
                && old(self).spec_active_binding_is_toggle() ==> r == KeyEventAction::Nothing
                && final(self).state.is_recording && final(self).state.current_trigger_mode == old(self).state.current_trigger_mode,
            // a press session goes on while its chord stays fully held
            old(self).is_active && old(self).state.is_recording
                && !old(self).state.is_release_mode_triggered
                && !old(self).spec_active_binding_is_toggle() && spec_chord_held(
                *old(self),
                old(self).pressed_set().remove(key),
            ) ==> r == KeyEventAction::Nothing && final(self).state.is_recording && final(self).state.current_trigger_mode == old(self).state.current_trigger_mode,
            // and stops on the falling edge that breaks the chord
            old(self).is_active && old(self).state.is_recording
                && !old(self).state.is_release_mode_triggered
                && !old(self).spec_active_binding_is_toggle() && !spec_chord_held(
                *old(self),
                old(self).pressed_set().remove(key),
            ) ==> (old(self).state.current_trigger_mode matches Some(m) ==> r
                == (KeyEventAction::Stop { mode: m, is_release_mode: false })) && !final(self).state.is_recording && final(self).state.current_trigger_mode is None && !final(self).state.watchdog_running && !final(self).state.is_release_mode_triggered,
    {
        if !self.is_active {
            return KeyEventAction::Nothing;
        }
        let ghost pressed_before = self.pressed_set();
        remove_pressed(&mut self.state.pressed_keys, key);

        if key.is_modifier() && !self.state.is_recording {
            if !crate::config::any_modifier(&self.state.pressed_keys) {
                proof {
                    assert forall|k: HotkeyKey|
                        pressed_before.remove(key).contains(k) && spec_is_modifier(k) implies false by {
                        let j = choose|j: int|
                            0 <= j < self.state.pressed_keys@.len()
                                && self.state.pressed_keys@[j] == k;
                    }
                }
                self.state.pressed_keys = Vec::new();
                proof {
                    assert(self.pressed_set() =~= Set::<HotkeyKey>::empty());
                }
            } else {
                proof {
                    let k = choose|j: int|
                        0 <= j < self.state.pressed_keys@.len() && spec_is_modifier(
                            #[trigger] self.state.pressed_keys@[j],
                        );
                    assert(self.pressed_set().contains(self.state.pressed_keys@[k]));
                }
            }
        }

        if !self.state.is_recording {
            return KeyEventAction::Nothing;
        }

        let all_pressed = match self.state.current_trigger_mode {
            Some(TriggerMode::Dictation) => keys_subset_of(
                &self.dictation_config.keys,
                &self.state.pressed_keys,
            ),
            Some(TriggerMode::AiAssistant) => keys_subset_of(
                &self.assistant_config.keys,
                &self.state.pressed_keys,
            ),
            None => false,
        };

        if !all_pressed {
            if self.state.is_release_mode_triggered {
                return KeyEventAction::Nothing;
            }
            let is_toggle = match self.state.current_trigger_mode {
                Some(TriggerMode::Dictation) => self.dictation_config.mode == HotkeyMode::Toggle,
                Some(TriggerMode::AiAssistant) => self.assistant_config.mode == HotkeyMode::Toggle,
                None => false,
            };
            if is_toggle {
                return KeyEventAction::Nothing;
            }
            let mode = if let Some(m) = self.state.current_trigger_mode {
                m
            } else {
                TriggerMode::Dictation
            };
            self.state.is_recording = false;
            self.state.watchdog_running = false;
            self.state.current_trigger_mode = None;
            self.state.is_release_mode_triggered = false;
            return KeyEventAction::Stop { mode, is_release_mode: false };
        }
        KeyEventAction::Nothing
    }
}

impl HotkeyService {
    /// The keys the watchdog's hardware probe must check: the running
    /// session's chord, or nothing when no session runs.
    pub fn watchdog_target_keys(&self) -> (r: Vec<HotkeyKey>)
        ensures
            match self.spec_active_binding() {
                Some(b) => r@ == b.keys@,
                None => r@.len() == 0,
            },
    {
        match self.state.current_trigger_mode {
            Some(TriggerMode::Dictation) => clone_keys(&self.dictation_config.keys),
            Some(TriggerMode::AiAssistant) => clone_keys(&self.assistant_config.keys),
            None => Vec::new(),
        }
    }

    /// One watchdog check. `hardware_all_down` is the hardware probe's
    /// verdict on the session chord's keys. The session counts as held
    /// only while both the tracked state and the hardware agree; after
    /// `WATCHDOG_REQUIRED_TICKS` consecutive released-looking checks the
    /// watchdog acts: it force-stops a press session, while a
    /// release-locked or toggle session merely loses its stuck pressed
    /// keys and its watchdog, and keeps recording.
    pub fn watchdog_tick(&mut self, hardware_all_down: bool) -> (r: WatchdogAction)
        requires
            old(self).wf(),
        ensures
            final(self).wf(),
            final(self).is_active == old(self).is_active,
            final(self).dictation_config == old(self).dictation_config,
            final(self).assistant_config == old(self).assistant_config,
            final(self).listener_started == old(self).listener_started,
            // a deactivated engine sends the watchdog away and clears the session
            !old(self).is_active ==> r == WatchdogAction::Exit && !final(self).state.is_recording
                && !final(self).state.watchdog_running && final(self).state.current_trigger_mode
                is None,
            // a watchdog whose session is gone leaves quietly
            old(self).is_active && (!old(self).state.watchdog_running || !old(self).state.is_recording) ==> r == WatchdogAction::Exit && !final(self).state.watchdog_running && final(self).state.is_recording == old(self).state.is_recording && final(self).state.current_trigger_mode == old(self).state.current_trigger_mode && final(self).pressed_set() == old(self).pressed_set(),
            // the chord looks held: start counting afresh
            old(self).is_active && old(self).state.watchdog_running && old(self).state.is_recording
                && spec_chord_held(*old(self), old(self).pressed_set()) && hardware_all_down ==> r
                == WatchdogAction::KeepWatching && final(self).state.watchdog_release_ticks == 0
                && final(self).state.is_recording && final(self).state.current_trigger_mode == old(self).state.current_trigger_mode && final(self).pressed_set() == old(self).pressed_set()
                && final(self).state.watchdog_running && final(self).state.is_release_mode_triggered
                == old(self).state.is_release_mode_triggered,
            // the chord looks released, but not yet for long enough
            old(self).is_active && old(self).state.watchdog_running && old(self).state.is_recording
                && !(spec_chord_held(*old(self), old(self).pressed_set()) && hardware_all_down)
                && old(self).state.watchdog_release_ticks + 1 < WATCHDOG_REQUIRED_TICKS ==> r
                == WatchdogAction::KeepWatching && final(self).state.watchdog_release_ticks == old(self).state.watchdog_release_ticks + 1 && final(self).state.is_recording && final(self).state.current_trigger_mode == old(self).state.current_trigger_mode && final(self).pressed_set() == old(self).pressed_set()
                && final(self).state.watchdog_running && final(self).state.is_release_mode_triggered
                == old(self).state.is_release_mode_triggered,
            // released long enough: a locked session keeps recording
            old(self).is_active && old(self).state.watchdog_running && old(self).state.is_recording
                && !(spec_chord_held(*old(self), old(self).pressed_set()) && hardware_all_down)
                && old(self).state.watchdog_release_ticks + 1 >= WATCHDOG_REQUIRED_TICKS && old(self).state.is_release_mode_triggered ==> r == WatchdogAction::Exit && final(self).state.is_recording && final(self).state.current_trigger_mode == old(self).state.current_trigger_mode && final(self).pressed_set() == Set::<HotkeyKey>::empty()
                && !final(self).state.watchdog_running,
            // released long enough: a toggle session keeps recording too
            old(self).is_active && old(self).state.watchdog_running && old(self).state.is_recording
                && !(spec_chord_held(*old(self), old(self).pressed_set()) && hardware_all_down)
                && old(self).state.watchdog_release_ticks + 1 >= WATCHDOG_REQUIRED_TICKS && !old(self).state.is_release_mode_triggered && old(self).spec_active_binding_is_toggle() ==> r
                == WatchdogAction::Exit && final(self).state.is_recording && final(self).state.current_trigger_mode == old(self).state.current_trigger_mode && !final(self).state.watchdog_running,
            // released long enough: a press session is force-stopped
            old(self).is_active && old(self).state.watchdog_running && old(self).state.is_recording
                && !(spec_chord_held(*old(self), old(self).pressed_set()) && hardware_all_down)
                && old(self).state.watchdog_release_ticks + 1 >= WATCHDOG_REQUIRED_TICKS && !old(self).state.is_release_mode_triggered && !old(self).spec_active_binding_is_toggle() ==> (
            old(self).state.current_trigger_mode matches Some(m) ==> r == (WatchdogAction::ForceStop {
                mode: m,
            })) && !final(self).state.is_recording && final(self).state.current_trigger_mode
                is None && !final(self).state.watchdog_running && !final(self).state.is_release_mode_triggered && final(self).pressed_set() == Set::<
                HotkeyKey,
            >::empty(),
    {
        if !self.is_active {
            self.state.is_recording = false;
            self.state.watchdog_running = false;
            self.state.current_trigger_mode = None;
            self.state.is_release_mode_triggered = false;
            return WatchdogAction::Exit;
        }
        if !self.state.watchdog_running || !self.state.is_recording {
            self.state.watchdog_running = false;
            return WatchdogAction::Exit;
        }

        let soft_held = match self.state.current_trigger_mode {
            Some(TriggerMode::Dictation) => keys_subset_of(
                &self.dictation_config.keys,
                &self.state.pressed_keys,
            ),
            Some(TriggerMode::AiAssistant) => keys_subset_of(
                &self.assistant_config.keys,
                &self.state.pressed_keys,
            ),
            None => false,
        };
        let truly_held = soft_held && hardware_all_down;

        if truly_held {
            self.state.watchdog_release_ticks = 0;
            return WatchdogAction::KeepWatching;
        }

        if self.state.watchdog_release_ticks + 1 >= WATCHDOG_REQUIRED_TICKS {
            if self.state.is_release_mode_triggered {
                self.state.pressed_keys = Vec::new();
                self.state.watchdog_running = false;
                self.state.watchdog_release_ticks = 0;
                proof {
                    assert(self.pressed_set() =~= Set::<HotkeyKey>::empty());
                }
                return WatchdogAction::Exit;
            }
            let is_toggle = match self.state.current_trigger_mode {
                Some(TriggerMode::Dictation) => self.dictation_config.mode == HotkeyMode::Toggle,
                Some(TriggerMode::AiAssistant) => self.assistant_config.mode == HotkeyMode::Toggle,
                None => false,
            };
            if is_toggle {
                self.state.watchdog_running = false;
                self.state.watchdog_release_ticks = 0;
                return WatchdogAction::Exit;
            }
            let mode = if let Some(m) = self.state.current_trigger_mode {
                m
            } else {
                TriggerMode::Dictation
            };
            self.state.is_recording = false;
            self.state.watchdog_running = false;
            self.state.current_trigger_mode = None;
            self.state.is_release_mode_triggered = false;
            self.state.pressed_keys = Vec::new();
            self.state.watchdog_release_ticks = 0;
            proof {
                assert(self.pressed_set() =~= Set::<HotkeyKey>::empty());
            }
            return WatchdogAction::ForceStop { mode };
        }
        self.state.watchdog_release_ticks = self.state.watchdog_release_ticks + 1;
        WatchdogAction::KeepWatching
    }

    /// Installs a validated dual binding, resets the runtime state and
    /// activates the engine. `Ok(true)` asks the caller to start the
    /// observer thread, which is started at most once per process. On an
    /// invalid binding nothing changes and the exact rejection is
    /// returned.
    pub fn activate_dual(&mut self, config: DualHotkeyConfig) -> (r: Result<bool, DualHotkeyError>)
        requires
            old(self).wf(),
        ensures
            final(self).wf(),
            match r {
                Ok(spawn_listener) => {
                    &&& crate::config::spec_validate_dual(config) is Ok
                    &&& final(self).dictation_config == config.dictation
                    &&& final(self).assistant_config == config.assistant
                    &&& final(self).is_active
                    &&& final(self).listener_started
                    &&& spawn_listener == !old(self).listener_started
                    &&& !final(self).state.is_recording
                    &&& final(self).state.current_trigger_mode is None
                    &&& !final(self).state.watchdog_running
                    &&& !final(self).state.is_release_mode_triggered
                    &&& final(self).pressed_set() == Set::<HotkeyKey>::empty()
                },
                Err(e) => crate::config::spec_validate_dual(config) == Err::<(), DualHotkeyError>(
                    e,
                ) && *final(self) == *old(self),
            },
    {
        if let Err(e) = config.validate() {
            return Err(e);
        }
        self.dictation_config = config.dictation;
        self.assistant_config = config.assistant;
        self.state = empty_state();
        let spawn_listener = !self.listener_started;
        self.listener_started = true;
        self.is_active = true;
        proof {
            assert(self.pressed_set() =~= Set::<HotkeyKey>::empty());
        }
        Ok(spawn_listener)
    }

    /// The retained single-binding entry: the binding takes the dictation
    /// slot, the stock Alt+Space assistant binding fills the other, and
    /// the pair is activated exactly when `spec_validate_single` accepts
    /// the given binding; on a rejection nothing changes and the exact
    /// error is returned.
    pub fn activate(&mut self, config: HotkeyConfig) -> (r: Result<bool, DualHotkeyError>)
        requires
            old(self).wf(),
        ensures
            final(self).wf(),
            r matches Ok(spawn_listener) ==> spec_validate_single(config) is Ok && final(self).dictation_config == config && final(self).assistant_config.keys@ =~= seq![
                HotkeyKey::AltLeft,
                HotkeyKey::Space,
            ] && final(self).assistant_config.mode == HotkeyMode::Press && final(self).assistant_config.release_mode_keys is None && final(self).is_active && final(self).listener_started && spawn_listener == !old(self).listener_started && !final(self).state.is_recording && final(self).state.current_trigger_mode is None && !final(self).state.watchdog_running && !final(self).state.is_release_mode_triggered && final(self).pressed_set() == Set::<HotkeyKey>::empty(),
            r matches Err(e) ==> spec_validate_single(config) == Err::<(), DualHotkeyError>(e)
                && *final(self) == *old(self),
    {
        let ghost given = config;
        let mut assistant_keys: Vec<HotkeyKey> = Vec::new();
        assistant_keys.push(HotkeyKey::AltLeft);
        assistant_keys.push(HotkeyKey::Space);
        let dual_config = DualHotkeyConfig {
            dictation: config,
            assistant: HotkeyConfig {
                keys: assistant_keys,
                mode: HotkeyMode::Press,
                enable_release_lock: false,
                release_mode_keys: None,
            },
        };
        proof {
            assert(dual_config.assistant.keys@ =~= spec_stock_assistant_keys());
            lemma_validate_single_matches_dual(given, dual_config);
        }
        match self.activate_dual(dual_config) {
            Ok(spawn_listener) => Ok(spawn_listener),
            Err(e) => Err(e),
        }
    }

    /// Deactivates the engine and clears the runtime state; the observer
    /// thread stays alive but every event is ignored from here on.
    pub fn deactivate(&mut self)
        requires
            old(self).wf(),
        ensures
            final(self).wf(),
            !final(self).is_active,
            final(self).dictation_config == old(self).dictation_config,
            final(self).assistant_config == old(self).assistant_config,
            final(self).listener_started == old(self).listener_started,
            !final(self).state.is_recording,
            final(self).state.current_trigger_mode is None,
            !final(self).state.watchdog_running,
            !final(self).state.is_release_mode_triggered,
            final(self).pressed_set() == Set::<HotkeyKey>::empty(),
    {
        self.is_active = false;
        self.state = empty_state();
        proof {
            assert(self.pressed_set() =~= Set::<HotkeyKey>::empty());
        }
    }

    /// Whether the engine acts on key events.
    pub fn is_active(&self) -> (r: bool)
        ensures
            r == self.is_active,
    {
        self.is_active
    }

    /// Clears the runtime state by hand, for recovery from stuck keys;
    /// the activation switch and the bindings stay.
    pub fn reset_state(&mut self)
        requires
            old(self).wf(),
        ensures
            final(self).wf(),
            final(self).is_active == old(self).is_active,
            final(self).dictation_config == old(self).dictation_config,
            final(self).assistant_config == old(self).assistant_config,
            final(self).listener_started == old(self).listener_started,
            !final(self).state.is_recording,
            final(self).state.current_trigger_mode is None,
            !final(self).state.watchdog_running,
            !final(self).state.is_release_mode_triggered,
            final(self).pressed_set() == Set::<HotkeyKey>::empty(),
            final(self).state.pressed_keys@.len() == 0,
    {
        self.state = empty_state();
        proof {
            assert(self.pressed_set() =~= Set::<HotkeyKey>::empty());
        }
    }

    /// The state reset that follows a crash of the OS listener: after the
    /// restart no key is considered pressed and no session is running.
    pub fn on_listener_restart(&mut self)
        requires
            old(self).wf(),
        ensures
            final(self).wf(),
            final(self).is_active == old(self).is_active,
            final(self).dictation_config == old(self).dictation_config,
            final(self).assistant_config == old(self).assistant_config,
            final(self).listener_started == old(self).listener_started,
            !final(self).state.is_recording,
            final(self).state.pressed_keys@.len() == 0,
            final(self).pressed_set() == Set::<HotkeyKey>::empty(),
            final(self).state.current_trigger_mode is None,
            !final(self).state.watchdog_running,
            !final(self).state.is_release_mode_triggered,
    {
        self.reset_state();
    }

    /// Marks the observer thread as started; true asks the caller to
    /// really start it, which happens at most once per process.
    pub fn init_listener(&mut self) -> (r: bool)
        requires
            old(self).wf(),
        ensures
            final(self).wf(),
            final(self).listener_started,
            r == !old(self).listener_started,
            final(self).is_active == old(self).is_active,
            final(self).dictation_config == old(self).dictation_config,
            final(self).assistant_config == old(self).assistant_config,
            final(self).state == old(self).state,
    {
        let r = !self.listener_started;
        self.listener_started = true;
        r
    }

    /// A one-line report of the engine for the debug command.
    pub fn get_debug_info(&self) -> String {
        let mut out = String::new();
        out.append("is_active: ");
        out.append(if self.is_active {
            "true"
        } else {
            "false"
        });
        out.append(", is_recording: ");
        out.append(if self.state.is_recording {
            "true"
        } else {
            "false"
        });
        out.append(", release_locked: ");
        out.append(if self.state.is_release_mode_triggered {
            "true"
        } else {
            "false"
        });
        out.append(", trigger_mode: ");
        out.append(
            match self.state.current_trigger_mode {
                Some(TriggerMode::Dictation) => "dictation",
                Some(TriggerMode::AiAssistant) => "assistant",
                None => "none",
            },
        );
        out.append(", dictation_hotkey: ");
        let dictation_display = self.dictation_config.format_display();
        out.append(dictation_display.as_str());
        out.append(", assistant_hotkey: ");
        let assistant_display = self.assistant_config.format_display();
        out.append(assistant_display.as_str());
        out
    }
}

} // verus!

