//! The shortcut watcher's decision logic. The watcher owns a display
//! connection, keeps the configured shortcut grabbed under every
//! combination of the lock-type modifier masks (so Caps-Lock or Num-Lock
//! state never hides a press), toggles the run flag on a matching press,
//! and rebinds when the shortcut text resolves to a different keycode.
//!
//! This module decides; the display layer executes. Each step yields a
//! list of grab instructions, and the grabbed set is modelled as a set of
//! keycode/modifier pairs, so the rebinding law — after a change, exactly
//! the new keycode's combinations are grabbed — is proved, not hoped for.

use vstd::prelude::*;
use vstd::seq_lib::lemma_seq_take_contains;
use vstd::assert_sets_equal;

verus! {

/// The Caps-Lock style lock modifier mask of the display protocol.
pub const LOCK_MASK: u32 = 2;

/// The modifier mask usually carrying Num-Lock.
pub const MOD2_MASK: u32 = 16;

/// The modifier mask usually carrying Scroll-Lock or AltGr state.
pub const MOD5_MASK: u32 = 128;

/// Every combination of the three lock-type masks: grabbing a key under
/// all eight makes lock state irrelevant to shortcut matching.
pub open spec fn mod_variants() -> Seq<u32> {
    seq![
        0u32,
        LOCK_MASK,
        MOD2_MASK,
        MOD5_MASK,
        LOCK_MASK | MOD2_MASK,
        LOCK_MASK | MOD5_MASK,
        MOD2_MASK | MOD5_MASK,
        LOCK_MASK | MOD2_MASK | MOD5_MASK,
    ]
}

/// The eight modifier combinations, in grab order.
pub fn mod_variant_list() -> (v: Vec<u32>)
    ensures
        v@ == mod_variants(),
{
    let mut v: Vec<u32> = Vec::new();
    v.push(0);
    v.push(LOCK_MASK);
    v.push(MOD2_MASK);
    v.push(MOD5_MASK);
    v.push(LOCK_MASK | MOD2_MASK);
    v.push(LOCK_MASK | MOD5_MASK);
    v.push(MOD2_MASK | MOD5_MASK);
    v.push(LOCK_MASK | MOD2_MASK | MOD5_MASK);
    proof {
        assert(v@ =~= mod_variants());
    }
    v
}

/// One registration with the display: a keycode grabbed under one
/// modifier mask.
#[derive(Clone, Copy, Debug, PartialEq, Eq, Structural)]
pub struct KeyGrab {
    pub keycode: u32,
    pub modifiers: u32,
}

/// An instruction to the display layer: acquire or release one grab.
#[derive(Clone, Copy, Debug, PartialEq, Eq, Structural)]
pub enum GrabAction {
    Acquire(KeyGrab),
    Release(KeyGrab),
}

/// The grabs that belong to one keycode: all eight modifier combinations.
pub open spec fn grab_set_for(keycode: u32) -> Set<KeyGrab> {
    Set::new(|g: KeyGrab| g.keycode == keycode && mod_variants().contains(g.modifiers))
}

/// The instruction list that releases every grab of `keycode`, in grab
/// order.
pub open spec fn release_seq(keycode: u32) -> Seq<GrabAction> {
    Seq::new(
        mod_variants().len(),
        |i: int| GrabAction::Release(KeyGrab { keycode, modifiers: mod_variants()[i] }),
    )
}

/// The instruction list that acquires every grab of `keycode`, in grab
/// order.
pub open spec fn acquire_seq(keycode: u32) -> Seq<GrabAction> {
    Seq::new(
        mod_variants().len(),
        |i: int| GrabAction::Acquire(KeyGrab { keycode, modifiers: mod_variants()[i] }),
    )
}

/// How one instruction changes the display's set of current grabs.
pub open spec fn apply_grab_action(s: Set<KeyGrab>, a: GrabAction) -> Set<KeyGrab> {
    match a {
        GrabAction::Acquire(g) => s.insert(g),
        GrabAction::Release(g) => s.remove(g),
    }
}

/// How a whole instruction list changes the set of current grabs.
pub open spec fn apply_grab_actions(s: Set<KeyGrab>, acts: Seq<GrabAction>) -> Set<KeyGrab>
    decreases acts.len(),
{
    if acts.len() == 0 {
        s
    } else {
        apply_grab_action(apply_grab_actions(s, acts.drop_last()), acts.last())
    }
}

/// The grabs of `keycode` under the first `k` modifier combinations.
spec fn partial_grabs(keycode: u32, k: int) -> Set<KeyGrab> {
    Set::new(|g: KeyGrab| g.keycode == keycode && mod_variants().take(k).contains(g.modifiers))
}

/// Applying a concatenation applies the two halves in order.
proof fn lemma_apply_grab_actions_concat(s: Set<KeyGrab>, a: Seq<GrabAction>, b: Seq<GrabAction>)
    ensures
        apply_grab_actions(s, a + b) == apply_grab_actions(apply_grab_actions(s, a), b),
    decreases b.len(),
{
    if b.len() == 0 {
        assert(a + b =~= a);
    } else {
        assert((a + b).drop_last() =~= a + b.drop_last());
        assert((a + b).last() == b.last());
        lemma_apply_grab_actions_concat(s, a, b.drop_last());
    }
}

/// Instructions that release every grab of `keycode`: starting from
/// exactly its grabs, they leave nothing grabbed.
pub fn release_all_actions(keycode: u32) -> (acts: Vec<GrabAction>)
    ensures
        acts@ == release_seq(keycode),
        apply_grab_actions(grab_set_for(keycode), acts@) == Set::<KeyGrab>::empty(),
{
    let vars = mod_variant_list();
    let mut acts: Vec<GrabAction> = Vec::new();
    let ghost s0 = grab_set_for(keycode);
    let mut i: usize = 0;
    while i < vars.len()
        invariant
            i <= vars@.len(),
            vars@ == mod_variants(),
            s0 == grab_set_for(keycode),
            acts@.len() == i,
            forall|t: int|
                0 <= t < i ==> acts@[t] == GrabAction::Release(
                    KeyGrab { keycode, modifiers: mod_variants()[t] },
                ),
            apply_grab_actions(s0, acts@) == s0.difference(partial_grabs(keycode, i as int)),
        decreases vars@.len() - i,
    {
        let g = KeyGrab { keycode, modifiers: vars[i] };
        let ghost prev = acts@;
        acts.push(GrabAction::Release(g));
        proof {
            assert(acts@.drop_last() =~= prev);
            assert(acts@.last() == GrabAction::Release(g));
            assert_sets_equal!(
                s0.difference(partial_grabs(keycode, i as int)).remove(g)
                    == s0.difference(partial_grabs(keycode, i + 1)),
                x => {
                    lemma_seq_take_contains(mod_variants(), i as int, x.modifiers);
                    lemma_seq_take_contains(mod_variants(), i + 1, x.modifiers);
                }
            );
        }
        i += 1;
    }
    proof {
        assert(acts@ =~= release_seq(keycode));
        assert(mod_variants().take(8) =~= mod_variants());
        assert_sets_equal!(
            s0.difference(partial_grabs(keycode, 8)) == Set::<KeyGrab>::empty(),
            x => {
                lemma_seq_take_contains(mod_variants(), 8, x.modifiers);
            }
        );
    }
    acts
}

/// Instructions that acquire every grab of `keycode`: starting from
/// nothing grabbed, they leave exactly its grabs.
pub fn acquire_all_actions(keycode: u32) -> (acts: Vec<GrabAction>)
    ensures
        acts@ == acquire_seq(keycode),
        apply_grab_actions(Set::<KeyGrab>::empty(), acts@) == grab_set_for(keycode),
{
    let vars = mod_variant_list();
    let mut acts: Vec<GrabAction> = Vec::new();
    let mut i: usize = 0;
    while i < vars.len()
        invariant
            i <= vars@.len(),
            vars@ == mod_variants(),
            acts@.len() == i,
            forall|t: int|
                0 <= t < i ==> acts@[t] == GrabAction::Acquire(
                    KeyGrab { keycode, modifiers: mod_variants()[t] },
                ),
            apply_grab_actions(Set::<KeyGrab>::empty(), acts@) == partial_grabs(
                keycode,
                i as int,
            ),
        decreases vars@.len() - i,
    {
        let g = KeyGrab { keycode, modifiers: vars[i] };
        let ghost prev = acts@;
        acts.push(GrabAction::Acquire(g));
        proof {
            assert(acts@.drop_last() =~= prev);
            assert(acts@.last() == GrabAction::Acquire(g));
            assert_sets_equal!(
                partial_grabs(keycode, i as int).insert(g)
                    == partial_grabs(keycode, i + 1),
                x => {
                    lemma_seq_take_contains(mod_variants(), i as int, x.modifiers);
                    lemma_seq_take_contains(mod_variants(), i + 1, x.modifiers);
                }
            );
        }
        i += 1;
    }
    proof {
        assert(acts@ =~= acquire_seq(keycode));
        assert(mod_variants().take(8) =~= mod_variants());
        assert_sets_equal!(
            partial_grabs(keycode, 8) == grab_set_for(keycode),
            x => {
                lemma_seq_take_contains(mod_variants(), 8, x.modifiers);
            }
        );
    }
    acts
}

/// Rebinding: release every grab of the previous keycode, then acquire
/// every combination for the new one. Starting from exactly the previous
/// keycode's grabs, the instructions leave grabbed exactly the new
/// keycode's combinations — none of the previous keycode's remain.
pub fn rebind_actions(old_keycode: u32, new_keycode: u32) -> (acts: Vec<GrabAction>)
    ensures
        acts@ == release_seq(old_keycode) + acquire_seq(new_keycode),
        apply_grab_actions(grab_set_for(old_keycode), acts@) == grab_set_for(new_keycode),
{
    let mut acts = release_all_actions(old_keycode);
    let ghost rel = acts@;
    let mut acq = acquire_all_actions(new_keycode);
    let ghost acqs = acq@;
    let mut k: usize = 0;
    while k < acq.len()
        invariant
            k <= acqs.len(),
            acq@ == acqs,
            acts@ =~= rel + acqs.take(k as int),
        decreases acqs.len() - k,
    {
        proof {
            assert(rel + acqs.take(k + 1) =~= (rel + acqs.take(k as int)).push(acqs[k as int]));
        }
        acts.push(acq[k]);
        k += 1;
    }
    proof {
        assert(acqs.take(acqs.len() as int) =~= acqs);
        assert(acts@ =~= rel + acqs);
        lemma_apply_grab_actions_concat(grab_set_for(old_keycode), rel, acqs);
    }
    acts
}

/// No combination of a different keycode belongs to the new keycode's
/// grabs: with the rebinding law above, nothing of the previous keycode
/// stays grabbed after a rebind.
pub proof fn lemma_new_grabs_exclude_old(old_keycode: u32, new_keycode: u32, g: KeyGrab)
    requires
        old_keycode != new_keycode,
        g.keycode == old_keycode,
    ensures
        !grab_set_for(new_keycode).contains(g),
{
}

/// The watcher's mutable state: the keycode whose grabs it holds.
pub struct WatcherState {
    pub keycode: u32,
}

/// A raw input event as the display hands it out.
#[derive(Clone, Copy, Debug, PartialEq, Eq, Structural)]
pub struct InputEvent {
    /// Was this a key-press event (as opposed to any other kind)?
    pub is_key_press: bool,
    /// The hardware keycode the event carries.
    pub keycode: u32,
}

/// What one poll cycle decided.
pub struct WatcherStep {
    /// Grab instructions to execute, in order.
    pub actions: Vec<GrabAction>,
    /// Flip the "active" flag?
    pub toggle: bool,
    /// No event was queued: sleep briefly before polling again.
    pub idle: bool,
}

/// The keycode the watcher holds after seeing a resolution result:
/// a fresh resolution replaces it, a failed one leaves it (and is retried
/// next cycle).
pub open spec fn next_keycode(cur: u32, resolved: Option<u32>) -> u32 {
    match resolved {
        Some(nk) => nk,
        None => cur,
    }
}

/// Does this event toggle the run flag: a key press on the grabbed keycode?
pub open spec fn event_toggles(keycode: u32, event: Option<InputEvent>) -> bool {
    match event {
        Some(e) => e.is_key_press && e.keycode == keycode,
        None => false,
    }
}

/// One poll cycle of the watcher. `resolved` is what the display made of
/// the configured shortcut text this cycle (`None`: unresolvable, keep the
/// old binding and retry); `event` is the one queued input event, if any.
/// The grab instructions turn the previous keycode's grabs into exactly
/// the current keycode's grabs, and the toggle decision matches a key
/// press on the (freshly rebound) keycode.
pub fn watcher_step(st: &mut WatcherState, resolved: Option<u32>, event: Option<InputEvent>) -> (r:
    WatcherStep)
    ensures
        final(st).keycode == next_keycode(old(st).keycode, resolved),
        apply_grab_actions(grab_set_for(old(st).keycode), r.actions@) == grab_set_for(
            final(st).keycode,
        ),
        r.actions@ == (match resolved {
            Some(nk) => if nk != old(st).keycode {
                release_seq(old(st).keycode) + acquire_seq(nk)
            } else {
                Seq::<GrabAction>::empty()
            },
            None => Seq::<GrabAction>::empty(),
        }),
        r.toggle == event_toggles(final(st).keycode, event),
        r.idle == (event is None),
{
    let mut actions: Vec<GrabAction> = Vec::new();
    match resolved {
        Some(nk) => {
            if nk != st.keycode {
                actions = rebind_actions(st.keycode, nk);
            }
            st.keycode = nk;
        },
        None => {},
    }
    let toggle = match event {
        Some(e) => e.is_key_press && e.keycode == st.keycode,
        None => false,
    };
    let idle = match event {
        Some(_) => false,
        None => true,
    };
    WatcherStep { actions, toggle, idle }
}

/// Why the watcher cannot start.
#[derive(Clone, Copy, Debug, PartialEq, Eq, Structural)]
pub enum WatcherInitError {
    /// The configured shortcut text resolved to no keycode.
    ShortcutUnresolved,
}

/// Starting the watcher: the first resolution of the shortcut text is
/// required to succeed (failure is fatal to the watcher), and the initial
/// instructions grab every combination for the resolved keycode.
pub fn watcher_init(resolved: Option<u32>) -> (r: Result<
    (WatcherState, Vec<GrabAction>),
    WatcherInitError,
>)
    ensures
        r is Ok <==> resolved is Some,
        r matches Ok((st, acts)) ==> st.keycode == resolved->0 && acts@ == acquire_seq(st.keycode)
            && apply_grab_actions(Set::<KeyGrab>::empty(), acts@) == grab_set_for(st.keycode),
        r matches Err(e) ==> e == WatcherInitError::ShortcutUnresolved,
{
    match resolved {
        Some(k) => {
            let acts = acquire_all_actions(k);
            Ok((WatcherState { keycode: k }, acts))
        },
        None => Err(WatcherInitError::ShortcutUnresolved),
    }
}

/// On termination the watcher releases everything: starting from its
/// current grabs, the instructions leave nothing grabbed.
pub fn watcher_shutdown(st: &WatcherState) -> (acts: Vec<GrabAction>)
    ensures
        acts@ == release_seq(st.keycode),
        apply_grab_actions(grab_set_for(st.keycode), acts@) == Set::<KeyGrab>::empty(),
{
    release_all_actions(st.keycode)
}

} // verus!
