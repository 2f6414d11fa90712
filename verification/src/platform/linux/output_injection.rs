//! Bookkeeping of the keys a virtual output device holds down, so that they
//! can be released before the device goes away.

use vstd::prelude::*;
use crate::platform::DeviceError;
use crate::keys::{KeyCode, KeyEvent, event_key};
use crate::platform::linux::keycode_map::{evdev_code, key_of_evdev, evdev_to_keycode, keycode_to_evdev,
    lemma_evdev_roundtrip, lemma_evdev_inverse, lemma_evdev_injective};
use std::collections::HashSet;
use vstd::std_specs::hash::spec_hash_keys_iter;
use vstd::std_specs::iter::IteratorSpec;
use vstd::relations::injective_on;
use vstd::set_lib::lemma_map_size;

verus! {

broadcast use vstd::std_specs::hash::group_hash_axioms;

/// The set of keys currently held (pressed and not yet released) on an
/// output device: a press adds its key, a release removes it.  Each key is
/// kept by its evdev code, which names it exactly.
pub struct HeldKeys {
    codes: HashSet<u16>,
}

/// The key an evdev code in the set stands for.
spec fn key_for(c: u16) -> KeyCode {
    key_of_evdev(c)->0
}

/// Decoding of the stored codes, as a function.
spec fn decode() -> spec_fn(u16) -> KeyCode {
    |c: u16| key_for(c)
}

impl View for HeldKeys {
    type V = Set<KeyCode>;

    closed spec fn view(&self) -> Set<KeyCode> {
        self.codes@.map(decode())
    }
}

/// The held set after injecting `event` into a device holding `held`.
pub open spec fn held_after(held: Set<KeyCode>, event: KeyEvent) -> Set<KeyCode> {
    match event {
        KeyEvent::Press(k) => held.insert(k),
        KeyEvent::Release(k) => held.remove(k),
    }
}

impl HeldKeys {
    /// The stored codes are finitely many, and each is the code of a key.
    pub closed spec fn wf(&self) -> bool {
        &&& self.codes@.finite()
        &&& forall|c: u16| #[trigger] self.codes@.contains(c) ==> key_of_evdev(c) is Some
    }

    /// A key is held exactly when its code is stored.
    proof fn lemma_holds(&self, k: KeyCode)
        requires
            self.wf(),
        ensures
            self@.contains(k) <==> self.codes@.contains(evdev_code(k)),
    {
        lemma_evdev_roundtrip(k);
        if self.codes@.contains(evdev_code(k)) {
            assert(decode()(evdev_code(k)) == k);
        }
        if self@.contains(k) {
            let c = choose|c: u16| self.codes@.contains(c) && decode()(c) == k;
            lemma_evdev_inverse(c, k);
        }
    }

    /// Different stored codes stand for different keys.
    proof fn lemma_decode_injective(&self)
        requires
            self.wf(),
        ensures
            injective_on(decode(), self.codes@),
    {
        assert forall|c1: u16, c2: u16| #[trigger] self.codes@.contains(c1) && #[trigger] self.codes@.contains(c2)
            && decode()(c1) == decode()(c2) implies c1 == c2 by {
            lemma_evdev_inverse(c1, key_for(c1));
            lemma_evdev_inverse(c2, key_for(c2));
        }
    }

    /// An empty set of held keys.
    pub fn new() -> (r: Self)
        ensures
            r@ == Set::<KeyCode>::empty(),
            r.wf(),
    {
        let r = HeldKeys { codes: HashSet::new() };
        assert(r@ =~= Set::<KeyCode>::empty());
        r
    }

    /// Whether `k` is held.
    pub fn contains(&self, k: KeyCode) -> (r: bool)
        requires
            self.wf(),
        ensures
            r == self@.contains(k),
    {
        proof {
            self.lemma_holds(k);
        }
        let code = keycode_to_evdev(k);
        self.codes.contains(&code)
    }

    /// How many keys are held.
    pub fn len(&self) -> (r: usize)
        requires
            self.wf(),
        ensures
            r == self@.len(),
    {
        proof {
            self.lemma_decode_injective();
            lemma_map_size(self.codes@, self@, decode());
        }
        self.codes.len()
    }

    /// Whether no key is held.
    pub fn is_empty(&self) -> (r: bool)
        requires
            self.wf(),
        ensures
            r == (self@ == Set::<KeyCode>::empty()),
    {
        let n = self.len();
        proof {
            self.lemma_decode_injective();
            lemma_map_size(self.codes@, self@, decode());
            lemma_map_size(self.codes@, self@, decode());
            vstd::set_lib::lemma_set_empty_equivalency_len(self@);
        }
        n == 0
    }

    /// Records an injected event: a press holds its key, a release lets it go.
    pub fn record(&mut self, event: KeyEvent)
        requires
            old(self).wf(),
        ensures
            final(self).wf(),
            final(self)@ == held_after(old(self)@, event),
    {
        match event {
            KeyEvent::Press(k) => {
                let code = keycode_to_evdev(k);
                proof {
                    lemma_evdev_roundtrip(k);
                }
                self.codes.insert(code);
                assert forall|x: KeyCode| #[trigger] self@.contains(x) == old(self)@.insert(k).contains(x) by {
                    self.lemma_holds(x);
                    old(self).lemma_holds(x);
                    if x != k {
                        lemma_evdev_roundtrip(x);
                        if evdev_code(x) == evdev_code(k) {
                            lemma_evdev_injective(x, k);
                        }
                    }
                }
                assert(self@ =~= old(self)@.insert(k));
            },
            KeyEvent::Release(k) => {
                let code = keycode_to_evdev(k);
                self.codes.remove(&code);
                assert forall|x: KeyCode| #[trigger] self@.contains(x) == old(self)@.remove(k).contains(x) by {
                    self.lemma_holds(x);
                    old(self).lemma_holds(x);
                    if x != k && evdev_code(x) == evdev_code(k) {
                        lemma_evdev_injective(x, k);
                    }
                }
                assert(self@ =~= old(self)@.remove(k));
            },
        }
    }

    /// Hands out every held key and forgets them; the device then releases
    /// each of them before it is destroyed.
    pub fn take_all(&mut self) -> (r: Vec<KeyCode>)
        requires
            old(self).wf(),
        ensures
            final(self)@ == Set::<KeyCode>::empty(),
            final(self).wf(),
            r@.to_set() == old(self)@,
            r@.no_duplicates(),
    {
        let mut out: Vec<KeyCode> = Vec::new();
        let ghost codes = spec_hash_keys_iter(&self.codes).remaining();
        for c in it: self.codes.iter()
            invariant
                self.wf(),
                out@.len() == it.index(),
                it.seq() == codes,
                codes == spec_hash_keys_iter(&self.codes).remaining(),
                forall|i: int| 0 <= i < out@.len() ==> out@[i] == key_for(*codes[i]),
        {
            let ghost i = it.index();
            assert(codes.unref()[i] == *codes[i]);
            assert(codes.unref().contains(*codes[i]));
            assert(self.codes@.contains(*c));
            match evdev_to_keycode(*c) {
                Some(k) => {
                    out.push(k);
                },
                None => {},
            }
        }
        proof {
            let m = self.codes@;
            assert forall|k: KeyCode| #[trigger] out@.to_set().contains(k) == self@.contains(k) by {
                if out@.to_set().contains(k) {
                    let i = choose|i: int| 0 <= i < out@.len() && out@[i] == k;
                    assert(codes.unref()[i] == *codes[i]);
                    assert(codes.unref().contains(*codes[i]));
                    assert(m.contains(*codes[i]) && decode()(*codes[i]) == k);
                }
                if self@.contains(k) {
                    let c = choose|c: u16| m.contains(c) && decode()(c) == k;
                    assert(codes.unref().to_set().contains(c));
                    let i = choose|i: int| 0 <= i < codes.unref().len() && codes.unref()[i] == c;
                    assert(out@[i] == k);
                    assert(out@.contains(k));
                }
            }
            assert(out@.to_set() =~= self@);
            self.lemma_decode_injective();
            assert forall|i: int, j: int| 0 <= i < out@.len() && 0 <= j < out@.len() && i != j
                implies out@[i] != out@[j] by {
                assert(codes.unref()[i] == *codes[i]);
                assert(codes.unref()[j] == *codes[j]);
                assert(codes.unref().contains(*codes[i]));
                assert(codes.unref().contains(*codes[j]));
                assert(codes.no_duplicates());
                if out@[i] == out@[j] {
                    assert(decode()(*codes[i]) == decode()(*codes[j]));
                    assert(m.contains(*codes[i]) && m.contains(*codes[j]));
                    assert(*codes[i] == *codes[j]);
                    assert(codes[i] == codes[j]);
                }
            }
        }
        self.codes.clear();
        assert(self@ =~= Set::<KeyCode>::empty());
        out
    }
}

/// The lifecycle of a virtual output device as the injector sees it: the
/// keys it holds down and whether it has been destroyed.
pub struct InjectionState {
    held: HeldKeys,
    destroyed: bool,
}

impl InjectionState {
    /// The keys held down by the device.
    pub closed spec fn held_set(&self) -> Set<KeyCode> {
        self.held@
    }

    /// Whether the device has been destroyed.
    pub closed spec fn is_gone(&self) -> bool {
        self.destroyed
    }

    /// The representation is consistent, and a destroyed device holds no key.
    pub closed spec fn wf(&self) -> bool {
        &&& self.held.wf()
        &&& self.destroyed ==> self.held@ == Set::<KeyCode>::empty()
    }

    /// A fresh device: nothing held, not destroyed.
    pub fn new() -> (r: Self)
        ensures
            r.wf(),
            r.held_set() == Set::<KeyCode>::empty(),
            !r.is_gone(),
    {
        InjectionState { held: HeldKeys::new(), destroyed: false }
    }

    /// Whether the device has been destroyed.
    pub fn is_destroyed(&self) -> (r: bool)
        ensures
            r == self.is_gone(),
    {
        self.destroyed
    }

    /// Whether `k` is held down.
    pub fn is_held(&self, k: KeyCode) -> (r: bool)
        requires
            self.wf(),
        ensures
            r == self.held_set().contains(k),
    {
        self.held.contains(k)
    }

    /// Checks that an event may be injected: a destroyed device refuses it.
    pub fn check_inject(&self) -> (r: Result<(), DeviceError>)
        ensures
            r is Ok <==> !self.is_gone(),
            r matches Err(e) ==> e matches DeviceError::InjectionFailed(m) && m@
                == "device has been destroyed"@,
    {
        if self.destroyed {
            Err(DeviceError::InjectionFailed(String::from_str("device has been destroyed")))
        } else {
            Ok(())
        }
    }

    /// Records an event the device delivered: a press holds its key, a
    /// release lets it go.
    pub fn injected(&mut self, event: KeyEvent)
        requires
            old(self).wf(),
            !old(self).is_gone(),
        ensures
            final(self).wf(),
            !final(self).is_gone(),
            final(self).held_set() == held_after(old(self).held_set(), event),
    {
        self.held.record(event);
    }

    /// Destroys the device: hands out the keys to release first (each once)
    /// and forgets them; destroying again hands out nothing.
    pub fn destroy(&mut self) -> (r: Vec<KeyCode>)
        requires
            old(self).wf(),
        ensures
            final(self).wf(),
            final(self).is_gone(),
            final(self).held_set() == Set::<KeyCode>::empty(),
            r@.to_set() == old(self).held_set(),
            r@.no_duplicates(),
            old(self).is_gone() ==> r@.len() == 0,
    {
        if self.destroyed {
            proof {
                assert(Seq::<KeyCode>::empty().to_set() =~= Set::<KeyCode>::empty());
            }
            return Vec::new();
        }
        let r = self.held.take_all();
        self.destroyed = true;
        r
    }
}

/// The held set after a sequence of injected events, starting from `held`.
pub open spec fn held_after_all(held: Set<KeyCode>, events: Seq<KeyEvent>) -> Set<KeyCode>
    decreases events.len(),
{
    if events.len() == 0 {
        held
    } else {
        held_after(held_after_all(held, events.drop_last()), events.last())
    }
}

/// The last event of a sequence on key `k`, if any.
pub open spec fn last_event_on(events: Seq<KeyEvent>, k: KeyCode) -> Option<KeyEvent>
    decreases events.len(),
{
    if events.len() == 0 {
        None
    } else if event_key(events.last()) == k {
        Some(events.last())
    } else {
        last_event_on(events.drop_last(), k)
    }
}

/// After any sequence of injected events on a fresh device, a key is held
/// exactly when its last event was a press; these are the keys a
/// destroyed device releases.
pub proof fn law_held_keys_are_last_pressed(events: Seq<KeyEvent>, k: KeyCode)
    ensures
        held_after_all(Set::<KeyCode>::empty(), events).contains(k) <==> (last_event_on(events, k) matches Some(
            KeyEvent::Press(_),
        )),
    decreases events.len(),
{
    if events.len() > 0 {
        law_held_keys_are_last_pressed(events.drop_last(), k);
    }
}

/// Pressing a key that is not held and releasing it again leaves the held
/// set as it was; pressing a held key again changes nothing.
pub proof fn law_press_release_round_trip(held: Set<KeyCode>, k: KeyCode)
    ensures
        !held.contains(k) ==> held_after(held_after(held, KeyEvent::Press(k)), KeyEvent::Release(k))
            == held,
        held.contains(k) ==> held_after(held, KeyEvent::Press(k)) == held,
        !held_after(held, KeyEvent::Release(k)).contains(k),
        held_after(held, KeyEvent::Press(k)).contains(k),
{
    assert(!held.contains(k) ==> held.insert(k).remove(k) =~= held);
    assert(held.contains(k) ==> held.insert(k) =~= held);
}

} // verus!
