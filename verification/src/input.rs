//! The sixteen-key keypad: which keys are held down, in the order in which
//! they went down, and the key transitions that have arrived but have not
//! been looked at yet.

use std::collections::VecDeque;
use vstd::prelude::*;

verus! {

/// One key of the hexadecimal keypad.
#[derive(Clone, Copy, PartialEq, Eq, Structural, Debug)]
pub enum Key {
    Zero,
    One,
    Two,
    Three,
    Four,
    Five,
    Six,
    Seven,
    Eight,
    Nine,
    A,
    B,
    C,
    D,
    E,
    F,
}

/// A physical key of the host keyboard, as far as the keypad tells them
/// apart: the ten digits of the number pad, the letters A to F, and
/// everything else.
#[derive(Clone, Copy, PartialEq, Eq, Structural, Debug)]
pub enum KeyCode {
    Numpad0,
    Numpad1,
    Numpad2,
    Numpad3,
    Numpad4,
    Numpad5,
    Numpad6,
    Numpad7,
    Numpad8,
    Numpad9,
    KeyA,
    KeyB,
    KeyC,
    KeyD,
    KeyE,
    KeyF,
    Other,
}

/// Whether a key wait is under way and, if so, which key was the first one
/// held down when it began.
#[derive(Clone, Copy, PartialEq, Eq, Structural, Debug)]
pub enum KeyWait {
    Idle,
    Waiting { first: Option<Key> },
}

/// What a keypad holds at one moment.
#[verifier::ext_equal]
pub struct Keypad {
    /// The keys held down, earliest press first.
    pub pressed: Seq<Key>,
    /// The transitions that have arrived and are not applied yet, in arrival
    /// order; `true` is a press.
    pub queued: Seq<(Key, bool)>,
    /// The key wait under way, if any.
    pub wait: KeyWait,
}

/// How far a key wait gets on the transitions at hand.
#[verifier::ext_equal]
pub struct WaitOutcome {
    /// The keys held down when the wait stops.
    pub pressed: Seq<Key>,
    /// The transitions that the wait left untouched.
    pub queued: Seq<(Key, bool)>,
    /// The key that ended the wait, or nothing when the transitions ran out.
    pub key: Option<Key>,
}

/// The keypad as the processor sees it: the keys held down, and the
/// transitions that the keyboard has sent and that no instruction has looked
/// at yet.
pub struct InpuState {
    /// The state of all the keys that are pressed/releasd
    /// at the current moment.
    registry_stack: Vec<Key>,
    /// The transitions that came from the keyboard and wait to be applied.
    queue: VecDeque<(Key, bool)>,
    wait: KeyWait,
}

/// The number that a key stands for.
pub open spec fn key_value(key: Key) -> u8 {
    match key {
        Key::Zero => 0x0,
        Key::One => 0x1,
        Key::Two => 0x2,
        Key::Three => 0x3,
        Key::Four => 0x4,
        Key::Five => 0x5,
        Key::Six => 0x6,
        Key::Seven => 0x7,
        Key::Eight => 0x8,
        Key::Nine => 0x9,
        Key::A => 0xA,
        Key::B => 0xB,
        Key::C => 0xC,
        Key::D => 0xD,
        Key::E => 0xE,
        Key::F => 0xF,
    }
}

/// The key that stands for `value`, if there is one.
pub open spec fn key_of(value: u8) -> Option<Key> {
    if value == 0x0 {
        Some(Key::Zero)
    } else if value == 0x1 {
        Some(Key::One)
    } else if value == 0x2 {
        Some(Key::Two)
    } else if value == 0x3 {
        Some(Key::Three)
    } else if value == 0x4 {
        Some(Key::Four)
    } else if value == 0x5 {
        Some(Key::Five)
    } else if value == 0x6 {
        Some(Key::Six)
    } else if value == 0x7 {
        Some(Key::Seven)
    } else if value == 0x8 {
        Some(Key::Eight)
    } else if value == 0x9 {
        Some(Key::Nine)
    } else if value == 0xA {
        Some(Key::A)
    } else if value == 0xB {
        Some(Key::B)
    } else if value == 0xC {
        Some(Key::C)
    } else if value == 0xD {
        Some(Key::D)
    } else if value == 0xE {
        Some(Key::E)
    } else if value == 0xF {
        Some(Key::F)
    } else {
        None
    }
}

/// The keypad key that a physical key stands for, if any.
pub open spec fn keypad_key(code: KeyCode) -> Option<Key> {
    match code {
        KeyCode::Numpad0 => Some(Key::Zero),
        KeyCode::Numpad1 => Some(Key::One),
        KeyCode::Numpad2 => Some(Key::Two),
        KeyCode::Numpad3 => Some(Key::Three),
        KeyCode::Numpad4 => Some(Key::Four),
        KeyCode::Numpad5 => Some(Key::Five),
        KeyCode::Numpad6 => Some(Key::Six),
        KeyCode::Numpad7 => Some(Key::Seven),
        KeyCode::Numpad8 => Some(Key::Eight),
        KeyCode::Numpad9 => Some(Key::Nine),
        KeyCode::KeyA => Some(Key::A),
        KeyCode::KeyB => Some(Key::B),
        KeyCode::KeyC => Some(Key::C),
        KeyCode::KeyD => Some(Key::D),
        KeyCode::KeyE => Some(Key::E),
        KeyCode::KeyF => Some(Key::F),
        KeyCode::Other => None,
    }
}

/// The test that keeps every key but `key`.
pub open spec fn other_than(key: Key) -> spec_fn(Key) -> bool {
    |k: Key| k != key
}

/// The keys held down after one transition of `key`: a press is added at the
/// end, a release takes every occurrence of the key away and keeps the
/// others in their order.
pub open spec fn updated(pressed: Seq<Key>, key: Key, down: bool) -> Seq<Key> {
    if down {
        pressed.push(key)
    } else {
        pressed.filter(other_than(key))
    }
}

/// The keys held down after all of `events`, applied in arrival order.
pub open spec fn updated_by_all(pressed: Seq<Key>, events: Seq<(Key, bool)>) -> Seq<Key>
    decreases events.len(),
{
    if events.len() == 0 {
        pressed
    } else {
        updated_by_all(updated(pressed, events[0].0, events[0].1), events.drop_first())
    }
}

/// The key that went down earliest among those held, if any is held.
pub open spec fn first_pressed(pressed: Seq<Key>) -> Option<Key> {
    if pressed.len() > 0 {
        Some(pressed[0])
    } else {
        None
    }
}

/// The course of a key wait that began when `first` was the earliest key
/// held: transitions are applied one by one, and the wait ends with the first
/// of them after which some key is the earliest one held and differs from
/// `first`.
pub open spec fn wait_outcome(pressed: Seq<Key>, queued: Seq<(Key, bool)>, first: Option<Key>) -> WaitOutcome
    decreases queued.len(),
{
    if queued.len() == 0 {
        WaitOutcome { pressed, queued, key: None }
    } else {
        let next = updated(pressed, queued[0].0, queued[0].1);
        let now = first_pressed(next);
        if now is Some && now != first {
            WaitOutcome { pressed: next, queued: queued.drop_first(), key: now }
        } else {
            wait_outcome(next, queued.drop_first(), first)
        }
    }
}

/// The key held earliest at the start of the wait that `keypad` is in, or
/// would begin now.
pub open spec fn wait_reference(keypad: Keypad) -> Option<Key> {
    match keypad.wait {
        KeyWait::Waiting { first } => first,
        KeyWait::Idle => first_pressed(keypad.pressed),
    }
}

impl Keypad {
    /// A keypad with no key held, nothing queued and no wait under way.
    pub open spec fn idle() -> Keypad {
        Keypad { pressed: Seq::empty(), queued: Seq::empty(), wait: KeyWait::Idle }
    }

    /// The keypad after one more transition has arrived.
    pub open spec fn enqueued(self, key: Key, down: bool) -> Keypad {
        Keypad { queued: self.queued.push((key, down)), ..self }
    }

    /// The keypad after one transition has been applied directly.
    pub open spec fn applied(self, key: Key, down: bool) -> Keypad {
        Keypad { pressed: updated(self.pressed, key, down), ..self }
    }

    /// The keypad after every queued transition has been applied.
    pub open spec fn received(self) -> Keypad {
        Keypad { pressed: updated_by_all(self.pressed, self.queued), queued: Seq::empty(), ..self }
    }

    /// The same keypad with a wait open that began when `first` was the
    /// earliest key held.
    pub open spec fn waiting_since(self, first: Option<Key>) -> Keypad {
        Keypad { wait: KeyWait::Waiting { first }, ..self }
    }

    /// The key that a wait on this keypad hands out now, if the queued
    /// transitions suffice to end it.
    pub open spec fn awaited_key(self) -> Option<Key> {
        wait_outcome(self.pressed, self.queued, wait_reference(self)).key
    }

    /// The keypad after a wait has gone as far as the queued transitions
    /// allow: the wait is over if a key was handed out and stays open
    /// otherwise.
    pub open spec fn waited(self) -> Keypad {
        let first = wait_reference(self);
        let outcome = wait_outcome(self.pressed, self.queued, first);
        Keypad {
            pressed: outcome.pressed,
            queued: outcome.queued,
            wait: if outcome.key is Some {
                KeyWait::Idle
            } else {
                KeyWait::Waiting { first }
            },
        }
    }
}

impl View for InpuState {
    type V = Keypad;

    closed spec fn view(&self) -> Keypad {
        Keypad { pressed: self.registry_stack@, queued: self.queue@, wait: self.wait }
    }
}

impl Key {
    /// The keypad key for a physical key; keys outside the keypad give none.
    pub fn from_key_code(key: KeyCode) -> (found: Option<Key>)
        ensures
            found == keypad_key(key),
    {
        Some(
            match key {
                KeyCode::Numpad0 => Key::Zero,
                KeyCode::Numpad1 => Key::One,
                KeyCode::Numpad2 => Key::Two,
                KeyCode::Numpad3 => Key::Three,
                KeyCode::Numpad4 => Key::Four,
                KeyCode::Numpad5 => Key::Five,
                KeyCode::Numpad6 => Key::Six,
                KeyCode::Numpad7 => Key::Seven,
                KeyCode::Numpad8 => Key::Eight,
                KeyCode::Numpad9 => Key::Nine,
                KeyCode::KeyA => Key::A,
                KeyCode::KeyB => Key::B,
                KeyCode::KeyC => Key::C,
                KeyCode::KeyD => Key::D,
                KeyCode::KeyE => Key::E,
                KeyCode::KeyF => Key::F,
                KeyCode::Other => {
                    return None;
                },
            },
        )
    }
}

impl TryFrom<u8> for Key {
    type Error = ();

    fn try_from(value: u8) -> (key: Result<Key, ()>) {
        Ok(
            match value {
                0x0 => Key::Zero,
                0x1 => Key::One,
                0x2 => Key::Two,
                0x3 => Key::Three,
                0x4 => Key::Four,
                0x5 => Key::Five,
                0x6 => Key::Six,
                0x7 => Key::Seven,
                0x8 => Key::Eight,
                0x9 => Key::Nine,
                0xA => Key::A,
                0xB => Key::B,
                0xC => Key::C,
                0xD => Key::D,
                0xE => Key::E,
                0xF => Key::F,
                _ => {
                    return Err(());
                },
            },
        )
    }
}

impl vstd::std_specs::convert::TryFromSpecImpl<u8> for Key {
    open spec fn obeys_try_from_spec() -> bool {
        true
    }

    open spec fn try_from_spec(value: u8) -> Result<Key, ()> {
        match key_of(value) {
            Some(key) => Ok(key),
            None => Err(()),
        }
    }
}

impl From<Key> for u8 {
    fn from(key: Key) -> (value: u8) {
        match key {
            Key::Zero => 0x0,
            Key::One => 0x1,
            Key::Two => 0x2,
            Key::Three => 0x3,
            Key::Four => 0x4,
            Key::Five => 0x5,
            Key::Six => 0x6,
            Key::Seven => 0x7,
            Key::Eight => 0x8,
            Key::Nine => 0x9,
            Key::A => 0xA,
            Key::B => 0xB,
            Key::C => 0xC,
            Key::D => 0xD,
            Key::E => 0xE,
            Key::F => 0xF,
        }
    }
}

impl vstd::std_specs::convert::FromSpecImpl<Key> for u8 {
    open spec fn obeys_from_spec() -> bool {
        true
    }

    open spec fn from_spec(key: Key) -> u8 {
        key_value(key)
    }
}

impl InpuState {
    /// A keypad with no key held and nothing waiting to be applied.
    pub fn new() -> (state: InpuState)
        ensures
            state@ == Keypad::idle(),
    {
        InpuState { registry_stack: Vec::with_capacity(16), queue: VecDeque::new(), wait: KeyWait::Idle }
    }

    /// Takes in a key transition as it arrives from the keyboard. It is
    /// applied later, after all that arrived before it.
    pub fn enqueue(&mut self, key: Key, pressed: bool)
        ensures
            final(self)@ == old(self)@.enqueued(key, pressed),
    {
        self.queue.push_back((key, pressed));
    }

    /// Updates, according to the keypresses
    pub fn update(&mut self, key: Key, pressed: bool)
        ensures
            final(self)@ == old(self)@.applied(key, pressed),
    {
        if pressed {
            self.registry_stack.push(key);
        } else {
            let mut kept: Vec<Key> = Vec::new();
            let mut i: usize = 0;
            while i < self.registry_stack.len()
                invariant
                    i <= self.registry_stack@.len(),
                    self.registry_stack@ == old(self).registry_stack@,
                    self.queue@ == old(self).queue@,
                    self.wait == old(self).wait,
                    kept@ == self.registry_stack@.take(i as int).filter(other_than(key)),
                decreases self.registry_stack@.len() - i,
            {
                let held = self.registry_stack[i];
                proof {
                    let seen = self.registry_stack@.take(i as int);
                    assert(self.registry_stack@.take(i + 1) =~= seen.push(held));
                    seen.lemma_filter_push(held, other_than(key));
                }
                if held != key {
                    kept.push(held);
                }
                i += 1;
            }
            assert(self.registry_stack@.take(i as int) =~= self.registry_stack@);
            self.registry_stack = kept;
        }
    }

    /// Fills the buffer with the keypresses that happend recently: every
    /// transition that has arrived is applied, in arrival order.
    pub fn receive_keys(&mut self)
        ensures
            final(self)@ == old(self)@.received(),
    {
        while self.queue.len() > 0
            invariant
                self.wait == old(self).wait,
                updated_by_all(self.registry_stack@, self.queue@) == updated_by_all(
                    old(self).registry_stack@,
                    old(self).queue@,
                ),
            decreases self.queue@.len(),
        {
            let event = self.queue.pop_front();
            match event {
                Some((key, pressed)) => {
                    self.update(key, pressed);
                },
                None => {},
            }
        }
    }

    /// Goes on with the key wait that is under way, or begins one: the
    /// transitions that have arrived are applied one by one until the
    /// earliest key held is a key other than the one that was earliest
    /// when the wait began. That key is handed out and the wait is over.
    /// When the transitions run out first, nothing is handed out and the wait
    /// stays open: call again once more transitions have come in.
    pub fn wait_for_key(&mut self) -> (key: Option<Key>)
        ensures
            key == old(self)@.awaited_key(),
            final(self)@ == old(self)@.waited(),
    {
        let current_pressed = match self.wait {
            KeyWait::Waiting { first } => first,
            KeyWait::Idle => self.first(),
        };
        self.wait = KeyWait::Waiting { first: current_pressed };
        while self.queue.len() > 0
            invariant
                current_pressed == wait_reference(old(self)@),
                self.wait == (KeyWait::Waiting { first: current_pressed }),
                wait_outcome(self.registry_stack@, self.queue@, current_pressed) == wait_outcome(
                    old(self).registry_stack@,
                    old(self).queue@,
                    current_pressed,
                ),
            decreases self.queue@.len(),
        {
            let event = self.queue.pop_front();
            match event {
                Some((key, pressed)) => {
                    self.update(key, pressed);
                    let new_press = self.first();
                    match new_press {
                        Some(found) => {
                            if new_press != current_pressed {
                                self.wait = KeyWait::Idle;
                                return Some(found);
                            }
                        },
                        None => {},
                    }
                },
                None => {},
            }
        }
        None
    }

    /// Whether `key` is among the keys held down.
    pub fn is_pressed(&self, key: Key) -> (held: bool)
        ensures
            held == self@.pressed.contains(key),
    {
        let mut i: usize = 0;
        while i < self.registry_stack.len()
            invariant
                i <= self.registry_stack@.len(),
                forall|j: int| 0 <= j < i ==> self.registry_stack@[j] != key,
            decreases self.registry_stack@.len() - i,
        {
            if self.registry_stack[i] == key {
                return true;
            }
            i += 1;
        }
        false
    }

    /// The key that went down earliest among those held.
    fn first(&self) -> (key: Option<Key>)
        ensures
            key == first_pressed(self.registry_stack@),
    {
        if self.registry_stack.len() > 0 {
            Some(self.registry_stack[0])
        } else {
            None
        }
    }
}

/// A keypad on which no key is held and no wait is under way, and to which a
/// press of `a` has arrived, followed by `rest`.
pub open spec fn first_press_queued(a: Key, rest: Seq<(Key, bool)>) -> Keypad {
    Keypad { pressed: Seq::empty(), queued: seq![(a, true)] + rest, wait: KeyWait::Idle }
}

/// With no key held, a wait ends with the first press that arrives, whatever
/// arrives after it: of a press of `a` followed by a press of `b`, the wait
/// hands out `a` and leaves the press of `b` where it was.
pub proof fn lemma_wait_takes_first_press(a: Key, rest: Seq<(Key, bool)>)
    ensures
        first_press_queued(a, rest).awaited_key() == Some(a),
        first_press_queued(a, rest).waited() == (Keypad { pressed: seq![a], queued: rest, wait: KeyWait::Idle }),
{
    let queued = seq![(a, true)] + rest;
    assert(queued.drop_first() =~= rest);
    assert(updated(Seq::empty(), a, true) =~= seq![a]);
}

/// A wait that finds no transition queued hands out nothing and stays open,
/// holding on to the key that was earliest when it began.
pub proof fn lemma_wait_stays_open(keypad: Keypad)
    requires
        keypad.queued.len() == 0,
    ensures
        keypad.awaited_key() is None,
        keypad.waited() == keypad.waiting_since(wait_reference(keypad)),
{
}

/// A release leaves no occurrence of the key behind and keeps every other
/// key that was held.
pub proof fn lemma_release_removes_key(pressed: Seq<Key>, key: Key)
    ensures
        !updated(pressed, key, false).contains(key),
        forall|other: Key| other != key && pressed.contains(other) ==> updated(pressed, key, false).contains(other),
{
    let kept = pressed.filter(other_than(key));
    if kept.contains(key) {
        let i = choose|i: int| 0 <= i < kept.len() && kept[i] == key;
        pressed.lemma_filter_pred(other_than(key), i);
    }
    assert forall|other: Key| other != key && pressed.contains(other) implies kept.contains(other) by {
        let i = choose|i: int| 0 <= i < pressed.len() && pressed[i] == other;
        pressed.lemma_filter_contains(other_than(key), i);
    }
}

/// Each keypad key belongs to exactly one physical key.
pub proof fn lemma_key_codes_match_keys(key: Key)
    ensures
        exists|code: KeyCode| keypad_key(code) == Some(key),
        forall|c: KeyCode, d: KeyCode| keypad_key(c) == Some(key) && keypad_key(d) == Some(key) ==> c == d,
{
    let code = match key {
        Key::Zero => KeyCode::Numpad0,
        Key::One => KeyCode::Numpad1,
        Key::Two => KeyCode::Numpad2,
        Key::Three => KeyCode::Numpad3,
        Key::Four => KeyCode::Numpad4,
        Key::Five => KeyCode::Numpad5,
        Key::Six => KeyCode::Numpad6,
        Key::Seven => KeyCode::Numpad7,
        Key::Eight => KeyCode::Numpad8,
        Key::Nine => KeyCode::Numpad9,
        Key::A => KeyCode::KeyA,
        Key::B => KeyCode::KeyB,
        Key::C => KeyCode::KeyC,
        Key::D => KeyCode::KeyD,
        Key::E => KeyCode::KeyE,
        Key::F => KeyCode::KeyF,
    };
    assert(keypad_key(code) == Some(key));
}

/// A key and its number determine each other.
pub proof fn lemma_key_value_round_trip(key: Key, value: u8)
    ensures
        key_of(key_value(key)) == Some(key),
        key_value(key) <= 0xF,
        key_of(value) is Some <==> value <= 0xF,
        key_of(value) matches Some(k) ==> key_value(k) == value,
{
}

} // verus!
