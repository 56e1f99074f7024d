//! What a scene is told of the input at each frame.

use std::collections::{HashMap, HashSet};
use vstd::prelude::*;

verus! {

/// The code of a physical key, as the windowing layer numbers it.
pub type Scancode = i32;

/// Where the pointer is and which of its buttons are held, as the windowing
/// layer reports it: one bit of `buttons` for each button.
#[derive(Clone, Copy, Debug, PartialEq, Eq, Structural)]
pub struct MouseState {
    pub buttons: u32,
    pub x: i32,
    pub y: i32,
}

/// `HashSet::clone`: a set that holds the same keys.
#[verifier::external_body]
fn clone_keys(keys: &HashSet<Scancode>) -> (copy: HashSet<Scancode>)
    ensures
        copy@ == keys@,
{
    keys.clone()
}

/// The input of one frame, for the active scene to read.
pub struct EngineContext<C> {
    keyboard_down: HashSet<Scancode>,
    keyboard_pressed: HashSet<Scancode>,
    mouse_state: MouseState,
    pub delta_time: u32,
    pub elapsed_time: u64,
    pub controllers: HashMap<u32, C>,
}

impl<C> EngineContext<C> {
    /// The keys that are held at this frame.
    pub closed spec fn keys_down(&self) -> Set<Scancode> {
        self.keyboard_down@
    }

    /// The keys that are held at this frame and were not at the frame before.
    pub closed spec fn keys_pressed(&self) -> Set<Scancode> {
        self.keyboard_pressed@
    }

    /// The pointer at this frame.
    pub closed spec fn pointer(&self) -> MouseState {
        self.mouse_state
    }

    /// What the field `delta_time` holds: the time that the frame stands
    /// for, in milliseconds.
    pub closed spec fn delta(&self) -> u32 {
        self.delta_time
    }

    /// What the field `elapsed_time` holds: the milliseconds since the
    /// engine started.
    pub closed spec fn elapsed(&self) -> u64 {
        self.elapsed_time
    }

    /// What the field `controllers` holds: the connected controllers, by
    /// their instance ids.
    pub closed spec fn connected(&self) -> Map<u32, C> {
        self.controllers@
    }

    /// The input of a frame at which the keys `keyboard_down` are held, of
    /// which `keyboard_pressed` went down at this frame.
    pub fn new(
        keyboard_down: HashSet<Scancode>,
        keyboard_pressed: HashSet<Scancode>,
        delta_time: u32,
        elapsed_time: u64,
        mouse_state: MouseState,
        controllers: HashMap<u32, C>,
    ) -> (context: EngineContext<C>)
        ensures
            context.keys_down() == keyboard_down@,
            context.keys_pressed() == keyboard_pressed@,
            context.delta() == delta_time,
            context.elapsed() == elapsed_time,
            context.pointer() == mouse_state,
            context.connected() == controllers@,
    {
        EngineContext {
            keyboard_down,
            keyboard_pressed,
            delta_time,
            mouse_state,
            elapsed_time,
            controllers,
        }
    }

    /// Whether the key is held.
    pub fn is_key_down(&self, scancode: Scancode) -> (down: bool)
        ensures
            down == self.keys_down().contains(scancode),
    {
        broadcast use vstd::std_specs::hash::group_hash_axioms;

        self.keyboard_down.contains(&scancode)
    }

    /// Whether the key went down at this frame.
    pub fn is_key_pressed(&self, scancode: Scancode) -> (pressed: bool)
        ensures
            pressed == self.keys_pressed().contains(scancode),
    {
        broadcast use vstd::std_specs::hash::group_hash_axioms;

        self.keyboard_pressed.contains(&scancode)
    }

    /// The pointer at this frame.
    pub fn mouse_state(&self) -> (state: &MouseState)
        ensures
            *state == self.pointer(),
    {
        &self.mouse_state
    }
}

impl<C: Clone> Clone for EngineContext<C> {
    fn clone(&self) -> (copy: Self)
        ensures
            copy.keys_down() == self.keys_down(),
            copy.keys_pressed() == self.keys_pressed(),
            copy.pointer() == self.pointer(),
            copy.delta() == self.delta(),
            copy.elapsed() == self.elapsed(),
            copy.connected() == self.connected(),
    {
        EngineContext {
            keyboard_down: clone_keys(&self.keyboard_down),
            keyboard_pressed: clone_keys(&self.keyboard_pressed),
            mouse_state: self.mouse_state,
            delta_time: self.delta_time,
            elapsed_time: self.elapsed_time,
            controllers: self.controllers.clone(),
        }
    }
}

impl<C> Default for EngineContext<C> {
    /// The input of a frame at which nothing is held and no time has passed.
    fn default() -> (context: Self)
        ensures
            context.keys_down() == Set::<Scancode>::empty(),
            context.keys_pressed() == Set::<Scancode>::empty(),
            context.pointer() == (MouseState { buttons: 0, x: 0, y: 0 }),
            context.delta() == 0,
            context.elapsed() == 0,
            context.connected() == Map::<u32, C>::empty(),
    {
        EngineContext {
            keyboard_down: HashSet::new(),
            keyboard_pressed: HashSet::new(),
            mouse_state: MouseState { buttons: 0, x: 0, y: 0 },
            elapsed_time: 0,
            delta_time: 0,
            controllers: HashMap::new(),
        }
    }
}

/// The keys held at the last frame, kept to tell which keys are newly held
/// at the next.
pub struct Keyboard {
    keys_down: HashSet<Scancode>,
}

impl View for Keyboard {
    type V = Set<Scancode>;

    closed spec fn view(&self) -> Set<Scancode> {
        self.keys_down@
    }
}

impl Keyboard {
    /// A keyboard on which nothing was held yet.
    pub fn new() -> (keyboard: Keyboard)
        ensures
            keyboard@ == Set::<Scancode>::empty(),
    {
        Keyboard { keys_down: HashSet::new() }
    }

    /// Takes the keys that are held now and hands back two sets: those keys,
    /// and those among them that were not held at the call before. The keys
    /// held now are remembered for the next call.
    pub fn advance(&mut self, held: &Vec<Scancode>) -> (sets: (HashSet<Scancode>, HashSet<Scancode>))
        ensures
            sets.0@ == held@.to_set(),
            sets.1@ == held@.to_set().difference(old(self)@),
            final(self)@ == held@.to_set(),
    {
        broadcast use vstd::std_specs::hash::group_hash_axioms;

        let mut snapshot: HashSet<Scancode> = HashSet::new();
        let mut remembered: HashSet<Scancode> = HashSet::new();
        let mut newly_pressed: HashSet<Scancode> = HashSet::new();
        let mut index: usize = 0;
        while index < held.len()
            invariant
                index <= held@.len(),
                snapshot@ == held@.take(index as int).to_set(),
                remembered@ == snapshot@,
                newly_pressed@ == snapshot@.difference(self.keys_down@),
            decreases held@.len() - index,
        {
            let code = held[index];
            snapshot.insert(code);
            remembered.insert(code);
            if !self.keys_down.contains(&code) {
                newly_pressed.insert(code);
            }
            proof {
                let before = held@.take(index as int);
                let after = held@.take(index + 1);
                assert(after =~= before.push(code));
                assert forall|k: Scancode| after.to_set().contains(k) <==> (k == code
                    || before.to_set().contains(k)) by {
                    if before.contains(k) {
                        let i = before.index_of(k);
                        assert(after[i] == k);
                    }
                    if k == code {
                        assert(after[index as int] == k);
                    }
                }
                assert(snapshot@ =~= after.to_set());
                assert(newly_pressed@ =~= snapshot@.difference(self.keys_down@));
            }
            index += 1;
        }
        assert(held@.take(index as int) =~= held@);
        self.keys_down = remembered;
        (snapshot, newly_pressed)
    }
}

/// The keys that are newly pressed at the frame `index` of a run of frames
/// with the held keys `frames`, when nothing was held before the run: the
/// keys held at the frame that were not held at the frame before.
pub open spec fn newly_pressed_at(frames: Seq<Set<Scancode>>, index: int) -> Set<Scancode> {
    if index == 0 {
        frames[0]
    } else {
        frames[index].difference(frames[index - 1])
    }
}

/// A key that goes down and stays down is reported as newly pressed once, at
/// the frame at which it went down, and at no later frame while it stays
/// down. A key is never reported at a frame at which it is not held.
pub proof fn lemma_pressed_once(frames: Seq<Set<Scancode>>, key: Scancode, first: int, last: int)
    requires
        0 <= first <= last < frames.len(),
        forall|i: int| first <= i <= last ==> frames[i].contains(key),
        first == 0 || !frames[first - 1].contains(key),
    ensures
        newly_pressed_at(frames, first).contains(key),
        forall|i: int| first < i <= last ==> !newly_pressed_at(frames, i).contains(key),
        forall|i: int|
            0 <= i < frames.len() && !frames[i].contains(key) ==> !newly_pressed_at(
                frames,
                i,
            ).contains(key),
{
}

} // verus!
