//! The input-state channel: the data the event thread publishes and the
//! render thread reads once per frame.
//!
//! Three independent cells — the set of currently held keys, the accumulated
//! mouse delta, and the latest window size with its changed flag — plus the
//! event thread's dispatch step. The cells are plain values; the surrounding
//! binary wraps each in its own lock and may skip a cell for a frame when a
//! lock is contended (bounded staleness), which these transition functions
//! are indifferent to.

use vstd::prelude::*;

use crate::transform::{clamp_i64, sat_add_i64};
use crate::watchdog::Health;

verus! {

/// Key identifier the core binds: translate left.
pub const KEY_A: u32 = 0;

/// Key identifier the core binds: translate right.
pub const KEY_D: u32 = 1;

/// Key identifier the core binds: translate up.
pub const KEY_LSHIFT: u32 = 2;

/// Key identifier the core binds: translate down.
pub const KEY_SPACE: u32 = 3;

/// Key identifier the core binds: translate forward.
pub const KEY_W: u32 = 4;

/// Key identifier the core binds: translate back.
pub const KEY_S: u32 = 5;

/// Key identifier the core binds: pitch down.
pub const KEY_DOWN: u32 = 6;

/// Key identifier the core binds: pitch up.
pub const KEY_UP: u32 = 7;

/// Key identifier the core binds: yaw right.
pub const KEY_RIGHT: u32 = 8;

/// Key identifier the core binds: yaw left.
pub const KEY_LEFT: u32 = 9;

/// Key identifier the core binds: quit.
pub const KEY_ESCAPE: u32 = 10;

/// Key identifier the core binds: quit.
pub const KEY_Q: u32 = 11;

/// The set of currently held keys. Insertion on key-down is idempotent;
/// removal on key-up of an absent key is a no-op.
pub struct KeySet {
    keys: Vec<u32>,
}

impl View for KeySet {
    type V = Set<u32>;

    closed spec fn view(&self) -> Set<u32> {
        self.keys@.to_set()
    }
}

impl KeySet {
    /// The backing list holds each key at most once.
    pub closed spec fn wf(&self) -> bool {
        forall|k1: int, k2: int|
            0 <= k1 < k2 < self.keys@.len() ==> #[trigger] self.keys@[k1] != #[trigger] self.keys@[k2]
    }

    /// The empty set: no key is held.
    pub fn new() -> (s: KeySet)
        ensures
            s.wf(),
            s@ =~= Set::<u32>::empty(),
    {
        let s = KeySet { keys: Vec::new() };
        proof {
            assert forall|a: u32| !s@.contains(a) by {
                assert(!s.keys@.contains(a));
            }
        }
        s
    }

    /// Whether the key is currently held.
    pub fn is_pressed(&self, code: u32) -> (b: bool)
        requires
            self.wf(),
        ensures
            b == self@.contains(code),
    {
        let mut k: usize = 0;
        while k < self.keys.len()
            invariant
                k <= self.keys@.len(),
                forall|j: int| 0 <= j < k ==> self.keys@[j] != code,
            decreases self.keys@.len() - k,
        {
            if self.keys[k] == code {
                proof {
                    assert(self.keys@.contains(code));
                }
                return true;
            }
            k = k + 1;
        }
        proof {
            assert(!self.keys@.contains(code));
        }
        false
    }

    /// Key-down: the key becomes held; holding it already changes nothing.
    pub fn key_down(&mut self, code: u32)
        requires
            old(self).wf(),
        ensures
            final(self).wf(),
            final(self)@ =~= old(self)@.insert(code),
    {
        if !self.is_pressed(code) {
            self.keys.push(code);
            proof {
                let ks = old(self).keys@;
                assert forall|a: u32| self.keys@.contains(a) <==> ks.to_set().insert(
                    code,
                ).contains(a) by {
                    if self.keys@.contains(a) {
                        let j = choose|j: int|
                            0 <= j < self.keys@.len() && self.keys@[j] == a;
                        if j < ks.len() {
                            assert(ks[j] == a);
                        }
                    }
                    if a != code && ks.contains(a) {
                        let j = choose|j: int| 0 <= j < ks.len() && ks[j] == a;
                        assert(self.keys@[j] == a);
                    }
                    if a == code {
                        assert(self.keys@[ks.len() as int] == code);
                    }
                }
            }
        } else {
            proof {
                assert(self@.contains(code));
                assert(self@ =~= old(self)@.insert(code));
            }
        }
    }

    /// Key-up: the key stops being held; releasing an absent key changes
    /// nothing.
    pub fn key_up(&mut self, code: u32)
        requires
            old(self).wf(),
        ensures
            final(self).wf(),
            final(self)@ =~= old(self)@.remove(code),
    {
        let mut k: usize = 0;
        while k < self.keys.len()
            invariant
                self.wf(),
                self == old(self),
                k <= self.keys@.len(),
                forall|j: int| 0 <= j < k ==> self.keys@[j] != code,
            decreases self.keys@.len() - k,
        {
            if self.keys[k] == code {
                let ghost ks = self.keys@;
                self.keys.remove(k);
                proof {
                    assert(self.keys@ =~= ks.subrange(0, k as int) + ks.subrange(
                        k as int + 1,
                        ks.len() as int,
                    ));
                    assert forall|j1: int, j2: int|
                        0 <= j1 < j2 < self.keys@.len() implies #[trigger] self.keys@[j1]
                        != #[trigger] self.keys@[j2] by {
                        let m1 = if j1 < k { j1 } else { j1 + 1 };
                        let m2 = if j2 < k { j2 } else { j2 + 1 };
                        assert(self.keys@[j1] == ks[m1] && self.keys@[j2] == ks[m2]);
                    }
                    assert forall|a: u32| self.keys@.contains(a) <==> (ks.to_set().contains(a) && a
                        != code) by {
                        if self.keys@.contains(a) {
                            let j = choose|j: int|
                                0 <= j < self.keys@.len() && self.keys@[j] == a;
                            let m = if j < k { j } else { j + 1 };
                            assert(ks[m] == a);
                            if a == code {
                                assert(ks[k as int] == code);
                            }
                        }
                        if ks.contains(a) && a != code {
                            let j = choose|j: int| 0 <= j < ks.len() && ks[j] == a;
                            if j < k {
                                assert(self.keys@[j] == a);
                            } else {
                                assert(j != k);
                                assert(self.keys@[j - 1] == a);
                            }
                        }
                    }
                    assert(self@ =~= old(self)@.remove(code));
                }
                return ;
            }
            k = k + 1;
        }
        proof {
            assert(!self.keys@.contains(code));
            assert(self@ =~= old(self)@.remove(code));
        }
    }

    /// A copy of the held keys, each exactly once, in the order they went
    /// down.
    pub fn held(&self) -> (v: Vec<u32>)
        requires
            self.wf(),
        ensures
            v@.to_set() =~= self@,
            forall|k1: int, k2: int|
                0 <= k1 < k2 < v@.len() ==> #[trigger] v@[k1] != #[trigger] v@[k2],
    {
        let mut out: Vec<u32> = Vec::new();
        let mut k: usize = 0;
        while k < self.keys.len()
            invariant
                k <= self.keys@.len(),
                out@ =~= self.keys@.subrange(0, k as int),
            decreases self.keys@.len() - k,
        {
            out.push(self.keys[k]);
            k = k + 1;
        }
        proof {
            assert(out@ =~= self.keys@);
        }
        out
    }
}

/// One key-set transition, as a value: key-down inserts, key-up removes.
pub open spec fn key_step(s: Set<u32>, pressed: bool, code: u32) -> Set<u32> {
    if pressed {
        s.insert(code)
    } else {
        s.remove(code)
    }
}

/// A run of key-down/key-up transitions for one key, folded left to right
/// over the flags (`true` is down).
pub open spec fn key_run(s: Set<u32>, code: u32, events: Seq<bool>) -> Set<u32>
    decreases events.len(),
{
    if events.len() == 0 {
        s
    } else {
        key_step(key_run(s, code, events.drop_last()), events.last(), code)
    }
}

/// Key-set correctness: after any interleaving of down/up transitions on one
/// key, the key is held exactly when the last transition was a down — in
/// particular duplicate downs are no-ops — and for a strictly alternating
/// run that starts with a down, that is exactly the parity of the number of
/// transitions: an odd count leaves the key held, an even count absent.
pub proof fn lemma_key_parity(s: Set<u32>, code: u32, events: Seq<bool>)
    requires
        !s.contains(code),
    ensures
        key_run(s, code, events).contains(code) <==> (events.len() > 0 && events.last()),
        (forall|j: int| 0 <= j < events.len() ==> events[j] == (j % 2 == 0)) ==> (key_run(
            s,
            code,
            events,
        ).contains(code) <==> events.len() % 2 == 1),
    decreases events.len(),
{
    if events.len() > 0 {
        lemma_key_parity(s, code, events.drop_last());
    }
}

/// A key-set transition touches no other key.
pub proof fn lemma_key_step_frame(s: Set<u32>, pressed: bool, code: u32, other: u32)
    requires
        other != code,
    ensures
        key_step(s, pressed, code).contains(other) == s.contains(other),
{
}

/// The accumulated relative mouse motion since the render thread last
/// consumed it, in milli-pixels.
#[derive(Clone, Copy, Debug, PartialEq, Eq, Structural)]
pub struct MouseState {
    pub dx: i64,
    pub dy: i64,
}

/// What consuming the accumulator yields and leaves: the whole accumulated
/// delta comes out, exactly zero stays.
pub open spec fn consume_spec(m: MouseState) -> (MouseState, MouseState) {
    (m, MouseState { dx: 0, dy: 0 })
}

impl MouseState {
    /// An empty accumulator.
    pub fn new() -> (m: MouseState)
        ensures
            m == (MouseState { dx: 0, dy: 0 }),
    {
        MouseState { dx: 0, dy: 0 }
    }

    /// Folds one relative motion into the accumulator (saturating at the
    /// ends of `i64`, which no real mouse reaches).
    pub fn accumulate(&mut self, dx: i64, dy: i64)
        ensures
            final(self).dx == clamp_i64(old(self).dx + dx),
            final(self).dy == clamp_i64(old(self).dy + dy),
    {
        self.dx = sat_add_i64(self.dx, dx);
        self.dy = sat_add_i64(self.dy, dy);
    }

    /// Consume-then-zero: returns everything accumulated since the previous
    /// consume and leaves exactly `(0, 0)` behind, one atomic step under the
    /// caller's lock.
    pub fn consume(&mut self) -> (d: (i64, i64))
        ensures
            d == (old(self).dx, old(self).dy),
            *final(self) == consume_spec(*old(self)).1,
    {
        let d = (self.dx, self.dy);
        self.dx = 0;
        self.dy = 0;
        d
    }
}

/// Idempotent consume: consuming twice in succession without intervening
/// writes yields the accumulated value — non-zero whenever anything was
/// accumulated — on the first read and exactly `(0, 0)` on the second.
pub proof fn lemma_consume_idempotent(m: MouseState)
    ensures
        consume_spec(m).0 == m,
        m != (MouseState { dx: 0, dy: 0 }) ==> consume_spec(m).0 != (MouseState { dx: 0, dy: 0 }),
        consume_spec(consume_spec(m).1).0 == (MouseState { dx: 0, dy: 0 }),
        consume_spec(consume_spec(m).1).1 == (MouseState { dx: 0, dy: 0 }),
{
}

/// The latest window size and whether it changed since the render thread
/// last applied it.
#[derive(Clone, Copy, Debug, PartialEq, Eq, Structural)]
pub struct WindowState {
    pub width: u32,
    pub height: u32,
    pub changed: bool,
}

impl WindowState {
    /// The initial window size, not marked changed.
    pub fn new(width: u32, height: u32) -> (w: WindowState)
        ensures
            w == (WindowState { width, height, changed: false }),
    {
        WindowState { width, height, changed: false }
    }

    /// The event thread publishes a resize: latest size wins, flag set.
    pub fn record_resize(&mut self, width: u32, height: u32)
        ensures
            *final(self) == (WindowState { width, height, changed: true }),
    {
        self.width = width;
        self.height = height;
        self.changed = true;
    }

    /// The render thread takes a pending resize, clearing the flag; `None`
    /// when nothing changed since the last take.
    pub fn take_resize(&mut self) -> (r: Option<(u32, u32)>)
        ensures
            old(self).changed ==> r == Some((old(self).width, old(self).height)),
            !old(self).changed ==> r is None,
            *final(self) == (WindowState { changed: false, ..*old(self) }),
    {
        if self.changed {
            self.changed = false;
            Some((self.width, self.height))
        } else {
            None
        }
    }
}

/// One OS event of the closed set the core subscribes to.
#[derive(Clone, Copy, Debug, PartialEq, Eq, Structural)]
pub enum InputEvent {
    /// Key-down (`pressed`) or key-up of the key with identifier `code`.
    Key { pressed: bool, code: u32 },
    /// Relative mouse motion, in milli-pixels.
    MouseMotion { dx: i64, dy: i64 },
    /// The window is now `width` by `height` pixels.
    Resized { width: u32, height: u32 },
    /// The user asked to close the window.
    CloseRequested,
}

/// Whether dispatching `event` under health state `health` must end the
/// event loop: always once the watchdog reports the render thread gone,
/// on a close request, and on either quit key (down or up alike).
pub open spec fn exit_decision(health: Health, event: InputEvent) -> bool {
    ||| health is Stopped
    ||| event is CloseRequested
    ||| (event matches InputEvent::Key { code, .. } && (code == KEY_ESCAPE || code == KEY_Q))
}

/// The event thread's step: folds one OS event into the shared cells and
/// says whether the loop must end. Exactly the touched cell changes: a key
/// event steps the key set, motion accumulates into the mouse cell, a
/// resize overwrites the window cell, and a close request touches nothing.
pub fn dispatch_event(
    health: Health,
    keys: &mut KeySet,
    mouse: &mut MouseState,
    window: &mut WindowState,
    event: InputEvent,
) -> (exit: bool)
    requires
        old(keys).wf(),
    ensures
        final(keys).wf(),
        exit == exit_decision(health, event),
        match event {
            InputEvent::Key { pressed, code } => final(keys)@ == key_step(
                old(keys)@,
                pressed,
                code,
            ) && *final(mouse) == *old(mouse) && *final(window) == *old(window),
            InputEvent::MouseMotion { dx, dy } => final(mouse).dx == clamp_i64(old(mouse).dx + dx)
                && final(mouse).dy == clamp_i64(old(mouse).dy + dy) && final(keys)@ == old(keys)@
                && *final(window) == *old(window),
            InputEvent::Resized { width, height } => *final(window) == (WindowState {
                width,
                height,
                changed: true,
            }) && final(keys)@ == old(keys)@ && *final(mouse) == *old(mouse),
            InputEvent::CloseRequested => final(keys)@ == old(keys)@ && *final(mouse) == *old(
                mouse,
            ) && *final(window) == *old(window),
        },
{
    let mut exit = match health {
        Health::Stopped => true,
        Health::Running => false,
    };
    match event {
        InputEvent::Key { pressed, code } => {
            if pressed {
                keys.key_down(code);
            } else {
                keys.key_up(code);
            }
            if code == KEY_ESCAPE || code == KEY_Q {
                exit = true;
            }
        },
        InputEvent::MouseMotion { dx, dy } => {
            mouse.accumulate(dx, dy);
        },
        InputEvent::Resized { width, height } => {
            window.record_resize(width, height);
        },
        InputEvent::CloseRequested => {
            exit = true;
        },
    }
    exit
}

} // verus!
