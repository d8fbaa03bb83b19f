//! Shared state between the input task and the render task.
//!
//! Three independent cells — the pressed-key set, the accumulated mouse
//! delta, and the window size with its resize flag — are written by the
//! input task and read by the render task. Each cell is guarded by its own
//! lock outside this library; here each is a plain value with exact update
//! rules, so the per-frame protocol is verified independently of the locks.
//! A health flag, set by a watchdog when the render task dies, makes the
//! event loop shut down on its next poll.

use vstd::prelude::*;

verus! {

// Reserved key bindings, as opaque key identifiers.
pub const KEY_A: u32 = 0;
pub const KEY_D: u32 = 1;
pub const KEY_S: u32 = 2;
pub const KEY_W: u32 = 3;
pub const KEY_SPACE: u32 = 4;
pub const KEY_LSHIFT: u32 = 5;
pub const KEY_LEFT: u32 = 6;
pub const KEY_RIGHT: u32 = 7;
pub const KEY_UP: u32 = 8;
pub const KEY_DOWN: u32 = 9;
pub const KEY_O: u32 = 10;
pub const KEY_C: u32 = 11;
pub const KEY_ESCAPE: u32 = 12;
pub const KEY_Q: u32 = 13;

/// The set of currently held keys, in the order they went down.
pub struct PressedKeys {
    pub keys: Vec<u32>,
}

/// No key is listed twice.
pub open spec fn keys_wf(p: PressedKeys) -> bool {
    forall|i: int, j: int| 0 <= i < j < p.keys@.len()
        ==> #[trigger] p.keys@[i] != #[trigger] p.keys@[j]
}

impl PressedKeys {
    pub fn new() -> (r: PressedKeys)
        ensures
            r.keys@.len() == 0,
            keys_wf(r),
    {
        PressedKeys { keys: Vec::new() }
    }

    pub fn contains(&self, k: u32) -> (r: bool)
        ensures
            r == self.keys@.contains(k),
    {
        let mut i: usize = 0;
        while i < self.keys.len()
            invariant
                0 <= i <= self.keys@.len(),
                forall|j: int| 0 <= j < i ==> self.keys@[j] != k,
            decreases self.keys@.len() - i,
        {
            if self.keys[i] == k {
                assert(self.keys@[i as int] == k);
                return true;
            }
            i += 1;
        }
        assert(!self.keys@.contains(k));
        false
    }

    /// Key-down: insert unless already held.
    pub fn key_down(&mut self, k: u32)
        requires
            keys_wf(*old(self)),
            old(self).keys@.len() < usize::MAX,
        ensures
            keys_wf(*final(self)),
            final(self).keys@.contains(k),
            old(self).keys@.contains(k) ==> final(self).keys@ == old(self).keys@,
            !old(self).keys@.contains(k) ==> final(self).keys@ == old(self).keys@.push(k),
    {
        if !self.contains(k) {
            self.keys.push(k);
            assert(self.keys@[self.keys@.len() - 1] == k);
        }
    }

    /// Key-up: remove the key if it is held; the order of the other keys
    /// is preserved.
    pub fn key_up(&mut self, k: u32)
        requires
            keys_wf(*old(self)),
        ensures
            keys_wf(*final(self)),
            !final(self).keys@.contains(k),
            !old(self).keys@.contains(k) ==> final(self).keys@ == old(self).keys@,
            old(self).keys@.contains(k) ==> (exists|i: int|
                0 <= i < old(self).keys@.len() && old(self).keys@[i] == k
                    && final(self).keys@ == old(self).keys@.remove(i)),
    {
        let len = self.keys.len();
        let mut idx: usize = 0;
        while idx < len
            invariant
                0 <= idx <= len,
                len == self.keys@.len(),
                *self == *old(self),
                keys_wf(*self),
                forall|j: int| 0 <= j < idx ==> self.keys@[j] != k,
            decreases len - idx,
        {
            if self.keys[idx] == k {
                let ghost old_seq = self.keys@;
                self.keys.remove(idx);
                proof {
                    assert(old_seq[idx as int] == k);
                    assert(self.keys@ == old_seq.remove(idx as int));
                    assert forall|a: int, b: int| 0 <= a < b < self.keys@.len()
                        implies #[trigger] self.keys@[a] != #[trigger] self.keys@[b]
                    by {
                        let a0: int = if a < idx { a } else { a + 1 };
                        let b0: int = if b < idx { b } else { b + 1 };
                        assert(self.keys@[a] == old_seq[a0]);
                        assert(self.keys@[b] == old_seq[b0]);
                    }
                    assert forall|j: int| 0 <= j < self.keys@.len()
                        implies #[trigger] self.keys@[j] != k
                    by {
                        let j0: int = if j < idx { j } else { j + 1 };
                        assert(self.keys@[j] == old_seq[j0]);
                        if j0 != idx {
                            if old_seq[j0] == k {
                                assert(old_seq[idx as int] == k);
                            }
                        }
                    }
                    assert(!self.keys@.contains(k)) by {
                        if self.keys@.contains(k) {
                            let w = choose|w: int|
                                0 <= w < self.keys@.len() && self.keys@[w] == k;
                            assert(self.keys@[w] != k);
                        }
                    };
                }
                return;
            }
            idx += 1;
        }
        assert(!self.keys@.contains(k));
    }
}

/// Clamp an unbounded sum back into the machine range.
pub open spec fn sat_i64(v: int) -> int {
    if v > i64::MAX as int {
        i64::MAX as int
    } else if v < i64::MIN as int {
        i64::MIN as int
    } else {
        v
    }
}

fn saturating_add_i64(a: i64, b: i64) -> (r: i64)
    ensures
        r == sat_i64(a + b),
{
    if b >= 0 {
        if a > i64::MAX - b {
            i64::MAX
        } else {
            a + b
        }
    } else {
        if a < i64::MIN - b {
            i64::MIN
        } else {
            a + b
        }
    }
}

/// Mouse movement accumulated since the render loop last looked, in scaled
/// units.
pub struct MouseDelta {
    pub dx: i64,
    pub dy: i64,
}

impl MouseDelta {
    pub fn new() -> (r: MouseDelta)
        ensures
            r.dx == 0 && r.dy == 0,
    {
        MouseDelta { dx: 0, dy: 0 }
    }

    /// Add one motion event's delta; clamped at the machine range.
    pub fn accumulate(&mut self, ddx: i64, ddy: i64)
        ensures
            final(self).dx == sat_i64(old(self).dx + ddx),
            final(self).dy == sat_i64(old(self).dy + ddy),
    {
        self.dx = saturating_add_i64(self.dx, ddx);
        self.dy = saturating_add_i64(self.dy, ddy);
    }

    /// Hand the accumulated delta to the render loop and reset it to zero,
    /// whatever it held: consumption always clears the cell.
    pub fn take(&mut self) -> (r: (i64, i64))
        ensures
            r.0 == old(self).dx,
            r.1 == old(self).dy,
            final(self).dx == 0,
            final(self).dy == 0,
    {
        let r = (self.dx, self.dy);
        self.dx = 0;
        self.dy = 0;
        r
    }
}

/// The window size, and whether a resize is waiting to be applied.
pub struct WindowSize {
    pub width: u32,
    pub height: u32,
    pub dirty: bool,
}

impl WindowSize {
    pub fn new(width: u32, height: u32) -> (r: WindowSize)
        ensures
            r.width == width,
            r.height == height,
            !r.dirty,
    {
        WindowSize { width, height, dirty: false }
    }

    /// The input task records a resize and raises the flag.
    pub fn record_resize(&mut self, width: u32, height: u32)
        ensures
            final(self).width == width,
            final(self).height == height,
            final(self).dirty,
    {
        self.width = width;
        self.height = height;
        self.dirty = true;
    }

    /// The render task drains a pending resize: the new size comes out
    /// exactly when the flag was raised, and the flag is cleared.
    pub fn take_resize(&mut self) -> (r: Option<(u32, u32)>)
        ensures
            old(self).dirty ==> r == Some((old(self).width, old(self).height)),
            !old(self).dirty ==> (r is None),
            !final(self).dirty,
            final(self).width == old(self).width,
            final(self).height == old(self).height,
    {
        if self.dirty {
            self.dirty = false;
            Some((self.width, self.height))
        } else {
            None
        }
    }
}

/// Health of the render task, as seen by the event loop.
pub struct HealthFlag {
    pub healthy: bool,
}

impl HealthFlag {
    pub fn new() -> (r: HealthFlag)
        ensures
            r.healthy,
    {
        HealthFlag { healthy: true }
    }

    /// The watchdog observed the render task's termination. An abnormal end
    /// flips the flag; a clean end leaves it alone.
    pub fn on_render_exit(&mut self, exited_cleanly: bool)
        ensures
            final(self).healthy == (old(self).healthy && exited_cleanly),
    {
        if !exited_cleanly {
            self.healthy = false;
        }
    }
}

/// A window or device event, reduced to plain values.
#[derive(Clone, Copy, PartialEq, Eq, Structural, Debug)]
pub enum InputEvent {
    Resized(u32, u32),
    CloseRequested,
    KeyPressed(u32),
    KeyReleased(u32),
    MouseMoved(i64, i64),
    Other,
}

/// What the event loop should do after handling one event.
#[derive(Clone, Copy, PartialEq, Eq, Structural, Debug)]
pub enum LoopControl {
    KeepRunning,
    Shutdown,
}

/// The event loop's control decision alone: shutdown comes exactly from a
/// dead render task (checked on every poll), a close request, or one of
/// the quit keys. Split out so the caller can make the decision without
/// holding any cell's lock.
pub fn poll_shutdown(health_ok: bool, event: InputEvent) -> (r: LoopControl)
    ensures
        (r == LoopControl::Shutdown) <==> (!health_ok
            || event == InputEvent::CloseRequested
            || event == InputEvent::KeyPressed(KEY_ESCAPE)
            || event == InputEvent::KeyPressed(KEY_Q)),
{
    if !health_ok {
        return LoopControl::Shutdown;
    }
    match event {
        InputEvent::CloseRequested => LoopControl::Shutdown,
        InputEvent::KeyPressed(k) => {
            if k == KEY_ESCAPE || k == KEY_Q {
                LoopControl::Shutdown
            } else {
                LoopControl::KeepRunning
            }
        },
        _ => LoopControl::KeepRunning,
    }
}

/// One iteration of the input task's event loop: update the shared cells
/// from the event and decide whether to keep running. Shutdown comes
/// exactly from a dead render task (checked on every poll), a close
/// request, or one of the quit keys.
pub fn handle_event(
    keys: &mut PressedKeys,
    mouse: &mut MouseDelta,
    window: &mut WindowSize,
    health_ok: bool,
    event: InputEvent,
) -> (r: LoopControl)
    requires
        keys_wf(*old(keys)),
        old(keys).keys@.len() < usize::MAX,
    ensures
        keys_wf(*final(keys)),
        (r == LoopControl::Shutdown) <==> (!health_ok
            || event == InputEvent::CloseRequested
            || event == InputEvent::KeyPressed(KEY_ESCAPE)
            || event == InputEvent::KeyPressed(KEY_Q)),
        (event matches InputEvent::Resized(w, h) ==> final(window).width == w
            && final(window).height == h && final(window).dirty),
        !(event matches InputEvent::Resized(..)) ==> *final(window) == *old(window),
        (event matches InputEvent::KeyPressed(k) ==> final(keys).keys@
            == (if old(keys).keys@.contains(k) { old(keys).keys@ } else {
                old(keys).keys@.push(k)
            })),
        (event matches InputEvent::KeyReleased(k) ==> !final(keys).keys@.contains(k)),
        !(event matches InputEvent::KeyPressed(..))
            && !(event matches InputEvent::KeyReleased(..))
            ==> final(keys).keys@ == old(keys).keys@,
        (event matches InputEvent::MouseMoved(ddx, ddy)
            ==> final(mouse).dx == sat_i64(old(mouse).dx + ddx)
                && final(mouse).dy == sat_i64(old(mouse).dy + ddy)),
        !(event matches InputEvent::MouseMoved(..)) ==> *final(mouse) == *old(mouse),
{
    let control = poll_shutdown(health_ok, event);
    match event {
        InputEvent::Resized(w, h) => {
            window.record_resize(w, h);
        },
        InputEvent::CloseRequested => {},
        InputEvent::KeyPressed(k) => {
            keys.key_down(k);
        },
        InputEvent::KeyReleased(k) => {
            keys.key_up(k);
        },
        InputEvent::MouseMoved(ddx, ddy) => {
            mouse.accumulate(ddx, ddy);
        },
        InputEvent::Other => {},
    }
    control
}

} // verus!
