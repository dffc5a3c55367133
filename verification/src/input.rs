//! The key-repeat state machine: per-key press / initial-delay /
//! auto-repeat handling that turns raw key signals into a queue of
//! discrete game actions.

use vstd::prelude::*;

verus! {

/// A discrete game action, decoupled from any concrete key encoding.
#[derive(Debug, Clone, Copy, PartialEq, Eq, Structural)]
pub enum GameAction {
    MoveLeft,
    MoveRight,
    SoftDrop,
    RotateCcw,
    RotateCw,
    HardDrop,
    Restart,
}

/// A per-tick snapshot of the tracked keys: which were freshly pressed this
/// tick (edge signal) and which are currently held down (level signal).
#[derive(Debug, Clone, Copy, PartialEq, Eq, Structural)]
pub struct InputSnapshot {
    pub left_pressed: bool,
    pub left_down: bool,
    pub right_pressed: bool,
    pub right_down: bool,
    pub soft_drop_pressed: bool,
    pub soft_drop_down: bool,
    pub rotate_ccw_pressed: bool,
    pub rotate_ccw_down: bool,
    pub rotate_cw_pressed: bool,
    pub rotate_cw_down: bool,
    pub hard_drop_pressed: bool,
    pub hard_drop_down: bool,
    pub restart_pressed: bool,
    pub restart_down: bool,
}

/// The edge (freshly pressed) signal of an action in a snapshot.
pub open spec fn pressed_of(s: InputSnapshot, a: GameAction) -> bool {
    match a {
        GameAction::MoveLeft => s.left_pressed,
        GameAction::MoveRight => s.right_pressed,
        GameAction::SoftDrop => s.soft_drop_pressed,
        GameAction::RotateCcw => s.rotate_ccw_pressed,
        GameAction::RotateCw => s.rotate_cw_pressed,
        GameAction::HardDrop => s.hard_drop_pressed,
        GameAction::Restart => s.restart_pressed,
    }
}

/// The level (currently held) signal of an action in a snapshot.
pub open spec fn down_of(s: InputSnapshot, a: GameAction) -> bool {
    match a {
        GameAction::MoveLeft => s.left_down,
        GameAction::MoveRight => s.right_down,
        GameAction::SoftDrop => s.soft_drop_down,
        GameAction::RotateCcw => s.rotate_ccw_down,
        GameAction::RotateCw => s.rotate_cw_down,
        GameAction::HardDrop => s.hard_drop_down,
        GameAction::Restart => s.restart_down,
    }
}

impl InputSnapshot {
    /// A snapshot with no key activity.
    pub fn none() -> (s: InputSnapshot)
        ensures
            s == no_input(),
    {
        InputSnapshot {
            left_pressed: false,
            left_down: false,
            right_pressed: false,
            right_down: false,
            soft_drop_pressed: false,
            soft_drop_down: false,
            rotate_ccw_pressed: false,
            rotate_ccw_down: false,
            rotate_cw_pressed: false,
            rotate_cw_down: false,
            hard_drop_pressed: false,
            hard_drop_down: false,
            restart_pressed: false,
            restart_down: false,
        }
    }

    pub fn is_pressed(&self, a: GameAction) -> (r: bool)
        ensures
            r == pressed_of(*self, a),
    {
        match a {
            GameAction::MoveLeft => self.left_pressed,
            GameAction::MoveRight => self.right_pressed,
            GameAction::SoftDrop => self.soft_drop_pressed,
            GameAction::RotateCcw => self.rotate_ccw_pressed,
            GameAction::RotateCw => self.rotate_cw_pressed,
            GameAction::HardDrop => self.hard_drop_pressed,
            GameAction::Restart => self.restart_pressed,
        }
    }

    pub fn is_down(&self, a: GameAction) -> (r: bool)
        ensures
            r == down_of(*self, a),
    {
        match a {
            GameAction::MoveLeft => self.left_down,
            GameAction::MoveRight => self.right_down,
            GameAction::SoftDrop => self.soft_drop_down,
            GameAction::RotateCcw => self.rotate_ccw_down,
            GameAction::RotateCw => self.rotate_cw_down,
            GameAction::HardDrop => self.hard_drop_down,
            GameAction::Restart => self.restart_down,
        }
    }
}

/// The snapshot with no key activity.
pub open spec fn no_input() -> InputSnapshot {
    InputSnapshot {
        left_pressed: false,
        left_down: false,
        right_pressed: false,
        right_down: false,
        soft_drop_pressed: false,
        soft_drop_down: false,
        rotate_ccw_pressed: false,
        rotate_ccw_down: false,
        rotate_cw_pressed: false,
        rotate_cw_down: false,
        hard_drop_pressed: false,
        hard_drop_down: false,
        restart_pressed: false,
        restart_down: false,
    }
}

impl Default for InputSnapshot {
    fn default() -> (s: InputSnapshot)
        ensures
            s == no_input(),
    {
        InputSnapshot::none()
    }
}

/// Where a controlled key is in its repeat cycle: freshly pressed keys sit
/// in `Initiation` until the initial delay passes, then move to `Held`
/// where the auto-repeat fires.
#[derive(Debug, Clone, Copy, PartialEq, Eq, Structural)]
pub enum KeyboardState {
    Initiation,
    Held,
}

impl Default for KeyboardState {
    fn default() -> (s: KeyboardState)
        ensures
            s == KeyboardState::Initiation,
    {
        KeyboardState::Initiation
    }
}

/// A key's tick buffer: closed, or open with a tick count.
#[derive(Debug, Clone, Copy, PartialEq, Eq, Structural)]
pub enum Buffer {
    Opened(u32),
    Closed,
}

/// A key's repeat parameters: ticks of initial delay before auto-repeat,
/// and ticks between repeats.
#[derive(Debug, Clone, Copy, PartialEq, Eq, Structural)]
pub struct Repeat {
    pub delay: u32,
    pub rate: u32,
}

/// One tracked key: the action it emits, its repeat-cycle state, its tick
/// buffer, and its repeat parameters.
#[derive(Debug, Clone, Copy, PartialEq, Eq, Structural)]
pub struct ControlledKey {
    pub key: GameAction,
    pub state: KeyboardState,
    pub buffer: Buffer,
    pub repeat: Repeat,
}

/// Well-formedness of a controlled key: its repeat parameters are modest
/// and its open buffer count is bounded by them, so the counter can always
/// be incremented without overflow.
pub open spec fn key_wf(k: ControlledKey) -> bool {
    &&& k.repeat.delay <= 65536
    &&& k.repeat.rate <= 65536
    &&& match k.buffer {
        Buffer::Opened(n) => match k.state {
            KeyboardState::Initiation => n <= k.repeat.delay + 1,
            KeyboardState::Held => n <= k.repeat.delay + k.repeat.rate + 2,
        },
        Buffer::Closed => true,
    }
}

/// One tick of a controlled key, as a function from the old key and its
/// raw signals to the new key and whether it fires its action this tick.
///
/// A press always fires immediately and reopens the buffer at zero. While
/// held, the buffer counts ticks: in `Initiation` the key arms itself once
/// the count exceeds the initial delay; in `Held` it fires and resets each
/// time the count exceeds the repeat rate. Releasing the key closes the
/// buffer without firing.
pub open spec fn key_step(k: ControlledKey, pressed: bool, down: bool) -> (ControlledKey, bool) {
    if pressed {
        (ControlledKey { buffer: Buffer::Opened(0), ..k }, true)
    } else {
        match k.buffer {
            Buffer::Closed => (k, false),
            Buffer::Opened(n) => match k.state {
                KeyboardState::Initiation => if down {
                    (ControlledKey {
                        buffer: Buffer::Opened((n + 1) as u32),
                        state: if n > k.repeat.delay { KeyboardState::Held } else { KeyboardState::Initiation },
                        ..k
                    }, false)
                } else {
                    (ControlledKey { buffer: Buffer::Closed, ..k }, false)
                },
                KeyboardState::Held => if down {
                    if n > k.repeat.rate {
                        (ControlledKey { buffer: Buffer::Opened(0), ..k }, true)
                    } else {
                        (ControlledKey { buffer: Buffer::Opened((n + 1) as u32), ..k }, false)
                    }
                } else {
                    (ControlledKey { buffer: Buffer::Closed, state: KeyboardState::Initiation, ..k }, false)
                },
            },
        }
    }
}

/// A single press always emits its action at once, whatever state the key
/// was in, and restarts the tick buffer at zero.
pub proof fn lemma_press_always_fires(k: ControlledKey, down: bool)
    ensures
        key_step(k, true, down).1,
        key_step(k, true, down).0.buffer == Buffer::Opened(0),
{
}

impl ControlledKey {
    pub fn close_buffer(&mut self)
        ensures
            *final(self) == (ControlledKey { buffer: Buffer::Closed, ..*old(self) }),
    {
        self.buffer = Buffer::Closed
    }

    pub fn open_buffer(&mut self)
        ensures
            *final(self) == (ControlledKey { buffer: Buffer::Opened(0), ..*old(self) }),
    {
        self.buffer = Buffer::Opened(0)
    }

    pub fn increment_buffer(&mut self)
        requires
            match old(self).buffer {
                Buffer::Opened(n) => n < u32::MAX,
                Buffer::Closed => true,
            },
        ensures
            *final(self) == match old(self).buffer {
                Buffer::Opened(n) => (ControlledKey { buffer: Buffer::Opened((n + 1) as u32), ..*old(self) }),
                Buffer::Closed => *old(self),
            },
    {
        if let Buffer::Opened(i) = &mut self.buffer {
            *i += 1
        }
    }

    /// Set the controlled key's repeat-cycle state.
    pub fn set_state(&mut self, state: KeyboardState)
        ensures
            *final(self) == (ControlledKey { state, ..*old(self) }),
    {
        self.state = state;
    }

    /// One tick of this key given its raw signals: steps the repeat cycle
    /// and reports whether the key fires its action this tick.
    pub fn tick(&mut self, input: &InputSnapshot) -> (fire: bool)
        requires
            key_wf(*old(self)),
        ensures
            key_wf(*final(self)),
            *final(self) == key_step(*old(self), pressed_of(*input, old(self).key), down_of(*input, old(self).key)).0,
            fire == key_step(*old(self), pressed_of(*input, old(self).key), down_of(*input, old(self).key)).1,
    {
        if input.is_pressed(self.key) {
            // A press fires at once, whatever came before.
            self.open_buffer();
            return true;
        }

        let down = input.is_down(self.key);
        if let Buffer::Opened(buffer) = self.buffer {
            match self.state {
                // Waiting out the initial delay after a press.
                KeyboardState::Initiation => {
                    if down {
                        self.increment_buffer();
                        if buffer > self.repeat.delay {
                            self.set_state(KeyboardState::Held);
                        }
                    } else {
                        self.close_buffer();
                    }
                    return false;
                },
                // The auto-repeat is armed.
                KeyboardState::Held => {
                    if down {
                        self.increment_buffer();
                        if buffer > self.repeat.rate {
                            self.open_buffer();
                            return true;
                        }
                        return false;
                    } else {
                        self.set_state(KeyboardState::Initiation);
                        self.close_buffer();
                    }
                    return false;
                },
            }
        }
        false
    }
}

impl Default for ControlledKey {
    fn default() -> (k: ControlledKey)
        ensures
            k == (ControlledKey {
                key: GameAction::MoveLeft,
                state: KeyboardState::Initiation,
                buffer: Buffer::Closed,
                repeat: Repeat { delay: 8, rate: 4 },
            }),
            key_wf(k),
    {
        ControlledKey {
            key: GameAction::MoveLeft,
            state: KeyboardState::Initiation,
            buffer: Buffer::Closed,
            repeat: Repeat { delay: 8, rate: 4 },
        }
    }
}

} // verus!

verus! {

/// The bank of tracked keys and the queue of actions they have emitted
/// this tick.
pub struct TetrominoControls {
    pub(crate) controlled_keys: Vec<ControlledKey>,
    pub(crate) queue: Vec<GameAction>,
}

/// The mathematical model of the control bank.
#[verifier::ext_equal]
pub ghost struct ControlsView {
    pub keys: Seq<ControlledKey>,
    pub queue: Seq<GameAction>,
}

/// Every key stepped by one tick of the given snapshot.
pub open spec fn stepped_keys(ks: Seq<ControlledKey>, s: InputSnapshot) -> Seq<ControlledKey> {
    Seq::new(ks.len(), |i: int| key_step(ks[i], pressed_of(s, ks[i].key), down_of(s, ks[i].key)).0)
}

/// The actions emitted by one tick of the given snapshot, in key order.
pub open spec fn emitted(ks: Seq<ControlledKey>, s: InputSnapshot) -> Seq<GameAction>
    decreases ks.len(),
{
    if ks.len() == 0 {
        Seq::empty()
    } else {
        emitted(ks.drop_last(), s) + if key_step(ks.last(), pressed_of(s, ks.last().key),
            down_of(s, ks.last().key)).1 {
            seq![ks.last().key]
        } else {
            Seq::empty()
        }
    }
}

/// The key bank the engine is built with: move left/right with delay 8 and
/// rate 4, soft drop with no delay and rate 4, both rotations and hard drop
/// with delay 8 and rate 8.
pub open spec fn default_keys() -> Seq<ControlledKey> {
    seq![
        ControlledKey {
            key: GameAction::MoveLeft,
            state: KeyboardState::Initiation,
            buffer: Buffer::Closed,
            repeat: Repeat { delay: 8, rate: 4 },
        },
        ControlledKey {
            key: GameAction::MoveRight,
            state: KeyboardState::Initiation,
            buffer: Buffer::Closed,
            repeat: Repeat { delay: 8, rate: 4 },
        },
        ControlledKey {
            key: GameAction::SoftDrop,
            state: KeyboardState::Initiation,
            buffer: Buffer::Closed,
            repeat: Repeat { delay: 0, rate: 4 },
        },
        ControlledKey {
            key: GameAction::RotateCcw,
            state: KeyboardState::Initiation,
            buffer: Buffer::Closed,
            repeat: Repeat { delay: 8, rate: 8 },
        },
        ControlledKey {
            key: GameAction::RotateCw,
            state: KeyboardState::Initiation,
            buffer: Buffer::Closed,
            repeat: Repeat { delay: 8, rate: 8 },
        },
        ControlledKey {
            key: GameAction::HardDrop,
            state: KeyboardState::Initiation,
            buffer: Buffer::Closed,
            repeat: Repeat { delay: 8, rate: 8 },
        },
    ]
}

impl TetrominoControls {
    pub open(crate) spec fn model(self) -> ControlsView {
        ControlsView { keys: self.controlled_keys@, queue: self.queue@ }
    }

    /// Well-formedness: every key's buffer is within its bounds.
    pub open(crate) spec fn wf(self) -> bool {
        forall|i: int| 0 <= i < self.controlled_keys@.len()
            ==> key_wf(#[trigger] self.controlled_keys@[i])
    }

    /// The engine's key bank, with an empty queue.
    pub fn new() -> (r: TetrominoControls)
        ensures
            r.model().keys == default_keys(),
            r.model().queue == Seq::<GameAction>::empty(),
            r.wf(),
    {
        let controlled_keys: Vec<ControlledKey> = vec![
            ControlledKey {
                key: GameAction::MoveLeft,
                state: KeyboardState::Initiation,
                buffer: Buffer::Closed,
                repeat: Repeat { delay: 8, rate: 4 },
            },
            ControlledKey {
                key: GameAction::MoveRight,
                state: KeyboardState::Initiation,
                buffer: Buffer::Closed,
                repeat: Repeat { delay: 8, rate: 4 },
            },
            ControlledKey {
                key: GameAction::SoftDrop,
                state: KeyboardState::Initiation,
                buffer: Buffer::Closed,
                repeat: Repeat { delay: 0, rate: 4 },
            },
            ControlledKey {
                key: GameAction::RotateCcw,
                state: KeyboardState::Initiation,
                buffer: Buffer::Closed,
                repeat: Repeat { delay: 8, rate: 8 },
            },
            ControlledKey {
                key: GameAction::RotateCw,
                state: KeyboardState::Initiation,
                buffer: Buffer::Closed,
                repeat: Repeat { delay: 8, rate: 8 },
            },
            ControlledKey {
                key: GameAction::HardDrop,
                state: KeyboardState::Initiation,
                buffer: Buffer::Closed,
                repeat: Repeat { delay: 8, rate: 8 },
            },
        ];
        let r = TetrominoControls { controlled_keys, queue: Vec::new() };
        proof {
            assert(r.model().keys =~= default_keys());
        }
        r
    }

    /// The queued actions, in emission order.
    pub fn get_queue(&self) -> (r: Vec<GameAction>)
        ensures
            r@ == self.model().queue,
    {
        let mut r: Vec<GameAction> = Vec::new();
        let mut i: usize = 0;
        while i < self.queue.len()
            invariant
                i <= self.queue@.len(),
                r@ == self.queue@.take(i as int),
            decreases self.queue@.len() - i,
        {
            r.push(self.queue[i]);
            proof {
                assert(r@ =~= self.queue@.take(i + 1));
            }
            i = i + 1;
        }
        proof {
            assert(r@ =~= self.queue@);
        }
        r
    }

    /// Drops all queued actions; the keys keep their repeat state.
    pub fn clear_queue(&mut self)
        ensures
            final(self).model().keys == old(self).model().keys,
            final(self).model().queue == Seq::<GameAction>::empty(),
            old(self).wf() ==> final(self).wf(),
    {
        self.queue.clear();
    }

    /// One tick: steps every key with the snapshot's signals and appends
    /// the actions of the keys that fire, in key order.
    pub fn tick(&mut self, input: &InputSnapshot)
        requires
            old(self).wf(),
        ensures
            final(self).wf(),
            final(self).model().keys == stepped_keys(old(self).model().keys, *input),
            final(self).model().queue == old(self).model().queue + emitted(old(self).model().keys, *input),
    {
        let ghost keys0 = self.controlled_keys@;
        let ghost queue0 = self.queue@;
        let mut i: usize = 0;
        while i < self.controlled_keys.len()
            invariant
                i <= keys0.len(),
                self.controlled_keys@.len() == keys0.len(),
                forall|j: int| 0 <= j < keys0.len() ==> key_wf(#[trigger] keys0[j]),
                forall|j: int| 0 <= j < i
                    ==> self.controlled_keys@[j] == stepped_keys(keys0, *input)[j]
                        && key_wf(#[trigger] self.controlled_keys@[j]),
                forall|j: int| i <= j < keys0.len() ==> self.controlled_keys@[j] == keys0[j],
                self.queue@ == queue0 + emitted(keys0.take(i as int), *input),
            decreases keys0.len() - i,
        {
            let mut ck = self.controlled_keys[i];
            proof {
                assert(ck == keys0[i as int]);
                assert(key_wf(keys0[i as int]));
            }
            let fire = ck.tick(input);
            self.controlled_keys.set(i, ck);
            if fire {
                self.queue.push(ck.key);
            }
            proof {
                assert(keys0.take(i + 1).drop_last() =~= keys0.take(i as int));
                assert(keys0.take(i + 1).last() == keys0[i as int]);
                if fire {
                    assert(self.queue@ =~= queue0 + emitted(keys0.take(i + 1), *input));
                } else {
                    assert(self.queue@ =~= queue0 + emitted(keys0.take(i + 1), *input));
                }
            }
            i = i + 1;
        }
        proof {
            assert(keys0.take(keys0.len() as int) =~= keys0);
            assert(self.controlled_keys@ =~= stepped_keys(keys0, *input));
        }
    }
}

impl Default for TetrominoControls {
    fn default() -> (r: TetrominoControls)
        ensures
            r.model().keys == default_keys(),
            r.model().queue == Seq::<GameAction>::empty(),
            r.wf(),
    {
        TetrominoControls::new()
    }
}

} // verus!

verus! {

/// The key after `n` ticks of being held down (level signal only, no
/// fresh press).
pub open spec fn key_after_held(k: ControlledKey, n: nat) -> ControlledKey
    decreases n,
{
    if n == 0 {
        k
    } else {
        key_step(key_after_held(k, (n - 1) as nat), false, true).0
    }
}

/// Whether the key fires on the `n`-th tick of being held down.
pub open spec fn key_fires_at(k: ControlledKey, n: nat) -> bool {
    n >= 1 && key_step(key_after_held(k, (n - 1) as nat), false, true).1
}

/// While waiting out the initial delay, the buffer just counts the held
/// ticks.
proof fn lemma_initiation_buffer_grows(k: ControlledKey, t: nat)
    requires
        key_wf(k),
        k.state == KeyboardState::Initiation,
        k.buffer == Buffer::Opened(0),
        t <= k.repeat.delay + 1,
    ensures
        key_after_held(k, t) == (ControlledKey {
            buffer: Buffer::Opened(t as u32),
            ..k
        }),
    decreases t,
{
    if t > 0 {
        lemma_initiation_buffer_grows(k, (t - 1) as nat);
    }
}

/// After a press, a held key is silent through its whole initial delay:
/// it does not fire on any of the first `delay + 2` held ticks, and from
/// tick `delay + 2` on it is armed (`Held`).
pub proof fn lemma_initial_delay_silent(k: ControlledKey)
    requires
        key_wf(k),
        k.state == KeyboardState::Initiation,
        k.buffer == Buffer::Opened(0),
    ensures
        forall|t: nat| 1 <= t <= k.repeat.delay + 2 ==> !(#[trigger] key_fires_at(k, t)),
        key_after_held(k, (k.repeat.delay + 2) as nat) == (ControlledKey {
            state: KeyboardState::Held,
            buffer: Buffer::Opened((k.repeat.delay + 2) as u32),
            ..k
        }),
{
    let d = k.repeat.delay;
    assert forall|t: nat| 1 <= t <= d + 2 implies !(#[trigger] key_fires_at(k, t)) by {
        lemma_initiation_buffer_grows(k, (t - 1) as nat);
    }
    lemma_initiation_buffer_grows(k, (d + 1) as nat);
    assert(key_after_held(k, (d + 2) as nat)
        == key_step(key_after_held(k, (d + 1) as nat), false, true).0);
}

/// While the armed auto-repeat waits, the buffer just counts the held
/// ticks.
proof fn lemma_held_buffer_grows(k: ControlledKey, t: nat)
    requires
        key_wf(k),
        k.state == KeyboardState::Held,
        k.buffer == Buffer::Opened(0),
        t <= k.repeat.rate + 1,
    ensures
        key_after_held(k, t) == (ControlledKey {
            buffer: Buffer::Opened(t as u32),
            ..k
        }),
    decreases t,
{
    if t > 0 {
        lemma_held_buffer_grows(k, (t - 1) as nat);
    }
}

/// The armed auto-repeat has an exact period: from a fresh reset, a
/// continuously held key is silent for `rate + 1` ticks, fires on tick
/// `rate + 2`, and is back in the very state it started from — so it
/// keeps firing every `rate + 2` held ticks.
pub proof fn lemma_held_repeat_period(k: ControlledKey)
    requires
        key_wf(k),
        k.state == KeyboardState::Held,
        k.buffer == Buffer::Opened(0),
    ensures
        forall|t: nat| 1 <= t <= k.repeat.rate + 1 ==> !(#[trigger] key_fires_at(k, t)),
        key_fires_at(k, (k.repeat.rate + 2) as nat),
        key_after_held(k, (k.repeat.rate + 2) as nat) == k,
{
    let r = k.repeat.rate;
    assert forall|t: nat| 1 <= t <= r + 1 implies !(#[trigger] key_fires_at(k, t)) by {
        lemma_held_buffer_grows(k, (t - 1) as nat);
    }
    lemma_held_buffer_grows(k, (r + 1) as nat);
    assert(key_after_held(k, (r + 2) as nat)
        == key_step(key_after_held(k, (r + 1) as nat), false, true).0);
}

} // verus!
