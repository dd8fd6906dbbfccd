//! Debouncing of key presses. A held arrow key makes the terminal repeat it;
//! within a short window after an up or down key, repeats of that key are
//! dropped, and a different key ends the window at once.
//!
//! The reader is a state machine. The caller feeds it the key events it
//! reads and, between polls, the time elapsed; the machine says when one
//! key is ready.

use vstd::prelude::*;
use crate::menu::Key;

verus! {

/// How long repeats of an arrow key are dropped, in milliseconds.
pub const DEBOUNCE_MS: u64 = 100;

/// The state of the reader between inputs.
#[derive(Debug, Clone, Copy, PartialEq, Eq, Structural)]
pub enum ReadState {
    /// No key yet.
    Waiting,
    /// `key` was read at `since_ms`; repeats of it are being dropped.
    Holding { key: Key, since_ms: u64 },
}

/// What the reader is told: a key read at a time, or the time alone.
#[derive(Debug, Clone, Copy, PartialEq, Eq, Structural)]
pub enum ReadInput {
    Event { key: Key, now_ms: u64 },
    Tick { now_ms: u64 },
}

/// The reader's answer: still waiting, or one key.
#[derive(Debug, Clone, Copy, PartialEq, Eq, Structural)]
pub enum ReadResult {
    Pending(ReadState),
    Ready(Key),
}

/// A key whose repeats are dropped.
pub open spec fn is_arrow(key: Key) -> bool {
    key == Key::Up || key == Key::Down
}

/// One move of the reader.
pub open spec fn read_step(state: ReadState, input: ReadInput) -> ReadResult {
    match (state, input) {
        (ReadState::Waiting, ReadInput::Event { key, now_ms }) => if is_arrow(key) {
            ReadResult::Pending(ReadState::Holding { key, since_ms: now_ms })
        } else {
            ReadResult::Ready(key)
        },
        (ReadState::Waiting, ReadInput::Tick { .. }) => ReadResult::Pending(state),
        (ReadState::Holding { key, .. }, ReadInput::Event { key: k, .. }) => if k == key {
            ReadResult::Pending(state)
        } else {
            ReadResult::Ready(k)
        },
        (ReadState::Holding { key, since_ms }, ReadInput::Tick { now_ms }) => if now_ms
            >= since_ms + DEBOUNCE_MS {
            ReadResult::Ready(key)
        } else {
            ReadResult::Pending(state)
        },
    }
}

/// The first key that `inputs` yield from `state`, with how many inputs it took.
pub open spec fn read_one(state: ReadState, inputs: Seq<ReadInput>) -> Option<(Key, nat)>
    decreases inputs.len(),
{
    if inputs.len() == 0 {
        None
    } else {
        match read_step(state, inputs[0]) {
            ReadResult::Ready(k) => Some((k, 1)),
            ReadResult::Pending(s) => match read_one(s, inputs.drop_first()) {
                Some((k, n)) => Some((k, n + 1)),
                None => None,
            },
        }
    }
}

/// Feeds one input to the reader.
pub fn step(state: ReadState, input: ReadInput) -> (r: ReadResult)
    ensures
        r == read_step(state, input),
{
    match (state, input) {
        (ReadState::Waiting, ReadInput::Event { key, now_ms }) => match key {
            Key::Up | Key::Down => ReadResult::Pending(ReadState::Holding { key, since_ms: now_ms }),
            _ => ReadResult::Ready(key),
        },
        (ReadState::Waiting, ReadInput::Tick { .. }) => ReadResult::Pending(state),
        (ReadState::Holding { key, .. }, ReadInput::Event { key: k, .. }) => if k == key {
            ReadResult::Pending(state)
        } else {
            ReadResult::Ready(k)
        },
        (ReadState::Holding { key, since_ms }, ReadInput::Tick { now_ms }) => {
            if now_ms >= since_ms && now_ms - since_ms >= DEBOUNCE_MS {
                ReadResult::Ready(key)
            } else {
                ReadResult::Pending(state)
            }
        },
    }
}

/// Repeats of `key`, read at `times`.
pub open spec fn repeats(key: Key, times: Seq<u64>) -> Seq<ReadInput> {
    Seq::new(times.len(), |i: int| ReadInput::Event { key, now_ms: times[i] })
}

proof fn lemma_held_key_then_tick(key: Key, since_ms: u64, times: Seq<u64>, end_ms: u64)
    requires
        end_ms >= since_ms + DEBOUNCE_MS,
    ensures
        read_one(
            ReadState::Holding { key, since_ms },
            repeats(key, times).push(ReadInput::Tick { now_ms: end_ms }),
        ) == Some((key, times.len() + 1)),
    decreases times.len(),
{
    let inputs = repeats(key, times).push(ReadInput::Tick { now_ms: end_ms });
    if times.len() > 0 {
        let rest = times.drop_first();
        assert(inputs.drop_first() =~= repeats(key, rest).push(ReadInput::Tick { now_ms: end_ms }));
        lemma_held_key_then_tick(key, since_ms, rest, end_ms);
    } else {
        assert(inputs.drop_first() =~= Seq::<ReadInput>::empty());
    }
}

/// An arrow key followed by any number of its repeats yields that key once,
/// when the window has passed, and the repeats are used up.
pub proof fn lemma_repeats_collapse(key: Key, first_ms: u64, times: Seq<u64>, end_ms: u64)
    requires
        is_arrow(key),
        end_ms >= first_ms + DEBOUNCE_MS,
    ensures
        read_one(
            ReadState::Waiting,
            seq![ReadInput::Event { key, now_ms: first_ms }] + repeats(key, times).push(
                ReadInput::Tick { now_ms: end_ms },
            ),
        ) == Some((key, times.len() + 2)),
{
    let tail = repeats(key, times).push(ReadInput::Tick { now_ms: end_ms });
    let inputs = seq![ReadInput::Event { key, now_ms: first_ms }] + tail;
    assert(inputs.drop_first() =~= tail);
    lemma_held_key_then_tick(key, first_ms, times, end_ms);
}

/// Before the window has passed, the reader holds an arrow key back.
pub proof fn lemma_window_holds(key: Key, since_ms: u64, now_ms: u64)
    requires
        now_ms < since_ms + DEBOUNCE_MS,
    ensures
        read_step(ReadState::Holding { key, since_ms }, ReadInput::Tick { now_ms })
            == ReadResult::Pending(ReadState::Holding { key, since_ms }),
{
}

/// A different key read after an arrow key is yielded at once, however soon.
pub proof fn lemma_other_key_preempts(arrow: Key, first_ms: u64, other: Key, now_ms: u64)
    requires
        is_arrow(arrow),
        other != arrow,
    ensures
        read_one(
            ReadState::Waiting,
            seq![ReadInput::Event { key: arrow, now_ms: first_ms }, ReadInput::Event { key: other, now_ms }],
        ) == Some((other, 2nat)),
{
    let inputs = seq![ReadInput::Event { key: arrow, now_ms: first_ms }, ReadInput::Event { key: other, now_ms }];
    assert(inputs.drop_first() =~= seq![ReadInput::Event { key: other, now_ms }]);
    assert(read_one(ReadState::Holding { key: arrow, since_ms: first_ms }, inputs.drop_first())
        == Some((other, 1nat)));
}

} // verus!
