//! Per-round lockstep synchronization: tick counters, the delayed local
//! input queue, the remote input queue with its ordering guard, and the
//! queue-balance pacing feedback.
//!
//! A round simulates tick `T` only once both the locally-delayed input and
//! the remote input for `T` are at the front of their queues; otherwise it
//! stalls. Locally sampled inputs are buffered for `local_delay` ticks
//! before they are consumed, to give the paired remote packet time to
//! arrive; the first `local_delay` ticks consume neutral inputs committed
//! at round start.

use vstd::prelude::*;
use crate::protocol;

verus! {

/// A protocol-level fault in the stream of remote inputs; fatal to the
/// round and, by extension, the match.
#[derive(Debug, Clone, Copy, PartialEq, Eq, Structural)]
pub enum SyncError {
    /// A remote input's tick went backward or repeated within the round.
    OrderingViolation,
}

/// The ticks of a sequence of accepted remote inputs, in arrival order.
pub open spec fn strictly_increasing(s: Seq<u32>) -> bool {
    forall|i: int, j: int| 0 <= i < j < s.len() ==> s[i] < s[j]
}

proof fn lemma_strictly_increasing_ge_index(s: Seq<u32>, i: int)
    requires
        strictly_increasing(s),
        0 <= i < s.len(),
    ensures
        s[i] >= i,
    decreases i,
{
    if i > 0 {
        lemma_strictly_increasing_ge_index(s, i - 1);
        assert(s[i - 1] < s[i]);
    }
}

proof fn lemma_strictly_increasing_len(s: Seq<u32>)
    requires
        strictly_increasing(s),
    ensures
        s.len() <= 0x1_0000_0000,
{
    if s.len() > 0x1_0000_0000 {
        lemma_strictly_increasing_ge_index(s, 0x1_0000_0000);
        assert(false);
    }
}

/// State of one round of the match, owned exclusively by the engine for the
/// round's lifetime. The driver mutates it only through the methods here.
pub struct Round {
    /// Which round of the match this is.
    pub number: u8,
    /// Which player this side is: 0 or 1, fixed for the round.
    pub local_player_index: u8,
    /// How many ticks a locally sampled input is buffered before the local
    /// simulation consumes it.
    pub local_delay: u32,
    /// The next tick to simulate; ticks 0 .. current_tick are done.
    pub current_tick: u32,
    /// Locally sampled inputs not yet consumed, in tick order; the front is
    /// the input for `current_tick`.
    pub local_queue: Vec<u16>,
    /// Remote inputs not yet consumed, in tick order; the front is the
    /// remote input for `current_tick`.
    pub remote_queue: Vec<u16>,
    /// Whether any remote input has been accepted this round.
    pub has_remote: bool,
    /// The tick of the last accepted remote input.
    pub last_remote_tick: u32,
    /// The pacing correction carried by the last accepted remote input.
    pub last_remote_tick_diff: i8,
    /// The ticks of every accepted remote input, in arrival order.
    pub remote_ticks: Ghost<Seq<u32>>,
}

/// Clamp an integer into the range of the wire's signed pacing byte.
pub open spec fn spec_clamp_i8(x: int) -> i8 {
    if x > 127 {
        127 as i8
    } else if x < -128 {
        -128 as i8
    } else {
        x as i8
    }
}

fn clamp_i8(x: i64) -> (r: i8)
    ensures
        r == spec_clamp_i8(x as int),
{
    if x > 127 {
        127
    } else if x < -128 {
        -128
    } else {
        x as i8
    }
}

impl Round {
    /// Everything the methods preserve: a player index of 0 or 1, a local
    /// queue holding either the delayed window or the window plus the tick's
    /// fresh sample, and remote ticks strictly increasing in arrival order
    /// with at most one queued input per accepted tick.
    pub open spec fn wf(&self) -> bool {
        &&& self.local_player_index < 2
        &&& (self.local_queue@.len() == self.local_delay
            || self.local_queue@.len() == self.local_delay + 1)
        &&& strictly_increasing(self.remote_ticks@)
        &&& self.remote_queue@.len() <= self.remote_ticks@.len()
        &&& (self.has_remote <==> self.remote_ticks@.len() > 0)
        &&& (self.has_remote ==> self.last_remote_tick == self.remote_ticks@.last())
    }

    /// Whether the input for `current_tick` has already been sampled.
    pub open spec fn sampled(&self) -> bool {
        self.local_queue@.len() == self.local_delay + 1
    }

    /// Queue-depth imbalance, in ticks: positive when the remote side is
    /// ahead of us, negative when we are ahead of it.
    pub open spec fn spec_imbalance(&self) -> int {
        self.remote_queue@.len() - self.local_queue@.len()
    }

    /// A fresh round: tick zero, the local delay window pre-committed with
    /// neutral inputs, and no remote input yet.
    pub fn new(number: u8, local_player_index: u8, local_delay: u32) -> (r: Round)
        requires
            local_player_index < 2,
        ensures
            r.wf(),
            r.number == number,
            r.local_player_index == local_player_index,
            r.local_delay == local_delay,
            r.current_tick == 0,
            r.local_queue@ == Seq::new(local_delay as nat, |i: int| 0u16),
            r.remote_queue@.len() == 0,
            !r.has_remote,
            r.remote_ticks@ == Seq::<u32>::empty(),
    {
        let mut local_queue: Vec<u16> = Vec::new();
        let mut i: u32 = 0;
        while i < local_delay
            invariant
                i <= local_delay,
                local_queue@.len() == i,
                forall|j: int| 0 <= j < i ==> local_queue@[j] == 0u16,
            decreases local_delay - i,
        {
            local_queue.push(0);
            i = i + 1;
        }
        proof {
            assert(local_queue@ =~= Seq::new(local_delay as nat, |i: int| 0u16));
        }
        Round {
            number,
            local_player_index,
            local_delay,
            current_tick: 0,
            local_queue,
            remote_queue: Vec::new(),
            has_remote: false,
            last_remote_tick: 0,
            last_remote_tick_diff: 0,
            remote_ticks: Ghost(Seq::<u32>::empty()),
        }
    }

    /// Sample the local input for the current tick: buffer it at the back of
    /// the delay queue and return the packet to transmit, carrying the
    /// released front input (the one the local simulation will consume at
    /// this tick) and the sender's view of the queue imbalance. Returns
    /// `None`, changing nothing, if this tick's input was already sampled.
    pub fn add_local_input(&mut self, joyflags: u16) -> (r: Option<protocol::Input>)
        requires
            old(self).wf(),
        ensures
            final(self).wf(),
            old(self).sampled() ==> r is None && *final(self) == *old(self),
            !old(self).sampled() ==> {
                &&& final(self).local_queue@ == old(self).local_queue@.push(joyflags)
                &&& *final(self) == (Round { local_queue: final(self).local_queue, ..*old(self) })
                &&& r == Some(protocol::Input {
                    round_number: old(self).number,
                    local_tick: old(self).current_tick,
                    tick_diff: spec_clamp_i8(
                        old(self).local_queue@.len() - old(self).remote_queue@.len(),
                    ),
                    joyflags: final(self).local_queue@[0],
                })
            },
    {
        proof {
            lemma_strictly_increasing_len(self.remote_ticks@);
        }
        if self.local_queue.len() as u64 > self.local_delay as u64 {
            return None;
        }
        let ll = self.local_queue.len() as i64;
        let rl = self.remote_queue.len() as i64;
        self.local_queue.push(joyflags);
        let released = self.local_queue[0];
        Some(protocol::Input {
            round_number: self.number,
            local_tick: self.current_tick,
            tick_diff: clamp_i8(ll - rl),
            joyflags: released,
        })
    }

    /// Accept one remote input packet for this round. Its tick must exceed
    /// every tick accepted before it: a backward or duplicate tick is an
    /// `OrderingViolation` and changes nothing. An accepted input joins the
    /// back of the remote queue.
    pub fn add_remote_input(&mut self, input: protocol::Input) -> (r: Result<(), SyncError>)
        requires
            old(self).wf(),
            input.round_number == old(self).number,
        ensures
            final(self).wf(),
            r is Ok <==> (!old(self).has_remote || input.local_tick > old(self).last_remote_tick),
            r is Err ==> r == Err::<(), SyncError>(SyncError::OrderingViolation)
                && *final(self) == *old(self),
            r is Ok ==> {
                &&& final(self).remote_queue@ == old(self).remote_queue@.push(input.joyflags)
                &&& final(self).remote_ticks@ == old(self).remote_ticks@.push(input.local_tick)
                &&& final(self).has_remote
                &&& final(self).last_remote_tick == input.local_tick
                &&& final(self).last_remote_tick_diff == input.tick_diff
                &&& final(self).number == old(self).number
                &&& final(self).local_player_index == old(self).local_player_index
                &&& final(self).local_delay == old(self).local_delay
                &&& final(self).current_tick == old(self).current_tick
                &&& final(self).local_queue@ == old(self).local_queue@
            },
    {
        if self.has_remote && input.local_tick <= self.last_remote_tick {
            return Err(SyncError::OrderingViolation);
        }
        proof {
            let ticks = self.remote_ticks@;
            assert forall|i: int| 0 <= i < ticks.len() implies ticks[i] <= self.last_remote_tick by {
                if i < ticks.len() - 1 {
                    assert(ticks[i] < ticks[ticks.len() - 1]);
                }
            }
        }
        self.remote_queue.push(input.joyflags);
        self.has_remote = true;
        self.last_remote_tick = input.local_tick;
        self.last_remote_tick_diff = input.tick_diff;
        self.remote_ticks = Ghost(self.remote_ticks@.push(input.local_tick));
        Ok(())
    }

    /// Try to simulate the current tick. Advances, consuming the front of
    /// both queues and returning the pair of inputs to apply (local side
    /// first), only if this tick's input was sampled and a remote input is
    /// available; otherwise it stalls, changing nothing, and a later call
    /// resumes at the same tick — no tick is skipped or repeated.
    pub fn advance(&mut self) -> (r: Option<(u16, u16)>)
        requires
            old(self).wf(),
            old(self).current_tick < 0xffff_ffffu32,
        ensures
            final(self).wf(),
            !(old(self).sampled() && old(self).remote_queue@.len() > 0)
                ==> r is None && *final(self) == *old(self),
            old(self).sampled() && old(self).remote_queue@.len() > 0 ==> {
                &&& r == Some((old(self).local_queue@[0], old(self).remote_queue@[0]))
                &&& final(self).current_tick == old(self).current_tick + 1
                &&& final(self).local_queue@ == old(self).local_queue@.remove(0)
                &&& final(self).remote_queue@ == old(self).remote_queue@.remove(0)
                &&& final(self).number == old(self).number
                &&& final(self).local_player_index == old(self).local_player_index
                &&& final(self).local_delay == old(self).local_delay
                &&& final(self).has_remote == old(self).has_remote
                &&& final(self).last_remote_tick == old(self).last_remote_tick
                &&& final(self).last_remote_tick_diff == old(self).last_remote_tick_diff
                &&& final(self).remote_ticks@ == old(self).remote_ticks@
            },
    {
        let sampled = self.local_queue.len() as u64 == self.local_delay as u64 + 1;
        if !sampled || self.remote_queue.len() == 0 {
            return None;
        }
        let local_input = self.local_queue.remove(0);
        let remote_input = self.remote_queue.remove(0);
        self.current_tick = self.current_tick + 1;
        Some((local_input, remote_input))
    }

    /// The next tick to simulate.
    pub fn current_tick(&self) -> (r: u32)
        ensures
            r == self.current_tick,
    {
        self.current_tick
    }

    /// Which player this side is: 0 or 1.
    pub fn local_player_index(&self) -> (r: u8)
        ensures
            r == self.local_player_index,
    {
        self.local_player_index
    }

    /// The configured input delay, in ticks.
    pub fn local_delay(&self) -> (r: u32)
        ensures
            r == self.local_delay,
    {
        self.local_delay
    }

    /// Depth of the local delay queue.
    pub fn local_queue_length(&self) -> (r: usize)
        ensures
            r == self.local_queue@.len(),
    {
        self.local_queue.len()
    }

    /// Depth of the remote input queue.
    pub fn remote_queue_length(&self) -> (r: usize)
        ensures
            r == self.remote_queue@.len(),
    {
        self.remote_queue.len()
    }

    /// The pacing correction for this tick, in ticks of queue imbalance:
    /// positive tells the driver to run faster than nominal (the remote side
    /// is ahead), negative to run slower (we are ahead). Recomputed from
    /// both depths together on every call, never retained.
    pub fn tps_adjustment(&self) -> (r: i64)
        requires
            self.wf(),
        ensures
            r == self.spec_imbalance(),
    {
        proof {
            lemma_strictly_increasing_len(self.remote_ticks@);
        }
        (self.remote_queue.len() as i64) - (self.local_queue.len() as i64)
    }
}

/// Law: within one round, the ticks of the accepted remote inputs are
/// strictly increasing in arrival order — every accepted sequence is
/// non-decreasing, and a backward or duplicate tick is never accepted.
pub proof fn lemma_remote_tick_monotonicity(r: Round, i: int, j: int)
    requires
        r.wf(),
        0 <= i < j < r.remote_ticks@.len(),
    ensures
        r.remote_ticks@[i] < r.remote_ticks@[j],
{
}

/// Law: the pacing feedback favors speeding up exactly while the remote
/// queue is deeper than the local one, reverses sign exactly when the
/// imbalance reverses, and its magnitude grows with the surplus.
pub proof fn lemma_pacing_feedback(a: Round, b: Round)
    requires
        a.wf(),
        b.wf(),
    ensures
        a.spec_imbalance() > 0 <==> a.remote_queue@.len() > a.local_queue@.len(),
        a.spec_imbalance() < 0 <==> a.remote_queue@.len() < a.local_queue@.len(),
        a.spec_imbalance() == 0 <==> a.remote_queue@.len() == a.local_queue@.len(),
        a.local_queue@.len() == b.local_queue@.len()
            && a.remote_queue@.len() < b.remote_queue@.len()
            ==> a.spec_imbalance() < b.spec_imbalance(),
{
}

/// Match-level bookkeeping: at most one active round, and the number the
/// next round will get. Present only in two-player sessions; without it the
/// local simulation free-runs.
pub struct Match {
    /// The active round, if one is running.
    pub round: Option<Round>,
    /// The number the next round will start with; round numbers increase
    /// monotonically over the match.
    pub next_round_number: u8,
}

impl Match {
    /// The active round, if any, is well-formed.
    pub open spec fn wf(&self) -> bool {
        match self.round {
            Some(r) => r.wf(),
            None => true,
        }
    }

    /// A fresh match: no active round yet, numbering from zero.
    pub fn new() -> (m: Match)
        ensures
            m.wf(),
            m.round is None,
            m.next_round_number == 0,
    {
        Match { round: None, next_round_number: 0 }
    }

    /// Start the next round, replacing any active one: fresh tick counter
    /// and queues, the next number in sequence.
    pub fn start_round(&mut self, local_player_index: u8, local_delay: u32)
        requires
            local_player_index < 2,
            old(self).next_round_number < 255,
        ensures
            final(self).wf(),
            final(self).next_round_number == old(self).next_round_number + 1,
            final(self).round is Some,
            final(self).round.unwrap().number == old(self).next_round_number,
            final(self).round.unwrap().local_player_index == local_player_index,
            final(self).round.unwrap().local_delay == local_delay,
            final(self).round.unwrap().current_tick == 0,
            final(self).round.unwrap().local_queue@
                == Seq::new(local_delay as nat, |i: int| 0u16),
            final(self).round.unwrap().remote_queue@.len() == 0,
            !final(self).round.unwrap().has_remote,
    {
        let number = self.next_round_number;
        self.round = Some(Round::new(number, local_player_index, local_delay));
        self.next_round_number = self.next_round_number + 1;
    }

    /// End the active round; its state is destroyed. The match itself, and
    /// the numbering, live on.
    pub fn end_round(&mut self)
        ensures
            final(self).wf(),
            final(self).round is None,
            final(self).next_round_number == old(self).next_round_number,
    {
        self.round = None;
    }

    /// Route one received `Input` packet. A packet for the active round is
    /// handed to it (`Ok(true)`, or its ordering error); a packet for any
    /// other round, or with no round active, is not processed at all
    /// (`Ok(false)`).
    pub fn on_input_packet(&mut self, input: protocol::Input) -> (r: Result<bool, SyncError>)
        requires
            old(self).wf(),
        ensures
            final(self).wf(),
            (old(self).round is None || input.round_number != old(self).round.unwrap().number)
                ==> r == Ok::<bool, SyncError>(false) && *final(self) == *old(self),
            old(self).round is Some && input.round_number == old(self).round.unwrap().number
                ==> {
                    let prev = old(self).round.unwrap();
                    &&& final(self).next_round_number == old(self).next_round_number
                    &&& (r == Ok::<bool, SyncError>(true)
                        <==> (!prev.has_remote || input.local_tick > prev.last_remote_tick))
                    &&& (r is Err ==> r == Err::<bool, SyncError>(SyncError::OrderingViolation)
                        && *final(self) == *old(self))
                    &&& (r is Ok ==> {
                        &&& final(self).round is Some
                        &&& final(self).round.unwrap().remote_queue@
                            == prev.remote_queue@.push(input.joyflags)
                        &&& final(self).round.unwrap().remote_ticks@
                            == prev.remote_ticks@.push(input.local_tick)
                        &&& final(self).round.unwrap().last_remote_tick == input.local_tick
                        &&& final(self).round.unwrap().has_remote
                        &&& final(self).round.unwrap().current_tick == prev.current_tick
                        &&& final(self).round.unwrap().local_queue@ == prev.local_queue@
                        &&& final(self).round.unwrap().number == prev.number
                    })
                },
    {
        match &mut self.round {
            None => Ok(false),
            Some(round) => {
                if input.round_number != round.number {
                    Ok(false)
                } else {
                    match round.add_remote_input(input) {
                        Ok(()) => Ok(true),
                        Err(e) => Err(e),
                    }
                }
            }
        }
    }
}

} // verus!
