//! Interrupt bridge: the single-producer/single-consumer notification word.
//!
//! Each interrupt handler does O(1) work: it ORs its source's bit into the
//! pending word ([`NotifyChannel::post`]) and returns. The task-context
//! consumer drains the word ([`NotifyChannel::drain`]) and translates each
//! set bit into one raw event. Rapid same-source interrupts arriving before
//! a drain coalesce into one set bit: this is the deliberate lossy-edge
//! policy — occurrence counts are not kept, but a posted source can never
//! be lost entirely, which [`lemma_burst_reaches_consumer`] states.

use vstd::prelude::*;

use crate::events::spec_raw_event_bit;
use crate::events::TwatchRawEvent;

verus! {

/// Pending-notification word shared between interrupt and task context:
/// one bit per interrupt source.
pub struct NotifyChannel {
    pub pending: u32,
}

/// The raw events one drain of the pending word `p` yields, in the fixed
/// priority order RTC, timer, touch, PMU, accelerometer: one event per set
/// source bit, regardless of how many posts set that bit.
pub open spec fn spec_drained(p: u32) -> Seq<TwatchRawEvent> {
    (if p & 0x1u32 != 0 {
        seq![TwatchRawEvent::Rtc]
    } else {
        Seq::empty()
    }) + (if p & 0x2u32 != 0 {
        seq![TwatchRawEvent::Timer]
    } else {
        Seq::empty()
    }) + (if p & 0x4u32 != 0 {
        seq![TwatchRawEvent::Touch]
    } else {
        Seq::empty()
    }) + (if p & 0x8u32 != 0 {
        seq![TwatchRawEvent::Pmu]
    } else {
        Seq::empty()
    }) + (if p & 0x10u32 != 0 {
        seq![TwatchRawEvent::Accel]
    } else {
        Seq::empty()
    })
}

impl NotifyChannel {
    /// An empty channel: nothing pending.
    pub fn new() -> (r: Self)
        ensures
            r.pending == 0,
    {
        NotifyChannel { pending: 0 }
    }

    /// Interrupt-context half: latch the source's bit. Constant time, no
    /// allocation, no blocking; posts of the same source coalesce.
    pub fn post(&mut self, e: TwatchRawEvent)
        ensures
            final(self).pending == old(self).pending | spec_raw_event_bit(e),
    {
        let bit = e.to_bits();
        self.pending = self.pending | bit;
    }

    /// Task-context half: take every pending source at once and clear the
    /// word, yielding one raw event per set bit in fixed priority order.
    pub fn drain(&mut self) -> (r: Vec<TwatchRawEvent>)
        ensures
            final(self).pending == 0,
            r@ == spec_drained(old(self).pending),
    {
        let p = self.pending;
        self.pending = 0;
        let mut r: Vec<TwatchRawEvent> = Vec::new();
        if p & 0x1u32 != 0 {
            r.push(TwatchRawEvent::Rtc);
        }
        if p & 0x2u32 != 0 {
            r.push(TwatchRawEvent::Timer);
        }
        if p & 0x4u32 != 0 {
            r.push(TwatchRawEvent::Touch);
        }
        if p & 0x8u32 != 0 {
            r.push(TwatchRawEvent::Pmu);
        }
        if p & 0x10u32 != 0 {
            r.push(TwatchRawEvent::Accel);
        }
        proof {
            assert(r@ =~= spec_drained(p));
        }
        r
    }
}

proof fn lemma_add_contains_left<T>(a: Seq<T>, b: Seq<T>, x: T)
    requires
        a.contains(x),
    ensures
        (a + b).contains(x),
{
    let i = choose|i: int| 0 <= i < a.len() && a[i] == x;
    assert((a + b)[i] == x);
}

proof fn lemma_add_contains_right<T>(a: Seq<T>, b: Seq<T>, x: T)
    requires
        b.contains(x),
    ensures
        (a + b).contains(x),
{
    let i = choose|i: int| 0 <= i < b.len() && b[i] == x;
    assert((a + b)[a.len() + i] == x);
}

/// Same-source interrupts that arrive before the consumer drains coalesce:
/// a second post of a source leaves the pending word exactly as the first
/// did. This is the accepted lossy-edge policy — duplicates may merge.
pub proof fn lemma_posts_coalesce(c: NotifyChannel, e: TwatchRawEvent)
    ensures
        (c.pending | spec_raw_event_bit(e)) | spec_raw_event_bit(e) == c.pending
            | spec_raw_event_bit(e),
{
    let p = c.pending;
    let b = spec_raw_event_bit(e);
    assert((p | b) | b == p | b) by (bit_vector);
}

/// No full starvation: however many interrupts of a source were posted
/// since the last drain (coalesced or not), the next drain yields that
/// source — at least one raw event per burst reaches the translator.
pub proof fn lemma_burst_reaches_consumer(c: NotifyChannel, e: TwatchRawEvent)
    requires
        e != TwatchRawEvent::Unknown,
    ensures
        spec_drained(c.pending | spec_raw_event_bit(e)).contains(e),
{
    let p = c.pending | spec_raw_event_bit(e);
    let s1 = if p & 0x1u32 != 0 {
        seq![TwatchRawEvent::Rtc]
    } else {
        Seq::<TwatchRawEvent>::empty()
    };
    let s2 = if p & 0x2u32 != 0 {
        seq![TwatchRawEvent::Timer]
    } else {
        Seq::<TwatchRawEvent>::empty()
    };
    let s3 = if p & 0x4u32 != 0 {
        seq![TwatchRawEvent::Touch]
    } else {
        Seq::<TwatchRawEvent>::empty()
    };
    let s4 = if p & 0x8u32 != 0 {
        seq![TwatchRawEvent::Pmu]
    } else {
        Seq::<TwatchRawEvent>::empty()
    };
    let s5 = if p & 0x10u32 != 0 {
        seq![TwatchRawEvent::Accel]
    } else {
        Seq::<TwatchRawEvent>::empty()
    };
    let q = c.pending;
    match e {
        TwatchRawEvent::Rtc => {
            assert((q | 0x1u32) & 0x1u32 != 0) by (bit_vector);
            assert(s1[0] == e);
            assert(s1.contains(e));
            lemma_add_contains_left(s1, s2, e);
            lemma_add_contains_left(s1 + s2, s3, e);
            lemma_add_contains_left(s1 + s2 + s3, s4, e);
            lemma_add_contains_left(s1 + s2 + s3 + s4, s5, e);
        },
        TwatchRawEvent::Timer => {
            assert((q | 0x2u32) & 0x2u32 != 0) by (bit_vector);
            assert(s2[0] == e);
            assert(s2.contains(e));
            lemma_add_contains_right(s1, s2, e);
            lemma_add_contains_left(s1 + s2, s3, e);
            lemma_add_contains_left(s1 + s2 + s3, s4, e);
            lemma_add_contains_left(s1 + s2 + s3 + s4, s5, e);
        },
        TwatchRawEvent::Touch => {
            assert((q | 0x4u32) & 0x4u32 != 0) by (bit_vector);
            assert(s3[0] == e);
            assert(s3.contains(e));
            lemma_add_contains_right(s1 + s2, s3, e);
            lemma_add_contains_left(s1 + s2 + s3, s4, e);
            lemma_add_contains_left(s1 + s2 + s3 + s4, s5, e);
        },
        TwatchRawEvent::Pmu => {
            assert((q | 0x8u32) & 0x8u32 != 0) by (bit_vector);
            assert(s4[0] == e);
            assert(s4.contains(e));
            lemma_add_contains_right(s1 + s2 + s3, s4, e);
            lemma_add_contains_left(s1 + s2 + s3 + s4, s5, e);
        },
        TwatchRawEvent::Accel => {
            assert((q | 0x10u32) & 0x10u32 != 0) by (bit_vector);
            assert(s5[0] == e);
            assert(s5.contains(e));
            lemma_add_contains_right(s1 + s2 + s3 + s4, s5, e);
        },
        TwatchRawEvent::Unknown => {},
    }
}

} // verus!
