use vstd::prelude::*;
use vstd::arithmetic::div_mod::{lemma_fundamental_div_mod, lemma_fundamental_div_mod_converse};

use crate::record::{models, LogRecord, RecordModel};

verus! {

/// The default buffer capacity: how many records one batch insert
/// carries.
pub const BUFFER_SIZE: usize = 10000;

/// The length a buffer holds after one more record: the append wraps to
/// zero where it reaches the capacity.
pub open spec fn step_len(len: nat, cap: nat) -> nat {
    if len + 1 == cap {
        0
    } else {
        (len + 1) as nat
    }
}

/// Whether appending to a buffer holding `len` records hands a batch out.
pub open spec fn step_flushes(len: nat, cap: nat) -> bool {
    len + 1 == cap
}

/// The buffer length after `n` records, written one by one into an
/// initially empty buffer of capacity `cap`.
pub open spec fn len_after(n: nat, cap: nat) -> nat
    decreases n,
{
    if n == 0 {
        0
    } else {
        step_len(len_after((n - 1) as nat, cap), cap)
    }
}

/// How many batches writing `n` records one by one hands out.
pub open spec fn flushes_after(n: nat, cap: nat) -> nat
    decreases n,
{
    if n == 0 {
        0
    } else {
        flushes_after((n - 1) as nat, cap) + (if step_flushes(
            len_after((n - 1) as nat, cap),
            cap,
        ) {
            1nat
        } else {
            0nat
        })
    }
}

/// Writing `n` records one by one into an initially empty buffer of
/// capacity `cap` hands out exactly `n / cap` batches, and `n % cap`
/// records stay behind for the final, unconditional flush — which
/// afterwards always leaves the buffer empty, whatever `n % cap` was.
pub proof fn lemma_flush_counts(n: nat, cap: nat)
    requires
        1 <= cap,
    ensures
        len_after(n, cap) == n % cap,
        flushes_after(n, cap) == n / cap,
    decreases n,
{
    if n == 0 {
        lemma_fundamental_div_mod_converse(0, cap as int, 0, 0);
    } else {
        let m = (n - 1) as nat;
        lemma_flush_counts(m, cap);
        let l = len_after(m, cap);
        let f = flushes_after(m, cap);
        lemma_fundamental_div_mod(m as int, cap as int);
        if l + 1 == cap {
            assert(n as int == (f + 1) * cap + 0) by (nonlinear_arith)
                requires
                    m as int == cap as int * f as int + l as int,
                    n == m + 1,
                    l + 1 == cap,
            ;
            lemma_fundamental_div_mod_converse(n as int, cap as int, (f + 1) as int, 0);
        } else {
            lemma_fundamental_div_mod_converse(n as int, cap as int, f as int, (l + 1) as int);
        }
    }
}

/// An ordered, append-only accumulation of records with a fixed
/// capacity. The append that reaches the capacity hands the whole batch
/// out and leaves the buffer empty again, so between calls the buffer is
/// never full.
pub struct Buffer {
    records: Vec<LogRecord>,
    capacity: usize,
}

impl Buffer {
    /// The models of the records now held, in arrival order.
    pub closed spec fn model(self) -> Seq<RecordModel> {
        models(self.records@)
    }

    /// The fixed capacity.
    pub closed spec fn cap(self) -> nat {
        self.capacity as nat
    }

    /// Well-formed: a capacity of at least one — small enough that every
    /// placeholder number of a full batch fits in a machine word — and
    /// fewer records held than the capacity.
    pub open spec fn wf(self) -> bool {
        &&& 1 <= self.cap()
        &&& self.cap() * 3 + 3 <= u64::MAX
        &&& self.model().len() < self.cap()
    }

    /// An empty buffer of capacity `capacity`.
    pub fn new(capacity: usize) -> (r: Buffer)
        requires
            1 <= capacity,
            capacity * 3 + 3 <= u64::MAX,
        ensures
            r.wf(),
            r.model() == Seq::<RecordModel>::empty(),
            r.cap() == capacity,
    {
        let r = Buffer { records: Vec::new(), capacity };
        proof {
            assert(r.model() =~= Seq::<RecordModel>::empty());
        }
        r
    }

    /// How many records are now held.
    pub fn len(&self) -> (n: usize)
        ensures
            n == self.model().len(),
    {
        self.records.len()
    }

    /// Append one record. The append that fills the buffer to capacity
    /// hands the whole batch out, oldest record first, and leaves the
    /// buffer empty; any other append hands nothing out.
    pub fn write(&mut self, rec: LogRecord) -> (batch: Option<Vec<LogRecord>>)
        requires
            old(self).wf(),
        ensures
            final(self).wf(),
            final(self).cap() == old(self).cap(),
            batch is Some <==> step_flushes(old(self).model().len(), old(self).cap()),
            final(self).model().len() == step_len(old(self).model().len(), old(self).cap()),
            batch matches Some(b) ==> models(b@) == old(self).model().push(rec@)
                && final(self).model() == Seq::<RecordModel>::empty(),
            batch is None ==> final(self).model() == old(self).model().push(rec@),
    {
        let ghost pushed = self.model().push(rec@);
        self.records.push(rec);
        proof {
            assert(self.model() =~= pushed);
        }
        if self.records.len() >= self.capacity {
            let mut batch: Vec<LogRecord> = Vec::new();
            core::mem::swap(&mut batch, &mut self.records);
            proof {
                assert(self.model() =~= Seq::<RecordModel>::empty());
            }
            Some(batch)
        } else {
            None
        }
    }

    /// Hand out everything now held, oldest record first, leaving the
    /// buffer empty: the final, unconditional flush at end of stream.
    pub fn drain(&mut self) -> (batch: Vec<LogRecord>)
        requires
            old(self).wf(),
        ensures
            final(self).wf(),
            final(self).cap() == old(self).cap(),
            models(batch@) == old(self).model(),
            final(self).model() == Seq::<RecordModel>::empty(),
    {
        let mut batch: Vec<LogRecord> = Vec::new();
        core::mem::swap(&mut batch, &mut self.records);
        proof {
            assert(self.model() =~= Seq::<RecordModel>::empty());
        }
        batch
    }
}

} // verus!
