//! Framing of commands and data into bounded bus block writes, and the
//! fail-fast order in which a sequence of writes reaches the bus.
use vstd::prelude::*;

verus! {

/// The prefix byte of a write that goes to the command parser.
pub const COMMAND_MODE: u8 = 0x00;

/// The prefix byte of a write that goes to display RAM.
pub const DATA_MODE: u8 = 0x40;

/// The largest payload of one block write, beside its prefix byte.
pub const MAX_CHUNK: usize = 31;

/// One block write on the bus: a mode prefix byte and its payload.
#[derive(Clone, Debug, PartialEq, Eq)]
pub struct BusWrite {
    pub mode: u8,
    pub payload: Vec<u8>,
}

impl View for BusWrite {
    type V = (u8, Seq<u8>);

    open spec fn view(&self) -> (u8, Seq<u8>) {
        (self.mode, self.payload@)
    }
}

/// The view of a sequence of writes.
pub open spec fn writes_view(writes: Seq<BusWrite>) -> Seq<(u8, Seq<u8>)> {
    writes.map_values(|w: BusWrite| w@)
}

/// A one-byte write to the command parser.
pub open spec fn command_write(byte: u8) -> (u8, Seq<u8>) {
    (COMMAND_MODE, seq![byte])
}

/// One-byte writes to the command parser, one for each byte, in order.
pub open spec fn command_writes(bytes: Seq<u8>) -> Seq<(u8, Seq<u8>)> {
    bytes.map_values(|b: u8| command_write(b))
}

/// A one-byte write to display RAM.
pub open spec fn data_write(byte: u8) -> (u8, Seq<u8>) {
    (DATA_MODE, seq![byte])
}

/// `data` cut into consecutive pieces of `MAX_CHUNK` bytes; the last one
/// holds what remains.
pub open spec fn chunks(data: Seq<u8>) -> Seq<Seq<u8>>
    decreases data.len(),
{
    if data.len() == 0 {
        seq![]
    } else if data.len() <= MAX_CHUNK {
        seq![data]
    } else {
        seq![data.subrange(0, MAX_CHUNK as int)] + chunks(data.subrange(MAX_CHUNK as int, data.len() as int))
    }
}

/// The data writes that carry `data` to display RAM.
pub open spec fn bulk_writes_spec(data: Seq<u8>) -> Seq<(u8, Seq<u8>)> {
    chunks(data).map_values(|c: Seq<u8>| (DATA_MODE, c))
}

/// The block write of one command byte.
pub fn command(byte: u8) -> (r: BusWrite)
    ensures
        r@ == command_write(byte),
{
    BusWrite { mode: COMMAND_MODE, payload: vec![byte] }
}

/// The block write of one data byte.
pub fn data(byte: u8) -> (r: BusWrite)
    ensures
        r@ == data_write(byte),
{
    BusWrite { mode: DATA_MODE, payload: vec![byte] }
}

proof fn lemma_chunks_unfold(data: Seq<u8>, pos: int)
    requires
        0 <= pos < data.len(),
    ensures
        ({
            let rest = data.subrange(pos, data.len() as int);
            let end = if data.len() - pos <= MAX_CHUNK {
                data.len() as int
            } else {
                pos + MAX_CHUNK
            };
            bulk_writes_spec(rest) == seq![(DATA_MODE, data.subrange(pos, end))]
                + bulk_writes_spec(data.subrange(end, data.len() as int))
        }),
{
    let rest = data.subrange(pos, data.len() as int);
    let end = if data.len() - pos <= MAX_CHUNK {
        data.len() as int
    } else {
        pos + MAX_CHUNK
    };
    if data.len() - pos <= MAX_CHUNK {
        assert(data.subrange(end, data.len() as int) =~= seq![]);
        assert(chunks(seq![]) == Seq::<Seq<u8>>::empty());
        assert(bulk_writes_spec(rest) =~= seq![(DATA_MODE, data.subrange(pos, end))]
            + bulk_writes_spec(data.subrange(end, data.len() as int)));
    } else {
        assert(rest.subrange(0, MAX_CHUNK as int) =~= data.subrange(pos, end));
        assert(rest.subrange(MAX_CHUNK as int, rest.len() as int) =~= data.subrange(end, data.len() as int));
        assert(bulk_writes_spec(rest) =~= seq![(DATA_MODE, data.subrange(pos, end))]
            + bulk_writes_spec(data.subrange(end, data.len() as int)));
    }
}

/// The data writes that carry `data` to display RAM, in order, each at
/// most `MAX_CHUNK` bytes long.
pub fn bulk_writes(data: &[u8]) -> (r: Vec<BusWrite>)
    ensures
        writes_view(r@) == bulk_writes_spec(data@),
{
    let mut out: Vec<BusWrite> = Vec::new();
    let mut pos: usize = 0;
    assert(data@.subrange(0, data@.len() as int) =~= data@);
    while pos < data.len()
        invariant
            pos <= data@.len(),
            writes_view(out@) + bulk_writes_spec(data@.subrange(pos as int, data@.len() as int))
                == bulk_writes_spec(data@),
        decreases data@.len() - pos,
    {
        let end: usize = if data.len() - pos <= MAX_CHUNK {
            data.len()
        } else {
            pos + MAX_CHUNK
        };
        proof {
            lemma_chunks_unfold(data@, pos as int);
        }
        let mut payload: Vec<u8> = Vec::with_capacity(end - pos);
        let mut i: usize = pos;
        while i < end
            invariant
                pos <= i <= end,
                end <= data@.len(),
                payload@ == data@.subrange(pos as int, i as int),
            decreases end - i,
        {
            payload.push(data[i]);
            i = i + 1;
            assert(payload@ =~= data@.subrange(pos as int, i as int));
        }
        let ghost before = out@;
        out.push(BusWrite { mode: DATA_MODE, payload });
        assert(writes_view(out@) =~= writes_view(before) + seq![(DATA_MODE, data@.subrange(pos as int, end as int))]);
        pos = end;
    }
    assert(data@.subrange(pos as int, data@.len() as int) =~= seq![]);
    assert(chunks(seq![]) == Seq::<Seq<u8>>::empty());
    assert(writes_view(out@) =~= bulk_writes_spec(data@));
    out
}

/// Sending `data` takes `ceil(len / MAX_CHUNK)` data writes (none for an
/// empty payload); each carries between 1 and `MAX_CHUNK` bytes, and their
/// payloads, in order, put together give back `data` exactly.
pub proof fn lemma_bulk_writes(data: Seq<u8>)
    ensures
        bulk_writes_spec(data).len() == (data.len() + MAX_CHUNK - 1) / (MAX_CHUNK as int),
        forall|i: int|
            0 <= i < bulk_writes_spec(data).len() ==> {
                let w = #[trigger] bulk_writes_spec(data)[i];
                &&& w.0 == DATA_MODE
                &&& 1 <= w.1.len() <= MAX_CHUNK
            },
        chunks(data).flatten() == data,
    decreases data.len(),
{
    if data.len() == 0 {
    } else if data.len() <= MAX_CHUNK {
        assert(chunks(data).drop_first() =~= Seq::<Seq<u8>>::empty());
        assert(chunks(data).drop_first().flatten() == Seq::<u8>::empty());
        assert(chunks(data).flatten() =~= data);
    } else {
        let rest = data.subrange(MAX_CHUNK as int, data.len() as int);
        lemma_bulk_writes(rest);
        let head = data.subrange(0, MAX_CHUNK as int);
        assert(chunks(data).drop_first() =~= chunks(rest));
        assert(chunks(data).flatten() =~= head + chunks(rest).flatten());
        assert(data =~= head + rest);
        assert(forall|i: int|
            0 < i < bulk_writes_spec(data).len() ==> bulk_writes_spec(data)[i]
                == bulk_writes_spec(rest)[i - 1]);
    }
}

/// The bus side of a sequence of writes: they go out in order, one at a
/// time, and the first write that fails ends the sequence.
pub struct Transfer {
    writes: Vec<BusWrite>,
    sent: usize,
    failed: bool,
}

impl Transfer {
    /// The writes of this transfer, in order.
    pub closed spec fn writes(&self) -> Seq<BusWrite> {
        self.writes@
    }

    /// How many writes have gone out successfully.
    pub closed spec fn sent_count(&self) -> nat {
        self.sent as nat
    }

    /// Whether a write has failed.
    pub closed spec fn failed(&self) -> bool {
        self.failed
    }

    /// The invariant: no more writes have gone out than there are.
    pub closed spec fn wf(&self) -> bool {
        self.sent <= self.writes@.len()
    }

    /// A transfer of `writes` of which none has gone out yet.
    pub fn new(writes: Vec<BusWrite>) -> (t: Transfer)
        ensures
            t.wf(),
            t.writes() == writes@,
            t.sent_count() == 0,
            !t.failed(),
    {
        Transfer { writes, sent: 0, failed: false }
    }

    /// The write to perform next: the first one not yet sent, unless one
    /// has failed or all have gone out.
    pub fn next_write(&self) -> (r: Option<&BusWrite>)
        requires
            self.wf(),
        ensures
            r is Some <==> !self.failed() && self.sent_count() < self.writes().len(),
            r is Some ==> *r->Some_0 == self.writes()[self.sent_count() as int],
    {
        if self.failed || self.sent >= self.writes.len() {
            None
        } else {
            Some(&self.writes[self.sent])
        }
    }

    /// Records the outcome of the write that `next_write` handed out. After
    /// a failure no further write is handed out.
    pub fn record(&mut self, succeeded: bool)
        requires
            old(self).wf(),
            !old(self).failed(),
            old(self).sent_count() < old(self).writes().len(),
        ensures
            final(self).wf(),
            final(self).writes() == old(self).writes(),
            succeeded ==> final(self).sent_count() == old(self).sent_count() + 1 && !final(self).failed(),
            !succeeded ==> final(self).sent_count() == old(self).sent_count() && final(self).failed(),
    {
        if succeeded && self.sent < self.writes.len() {
            self.sent = self.sent + 1;
        } else if !succeeded {
            self.failed = true;
        }
    }

    /// Whether every write has gone out.
    pub fn is_complete(&self) -> (r: bool)
        ensures
            r == (!self.failed() && self.sent_count() == self.writes().len()),
    {
        !self.failed && self.sent == self.writes.len()
    }

    /// Whether a write has failed.
    pub fn has_failed(&self) -> (r: bool)
        ensures
            r == self.failed(),
    {
        self.failed
    }

    /// How many writes have gone out successfully.
    pub fn sent(&self) -> (r: usize)
        ensures
            r == self.sent_count(),
    {
        self.sent
    }
}

} // verus!
