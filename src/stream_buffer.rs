use vstd::prelude::*;

verus! {

/// Below this many buffered bytes the reader pulls another chunk.
pub const STORE_LOW_MARK: usize = 10000;

/// What polling the chunk channel gave.
pub enum ChunkPoll {
    Chunk(Vec<u8>),
    /// The channel is closed and drained: end of stream.
    Closed,
    /// The channel is open but holds no chunk yet.
    Pending,
}

/// What a read request gets.
pub enum ReadPoll {
    /// These bytes; none at all means end of stream.
    Ready(Vec<u8>),
    /// Not enough data yet: ask again later.
    Pending,
}

/// The bytes a read of at most `max` takes from `store`, and what stays.
pub open spec fn take_spec(store: Seq<u8>, max: nat) -> (Seq<u8>, Seq<u8>) {
    let n = if store.len() < max { store.len() } else { max };
    (store.take(n as int), store.skip(n as int))
}

/// Adapts a stream of chunks into reads of any size; bytes a read does not take are kept
/// for the next one.
pub struct HlsReader {
    store: Vec<u8>,
}

impl View for HlsReader {
    type V = Seq<u8>;

    closed spec fn view(&self) -> Seq<u8> {
        self.store@
    }
}

impl HlsReader {
    pub fn new() -> (r: HlsReader)
        ensures
            r@ == Seq::<u8>::empty(),
    {
        HlsReader { store: Vec::new() }
    }

    /// Number of bytes held.
    pub fn len(&self) -> (r: usize)
        ensures
            r == self@.len(),
    {
        self.store.len()
    }

    /// Whether the store is below the low-water mark, so that another chunk should be pulled.
    pub fn needs_fill(&self) -> (r: bool)
        ensures
            r == (self@.len() < STORE_LOW_MARK),
    {
        self.store.len() < STORE_LOW_MARK
    }

    /// Append a chunk's bytes after those already held.
    pub fn append(&mut self, chunk: Vec<u8>)
        ensures
            final(self)@ == old(self)@ + chunk@,
    {
        let mut chunk = chunk;
        self.store.append(&mut chunk);
    }

    /// Take up to `max` bytes from the front.
    pub fn take(&mut self, max: usize) -> (r: Vec<u8>)
        ensures
            (r@, final(self)@) == take_spec(old(self)@, max as nat),
    {
        let n = if self.store.len() < max {
            self.store.len()
        } else {
            max
        };
        let mut out = self.store.split_off(n);
        std::mem::swap(&mut self.store, &mut out);
        out
    }

    /// Serve a read of up to `max` bytes. `polled` is what polling the chunk channel gave,
    /// or `None` when the channel was not polled because the store was full enough.
    pub fn poll_read(&mut self, polled: Option<ChunkPoll>, max: usize) -> (r: ReadPoll)
        ensures
            polled matches Some(ChunkPoll::Pending) ==> r is Pending && final(self)@ == old(self)@,
            polled matches Some(ChunkPoll::Chunk(c)) ==> r matches ReadPoll::Ready(b)
                && (b@, final(self)@) == take_spec(old(self)@ + c@, max as nat),
            (polled is None || polled matches Some(ChunkPoll::Closed)) ==> (r matches ReadPoll::Ready(b)
                && (b@, final(self)@) == take_spec(old(self)@, max as nat)),
    {
        match polled {
            Some(ChunkPoll::Pending) => ReadPoll::Pending,
            Some(ChunkPoll::Chunk(c)) => {
                self.append(c);
                ReadPoll::Ready(self.take(max))
            },
            _ => ReadPoll::Ready(self.take(max)),
        }
    }
}

/// One operation on the reader: append a chunk, or read up to a number of bytes.
pub enum ByteOp {
    Append(Seq<u8>),
    Read(nat),
}

/// The store after `ops`, and the bytes the reads returned, in order.
pub open spec fn run_ops(store: Seq<u8>, ops: Seq<ByteOp>) -> (Seq<u8>, Seq<u8>)
    decreases ops.len(),
{
    if ops.len() == 0 {
        (store, Seq::empty())
    } else {
        let (s1, out1) = match ops[0] {
            ByteOp::Append(c) => (store + c, Seq::<u8>::empty()),
            ByteOp::Read(max) => {
                let (b, rest) = take_spec(store, max);
                (rest, b)
            },
        };
        let (s2, out2) = run_ops(s1, ops.drop_first());
        (s2, out1 + out2)
    }
}

/// All bytes appended by `ops`, in order.
pub open spec fn appended(ops: Seq<ByteOp>) -> Seq<u8>
    decreases ops.len(),
{
    if ops.len() == 0 {
        Seq::empty()
    } else {
        let first = match ops[0] {
            ByteOp::Append(c) => c,
            ByteOp::Read(_) => Seq::<u8>::empty(),
        };
        first + appended(ops.drop_first())
    }
}

/// No byte is lost, duplicated or reordered: for any appends and reads, whatever their
/// sizes, the bytes held before plus all bytes appended equal all bytes read followed by
/// the bytes still held.
pub proof fn lemma_byte_conservation(store: Seq<u8>, ops: Seq<ByteOp>)
    ensures
        store + appended(ops) == run_ops(store, ops).1 + run_ops(store, ops).0,
    decreases ops.len(),
{
    if ops.len() > 0 {
        let rest = ops.drop_first();
        match ops[0] {
            ByteOp::Append(c) => {
                lemma_byte_conservation(store + c, rest);
                assert(store + (c + appended(rest)) =~= (store + c) + appended(rest));
                assert(run_ops(store, ops).1 =~= run_ops(store + c, rest).1);
            },
            ByteOp::Read(max) => {
                let (b, s1) = take_spec(store, max);
                lemma_byte_conservation(s1, rest);
                assert(store =~= b + s1);
                assert(appended(ops) =~= appended(rest));
                assert(store + appended(rest) =~= b + (s1 + appended(rest)));
                assert(b + (run_ops(s1, rest).1 + run_ops(s1, rest).0) =~= (b + run_ops(s1, rest).1) + run_ops(s1, rest).0);
            },
        }
    }
}

/// Starting empty, once every byte has been read the bytes read are exactly the bytes
/// appended, in order.
pub proof fn lemma_drained_reads_equal_appends(ops: Seq<ByteOp>)
    requires
        run_ops(Seq::empty(), ops).0.len() == 0,
    ensures
        run_ops(Seq::empty(), ops).1 == appended(ops),
{
    lemma_byte_conservation(Seq::empty(), ops);
    assert(Seq::<u8>::empty() + appended(ops) =~= appended(ops));
    assert(run_ops(Seq::empty(), ops).1 + run_ops(Seq::empty(), ops).0 =~= run_ops(Seq::empty(), ops).1);
}

} // verus!
