use vstd::prelude::*;

verus! {

/// Chunks downloaded ahead of playback before the fetcher has to wait.
pub const DOWNLOAD_AHEAD: usize = 5;

/// Outcome of offering a chunk to the channel.
pub enum SendResult {
    Sent,
    /// The channel holds `capacity` chunks: the producer must wait for a receive and
    /// offer this chunk again.
    Full(Vec<u8>),
    /// The receiving side is gone; the chunk is handed back.
    Gone(Vec<u8>),
}

/// Outcome of asking the channel for a chunk.
pub enum RecvResult {
    Chunk(Vec<u8>),
    /// Nothing buffered, but more may come.
    Empty,
    /// Nothing buffered, and the producer has finished.
    Closed,
}

pub struct ChannelModel {
    pub chunks: Seq<Vec<u8>>,
    pub capacity: nat,
    pub sender_done: bool,
    pub receiver_gone: bool,
}

impl ChannelModel {
    pub open spec fn wf(self) -> bool {
        &&& 0 < self.capacity
        &&& self.chunks.len() <= self.capacity
    }
}

/// A bounded, ordered channel of byte chunks: the download-ahead buffer between the
/// segment fetcher and the byte reader.
pub struct ChunkChannel {
    chunks: std::collections::VecDeque<Vec<u8>>,
    capacity: usize,
    sender_done: bool,
    receiver_gone: bool,
}

impl View for ChunkChannel {
    type V = ChannelModel;

    closed spec fn view(&self) -> ChannelModel {
        ChannelModel {
            chunks: self.chunks@,
            capacity: self.capacity as nat,
            sender_done: self.sender_done,
            receiver_gone: self.receiver_gone,
        }
    }
}

impl ChunkChannel {
    pub fn new(capacity: usize) -> (r: ChunkChannel)
        requires
            capacity > 0,
        ensures
            r@ == (ChannelModel {
                chunks: Seq::empty(),
                capacity: capacity as nat,
                sender_done: false,
                receiver_gone: false,
            }),
            r@.wf(),
    {
        ChunkChannel {
            chunks: std::collections::VecDeque::new(),
            capacity,
            sender_done: false,
            receiver_gone: false,
        }
    }

    pub fn len(&self) -> (r: usize)
        requires
            self@.wf(),
        ensures
            r == self@.chunks.len(),
            r <= self@.capacity,
    {
        self.chunks.len()
    }

    pub fn capacity(&self) -> (r: usize)
        ensures
            r == self@.capacity,
    {
        self.capacity
    }

    /// Offer a chunk: it is queued behind the others unless the channel is full or the
    /// receiver is gone.
    pub fn try_send(&mut self, chunk: Vec<u8>) -> (r: SendResult)
        requires
            old(self)@.wf(),
        ensures
            final(self)@.wf(),
            old(self)@.receiver_gone ==> r == SendResult::Gone(chunk) && final(self)@ == old(self)@,
            !old(self)@.receiver_gone && old(self)@.chunks.len() == old(self)@.capacity ==> r
                == SendResult::Full(chunk) && final(self)@ == old(self)@,
            !old(self)@.receiver_gone && old(self)@.chunks.len() < old(self)@.capacity ==> r
                is Sent && final(self)@ == (ChannelModel { chunks: old(self)@.chunks.push(chunk), ..old(self)@ }),
    {
        if self.receiver_gone {
            SendResult::Gone(chunk)
        } else if self.chunks.len() >= self.capacity {
            SendResult::Full(chunk)
        } else {
            self.chunks.push_back(chunk);
            SendResult::Sent
        }
    }

    /// Take the oldest chunk.
    pub fn try_recv(&mut self) -> (r: RecvResult)
        requires
            old(self)@.wf(),
        ensures
            final(self)@.wf(),
            old(self)@.chunks.len() > 0 ==> r == RecvResult::Chunk(old(self)@.chunks[0])
                && final(self)@ == (ChannelModel { chunks: old(self)@.chunks.drop_first(), ..old(self)@ }),
            old(self)@.chunks.len() == 0 && old(self)@.sender_done ==> r is Closed && final(self)@ == old(self)@,
            old(self)@.chunks.len() == 0 && !old(self)@.sender_done ==> r is Empty && final(self)@ == old(self)@,
    {
        match self.chunks.pop_front() {
            Some(c) => RecvResult::Chunk(c),
            None => if self.sender_done {
                RecvResult::Closed
            } else {
                RecvResult::Empty
            },
        }
    }

    /// The producer will send nothing more.
    pub fn close_sender(&mut self)
        requires
            old(self)@.wf(),
        ensures
            final(self)@.wf(),
            final(self)@ == (ChannelModel { sender_done: true, ..old(self)@ }),
    {
        self.sender_done = true;
    }

    /// The consumer no longer wants chunks: what is buffered is dropped.
    pub fn close_receiver(&mut self)
        requires
            old(self)@.wf(),
        ensures
            final(self)@.wf(),
            final(self)@ == (ChannelModel { chunks: Seq::empty(), receiver_gone: true, ..old(self)@ }),
    {
        self.chunks.clear();
        self.receiver_gone = true;
    }
}

/// One operation on the channel.
pub enum ChannelOp {
    Send(Vec<u8>),
    Recv,
}

impl ChannelModel {
    /// The channel after one operation, and whether a send was refused for want of room.
    pub open spec fn step(self, op: ChannelOp) -> (ChannelModel, bool) {
        match op {
            ChannelOp::Send(c) => if self.receiver_gone {
                (self, false)
            } else if self.chunks.len() < self.capacity {
                (ChannelModel { chunks: self.chunks.push(c), ..self }, false)
            } else {
                (self, true)
            },
            ChannelOp::Recv => if self.chunks.len() > 0 {
                (ChannelModel { chunks: self.chunks.drop_first(), ..self }, false)
            } else {
                (self, false)
            },
        }
    }

    pub open spec fn run(self, ops: Seq<ChannelOp>) -> ChannelModel
        decreases ops.len(),
    {
        if ops.len() == 0 {
            self
        } else {
            self.step(ops[0]).0.run(ops.drop_first())
        }
    }
}

/// The channel never buffers more than `capacity` chunks, whatever is sent and received;
/// a send to a full channel is refused, so the producer must wait for a receive.
pub proof fn lemma_backpressure(m: ChannelModel, ops: Seq<ChannelOp>, c: Vec<u8>)
    requires
        m.wf(),
    ensures
        m.run(ops).wf(),
        m.run(ops).chunks.len() <= m.capacity,
        !m.receiver_gone && m.chunks.len() == m.capacity ==> m.step(ChannelOp::Send(c)) == (m, true),
    decreases ops.len(),
{
    if ops.len() > 0 {
        lemma_backpressure(m.step(ops[0]).0, ops.drop_first(), c);
    }
}

} // verus!
