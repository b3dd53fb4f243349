//! The transfer buffer: bounds the incoming byte stream against the declared
//! image size and tracks the offset of the next flash write.

use vstd::prelude::*;

use crate::errors::OtaError;

verus! {

/// The mathematical content of a [`TransferBuffer`].
pub ghost struct BufferView {
    /// The largest image the update partition can hold.
    pub max_size: nat,
    /// The declared image size, once the sender has supplied it.
    pub total: Option<nat>,
    /// Every byte accepted so far, in arrival order.
    pub image: Seq<u8>,
}

impl BufferView {
    /// A view is well formed when the accepted bytes fit the declared size
    /// and the declared size fits the partition.
    pub open spec fn wf(self) -> bool {
        match self.total {
            Some(t) => self.image.len() <= t && t <= self.max_size,
            None => self.image.len() == 0,
        }
    }

    /// A fresh view for a partition of `max_size` bytes: nothing declared,
    /// nothing accepted.
    pub open spec fn empty(max_size: nat) -> BufferView {
        BufferView { max_size, total: None, image: Seq::empty() }
    }

    /// Whether a chunk of `len` bytes is within bounds here: blocks are
    /// accepted only once a non-zero size is declared, and only within it.
    pub open spec fn accepts(self, len: nat) -> bool {
        match self.total {
            Some(t) => t > 0 && self.image.len() + len <= t,
            None => false,
        }
    }

    /// Whether a non-zero image size has been declared.
    pub open spec fn size_known(self) -> bool {
        match self.total {
            Some(t) => t > 0,
            None => false,
        }
    }

    /// The view after a chunk is accepted.
    pub open spec fn after_append(self, chunk: Seq<u8>) -> BufferView {
        BufferView { image: self.image + chunk, ..self }
    }

    /// Bytes still owed by the sender; zero while the size is undeclared.
    pub open spec fn remaining(self) -> nat {
        match self.total {
            Some(t) => (t - self.image.len()) as nat,
            None => 0,
        }
    }
}

/// Accumulates file-block writes, bound-checking each against the declared
/// total size. The bytes themselves go to the flash collaborator; the buffer
/// keeps their count and, in ghost state, their exact sequence.
pub struct TransferBuffer {
    /// The largest image the update partition can hold.
    pub max_size: u32,
    /// The declared image size, once supplied.
    pub total: Option<u32>,
    /// How many bytes have been accepted so far.
    pub bytes_written: u32,
    /// Every accepted byte, in arrival order.
    pub image: Ghost<Seq<u8>>,
}

impl View for TransferBuffer {
    type V = BufferView;

    open spec fn view(&self) -> BufferView {
        BufferView {
            max_size: self.max_size as nat,
            total: match self.total {
                Some(t) => Some(t as nat),
                None => None,
            },
            image: self.image@,
        }
    }
}

impl TransferBuffer {
    /// The byte count agrees with the ghost stream and the bounds hold.
    pub open spec fn wf(self) -> bool {
        &&& self@.wf()
        &&& self.bytes_written as nat == self.image@.len()
    }

    /// A fresh buffer for an update partition of `max_size` bytes.
    pub fn new(max_size: u32) -> (buf: TransferBuffer)
        ensures
            buf.wf(),
            buf@ == BufferView::empty(max_size as nat),
    {
        TransferBuffer { max_size, total: None, bytes_written: 0, image: Ghost(Seq::empty()) }
    }

    /// Discards everything but the partition bound.
    pub fn reset(&mut self)
        ensures
            final(self).wf(),
            final(self)@ == BufferView::empty(old(self)@.max_size),
    {
        self.total = None;
        self.bytes_written = 0;
        self.image = Ghost(Seq::empty());
    }

    /// Records the declared image size. Rejected if a size was already
    /// declared this session, or if the image cannot fit the partition.
    pub fn declare_total_size(&mut self, n: u32) -> (r: Result<(), OtaError>)
        requires
            old(self).wf(),
        ensures
            final(self).wf(),
            match r {
                Ok(()) => {
                    &&& old(self)@.total is None
                    &&& n <= old(self)@.max_size
                    &&& final(self)@ == (BufferView { total: Some(n as nat), ..old(self)@ })
                },
                Err(e) => {
                    &&& *final(self) == *old(self)
                    &&& e == (if old(self)@.total is Some {
                        OtaError::AlreadyDeclared
                    } else {
                        OtaError::TooLarge
                    })
                    &&& old(self)@.total is Some || n > old(self)@.max_size
                },
            },
    {
        if self.total.is_some() {
            Err(OtaError::AlreadyDeclared)
        } else if n > self.max_size {
            Err(OtaError::TooLarge)
        } else {
            self.total = Some(n);
            Ok(())
        }
    }

    /// Accepts a chunk when it fits the declared size: the byte count
    /// advances and the chunk joins the ghost stream, to be written at the
    /// old offset. A chunk that would pass the declared size, or one sent
    /// before a non-zero size is declared, is rejected with the buffer
    /// unchanged.
    pub fn append(&mut self, chunk: &[u8]) -> (r: Result<(), OtaError>)
        requires
            old(self).wf(),
        ensures
            final(self).wf(),
            match r {
                Ok(()) => {
                    &&& old(self)@.accepts(chunk@.len())
                    &&& final(self)@ == old(self)@.after_append(chunk@)
                },
                Err(e) => {
                    &&& *final(self) == *old(self)
                    &&& !old(self)@.accepts(chunk@.len())
                    &&& e == (if !old(self)@.size_known() {
                        OtaError::SizeNotDeclared
                    } else {
                        OtaError::Overflow
                    })
                },
            },
    {
        match self.total {
            None => Err(OtaError::SizeNotDeclared),
            Some(t) => {
                if t == 0 {
                    return Err(OtaError::SizeNotDeclared);
                }
                let len = chunk.len();
                if len as u64 > (t - self.bytes_written) as u64 {
                    Err(OtaError::Overflow)
                } else {
                    self.bytes_written = self.bytes_written + len as u32;
                    proof {
                        self.image@ = self.image@ + chunk@;
                    }
                    Ok(())
                }
            },
        }
    }

    /// How many declared bytes are still owed.
    pub fn bytes_remaining(&self) -> (r: u32)
        requires
            self.wf(),
        ensures
            r as nat == self@.remaining(),
    {
        match self.total {
            Some(t) => t - self.bytes_written,
            None => 0,
        }
    }

    /// How many bytes have been accepted so far.
    pub fn bytes_written(&self) -> (r: u32)
        requires
            self.wf(),
        ensures
            r as nat == self@.image.len(),
    {
        self.bytes_written
    }

    /// The declared image size, if the sender has supplied one.
    pub fn total_size(&self) -> (r: Option<u32>)
        ensures
            match r {
                Some(t) => self@.total == Some(t as nat),
                None => self@.total is None,
            },
    {
        self.total
    }

    /// Whether every declared byte has arrived.
    pub fn is_complete(&self) -> (r: bool)
        requires
            self.wf(),
        ensures
            r == (self@.total is Some && self@.remaining() == 0),
    {
        match self.total {
            Some(t) => self.bytes_written == t,
            None => false,
        }
    }
}

/// The total length of a sequence of chunks.
pub open spec fn chunks_len(chunks: Seq<Seq<u8>>) -> nat
    decreases chunks.len(),
{
    if chunks.len() == 0 {
        0
    } else {
        chunks.first().len() + chunks_len(chunks.drop_first())
    }
}

/// The view after a whole sequence of chunks is accepted in order.
pub open spec fn after_appends(v: BufferView, chunks: Seq<Seq<u8>>) -> BufferView
    decreases chunks.len(),
{
    if chunks.len() == 0 {
        v
    } else {
        after_appends(v.after_append(chunks.first()), chunks.drop_first())
    }
}

/// For any sequence of appends whose cumulative length stays within the
/// declared total size, every single append is in bounds (so none is
/// rejected with `Overflow`), and the bytes remaining decrease monotonically,
/// step by step, down to exactly the declared size minus the cumulative
/// length — to zero when the chunks fill the image.
pub proof fn lemma_appends_within_size(v: BufferView, chunks: Seq<Seq<u8>>)
    requires
        v.wf(),
        v.total is Some,
        chunks.len() > 0 ==> v.size_known(),
        chunks_len(chunks) <= v.remaining(),
    ensures
        after_appends(v, chunks).wf(),
        chunks.len() > 0 ==> v.accepts(chunks.first().len()),
        chunks.len() > 0 ==> after_appends(v, chunks)
            == after_appends(v.after_append(chunks.first()), chunks.drop_first()),
        after_appends(v, chunks).remaining() == v.remaining() - chunks_len(chunks),
        after_appends(v, chunks).remaining() <= v.remaining(),
        after_appends(v, chunks).total == v.total,
    decreases chunks.len(),
{
    if chunks.len() > 0 {
        lemma_appends_within_size(v.after_append(chunks.first()), chunks.drop_first());
    }
}

/// Unfolds one step: running a non-empty prefix is running the first chunk
/// and then the rest of the prefix, and its length splits the same way.
proof fn lemma_take_unfold(v: BufferView, chunks: Seq<Seq<u8>>, k: int)
    requires
        1 <= k <= chunks.len(),
    ensures
        after_appends(v, chunks.take(k)) == after_appends(
            v.after_append(chunks.first()),
            chunks.drop_first().take(k - 1),
        ),
        chunks_len(chunks.take(k)) == chunks.first().len() + chunks_len(
            chunks.drop_first().take(k - 1),
        ),
{
    assert(chunks.take(k).first() == chunks.first());
    assert(chunks.take(k).drop_first() =~= chunks.drop_first().take(k - 1));
}

/// `lemma_appends_within_size`, step by step: within the declared size, every
/// single append along the way is in bounds — none raises `Overflow` — and
/// after each one exactly that chunk's length is gone from the bytes
/// remaining, so the remainder decreases monotonically to its final value.
pub proof fn lemma_appends_stepwise(v: BufferView, chunks: Seq<Seq<u8>>)
    requires
        v.wf(),
        v.total is Some,
        chunks.len() > 0 ==> v.size_known(),
        chunks_len(chunks) <= v.remaining(),
    ensures
        forall|k: int|
            0 <= k < chunks.len() ==> (#[trigger] after_appends(v, chunks.take(k))).accepts(
                chunks[k].len(),
            ),
        forall|k: int|
            0 <= k < chunks.len() ==> after_appends(v, chunks.take(k + 1)).remaining()
                == after_appends(v, chunks.take(k)).remaining() - chunks[k].len(),
    decreases chunks.len(),
{
    if chunks.len() > 0 {
        let v1 = v.after_append(chunks.first());
        let rest = chunks.drop_first();
        assert(after_appends(v, chunks.take(0)) == v);
        assert(chunks.take(1).first() == chunks.first());
        assert(chunks.take(1).drop_first() =~= rest.take(0));
        lemma_appends_stepwise(v1, rest);
        assert forall|k: int| 0 <= k < chunks.len() implies (#[trigger] after_appends(
            v,
            chunks.take(k),
        )).accepts(chunks[k].len()) by {
            if k > 0 {
                lemma_take_unfold(v, chunks, k);
                assert(after_appends(v1, rest.take(k - 1)).accepts(rest[k - 1].len()));
            }
        }
        assert forall|k: int| 0 <= k < chunks.len() implies after_appends(
            v,
            chunks.take(k + 1),
        ).remaining() == after_appends(v, chunks.take(k)).remaining() - chunks[k].len() by {
            lemma_take_unfold(v, chunks, k + 1);
            if k > 0 {
                lemma_take_unfold(v, chunks, k);
                assert(after_appends(v1, rest.take(k)).remaining() == after_appends(
                    v1,
                    rest.take(k - 1),
                ).remaining() - rest[k - 1].len());
            }
        }
    }
}

} // verus!
