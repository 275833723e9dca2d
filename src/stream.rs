//! A byte buffer handed out as a sequence of bounded chunks.
use bytes::{Buf, Bytes};
use indicatif::ProgressBar;
use vstd::arithmetic::div_mod::{lemma_basic_div, lemma_div_plus_one};
use vstd::prelude::*;

verus! {

#[verifier::external_type_specification]
#[verifier::external_body]
pub struct ExBytes(Bytes);

#[verifier::external_type_specification]
#[verifier::external_body]
pub struct ExProgressBar(ProgressBar);

#[verifier::external_type_specification]
#[verifier::external_body]
pub struct ExAnyhowError(anyhow::Error);

/// Largest number of bytes handed out in one chunk.
pub const CHUNK_SIZE: usize = 4096;

/// The bytes that a `Bytes` buffer holds, front first.
pub uninterp spec fn bytes_content(b: Bytes) -> Seq<u8>;

/// Relies on `<Bytes as Buf>::remaining`, which is the buffer's length.
#[verifier::external_body]
fn remaining_of(b: &Bytes) -> (r: usize)
    ensures
        r == bytes_content(*b).len(),
{
    b.remaining()
}

/// Relies on `<Bytes as Buf>::copy_to_bytes`, which for `Bytes` is `split_to`:
/// the first `n` bytes come back and the buffer keeps the rest (it panics past the end).
#[verifier::external_body]
fn split_front(b: &mut Bytes, n: usize) -> (r: Bytes)
    requires
        n <= bytes_content(*old(b)).len(),
    ensures
        bytes_content(r) == bytes_content(*old(b)).take(n as int),
        bytes_content(*final(b)) == bytes_content(*old(b)).skip(n as int),
{
    b.copy_to_bytes(n)
}

/// The lengths of the chunks that a buffer of `len` bytes is cut into,
/// in order, when no chunk may exceed `size` bytes.
pub open spec fn chunk_lengths(len: nat, size: nat) -> Seq<nat>
    decreases len,
{
    if len == 0 || size == 0 {
        seq![]
    } else if len <= size {
        seq![len]
    } else {
        seq![size] + chunk_lengths((len - size) as nat, size)
    }
}

pub open spec fn sum_of(s: Seq<nat>) -> nat
    decreases s.len(),
{
    if s.len() == 0 {
        0
    } else {
        s[0] + sum_of(s.drop_first())
    }
}

/// Length of the chunk cut from the front of `remaining` bytes.
pub open spec fn next_chunk_len(remaining: nat) -> nat {
    if remaining > CHUNK_SIZE {
        CHUNK_SIZE as nat
    } else {
        remaining
    }
}

/// Cutting a buffer of `len` bytes into chunks of at most `size` bytes gives
/// chunks whose lengths add up to `len`, none empty and none over `size`,
/// and `ceil(len / size)` of them (none at all for an empty buffer).
pub proof fn lemma_chunk_lengths(len: nat, size: nat)
    requires
        size > 0,
    ensures
        sum_of(chunk_lengths(len, size)) == len,
        forall|i: int|
            0 <= i < chunk_lengths(len, size).len() ==> 0 < #[trigger] chunk_lengths(len, size)[i]
                <= size,
        chunk_lengths(len, size).len() == (len + size - 1) / (size as int),
    decreases len,
{
    let s = chunk_lengths(len, size);
    if len == 0 {
        lemma_basic_div(size - 1, size as int);
    } else if len <= size {
        assert(s.drop_first() == Seq::<nat>::empty());
        assert(sum_of(s.drop_first()) == 0);
        lemma_basic_div(len - 1, size as int);
        lemma_div_plus_one(len - 1, size as int);
    } else {
        let rest = chunk_lengths((len - size) as nat, size);
        lemma_chunk_lengths((len - size) as nat, size);
        assert(s.drop_first() == rest);
        assert(sum_of(s) == size + sum_of(rest));
        assert forall|i: int| 0 <= i < s.len() implies 0 < #[trigger] s[i] <= size by {
            if i > 0 {
                assert(s[i] == rest[i - 1]);
            }
        }
        lemma_div_plus_one(len - 1, size as int);
        assert(len - 1 == size + (len - size + size - 1) - size);
        lemma_div_plus_one(len - size + size - 1, size as int);
    }
}

/// A byte buffer read front to back in chunks of at most `CHUNK_SIZE` bytes.
pub struct PollStream {
    bytes: Bytes,
}

impl View for PollStream {
    type V = Seq<u8>;

    /// The bytes not yet handed out.
    closed spec fn view(&self) -> Seq<u8> {
        bytes_content(self.bytes)
    }
}

/// What one step of a chunked reader does: `r` is the next chunk cut from
/// `before`, or `None` when `before` is empty, and `after` is what is left.
pub open spec fn chunk_step(before: Seq<u8>, r: Option<Seq<u8>>, after: Seq<u8>) -> bool {
    let n = next_chunk_len(before.len());
    &&& before.len() == 0 ==> r is None && after == before
    &&& before.len() > 0 ==> r == Some(before.take(n as int)) && after == before.skip(n as int)
    &&& chunk_lengths(before.len(), CHUNK_SIZE as nat) == match r {
        Some(c) => seq![c.len()] + chunk_lengths(after.len(), CHUNK_SIZE as nat),
        None => Seq::<nat>::empty(),
    }
}

pub open spec fn step_view(r: Result<Option<Bytes>, anyhow::Error>) -> Option<Seq<u8>> {
    match r {
        Ok(Some(c)) => Some(bytes_content(c)),
        _ => None,
    }
}

/// Cuts the next chunk from `bytes`.
fn cut_chunk(bytes: &mut Bytes) -> (r: Option<Bytes>)
    ensures
        chunk_step(
            bytes_content(*old(bytes)),
            match r {
                Some(c) => Some(bytes_content(c)),
                None => None,
            },
            bytes_content(*final(bytes)),
        ),
{
    let remaining = remaining_of(bytes);
    let n: usize = if remaining > CHUNK_SIZE {
        CHUNK_SIZE
    } else {
        remaining
    };
    if n == 0 {
        None
    } else {
        let c = split_front(bytes, n);
        proof {
            let after = bytes_content(*bytes);
            assert(after.len() == remaining - n);
        }
        Some(c)
    }
}

impl PollStream {
    pub fn new(bytes: Bytes) -> (r: Self)
        ensures
            r@ == bytes_content(bytes),
    {
        Self { bytes }
    }

    /// Number of bytes not yet handed out.
    pub fn remaining(&self) -> (r: usize)
        ensures
            r == self@.len(),
    {
        remaining_of(&self.bytes)
    }

    /// The next chunk: the first `min(remaining, CHUNK_SIZE)` bytes, or
    /// `None` once every byte has been handed out. It never fails.
    pub fn step(&mut self) -> (r: Result<Option<Bytes>, anyhow::Error>)
        ensures
            r is Ok,
            chunk_step(old(self)@, step_view(r), final(self)@),
    {
        Ok(cut_chunk(&mut self.bytes))
    }
}

/// A chunked reader that advances a progress bar by the length of each
/// chunk before handing it out.
pub struct Progressbar {
    bytes: Bytes,
    pb: ProgressBar,
    /// The bytes reported to the bar so far.
    reported: Ghost<nat>,
}

impl View for Progressbar {
    type V = Seq<u8>;

    /// The bytes not yet handed out.
    closed spec fn view(&self) -> Seq<u8> {
        bytes_content(self.bytes)
    }
}

impl Progressbar {
    /// The number of bytes reported to the bar since this reader was made.
    pub closed spec fn reported(&self) -> nat {
        self.reported@
    }

    pub fn new(bytes: Bytes, pb: ProgressBar) -> (r: Self)
        ensures
            r@ == bytes_content(bytes),
            r.reported() == 0,
    {
        Self { bytes, pb, reported: Ghost(0) }
    }

    /// Relies on `ProgressBar::inc`: advances the bar's position by `delta`.
    #[verifier::external_body]
    fn report(&mut self, delta: u64)
        ensures
            final(self)@ == old(self)@,
            final(self).reported() == old(self).reported() + delta,
    {
        self.pb.inc(delta)
    }

    /// The next chunk, as `PollStream::step` cuts it; the bar advances by
    /// its length before it is handed out, and not at all at the end.
    pub fn progress(&mut self) -> (r: Result<Option<Bytes>, anyhow::Error>)
        ensures
            r is Ok,
            chunk_step(old(self)@, step_view(r), final(self)@),
            final(self).reported() == old(self).reported() + match step_view(r) {
                Some(c) => c.len(),
                None => 0,
            },
            final(self).reported() + final(self)@.len() == old(self).reported() + old(self)@.len(),
    {
        let c = cut_chunk(&mut self.bytes);
        match &c {
            Some(chunk) => {
                let n = remaining_of(chunk);
                self.report(n as u64);
            },
            None => {},
        }
        Ok(c)
    }
}

} // verus!
