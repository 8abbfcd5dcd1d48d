use vstd::prelude::*;

use crate::errors::VaultError;

verus! {

/// Size of one overwrite chunk during secure deletion: 1 MiB.
pub const WIPE_CHUNK_SIZE: u64 = 1024 * 1024;

/// What a secure-delete pass does next.
#[derive(Clone, Copy, PartialEq, Eq, Structural, Debug)]
pub enum WipeStep {
    /// Overwrite this many more bytes of the file with fresh random bytes.
    Write(u64),
    /// The file is fully overwritten: force it to disk and delete it.
    Remove,
}

/// The in-memory course of one secure deletion: a single pass that
/// overwrites the file with random bytes, 1 MiB at a time, then forces the
/// write through and deletes the file. Between chunks the cancellation flag
/// is polled; a cancelled pass stops with an error and the partly
/// overwritten file is kept.
pub struct SecureWipe {
    size: u64,
    written: u64,
}

impl SecureWipe {
    /// The file's size in bytes.
    pub closed spec fn size(self) -> u64 {
        self.size
    }

    /// How many bytes have been overwritten so far.
    pub closed spec fn written(self) -> u64 {
        self.written
    }

    pub closed spec fn wf(self) -> bool {
        self.written <= self.size
    }

    /// The length of the next chunk: a full 1 MiB while that much remains,
    /// the remainder at the tail.
    pub open spec fn chunk_len(self) -> u64 {
        if self.size() - self.written() < WIPE_CHUNK_SIZE {
            (self.size() - self.written()) as u64
        } else {
            WIPE_CHUNK_SIZE
        }
    }

    /// What a pass in this state does at a chunk boundary where the
    /// cancellation flag reads `cancelled`: remove the file once it is
    /// fully overwritten, stop with an error on a cancellation before that,
    /// and otherwise write the next chunk.
    pub open spec fn next_step_spec(self, cancelled: bool) -> Result<WipeStep, VaultError> {
        if self.written() == self.size() {
            Ok(WipeStep::Remove)
        } else if cancelled {
            Err(VaultError::Cancelled)
        } else {
            Ok(WipeStep::Write(self.chunk_len()))
        }
    }

    /// Starts a pass over a file of `size` bytes.
    pub fn new(size: u64) -> (w: SecureWipe)
        ensures
            w.wf(),
            w.size() == size,
            w.written() == 0,
    {
        SecureWipe { size, written: 0 }
    }

    /// Decides whether a path is wiped at all: only a regular file is
    /// overwritten and removed; any other path is skipped, and the skip
    /// counts as a success.
    pub fn begin(is_regular_file: bool, size: u64) -> (r: Option<SecureWipe>)
        ensures
            r is Some <==> is_regular_file,
            r matches Some(w) ==> w.wf() && w.size() == size && w.written() == 0,
    {
        if is_regular_file {
            Some(SecureWipe::new(size))
        } else {
            None
        }
    }

    /// Decides what the pass does next, given the cancellation flag as
    /// polled at this chunk boundary. Once the whole file is overwritten
    /// the flag is no longer consulted.
    pub fn next_step(&self, cancelled: bool) -> (r: Result<WipeStep, VaultError>)
        requires
            self.wf(),
        ensures
            r == self.next_step_spec(cancelled),
    {
        if self.written == self.size {
            Ok(WipeStep::Remove)
        } else if cancelled {
            Err(VaultError::Cancelled)
        } else if self.size - self.written < WIPE_CHUNK_SIZE {
            Ok(WipeStep::Write(self.size - self.written))
        } else {
            Ok(WipeStep::Write(WIPE_CHUNK_SIZE))
        }
    }

    /// Records that the next chunk was written.
    pub fn advance(&mut self, n: u64)
        requires
            old(self).wf(),
            n == old(self).chunk_len(),
            old(self).written() < old(self).size(),
        ensures
            final(self).wf(),
            final(self).size() == old(self).size(),
            final(self).written() == old(self).written() + n,
    {
        self.written = self.written + n;
    }
}

/// A pass removes the file only once every byte is overwritten, and a
/// cancellation observed before that point stops the pass with an error,
/// so a cancelled pass keeps the file.
pub proof fn lemma_wipe_removes_only_when_complete(w: SecureWipe, cancelled: bool)
    requires
        w.wf(),
    ensures
        w.next_step_spec(cancelled) == Ok::<WipeStep, VaultError>(WipeStep::Remove) ==> w.written()
            == w.size(),
        w.written() < w.size() && cancelled ==> w.next_step_spec(cancelled) == Err::<
            WipeStep,
            VaultError,
        >(VaultError::Cancelled),
{
}

} // verus!
