//! Decisions behind a streamed filesystem update: the storage partition is
//! written chunk by chunk from offset 0, and an image that would not fit
//! is refused before anything past the partition's end is written.

use vstd::prelude::*;

verus! {

/// Size of the buffer that each read from the request fills.
pub const OTA_CHUNK_SIZE: usize = 4096;

/// Handles over-the-air filesystem updates by streaming data directly
/// to the ESP32's storage partition.
pub struct OtaHandler;

/// Why a filesystem update stopped.
#[derive(Debug, Clone, Copy, PartialEq, Eq, Structural)]
pub enum OtaError {
    /// No storage partition was found.
    PartitionNotFound,
    /// The image holds more bytes than the partition.
    ImageTooLarge { partition_size: usize },
}

/// What to do with the bytes that one read returned.
#[derive(Debug, Clone, Copy, PartialEq, Eq, Structural)]
pub enum OtaStep {
    /// Write `len` bytes at `offset` of the partition.
    Write { offset: usize, len: usize },
    /// The request body is exhausted; `total` bytes were written.
    Finished { total: usize },
}

/// Progress of one update: how many bytes of the partition are written.
pub struct OtaSession {
    partition_size: usize,
    written: usize,
}

impl OtaSession {
    #[verifier::type_invariant]
    spec fn within_partition(self) -> bool {
        self.written <= self.partition_size
    }

    /// Size in bytes of the partition being written.
    pub closed spec fn spec_partition_size(self) -> nat {
        self.partition_size as nat
    }

    /// Bytes written so far, all of them at the start of the partition.
    pub closed spec fn spec_written(self) -> nat {
        self.written as nat
    }

    /// Size in bytes of the partition being written.
    pub fn partition_size(&self) -> (r: usize)
        ensures
            r == self.spec_partition_size(),
    {
        self.partition_size
    }

    /// Bytes written so far.
    pub fn written(&self) -> (r: usize)
        ensures
            r == self.spec_written(),
            r <= self.spec_partition_size(),
    {
        proof {
            use_type_invariant(self);
        }
        self.written
    }

    /// Decides what to do with a read that returned `n` bytes: a read of
    /// none ends the update; otherwise the bytes go right after those
    /// already written, unless they would run past the partition's end.
    pub fn accept_read(&mut self, n: usize) -> (r: Result<OtaStep, OtaError>)
        ensures
            final(self).spec_partition_size() == old(self).spec_partition_size(),
            final(self).spec_written() <= final(self).spec_partition_size(),
            n == 0 ==> r == Ok::<OtaStep, OtaError>(OtaStep::Finished { total: old(self).spec_written() as usize })
                && final(self).spec_written() == old(self).spec_written(),
            n > 0 && old(self).spec_written() + n > old(self).spec_partition_size() ==> r == Err::<
                OtaStep,
                OtaError,
            >(OtaError::ImageTooLarge { partition_size: old(self).spec_partition_size() as usize })
                && final(self).spec_written() == old(self).spec_written(),
            n > 0 && old(self).spec_written() + n <= old(self).spec_partition_size() ==> r == Ok::<
                OtaStep,
                OtaError,
            >(OtaStep::Write { offset: old(self).spec_written() as usize, len: n })
                && final(self).spec_written() == old(self).spec_written() + n,
            r matches Ok(OtaStep::Write { offset, len }) ==> offset + len
                <= old(self).spec_partition_size(),
    {
        proof {
            use_type_invariant(&*self);
        }
        if n == 0 {
            return Ok(OtaStep::Finished { total: self.written });
        }
        if n > self.partition_size - self.written {
            return Err(OtaError::ImageTooLarge { partition_size: self.partition_size });
        }
        let offset = self.written;
        self.written = self.written + n;
        Ok(OtaStep::Write { offset, len: n })
    }
}

impl OtaHandler {
    /// Creates a new [`OtaHandler`].
    pub fn new() -> (r: Self)
        ensures
            r == OtaHandler,
    {
        OtaHandler
    }

    /// Starts an update of the storage partition whose size the lookup
    /// gave (`None`: no such partition). The whole partition is to be
    /// erased before the first write.
    pub fn begin_fs_update(&self, partition_size: Option<usize>) -> (r: Result<OtaSession, OtaError>)
        ensures
            partition_size is None ==> r == Err::<OtaSession, OtaError>(OtaError::PartitionNotFound),
            partition_size matches Some(n) ==> (r matches Ok(s) && s.spec_partition_size() == n
                && s.spec_written() == 0),
    {
        match partition_size {
            None => Err(OtaError::PartitionNotFound),
            Some(n) => Ok(OtaSession { partition_size: n, written: 0 }),
        }
    }
}

} // verus!
