use vstd::prelude::*;

use crate::error::MemoryError;
use crate::process::Process;

verus! {

/// A fixed-size record that can be filled from bytes read out of another
/// process: it has a byte image of a fixed length, and decoding bytes of that
/// length yields the record whose image they are.
pub trait RemoteRecord: Sized {
    /// The record's bytes as they lie in memory.
    spec fn image(&self) -> Seq<u8>;

    /// The fixed length of every image.
    spec fn image_len() -> nat;

    proof fn lemma_image_len(&self)
        ensures
            self.image().len() == Self::image_len(),
    ;

    /// Two records with the same bytes are the same record.
    proof fn lemma_image_determines(&self, other: &Self)
        requires
            self.image() == other.image(),
        ensures
            *self == *other,
    ;

    fn byte_len() -> (n: usize)
        ensures
            n == Self::image_len(),
    ;

    fn decode(bytes: &[u8]) -> (r: Self)
        requires
            bytes@.len() == Self::image_len(),
        ensures
            r.image() == bytes@,
    ;
}

/// What a cross-process read of `requested` bytes at `addr` came to, from
/// whether the call succeeded, its OS error code and the count it transferred.
pub open spec fn read_result(addr: u64, succeeded: bool, code: u32, transferred: usize) -> Result<usize, MemoryError> {
    if succeeded {
        Ok(transferred)
    } else {
        Err(MemoryError::Read(addr, code, transferred))
    }
}

/// What a refresh comes to: a failed read is reported with its address, code
/// and partial count; a read of any count but the record's size is an
/// `IncorrectSize`; else the record is replaced.
pub open spec fn refresh_result(size: nat, addr: u64, succeeded: bool, code: u32, transferred: usize) -> Result<(), MemoryError> {
    match read_result(addr, succeeded, code, transferred) {
        Err(e) => Err(e),
        Ok(n) => if n == size {
            Ok(())
        } else {
            Err(MemoryError::IncorrectSize(size as usize, n))
        },
    }
}

/// The outcome of one cross-process read: the transferred count when the call
/// succeeded, else a `Read` error with the address, the OS error code and the
/// count transferred before it failed.
pub fn read_outcome(addr: u64, succeeded: bool, code: u32, transferred: usize) -> (r: Result<usize, MemoryError>)
    ensures
        r == read_result(addr, succeeded, code, transferred),
{
    if succeeded {
        Ok(transferred)
    } else {
        Err(MemoryError::Read(addr, code, transferred))
    }
}

/// Refreshing reproduces the record whose bytes the remote memory holds: a
/// record read from a known record's byte image is that record, and two
/// refreshes against unchanged memory give the same record.
pub proof fn lemma_refresh_reproduces<T: RemoteRecord>(known: &T, first: &T, second: &T)
    requires
        first.image() == known.image(),
        second.image() == known.image(),
    ensures
        *first == *known,
        *second == *first,
{
    first.lemma_image_determines(known);
    second.lemma_image_determines(first);
}

/// A record of type `T` kept in step with its bytes at `address` past the base
/// of module `module` of a process.
pub struct RemoteStruct<T> {
    t: T,
    module: usize,
    address: u64,
    process: Process,
}

impl<T> RemoteStruct<T> {
    #[verifier::type_invariant]
    spec fn inv(self) -> bool {
        self.module < self.process.modules@.len()
    }

    pub closed spec fn record(&self) -> T {
        self.t
    }

    pub closed spec fn module_index(&self) -> usize {
        self.module
    }

    pub closed spec fn offset(&self) -> u64 {
        self.address
    }

    pub closed spec fn bound_process(&self) -> Process {
        self.process
    }
}

impl<T: RemoteRecord> RemoteStruct<T> {
    /// The address the record is read from, when it fits in 64 bits.
    pub open spec fn live_address(&self) -> Option<u64> {
        let sum = self.bound_process().modules@[self.module_index() as int].base + self.offset();
        if sum <= u64::MAX {
            Some(sum as u64)
        } else {
            None
        }
    }

    /// An overlay of `T`'s default value at `address` past the base of the
    /// process's main module. Nothing is read yet.
    #[must_use]
    pub fn new(process: Process, address: u64) -> (r: Self)
        where T: Default,
        requires
            process.wf(),
        ensures
            r.module_index() == 0,
            r.offset() == address,
            r.bound_process() == process,
    {
        RemoteStruct { t: T::default(), module: 0, address, process }
    }

    /// An overlay of `T`'s default value at `address` past the base of module
    /// `module` of the process. Nothing is read yet.
    #[must_use]
    pub fn bind(process: Process, module: usize, address: u64) -> (r: Self)
        where T: Default,
        requires
            module < process.modules@.len(),
        ensures
            r.module_index() == module,
            r.offset() == address,
            r.bound_process() == process,
    {
        RemoteStruct { t: T::default(), module, address, process }
    }

    /// The record as last read.
    pub fn get(&self) -> (r: &T)
        ensures
            *r == self.record(),
    {
        &self.t
    }

    /// The process the overlay reads from.
    pub fn process(&self) -> (r: &Process)
        ensures
            *r == self.bound_process(),
    {
        &self.process
    }

    /// The live address: module base plus offset; `NotFound` when the sum
    /// does not fit in 64 bits.
    pub fn read_address(&self) -> (r: Result<u64, MemoryError>)
        ensures
            self.module_index() < self.bound_process().modules@.len(),
            match self.live_address() {
                Some(a) => r == Ok::<u64, MemoryError>(a),
                None => r == Err::<u64, MemoryError>(MemoryError::NotFound),
            },
    {
        proof { use_type_invariant(self); }
        let base = self.process.modules[self.module].base;
        match base.checked_add(self.address) {
            Some(a) => Ok(a),
            None => Err(MemoryError::NotFound),
        }
    }

    /// Takes in one read of the record's bytes at `addr`: whether the call
    /// succeeded, its OS error code, the count it transferred and the buffer it
    /// filled. The record is replaced only when exactly its size was
    /// transferred; otherwise the overlay is left as it was and the error says why.
    pub fn complete_read(&mut self, addr: u64, succeeded: bool, code: u32, transferred: usize, buf: &[u8]) -> (r: Result<(), MemoryError>)
        requires
            buf@.len() == T::image_len(),
        ensures
            r == refresh_result(T::image_len(), addr, succeeded, code, transferred),
            r is Err ==> *final(self) == *old(self),
            r is Ok ==> final(self).record().image() == buf@,
            final(self).module_index() == old(self).module_index(),
            final(self).offset() == old(self).offset(),
            final(self).bound_process() == old(self).bound_process(),
    {
        proof { use_type_invariant(&*self); }
        let size = T::byte_len();
        let n = read_outcome(addr, succeeded, code, transferred)?;
        if n != size {
            return Err(MemoryError::IncorrectSize(size, n));
        }
        self.t = T::decode(buf);
        Ok(())
    }
}

} // verus!
