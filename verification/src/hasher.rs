//! The hashing capability that seals a snapshot: a streaming hasher with a
//! fixed output size, and the factory that builds one.

use vstd::prelude::*;

verus! {

/// Number of bytes in an integrity hash.
pub const INTEGRITY_HASH_SIZE: usize = 64;

/// An integrity hash.
pub type IntegrityHash = [u8; 64];

/// Result of a hashing operation.
pub type HashResult<T> = Result<T, AtomicHasherError>;

/// What can go wrong inside a hasher.
#[derive(Debug, Clone, Copy, PartialEq, Eq, Hash, Structural)]
pub enum AtomicHasherError {
    /// The hashing context could not be set up.
    InitializationFailed,
    /// The final computation step failed.
    FinalizationFailed,
    /// The input was not acceptable.
    InvalidInput,
    /// The output did not have the size that the system asks for.
    SizeMismatch { expected: usize, actual: usize },
    /// Any other failure of the implementation.
    InternalError,
}

/// A streaming hasher. Bytes are fed with `update`; `finalize` consumes the
/// hasher and gives the hash of everything fed, in the order it was fed.
///
/// The contracts below are a promise made by whoever implements the trait:
/// the hash depends on the configured size and on the bytes fed, on nothing
/// else. They promise neither that `finalize` succeeds nor that its output
/// has the configured size.
pub trait AtomicHasher: Sized + Send + 'static {
    /// The bytes fed so far, in order. A verified implementation defines it;
    /// the default leaves it unspecified, so that an implementation written
    /// in plain Rust need not name it.
    open spec fn absorbed(&self) -> Seq<u8> {
        arbitrary()
    }

    /// The output size that this hasher was built for.
    open spec fn output_size(&self) -> nat {
        arbitrary()
    }

    /// The hash function that this type computes, for a given output size.
    open spec fn digest(size: nat, data: Seq<u8>) -> Seq<u8> {
        arbitrary()
    }

    /// Feeds `data` to the hasher.
    fn update(&mut self, data: &[u8])
        ensures
            final(self).absorbed() == old(self).absorbed() + data@,
            final(self).output_size() == old(self).output_size(),
    ;

    /// Ends the stream and gives the hash of the bytes fed.
    fn finalize(self) -> (r: HashResult<Vec<u8>>)
        ensures
            r matches Ok(bytes) ==> bytes@ == Self::digest(self.output_size(), self.absorbed()),
    ;

    /// The output size that the system asks of its hashers.
    fn expected_size(&self) -> (n: usize)
        default_ensures
            n == INTEGRITY_HASH_SIZE,
    {
        INTEGRITY_HASH_SIZE
    }
}

/// Builds hashers of a requested output size.
pub trait AtomicHasherFactory: Send + Sync + 'static {
    /// The hasher that this factory builds.
    type Hasher: AtomicHasher;

    /// A fresh hasher for hashes of `size` bytes: nothing has been fed to it.
    fn new_hasher_fixed_output(size: usize) -> (r: HashResult<Self::Hasher>)
        ensures
            r matches Ok(h) ==> h.absorbed() == Seq::<u8>::empty() && h.output_size() == size,
    ;
}

} // verus!
