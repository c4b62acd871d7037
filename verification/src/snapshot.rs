//! The atomic snapshot generator: captures volatile state, seals it with an
//! integrity hash over a canonical byte layout, and refuses a capture that
//! took longer than the atomicity budget.
//!
//! The hash input is, in this order and without separators: the volatile
//! memory dump, the UTF-8 bytes of the stack trace, and the canonical
//! metadata block. The metadata block is 23 bytes, every field little-endian:
//! capture timestamp (8), context flags (4), package version (2), hashing
//! protocol id (1), size of the volatile dump (8).

use crate::capture::elapsed_nanos;
use crate::capture::SystemCaptureAPI;
use crate::hasher::AtomicHasher;
use crate::hasher::AtomicHasherFactory;
use crate::hasher::HashResult;
use crate::hasher::IntegrityHash;
use crate::hasher::INTEGRITY_HASH_SIZE;
use crate::text::append_decimal;
use crate::text::decimal_text;
use std::time::Instant;
use vstd::prelude::*;
use vstd::utf8::encode_utf8;

verus! {

/// Longest capture, in nanoseconds, that still counts as atomic: 5 ms.
pub const MAX_SNAPSHOT_DURATION_NS: u128 = 5_000_000;

/// Version of the package structure.
pub const RSCM_PACKAGE_VERSION: u16 = 1;

/// Context flag of the general execution policy, confidentiality class.
pub const CONTEXT_FLAG_GSEP_C: u32 = 0x42;

/// Names the hashing scheme: fixed-output hash over the canonical layout.
pub const HASHING_PROTOCOL_ID: u8 = 0x01;

/// Number of bytes in the canonical metadata block.
pub const CANONICAL_METADATA_SIZE: usize = 23;

/// Why no snapshot was produced.
#[derive(Debug, Clone, Copy, PartialEq, Eq, Structural)]
pub enum SnapshotError {
    /// The caller lacks the privileges that a capture needs.
    PrivilegeRequired,
    /// The volatile memory could not be read.
    MemoryCaptureFailed,
    /// The capture took longer than the atomicity budget.
    Timeout { actual_duration_ns: u64 },
    /// The hasher could not be built, or failed to finish.
    IntegrityHashingFailed,
    /// The hasher's output does not have the configured size.
    HashingOutputMismatch { expected: usize, actual: usize },
    /// The metadata block could not be encoded.
    MetadataEncodingFailed,
}

/// The text of an error, as shown to an operator.
pub open spec fn snapshot_error_text(e: SnapshotError) -> Seq<char> {
    match e {
        SnapshotError::PrivilegeRequired => "Privilege required to perform atomic snapshot."@,
        SnapshotError::MemoryCaptureFailed => "Low-level memory capture failed."@,
        SnapshotError::Timeout { actual_duration_ns } => {
            "Snapshot exceeded temporal constraint (5ms). Actual latency: "@ + decimal_text(
                actual_duration_ns as nat,
            ) + " ns."@
        },
        SnapshotError::IntegrityHashingFailed => "Cryptographic integrity hashing failed."@,
        SnapshotError::HashingOutputMismatch { expected, actual } => {
            "Integrity hash size mismatch. Expected "@ + decimal_text(expected as nat)
                + " bytes, got "@ + decimal_text(actual as nat) + " bytes."@
        },
        SnapshotError::MetadataEncodingFailed => {
            "Failed to encode critical metadata components for hashing."@
        },
    }
}

impl SnapshotError {
    /// The text of this error.
    pub fn message(&self) -> (text: String)
        ensures
            text@ == snapshot_error_text(*self),
    {
        match self {
            SnapshotError::PrivilegeRequired => {
                String::from_str("Privilege required to perform atomic snapshot.")
            },
            SnapshotError::MemoryCaptureFailed => String::from_str(
                "Low-level memory capture failed.",
            ),
            SnapshotError::Timeout { actual_duration_ns } => {
                let mut text = String::from_str(
                    "Snapshot exceeded temporal constraint (5ms). Actual latency: ",
                );
                append_decimal(&mut text, *actual_duration_ns as u128);
                text.append(" ns.");
                text
            },
            SnapshotError::IntegrityHashingFailed => String::from_str(
                "Cryptographic integrity hashing failed.",
            ),
            SnapshotError::HashingOutputMismatch { expected, actual } => {
                let mut text = String::from_str("Integrity hash size mismatch. Expected ");
                append_decimal(&mut text, *expected as u128);
                text.append(" bytes, got ");
                append_decimal(&mut text, *actual as u128);
                text.append(" bytes.");
                text
            },
            SnapshotError::MetadataEncodingFailed => String::from_str(
                "Failed to encode critical metadata components for hashing.",
            ),
        }
    }
}

/// The `width` low bytes of `value`, least significant first.
pub open spec fn le_bytes(value: nat, width: nat) -> Seq<u8>
    decreases width,
{
    if width == 0 {
        Seq::empty()
    } else {
        seq![(value % 256) as u8] + le_bytes(value / 256, (width - 1) as nat)
    }
}

/// `le_bytes` gives exactly `width` bytes.
pub proof fn lemma_le_bytes_len(value: nat, width: nat)
    ensures
        le_bytes(value, width).len() == width,
    decreases width,
{
    if width > 0 {
        lemma_le_bytes_len(value / 256, (width - 1) as nat);
    }
}

fn append_le_bytes(out: &mut Vec<u8>, value: u64, width: usize)
    requires
        width <= 8,
    ensures
        final(out)@ == old(out)@ + le_bytes(value as nat, width as nat),
{
    let mut rest: u64 = value;
    let mut done: usize = 0;
    while done < width
        invariant
            done <= width,
            out@ + le_bytes(rest as nat, (width - done) as nat) == old(out)@ + le_bytes(
                value as nat,
                width as nat,
            ),
        decreases width - done,
    {
        let ghost before = out@;
        let low: u8 = (rest % 256) as u8;
        out.push(low);
        assert(out@ + le_bytes((rest / 256) as nat, (width - done - 1) as nat) == before
            + le_bytes(rest as nat, (width - done) as nat)) by {
            assert(le_bytes(rest as nat, (width - done) as nat) == seq![low] + le_bytes(
                (rest / 256) as nat,
                (width - done - 1) as nat,
            ));
            assert(out@ == before + seq![low]);
            assert((before + seq![low]) + le_bytes((rest / 256) as nat, (width - done - 1) as nat)
                =~= before + (seq![low] + le_bytes(
                (rest / 256) as nat,
                (width - done - 1) as nat,
            )));
        }
        rest = rest / 256;
        done = done + 1;
    }
    assert(le_bytes(rest as nat, 0) == Seq::<u8>::empty());
    assert(out@ + Seq::<u8>::empty() =~= out@);
}

/// The canonical metadata block: the fields in their fixed order, each
/// little-endian in its fixed width.
pub open spec fn canonical_metadata(
    timestamp_ns: u64,
    context_flags: u32,
    version: u16,
    protocol_id: u8,
    data_size: u64,
) -> Seq<u8> {
    le_bytes(timestamp_ns as nat, 8) + le_bytes(context_flags as nat, 4) + le_bytes(
        version as nat,
        2,
    ) + le_bytes(protocol_id as nat, 1) + le_bytes(data_size as nat, 8)
}

/// The metadata block always has its fixed size.
pub proof fn lemma_canonical_metadata_len(
    timestamp_ns: u64,
    context_flags: u32,
    version: u16,
    protocol_id: u8,
    data_size: u64,
)
    ensures
        canonical_metadata(timestamp_ns, context_flags, version, protocol_id, data_size).len()
            == CANONICAL_METADATA_SIZE,
{
    lemma_le_bytes_len(timestamp_ns as nat, 8);
    lemma_le_bytes_len(context_flags as nat, 4);
    lemma_le_bytes_len(version as nat, 2);
    lemma_le_bytes_len(protocol_id as nat, 1);
    lemma_le_bytes_len(data_size as nat, 8);
}

/// The metadata that is hashed together with the captured data.
#[derive(Debug, Clone, Copy)]
pub struct RscmPackageMetadata {
    pub capture_version: u16,
    pub absolute_capture_ts_epoch_ns: u64,
    pub context_flags: u32,
    pub hashing_protocol_id: u8,
    pub volatile_data_size: u64,
}

impl RscmPackageMetadata {
    /// The canonical block of these fields.
    pub open spec fn canonical_bytes(&self) -> Seq<u8> {
        canonical_metadata(
            self.absolute_capture_ts_epoch_ns,
            self.context_flags,
            self.capture_version,
            self.hashing_protocol_id,
            self.volatile_data_size,
        )
    }

    /// Encodes the fields into the canonical block. The encoding cannot
    /// fail: the block always has its 23 bytes.
    pub fn to_canonical_bytes(&self) -> (r: Result<Vec<u8>, SnapshotError>)
        ensures
            r matches Ok(bytes) && bytes@ == self.canonical_bytes(),
    {
        let mut bytes: Vec<u8> = Vec::with_capacity(CANONICAL_METADATA_SIZE);
        append_le_bytes(&mut bytes, self.absolute_capture_ts_epoch_ns, 8);
        append_le_bytes(&mut bytes, self.context_flags as u64, 4);
        append_le_bytes(&mut bytes, self.capture_version as u64, 2);
        append_le_bytes(&mut bytes, self.hashing_protocol_id as u64, 1);
        append_le_bytes(&mut bytes, self.volatile_data_size, 8);
        proof {
            lemma_canonical_metadata_len(
                self.absolute_capture_ts_epoch_ns,
                self.context_flags,
                self.capture_version,
                self.hashing_protocol_id,
                self.volatile_data_size,
            );
            assert(bytes@ =~= self.canonical_bytes());
        }
        if bytes.len() != CANONICAL_METADATA_SIZE {
            return Err(SnapshotError::MetadataEncodingFailed);
        }
        Ok(bytes)
    }
}

/// What a snapshot package holds.
pub struct RscmPackageView {
    pub capture_version: u16,
    pub absolute_capture_ts_epoch_ns: u64,
    pub capture_latency_ns: u64,
    pub integrity_hash: Seq<u8>,
    pub volatile_memory_dump: Seq<u8>,
    pub stack_trace: Seq<char>,
    pub context_flags: u32,
    pub hashing_protocol_id: u8,
    pub volatile_data_size: u64,
}

impl RscmPackageView {
    /// The metadata block of this package.
    pub open spec fn metadata_bytes(self) -> Seq<u8> {
        canonical_metadata(
            self.absolute_capture_ts_epoch_ns,
            self.context_flags,
            self.capture_version,
            self.hashing_protocol_id,
            self.volatile_data_size,
        )
    }

    /// The bytes that the integrity hash covers, in their canonical order.
    pub open spec fn canonical_hash_input(self) -> Seq<u8> {
        self.volatile_memory_dump + encode_utf8(self.stack_trace) + self.metadata_bytes()
    }

    /// The stored hash is the hash, by `H` at the configured size, of the
    /// stored fields in their canonical order.
    pub open spec fn sealed_by<H: AtomicHasher>(self) -> bool {
        self.integrity_hash == H::digest(INTEGRITY_HASH_SIZE as nat, self.canonical_hash_input())
    }

    /// What holds of every package: the fixed identifiers, a hash of the
    /// configured size, the recorded size of the dump, and a latency within
    /// the atomicity budget.
    pub open spec fn well_formed(self) -> bool {
        &&& self.capture_version == RSCM_PACKAGE_VERSION
        &&& self.context_flags == CONTEXT_FLAG_GSEP_C
        &&& self.hashing_protocol_id == HASHING_PROTOCOL_ID
        &&& self.integrity_hash.len() == INTEGRITY_HASH_SIZE
        &&& self.volatile_data_size == self.volatile_memory_dump.len()
        &&& self.capture_latency_ns <= MAX_SNAPSHOT_DURATION_NS
    }
}

/// An immutable, hash-sealed capture of volatile execution state.
#[derive(Debug)]
pub struct RscmPackage {
    capture_version: u16,
    absolute_capture_ts_epoch_ns: u64,
    capture_latency_ns: u64,
    integrity_hash: IntegrityHash,
    volatile_memory_dump: Vec<u8>,
    stack_trace: String,
    context_flags: u32,
    hashing_protocol_id: u8,
    volatile_data_size: u64,
}

impl View for RscmPackage {
    type V = RscmPackageView;

    closed spec fn view(&self) -> RscmPackageView {
        RscmPackageView {
            capture_version: self.capture_version,
            absolute_capture_ts_epoch_ns: self.absolute_capture_ts_epoch_ns,
            capture_latency_ns: self.capture_latency_ns,
            integrity_hash: self.integrity_hash@,
            volatile_memory_dump: self.volatile_memory_dump@,
            stack_trace: self.stack_trace@,
            context_flags: self.context_flags,
            hashing_protocol_id: self.hashing_protocol_id,
            volatile_data_size: self.volatile_data_size,
        }
    }
}

impl Clone for RscmPackage {
    fn clone(&self) -> (copy: Self)
        ensures
            copy@ == self@,
    {
        proof {
            use_type_invariant(self);
        }
        let copy = RscmPackage {
            capture_version: self.capture_version,
            absolute_capture_ts_epoch_ns: self.absolute_capture_ts_epoch_ns,
            capture_latency_ns: self.capture_latency_ns,
            integrity_hash: self.integrity_hash,
            volatile_memory_dump: self.volatile_memory_dump.clone(),
            stack_trace: self.stack_trace.clone(),
            context_flags: self.context_flags,
            hashing_protocol_id: self.hashing_protocol_id,
            volatile_data_size: self.volatile_data_size,
        };
        assert(copy.volatile_memory_dump@ =~= self.volatile_memory_dump@);
        copy
    }
}

impl RscmPackage {
    #[verifier::type_invariant]
    spec fn inv(&self) -> bool {
        self@.well_formed()
    }

    fn new(
        absolute_ts: u64,
        latency_ns: u64,
        hash: IntegrityHash,
        vm_dump: Vec<u8>,
        trace: String,
        context_flags: u32,
        hashing_protocol_id: u8,
        volatile_data_size: u64,
    ) -> (pkg: Self)
        requires
            latency_ns <= MAX_SNAPSHOT_DURATION_NS,
            context_flags == CONTEXT_FLAG_GSEP_C,
            hashing_protocol_id == HASHING_PROTOCOL_ID,
            volatile_data_size == vm_dump@.len(),
        ensures
            pkg@ == (RscmPackageView {
                capture_version: RSCM_PACKAGE_VERSION,
                absolute_capture_ts_epoch_ns: absolute_ts,
                capture_latency_ns: latency_ns,
                integrity_hash: hash@,
                volatile_memory_dump: vm_dump@,
                stack_trace: trace@,
                context_flags: context_flags,
                hashing_protocol_id: hashing_protocol_id,
                volatile_data_size: volatile_data_size,
            }),
    {
        RscmPackage {
            capture_version: RSCM_PACKAGE_VERSION,
            absolute_capture_ts_epoch_ns: absolute_ts,
            capture_latency_ns: latency_ns,
            integrity_hash: hash,
            volatile_memory_dump: vm_dump,
            stack_trace: trace,
            context_flags,
            hashing_protocol_id,
            volatile_data_size,
        }
    }
}

impl RscmPackage {
    /// Version of the package structure.
    pub fn capture_version(&self) -> (version: u16)
        ensures
            version == self@.capture_version,
            version == RSCM_PACKAGE_VERSION,
    {
        proof {
            use_type_invariant(self);
        }
        self.capture_version
    }

    /// When the capture was taken, in nanoseconds since the Unix epoch.
    pub fn absolute_capture_ts_epoch_ns(&self) -> (timestamp: u64)
        ensures
            timestamp == self@.absolute_capture_ts_epoch_ns,
    {
        self.absolute_capture_ts_epoch_ns
    }

    /// How long the whole capture took, in nanoseconds. Never more than the
    /// atomicity budget.
    pub fn capture_latency_ns(&self) -> (latency: u64)
        ensures
            latency == self@.capture_latency_ns,
            latency <= MAX_SNAPSHOT_DURATION_NS,
    {
        proof {
            use_type_invariant(self);
        }
        self.capture_latency_ns
    }

    /// The context flags of the capture.
    pub fn context_flags(&self) -> (flags: u32)
        ensures
            flags == self@.context_flags,
            flags == CONTEXT_FLAG_GSEP_C,
    {
        proof {
            use_type_invariant(self);
        }
        self.context_flags
    }

    /// Names the hashing scheme that sealed the package.
    pub fn hashing_protocol_id(&self) -> (id: u8)
        ensures
            id == self@.hashing_protocol_id,
            id == HASHING_PROTOCOL_ID,
    {
        proof {
            use_type_invariant(self);
        }
        self.hashing_protocol_id
    }

    /// The size of the volatile dump in bytes, as it went into the hash.
    pub fn volatile_data_size(&self) -> (size: u64)
        ensures
            size == self@.volatile_data_size,
            size == self@.volatile_memory_dump.len(),
    {
        proof {
            use_type_invariant(self);
        }
        self.volatile_data_size
    }

    /// The integrity hash.
    pub fn integrity_hash(&self) -> (hash: &IntegrityHash)
        ensures
            hash@ == self@.integrity_hash,
    {
        &self.integrity_hash
    }

    /// The captured volatile memory.
    pub fn volatile_memory_dump(&self) -> (dump: &[u8])
        ensures
            dump@ == self@.volatile_memory_dump,
    {
        self.volatile_memory_dump.as_slice()
    }

    /// The captured stack trace.
    pub fn stack_trace(&self) -> (trace: &str)
        ensures
            trace@ == self@.stack_trace,
    {
        self.stack_trace.as_str()
    }
}

/// A capture needs privileges: without them nothing is read.
pub fn require_privilege(granted: bool) -> (r: Result<(), SnapshotError>)
    ensures
        granted ==> r is Ok,
        !granted ==> r == Err::<(), SnapshotError>(SnapshotError::PrivilegeRequired),
{
    if granted {
        Ok(())
    } else {
        Err(SnapshotError::PrivilegeRequired)
    }
}

/// The volatile memory as it was read, or the error for a read that failed.
pub fn require_memory(read: Result<Vec<u8>, ()>) -> (r: Result<Vec<u8>, SnapshotError>)
    ensures
        read matches Ok(dump) ==> r == Ok::<Vec<u8>, SnapshotError>(dump),
        read is Err ==> r == Err::<Vec<u8>, SnapshotError>(SnapshotError::MemoryCaptureFailed),
{
    match read {
        Ok(dump) => Ok(dump),
        Err(_) => Err(SnapshotError::MemoryCaptureFailed),
    }
}

/// What a step of the hasher gave, or the error for a step that failed:
/// whatever went wrong inside the hasher, the snapshot reports that hashing
/// failed.
pub fn require_hashing<V>(step: HashResult<V>) -> (r: Result<V, SnapshotError>)
    ensures
        step matches Ok(value) ==> r == Ok::<V, SnapshotError>(value),
        step is Err ==> r == Err::<V, SnapshotError>(SnapshotError::IntegrityHashingFailed),
{
    match step {
        Ok(value) => Ok(value),
        Err(_) => Err(SnapshotError::IntegrityHashingFailed),
    }
}

/// Takes the hasher's output as the integrity hash, if it has the configured
/// size.
pub fn integrity_hash_from(raw_hash: &Vec<u8>) -> (r: Result<IntegrityHash, SnapshotError>)
    ensures
        raw_hash@.len() == INTEGRITY_HASH_SIZE ==> (r matches Ok(hash) && hash@ == raw_hash@),
        raw_hash@.len() != INTEGRITY_HASH_SIZE ==> r == Err::<IntegrityHash, SnapshotError>(
            SnapshotError::HashingOutputMismatch {
                expected: INTEGRITY_HASH_SIZE,
                actual: raw_hash.len(),
            },
        ),
{
    if raw_hash.len() != INTEGRITY_HASH_SIZE {
        return Err(
            SnapshotError::HashingOutputMismatch {
                expected: INTEGRITY_HASH_SIZE,
                actual: raw_hash.len(),
            },
        );
    }
    let mut hash: IntegrityHash = [0; 64];
    let mut i: usize = 0;
    while i < INTEGRITY_HASH_SIZE
        invariant
            i <= INTEGRITY_HASH_SIZE,
            raw_hash@.len() == INTEGRITY_HASH_SIZE,
            forall|j: int| 0 <= j < i ==> hash@[j] == raw_hash@[j],
        decreases INTEGRITY_HASH_SIZE - i,
    {
        hash[i] = raw_hash[i];
        i = i + 1;
    }
    assert(hash@ =~= raw_hash@);
    Ok(hash)
}

/// Builds the package from what was captured, unless the capture took longer
/// than the atomicity budget: a late snapshot is never returned.
pub fn package_within_deadline(
    absolute_ts: u64,
    vm_dump: Vec<u8>,
    trace: String,
    hash: IntegrityHash,
    elapsed_ns: u128,
) -> (r: Result<RscmPackage, SnapshotError>)
    ensures
        elapsed_ns > MAX_SNAPSHOT_DURATION_NS ==> r == Err::<RscmPackage, SnapshotError>(
            SnapshotError::Timeout { actual_duration_ns: elapsed_ns as u64 },
        ),
        elapsed_ns <= MAX_SNAPSHOT_DURATION_NS ==> (r matches Ok(pkg) && pkg@ == (RscmPackageView {
            capture_version: RSCM_PACKAGE_VERSION,
            absolute_capture_ts_epoch_ns: absolute_ts,
            capture_latency_ns: elapsed_ns as u64,
            integrity_hash: hash@,
            volatile_memory_dump: vm_dump@,
            stack_trace: trace@,
            context_flags: CONTEXT_FLAG_GSEP_C,
            hashing_protocol_id: HASHING_PROTOCOL_ID,
            volatile_data_size: vm_dump@.len() as u64,
        })),
{
    let latency_ns: u64 = #[verifier::truncate]
    (elapsed_ns as u64);
    if elapsed_ns > MAX_SNAPSHOT_DURATION_NS {
        return Err(SnapshotError::Timeout { actual_duration_ns: latency_ns });
    }
    let volatile_data_size: u64 = vm_dump.len() as u64;
    Ok(
        RscmPackage::new(
            absolute_ts,
            latency_ns,
            hash,
            vm_dump,
            trace,
            CONTEXT_FLAG_GSEP_C,
            HASHING_PROTOCOL_ID,
            volatile_data_size,
        ),
    )
}

/// Generates an immutable, hash-sealed snapshot within the atomicity budget.
///
/// The steps, in order; the first that fails ends the capture:
/// 1. the privilege check (`require_privilege`);
/// 2. the capture timestamp;
/// 3. the read of volatile memory (`require_memory`) and of the stack trace,
///    which cannot fail;
/// 4. a hasher of the configured size (`require_hashing`), fed with the dump,
///    the trace and the metadata block, in this order;
/// 5. the end of the hash stream (`require_hashing`) and the size of its
///    output (`integrity_hash_from`);
/// 6. the time that all of this took (`package_within_deadline`).
///
/// A returned package is well formed and sealed: hashing its stored fields
/// in the canonical order with `F`'s hasher gives its integrity hash again.
/// Which step fails depends on what the capture provider, the hasher and the
/// clock give; the function named at each step states the decision.
pub fn generate_rscm_snapshot<T: SystemCaptureAPI, F: AtomicHasherFactory>() -> (r: Result<
    RscmPackage,
    SnapshotError,
>)
    ensures
        r matches Ok(pkg) ==> pkg@.well_formed() && pkg@.sealed_by::<F::Hasher>(),
        r matches Err(SnapshotError::HashingOutputMismatch { expected, actual }) ==> expected
            == INTEGRITY_HASH_SIZE && actual != INTEGRITY_HASH_SIZE,
        !(r matches Err(SnapshotError::MetadataEncodingFailed)),
{
    let start_time = Instant::now();

    match require_privilege(T::check_privilege()) {
        Ok(_) => {},
        Err(e) => {
            return Err(e);
        },
    }
    let absolute_ts: u64 = T::get_current_epoch_ns();

    let vm_dump = match require_memory(T::capture_volatile_memory()) {
        Ok(dump) => dump,
        Err(e) => {
            return Err(e);
        },
    };
    let trace = T::capture_execution_stack();
    let volatile_data_size: u64 = vm_dump.len() as u64;

    let mut hasher = match require_hashing(F::new_hasher_fixed_output(INTEGRITY_HASH_SIZE)) {
        Ok(hasher) => hasher,
        Err(e) => {
            return Err(e);
        },
    };
    hasher.update(vm_dump.as_slice());
    hasher.update(trace.as_str().as_bytes());

    let metadata = RscmPackageMetadata {
        capture_version: RSCM_PACKAGE_VERSION,
        absolute_capture_ts_epoch_ns: absolute_ts,
        context_flags: CONTEXT_FLAG_GSEP_C,
        hashing_protocol_id: HASHING_PROTOCOL_ID,
        volatile_data_size,
    };
    let metadata_bytes = match metadata.to_canonical_bytes() {
        Ok(bytes) => bytes,
        Err(e) => {
            return Err(e);
        },
    };
    hasher.update(metadata_bytes.as_slice());
    let ghost hashed = hasher.absorbed();

    let raw_hash = match require_hashing(hasher.finalize()) {
        Ok(bytes) => bytes,
        Err(e) => {
            return Err(e);
        },
    };
    let integrity_hash = match integrity_hash_from(&raw_hash) {
        Ok(hash) => hash,
        Err(e) => {
            return Err(e);
        },
    };

    let elapsed_ns: u128 = elapsed_nanos(&start_time);
    let r = package_within_deadline(absolute_ts, vm_dump, trace, integrity_hash, elapsed_ns);
    assert(r matches Ok(pkg) ==> pkg@.canonical_hash_input() =~= hashed);
    r
}

} // verus!
