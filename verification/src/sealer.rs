//! Key sealing: binding a secret to the platform state that sealed it. The
//! sealer of the isolated forensic kernel marks what it seals with a fixed
//! header and accepts back only what carries that header.

use vstd::prelude::*;

verus! {

/// What went wrong in the forensic agent or in one of its services.
#[derive(Debug)]
pub enum FdsiaError {
    /// No directive is known for the trigger.
    UnknownTrigger(String),
    /// The policy could not be loaded or did not verify.
    PolicyError(String),
    /// The capture of the critical states failed.
    CaptureError(String),
    /// The captured data could not be serialized.
    SerializationError(String),
    /// The integrity of the archive could not be established.
    IntegrityFailure,
    /// The archive could not be uploaded.
    UploadFailure(String),
    /// The key manager failed.
    KeyManagementError,
    /// A service of the platform failed.
    SystemError(String),
}

/// Result of an operation of the forensic agent or of one of its services.
pub type FdsiaResult<T> = Result<T, FdsiaError>;

/// Seals and unseals sensitive data with a key that the platform derives
/// from its own state. Nothing is promised of an implementation here; each
/// one states its own contract.
pub trait KeySealer: Send + Sync {
    /// Seals `data`, bound to the current state of the platform. `metadata` is
    /// authenticated together with it where the implementation supports it.
    fn seal_data(&self, data: &[u8], metadata: Option<&[u8]>) -> FdsiaResult<Vec<u8>>;

    /// Gives back the data that was sealed into `sealed_blob`.
    fn unseal_data(&self, sealed_blob: &[u8]) -> FdsiaResult<Vec<u8>>;
}

/// The header of everything that `IfkKeySealer` seals: the ASCII text
/// `SEALED_IFK_V94:`.
pub const SEAL_HEADER: [u8; 15] = [
    0x53,
    0x45,
    0x41,
    0x4c,
    0x45,
    0x44,
    0x5f,
    0x49,
    0x46,
    0x4b,
    0x5f,
    0x56,
    0x39,
    0x34,
    0x3a,
];

/// The sealed form of `data`: the header, then the data as it is.
pub open spec fn sealed_form(data: Seq<u8>) -> Seq<u8> {
    SEAL_HEADER@ + data
}

/// `blob` starts with the header.
pub open spec fn carries_seal(blob: Seq<u8>) -> bool {
    blob.len() >= SEAL_HEADER@.len() && blob.subrange(0, SEAL_HEADER@.len() as int)
        == SEAL_HEADER@
}

/// What was sealed into `blob`, if it carries the header.
pub open spec fn unsealed_form(blob: Seq<u8>) -> Option<Seq<u8>> {
    if carries_seal(blob) {
        Some(blob.skip(SEAL_HEADER@.len() as int))
    } else {
        None
    }
}

/// Unsealing gives back what was sealed.
pub proof fn law_unseal_recovers_sealed(data: Seq<u8>)
    ensures
        unsealed_form(sealed_form(data)) == Some(data),
{
    let blob = sealed_form(data);
    assert(blob.subrange(0, SEAL_HEADER@.len() as int) =~= SEAL_HEADER@);
    assert(blob.skip(SEAL_HEADER@.len() as int) =~= data);
}

/// The sealer of the isolated forensic kernel.
#[derive(Debug, Clone, Copy)]
pub struct IfkKeySealer;

impl Default for IfkKeySealer {
    fn default() -> (sealer: Self)
        ensures
            sealer == IfkKeySealer,
    {
        IfkKeySealer
    }
}

impl IfkKeySealer {
    /// A sealer. It holds no state: every sealer seals alike.
    pub fn new() -> (sealer: Self)
        ensures
            sealer == IfkKeySealer,
    {
        IfkKeySealer
    }
}

impl KeySealer for IfkKeySealer {
    fn seal_data(&self, data: &[u8], _metadata: Option<&[u8]>) -> (r: FdsiaResult<Vec<u8>>)
        ensures
            r matches Ok(sealed) && sealed@ == sealed_form(data@),
    {
        let mut sealed: Vec<u8> = Vec::new();
        let mut i: usize = 0;
        while i < 15
            invariant
                i <= 15,
                sealed@ == SEAL_HEADER@.subrange(0, i as int),
            decreases 15 - i,
        {
            sealed.push(SEAL_HEADER[i]);
            assert(sealed@ =~= SEAL_HEADER@.subrange(0, i + 1));
            i = i + 1;
        }
        assert(sealed@ =~= SEAL_HEADER@);
        let mut j: usize = 0;
        while j < data.len()
            invariant
                j <= data.len(),
                sealed@ == SEAL_HEADER@ + data@.subrange(0, j as int),
            decreases data.len() - j,
        {
            sealed.push(data[j]);
            assert(sealed@ =~= SEAL_HEADER@ + data@.subrange(0, j + 1));
            j = j + 1;
        }
        assert(data@.subrange(0, data.len() as int) =~= data@);
        Ok(sealed)
    }

    fn unseal_data(&self, sealed_blob: &[u8]) -> (r: FdsiaResult<Vec<u8>>)
        ensures
            match unsealed_form(sealed_blob@) {
                Some(data) => r matches Ok(opened) && opened@ == data,
                None => r matches Err(FdsiaError::SystemError(text)) && text@
                    == "Unsealing failed: Invalid format or security context mismatch."@,
            },
    {
        let mut matches_header: bool = sealed_blob.len() >= 15;
        let mut i: usize = 0;
        while matches_header && i < 15
            invariant
                i <= 15,
                matches_header ==> sealed_blob@.len() >= 15,
                matches_header ==> forall|k: int|
                    0 <= k < i ==> sealed_blob@[k] == #[trigger] SEAL_HEADER@[k],
                !matches_header ==> !carries_seal(sealed_blob@),
            decreases 15 - i + if matches_header { 1int } else { 0int },
        {
            if sealed_blob[i] != SEAL_HEADER[i] {
                matches_header = false;
                assert(!carries_seal(sealed_blob@)) by {
                    if carries_seal(sealed_blob@) {
                        assert(sealed_blob@.subrange(0, 15)[i as int] == SEAL_HEADER@[i as int]);
                    }
                }
            } else {
                i = i + 1;
            }
        }
        if !matches_header {
            return Err(
                FdsiaError::SystemError(
                    String::from_str(
                        "Unsealing failed: Invalid format or security context mismatch.",
                    ),
                ),
            );
        }
        assert(sealed_blob@.subrange(0, 15) =~= SEAL_HEADER@);
        let mut opened: Vec<u8> = Vec::new();
        let mut j: usize = 15;
        while j < sealed_blob.len()
            invariant
                15 <= j <= sealed_blob.len(),
                opened@ == sealed_blob@.subrange(15, j as int),
            decreases sealed_blob.len() - j,
        {
            opened.push(sealed_blob[j]);
            assert(opened@ =~= sealed_blob@.subrange(15, j + 1));
            j = j + 1;
        }
        assert(opened@ =~= sealed_blob@.skip(15));
        Ok(opened)
    }
}

} // verus!
