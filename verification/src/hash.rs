//! The hash verifier: bookkeeping around the platform's incremental digest.
//!
//! The digest itself is computed by a platform collaborator (a hardware or
//! firmware SHA-256 engine) that is fed one chunk at a time. This type tracks,
//! in ghost state, exactly which bytes were fed and in what order, holds the
//! digest the sender declared, and decides at finalize time whether the
//! computed digest matches the declared one.

use vstd::prelude::*;

use crate::errors::OtaError;

verus! {

/// The number of bytes in a digest.
pub const DIGEST_LEN: usize = 32;

/// The mathematical content of a [`HashVerifier`].
pub ghost struct HashView {
    /// Every byte fed to the platform hasher, in feed order.
    pub fed: Seq<u8>,
    /// The digest the sender declared, once supplied.
    pub expected: Option<Seq<u8>>,
}

impl HashView {
    /// Nothing fed, nothing declared.
    pub open spec fn empty() -> HashView {
        HashView { fed: Seq::empty(), expected: None }
    }

    /// A declared digest always has exactly [`DIGEST_LEN`] bytes.
    pub open spec fn wf(self) -> bool {
        match self.expected {
            Some(d) => d.len() == DIGEST_LEN,
            None => true,
        }
    }

    /// What `finalize` decides when the platform hasher reports `computed`:
    /// success exactly when a digest was declared and matches.
    pub open spec fn spec_finalize(self, computed: Seq<u8>) -> Result<(), OtaError> {
        match self.expected {
            None => Err(OtaError::NoExpectedHash),
            Some(d) => if computed == d {
                Ok(())
            } else {
                Err(OtaError::HashMismatch)
            },
        }
    }
}

/// Owns the expected digest and the record of the fed byte stream.
pub struct HashVerifier {
    /// The digest the sender wrote to the file-hash characteristic.
    pub expected: Option<Vec<u8>>,
    /// Every byte fed to the platform hasher, in feed order.
    pub fed: Ghost<Seq<u8>>,
}

impl View for HashVerifier {
    type V = HashView;

    open spec fn view(&self) -> HashView {
        HashView {
            fed: self.fed@,
            expected: match self.expected {
                Some(d) => Some(d@),
                None => None,
            },
        }
    }
}

impl HashVerifier {
    /// The declared digest, if any, has the right length.
    pub open spec fn wf(self) -> bool {
        self@.wf()
    }

    /// A fresh verifier: nothing fed, nothing declared.
    pub fn new() -> (v: HashVerifier)
        ensures
            v.wf(),
            v@ == HashView::empty(),
    {
        HashVerifier { expected: None, fed: Ghost(Seq::empty()) }
    }

    /// Forgets the fed stream and the declared digest.
    pub fn reset(&mut self)
        ensures
            final(self).wf(),
            final(self)@ == HashView::empty(),
    {
        self.expected = None;
        self.fed = Ghost(Seq::empty());
    }

    /// Records that `chunk` was fed to the platform hasher, after the bytes
    /// fed so far. Must be called for every chunk the transfer buffer
    /// accepts, in acceptance order.
    pub fn update(&mut self, chunk: &[u8])
        ensures
            final(self).wf() == old(self).wf(),
            final(self)@ == (HashView { fed: old(self)@.fed + chunk@, ..old(self)@ }),
    {
        proof {
            self.fed@ = self.fed@ + chunk@;
        }
    }

    /// Records the digest the sender declared. May be supplied before,
    /// during, or after the block transfer; a later write replaces an
    /// earlier one. Rejected unless it is exactly [`DIGEST_LEN`] bytes.
    pub fn expect(&mut self, digest: Vec<u8>) -> (r: Result<(), OtaError>)
        ensures
            old(self).wf() ==> final(self).wf(),
            match r {
                Ok(()) => {
                    &&& digest@.len() == DIGEST_LEN
                    &&& final(self)@ == (HashView { expected: Some(digest@), ..old(self)@ })
                },
                Err(e) => {
                    &&& *final(self) == *old(self)
                    &&& digest@.len() != DIGEST_LEN
                    &&& e == OtaError::InvalidLength
                },
            },
    {
        if digest.len() != DIGEST_LEN {
            Err(OtaError::InvalidLength)
        } else {
            self.expected = Some(digest);
            Ok(())
        }
    }

    /// Whether a declared digest is on record.
    pub fn has_expected(&self) -> (r: bool)
        ensures
            r == (self@.expected is Some),
    {
        self.expected.is_some()
    }

    /// Compares the digest the platform hasher computed over the fed stream
    /// against the declared digest: succeeds if and only if a digest was
    /// declared and the two are byte-for-byte equal. Mutates nothing.
    pub fn finalize(&self, computed: &[u8]) -> (r: Result<(), OtaError>)
        ensures
            r == self@.spec_finalize(computed@),
    {
        match &self.expected {
            None => Err(OtaError::NoExpectedHash),
            Some(d) => {
                if bytes_eq(computed, d.as_slice()) {
                    Ok(())
                } else {
                    Err(OtaError::HashMismatch)
                }
            },
        }
    }
}

/// Finalization succeeds if and only if the digest computed over the fed
/// stream equals the digest the sender declared: any differing digest — a
/// single flipped byte included — is a mismatch, and with no declaration at
/// all nothing can succeed.
pub proof fn lemma_finalize_exact(v: HashView, computed: Seq<u8>)
    ensures
        (v.spec_finalize(computed) == Ok::<(), OtaError>(())) <==> (v.expected == Some(computed)),
        v.expected is Some && computed != v.expected->0 ==> v.spec_finalize(computed) == Err::<
            (),
            OtaError,
        >(OtaError::HashMismatch),
        v.expected is None ==> v.spec_finalize(computed) == Err::<(), OtaError>(
            OtaError::NoExpectedHash,
        ),
{
}

/// Byte-for-byte equality of two slices.
pub fn bytes_eq(a: &[u8], b: &[u8]) -> (r: bool)
    ensures
        r == (a@ == b@),
{
    if a.len() != b.len() {
        proof {
            assert(a@.len() != b@.len());
        }
        return false;
    }
    let mut i: usize = 0;
    while i < a.len()
        invariant
            i <= a@.len(),
            a@.len() == b@.len(),
            forall|j: int| 0 <= j < i ==> a@[j] == b@[j],
        decreases a@.len() - i,
    {
        if a[i] != b[i] {
            return false;
        }
        i = i + 1;
    }
    proof {
        assert(a@ =~= b@);
    }
    true
}

} // verus!
