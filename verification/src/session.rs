//! The OTA session state machine.
//!
//! One session at a time streams an image into the update partition. The
//! machine decides, per event, the next state and which platform action is
//! owed (prepare the partition, store a block, run the digest, commit, or
//! reboot); the caller performs the action and reports its outcome back.
//! Each `step_*` spec function states the whole transition relation of one
//! event; the method that handles the event ensures exactly that relation.

use vstd::prelude::*;

use crate::buffer::{BufferView, TransferBuffer};
use crate::commands::OtaGattCommands;
use crate::errors::OtaError;
use crate::hash::{HashVerifier, HashView, DIGEST_LEN};

verus! {

/// Where a session stands. Exposed to the sender through the status
/// characteristic, one byte per state.
#[derive(Clone, Copy, Debug, PartialEq, Eq, Structural)]
pub enum OtaState {
    /// No transfer is ongoing.
    Idle,
    /// A transfer was started; file blocks are being accepted.
    Receiving,
    /// Every declared byte arrived; the digest check is pending.
    Verifying,
    /// The digest matched and the image is owed a commit.
    Success,
    /// The transfer failed; a new one must be started explicitly.
    Failure,
}

impl OtaState {
    /// The wire value shown by the status characteristic.
    pub open spec fn spec_status_byte(self) -> u8 {
        match self {
            OtaState::Idle => 0,
            OtaState::Receiving => 1,
            OtaState::Verifying => 2,
            OtaState::Success => 3,
            OtaState::Failure => 4,
        }
    }

    /// Encodes this state for the status characteristic.
    pub fn status_byte(self) -> (b: u8)
        ensures
            b == self.spec_status_byte(),
    {
        match self {
            OtaState::Idle => 0,
            OtaState::Receiving => 1,
            OtaState::Verifying => 2,
            OtaState::Success => 3,
            OtaState::Failure => 4,
        }
    }
}

/// What the session asks of its platform collaborators when it accepts an
/// event. Every effect is owed before the next event is handed in.
#[derive(Clone, Copy, Debug, PartialEq, Eq, Structural)]
pub enum Effect {
    /// Nothing; the event only read or recorded a value.
    NoAction,
    /// A transfer begins: erase and open the target partition for writing.
    PreparePartition,
    /// The transfer was discarded; the partition is left uncommitted.
    Cleared,
    /// Reboot the device; the session processes nothing further.
    Reboot,
    /// Write the block just received to the partition at `offset`, then
    /// feed the same bytes to the running digest.
    StoreBlock {
        /// Bytes already written before this block.
        offset: u32,
    },
    /// Finish the running digest over the fed stream and report it back.
    ComputeDigest,
    /// The digest matched: mark the partition bootable and notify the
    /// finished-upload characteristic.
    MarkBootable,
}

/// The mathematical content of an [`OtaSession`].
pub ghost struct SessionView {
    /// Where the session stands.
    pub state: OtaState,
    /// Whether a device reboot was requested; nothing is processed after.
    pub halted: bool,
    /// The transfer buffer's content.
    pub buffer: BufferView,
    /// The hash verifier's content.
    pub hash: HashView,
    /// The digest the platform hasher reported, once verification passed.
    pub checked: Option<Seq<u8>>,
}

impl SessionView {
    /// A session that has never seen a transfer.
    pub open spec fn fresh(max_size: nat) -> SessionView {
        SessionView {
            state: OtaState::Idle,
            halted: false,
            buffer: BufferView::empty(max_size),
            hash: HashView::empty(),
            checked: None,
        }
    }

    /// The session after a transfer starts: receiving, with buffer and
    /// verifier reset and no residue of any prior attempt.
    pub open spec fn started(self) -> SessionView {
        SessionView {
            state: OtaState::Receiving,
            buffer: BufferView::empty(self.buffer.max_size),
            hash: HashView::empty(),
            checked: None,
            ..self
        }
    }

    /// The session after a clear: idle, with all transfer state discarded.
    pub open spec fn cleared(self) -> SessionView {
        SessionView { state: OtaState::Idle, ..Self::fresh(self.buffer.max_size) }
    }

    /// The session after a file block is accepted: the block joins the
    /// image and is fed to the hasher; the state does not move.
    pub open spec fn with_block(self, chunk: Seq<u8>) -> SessionView {
        SessionView {
            buffer: self.buffer.after_append(chunk),
            hash: HashView { fed: self.hash.fed + chunk, ..self.hash },
            ..self
        }
    }

    /// The session moved to another state, everything else untouched.
    pub open spec fn with_state(self, state: OtaState) -> SessionView {
        SessionView { state, ..self }
    }

    /// The session after a malformed or unknown write: fatal while
    /// receiving, ignored in every other state.
    pub open spec fn after_violation(self) -> SessionView {
        if self.state == OtaState::Receiving && !self.halted {
            self.with_state(OtaState::Failure)
        } else {
            self
        }
    }

    /// The internal invariant.
    ///
    /// - The hasher was fed exactly the accepted image bytes, in order.
    /// - Idle means no residue: nothing declared, nothing accepted.
    /// - Verifying and Success are reached only with every declared byte
    ///   on hand: the byte count equalled the declared total when
    ///   verification began, and blocks are refused from then on.
    /// - Success additionally pins the commit to a matching digest: the
    ///   digest the platform reported equals the one the sender declared.
    pub open spec fn inv(self) -> bool {
        &&& self.buffer.wf()
        &&& self.hash.wf()
        &&& self.hash.fed == self.buffer.image
        &&& self.state == OtaState::Idle ==> self.buffer == BufferView::empty(
            self.buffer.max_size,
        ) && self.hash == HashView::empty()
        &&& (self.state == OtaState::Verifying || self.state == OtaState::Success)
            ==> self.buffer.total == Some(self.buffer.image.len())
        &&& self.state == OtaState::Success ==> self.hash.expected is Some && self.checked
            == Some(self.hash.expected->0)
    }

    /// The transition relation of a decoded command.
    ///
    /// - `StartTransfer` begins a transfer, from idle only: one session at
    ///   a time, and a running one is never silently superseded.
    /// - `StartForceTransfer` begins a transfer from any state, discarding
    ///   whatever came before.
    /// - `ClearTransfer` discards the session from any state: back to
    ///   idle, the partition left uncommitted.
    /// - `ResetDevice` halts the machine for good and asks for a reboot.
    /// - After a reboot was requested, every command is refused.
    pub open spec fn step_command(
        pre: SessionView,
        cmd: OtaGattCommands,
        post: SessionView,
        r: Result<Effect, OtaError>,
    ) -> bool {
        match r {
            Ok(effect) => {
                &&& !pre.halted
                &&& match cmd {
                    OtaGattCommands::StartTransfer => {
                        &&& pre.state == OtaState::Idle
                        &&& post == pre.started()
                        &&& effect == Effect::PreparePartition
                    },
                    OtaGattCommands::StartForceTransfer => {
                        &&& post == pre.started()
                        &&& effect == Effect::PreparePartition
                    },
                    OtaGattCommands::ClearTransfer => {
                        &&& post == pre.cleared()
                        &&& effect == Effect::Cleared
                    },
                    OtaGattCommands::ResetDevice => {
                        &&& post == (SessionView { halted: true, ..pre })
                        &&& effect == Effect::Reboot
                    },
                }
            },
            Err(e) => {
                &&& post == pre
                &&& if pre.halted {
                    e == OtaError::Halted
                } else {
                    &&& cmd == OtaGattCommands::StartTransfer
                    &&& pre.state != OtaState::Idle
                    &&& e == OtaError::TransferInProgress
                }
            },
        }
    }

    /// The transition relation of a total-size declaration: accepted once
    /// per session while receiving; a second declaration or one beyond the
    /// partition is fatal to the session.
    pub open spec fn step_total_size(
        pre: SessionView,
        n: u32,
        post: SessionView,
        r: Result<Effect, OtaError>,
    ) -> bool {
        match r {
            Ok(effect) => {
                &&& !pre.halted
                &&& pre.state == OtaState::Receiving
                &&& pre.buffer.total is None
                &&& n as nat <= pre.buffer.max_size
                &&& post == (SessionView {
                    buffer: BufferView { total: Some(n as nat), ..pre.buffer },
                    ..pre
                })
                &&& effect == Effect::NoAction
            },
            Err(e) => {
                if pre.halted {
                    &&& post == pre
                    &&& e == OtaError::Halted
                } else if pre.state != OtaState::Receiving {
                    &&& post == pre
                    &&& e == OtaError::NoActiveTransfer
                } else {
                    &&& post == pre.with_state(OtaState::Failure)
                    &&& e == (if pre.buffer.total is Some {
                        OtaError::AlreadyDeclared
                    } else {
                        OtaError::TooLarge
                    })
                    &&& pre.buffer.total is Some || n as nat > pre.buffer.max_size
                }
            },
        }
    }

    /// The transition relation of an expected-digest declaration: accepted
    /// while receiving — before, between or after blocks, a later write
    /// replacing an earlier one; a digest of the wrong length is fatal.
    pub open spec fn step_hash(
        pre: SessionView,
        digest: Seq<u8>,
        post: SessionView,
        r: Result<Effect, OtaError>,
    ) -> bool {
        match r {
            Ok(effect) => {
                &&& !pre.halted
                &&& pre.state == OtaState::Receiving
                &&& digest.len() == DIGEST_LEN
                &&& post == (SessionView {
                    hash: HashView { expected: Some(digest), ..pre.hash },
                    ..pre
                })
                &&& effect == Effect::NoAction
            },
            Err(e) => {
                if pre.halted {
                    &&& post == pre
                    &&& e == OtaError::Halted
                } else if pre.state != OtaState::Receiving {
                    &&& post == pre
                    &&& e == OtaError::NoActiveTransfer
                } else {
                    &&& post == pre.with_state(OtaState::Failure)
                    &&& digest.len() != DIGEST_LEN
                    &&& e == OtaError::InvalidLength
                }
            },
        }
    }

    /// The transition relation of a file-block write: accepted while
    /// receiving and within the declared size; the block is owed to the
    /// flash at the old byte count and to the hasher. A block beyond the
    /// declared size, or one sent before the size is declared, is fatal to
    /// the session, with the byte count left exactly as it was.
    pub open spec fn step_block(
        pre: SessionView,
        chunk: Seq<u8>,
        post: SessionView,
        r: Result<Effect, OtaError>,
    ) -> bool {
        match r {
            Ok(effect) => {
                &&& !pre.halted
                &&& pre.state == OtaState::Receiving
                &&& pre.buffer.accepts(chunk.len())
                &&& effect == (Effect::StoreBlock { offset: pre.buffer.image.len() as u32 })
                &&& post == pre.with_block(chunk)
            },
            Err(e) => {
                if pre.halted {
                    &&& post == pre
                    &&& e == OtaError::Halted
                } else if pre.state != OtaState::Receiving {
                    &&& post == pre
                    &&& e == OtaError::NoActiveTransfer
                } else {
                    &&& !pre.buffer.accepts(chunk.len())
                    &&& post == pre.with_state(OtaState::Failure)
                    &&& e == (if !pre.buffer.size_known() {
                        OtaError::SizeNotDeclared
                    } else {
                        OtaError::Overflow
                    })
                }
            },
        }
    }

    /// The transition relation of the completion signal: verification
    /// begins only once the byte count equals the declared total.
    /// Signalled early, the request is rejected and the session stays
    /// exactly where it was, still receiving.
    pub open spec fn step_finalize(
        pre: SessionView,
        post: SessionView,
        r: Result<Effect, OtaError>,
    ) -> bool {
        match r {
            Ok(effect) => {
                &&& !pre.halted
                &&& pre.state == OtaState::Receiving
                &&& pre.buffer.total == Some(pre.buffer.image.len())
                &&& post == pre.with_state(OtaState::Verifying)
                &&& effect == Effect::ComputeDigest
            },
            Err(e) => {
                &&& post == pre
                &&& if pre.halted {
                    e == OtaError::Halted
                } else if pre.state != OtaState::Receiving {
                    e == OtaError::NoActiveTransfer
                } else {
                    &&& pre.buffer.total != Some(pre.buffer.image.len())
                    &&& e == OtaError::IncompleteTransfer
                }
            },
        }
    }

    /// The transition relation of the reported digest: success — the image
    /// owed a commit — if and only if the session was verifying, a digest
    /// was declared, and the computed digest equals it byte for byte. A
    /// mismatch or a missing declaration is fatal and the partition stays
    /// uncommitted.
    pub open spec fn step_digest(
        pre: SessionView,
        computed: Seq<u8>,
        post: SessionView,
        r: Result<Effect, OtaError>,
    ) -> bool {
        match r {
            Ok(effect) => {
                &&& !pre.halted
                &&& pre.state == OtaState::Verifying
                &&& pre.hash.expected == Some(computed)
                &&& post == (SessionView {
                    state: OtaState::Success,
                    checked: Some(computed),
                    ..pre
                })
                &&& effect == Effect::MarkBootable
            },
            Err(e) => {
                if pre.halted {
                    &&& post == pre
                    &&& e == OtaError::Halted
                } else if pre.state != OtaState::Verifying {
                    &&& post == pre
                    &&& e == OtaError::NotVerifying
                } else {
                    &&& Err::<(), OtaError>(e) == pre.hash.spec_finalize(computed)
                    &&& post == pre.with_state(OtaState::Failure)
                }
            },
        }
    }
}

/// The single live OTA attempt: the session state machine. It owns the
/// transfer buffer and the hash verifier and decides every transition; the
/// flash writes, digest computation and notifications it calls for are
/// performed by the platform collaborators.
pub struct OtaSession {
    /// Where the session stands.
    pub state: OtaState,
    /// Whether a device reboot was requested.
    pub halted: bool,
    /// Bounds the byte stream against the declared size.
    pub buffer: TransferBuffer,
    /// Tracks the fed stream and the declared digest.
    pub hasher: HashVerifier,
    /// The digest the platform hasher reported, once verification passed.
    pub checked: Ghost<Option<Seq<u8>>>,
}

impl View for OtaSession {
    type V = SessionView;

    open spec fn view(&self) -> SessionView {
        SessionView {
            state: self.state,
            halted: self.halted,
            buffer: self.buffer@,
            hash: self.hasher@,
            checked: self.checked@,
        }
    }
}

impl OtaSession {
    /// The view invariant, plus agreement of the exec byte counter with
    /// the ghost stream.
    pub open spec fn wf(self) -> bool {
        &&& self@.inv()
        &&& self.buffer.wf()
    }

    /// A new session for an update partition of `max_ota_size` bytes.
    pub fn new(max_ota_size: u32) -> (s: OtaSession)
        ensures
            s.wf(),
            s@ == SessionView::fresh(max_ota_size as nat),
    {
        OtaSession {
            state: OtaState::Idle,
            halted: false,
            buffer: TransferBuffer::new(max_ota_size),
            hasher: HashVerifier::new(),
            checked: Ghost(None),
        }
    }

    /// Where the session stands.
    pub fn state(&self) -> (s: OtaState)
        ensures
            s == self@.state,
    {
        self.state
    }

    /// The status characteristic's current value.
    pub fn status(&self) -> (b: u8)
        ensures
            b == self@.state.spec_status_byte(),
    {
        self.state.status_byte()
    }

    /// Whether a reboot was requested.
    pub fn is_halted(&self) -> (h: bool)
        ensures
            h == self@.halted,
    {
        self.halted
    }

    /// Resets buffer, verifier and bookkeeping and enters Receiving.
    fn start(&mut self)
        ensures
            final(self).wf(),
            final(self)@ == old(self)@.started(),
    {
        self.state = OtaState::Receiving;
        self.buffer.reset();
        self.hasher.reset();
        self.checked = Ghost(None);
    }

    /// Handles a decoded command; see [`SessionView::step_command`].
    pub fn handle_command(&mut self, cmd: OtaGattCommands) -> (r: Result<Effect, OtaError>)
        requires
            old(self).wf(),
        ensures
            final(self).wf(),
            SessionView::step_command(old(self)@, cmd, final(self)@, r),
    {
        if self.halted {
            return Err(OtaError::Halted);
        }
        match cmd {
            OtaGattCommands::StartTransfer => {
                if matches!(self.state, OtaState::Idle) {
                    self.start();
                    Ok(Effect::PreparePartition)
                } else {
                    Err(OtaError::TransferInProgress)
                }
            },
            OtaGattCommands::StartForceTransfer => {
                self.start();
                Ok(Effect::PreparePartition)
            },
            OtaGattCommands::ClearTransfer => {
                self.state = OtaState::Idle;
                self.buffer.reset();
                self.hasher.reset();
                self.checked = Ghost(None);
                Ok(Effect::Cleared)
            },
            OtaGattCommands::ResetDevice => {
                self.halted = true;
                Ok(Effect::Reboot)
            },
        }
    }

    /// Handles a write to the total-file-size characteristic; see
    /// [`SessionView::step_total_size`].
    pub fn handle_total_size(&mut self, n: u32) -> (r: Result<Effect, OtaError>)
        requires
            old(self).wf(),
        ensures
            final(self).wf(),
            SessionView::step_total_size(old(self)@, n, final(self)@, r),
    {
        if self.halted {
            return Err(OtaError::Halted);
        }
        if !matches!(self.state, OtaState::Receiving) {
            return Err(OtaError::NoActiveTransfer);
        }
        match self.buffer.declare_total_size(n) {
            Ok(()) => Ok(Effect::NoAction),
            Err(e) => {
                self.state = OtaState::Failure;
                Err(e)
            },
        }
    }

    /// Handles a write to the file-hash characteristic; see
    /// [`SessionView::step_hash`].
    pub fn handle_hash(&mut self, digest: Vec<u8>) -> (r: Result<Effect, OtaError>)
        requires
            old(self).wf(),
        ensures
            final(self).wf(),
            SessionView::step_hash(old(self)@, digest@, final(self)@, r),
    {
        if self.halted {
            return Err(OtaError::Halted);
        }
        if !matches!(self.state, OtaState::Receiving) {
            return Err(OtaError::NoActiveTransfer);
        }
        match self.hasher.expect(digest) {
            Ok(()) => Ok(Effect::NoAction),
            Err(e) => {
                self.state = OtaState::Failure;
                Err(e)
            },
        }
    }

    /// Handles a write to the file-block characteristic; see
    /// [`SessionView::step_block`].
    pub fn handle_block(&mut self, chunk: &[u8]) -> (r: Result<Effect, OtaError>)
        requires
            old(self).wf(),
        ensures
            final(self).wf(),
            SessionView::step_block(old(self)@, chunk@, final(self)@, r),
    {
        if self.halted {
            return Err(OtaError::Halted);
        }
        if !matches!(self.state, OtaState::Receiving) {
            return Err(OtaError::NoActiveTransfer);
        }
        let offset = self.buffer.bytes_written();
        match self.buffer.append(chunk) {
            Ok(()) => {
                self.hasher.update(chunk);
                Ok(Effect::StoreBlock { offset })
            },
            Err(e) => {
                self.state = OtaState::Failure;
                Err(e)
            },
        }
    }

    /// Handles the completion signal (a read of the finished-upload
    /// characteristic); see [`SessionView::step_finalize`].
    pub fn request_finalize(&mut self) -> (r: Result<Effect, OtaError>)
        requires
            old(self).wf(),
        ensures
            final(self).wf(),
            SessionView::step_finalize(old(self)@, final(self)@, r),
    {
        if self.halted {
            return Err(OtaError::Halted);
        }
        if !matches!(self.state, OtaState::Receiving) {
            return Err(OtaError::NoActiveTransfer);
        }
        if self.buffer.is_complete() {
            self.state = OtaState::Verifying;
            Ok(Effect::ComputeDigest)
        } else {
            Err(OtaError::IncompleteTransfer)
        }
    }

    /// Handles the digest the platform hasher computed over the fed
    /// stream; see [`SessionView::step_digest`].
    pub fn handle_digest(&mut self, computed: &[u8]) -> (r: Result<Effect, OtaError>)
        requires
            old(self).wf(),
        ensures
            final(self).wf(),
            SessionView::step_digest(old(self)@, computed@, final(self)@, r),
    {
        if self.halted {
            return Err(OtaError::Halted);
        }
        if !matches!(self.state, OtaState::Verifying) {
            return Err(OtaError::NotVerifying);
        }
        match self.hasher.finalize(computed) {
            Ok(()) => {
                self.state = OtaState::Success;
                self.checked = Ghost(Some(computed@));
                Ok(Effect::MarkBootable)
            },
            Err(e) => {
                self.state = OtaState::Failure;
                Err(e)
            },
        }
    }

    /// Records a malformed write — an unknown command byte or a wrongly
    /// sized value the router could not even hand over: fatal while a
    /// transfer is receiving, ignored in every other state.
    pub fn report_protocol_violation(&mut self)
        requires
            old(self).wf(),
        ensures
            final(self).wf(),
            final(self)@ == old(self)@.after_violation(),
    {
        if !self.halted && matches!(self.state, OtaState::Receiving) {
            self.state = OtaState::Failure;
        }
    }

    /// Records that a flash operation failed: fatal to the session, the
    /// partition state undefined until the next transfer re-initializes it.
    pub fn report_storage_failure(&mut self)
        requires
            old(self).wf(),
        ensures
            final(self).wf(),
            final(self)@ == old(self)@.with_state(OtaState::Failure),
    {
        self.state = OtaState::Failure;
    }
}

/// Success is reached only with the whole declared image on hand and a
/// matching digest: for any well-formed session showing Success, the byte
/// count equalled the declared total when Verifying was entered (blocks are
/// refused from Verifying on, so it still does), and the digest the
/// platform computed over the fed stream — exactly the accepted image —
/// equals the digest the sender declared.
pub proof fn lemma_success_needs_complete_image(s: OtaSession)
    requires
        s.wf(),
        s@.state == OtaState::Success,
    ensures
        s@.buffer.total == Some(s@.buffer.image.len()),
        s@.hash.expected is Some,
        s@.checked == Some(s@.hash.expected->0),
        s@.hash.fed == s@.buffer.image,
{
}

/// Clearing wipes the slate: after `ClearTransfer` from any state, a
/// following `StartTransfer` begins receiving with a zero byte count, an
/// empty image, and no residual expected hash.
pub proof fn lemma_clear_then_start(v: SessionView)
    ensures
        v.cleared().state == OtaState::Idle,
        v.cleared().started().state == OtaState::Receiving,
        v.cleared().started().buffer == BufferView::empty(v.buffer.max_size),
        v.cleared().started().buffer.image.len() == 0,
        v.cleared().started().hash == HashView::empty(),
        v.cleared().started().hash.expected is None,
{
}

} // verus!
