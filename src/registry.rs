//! Device registrations, the records they accept, and the operations on them.

use vstd::prelude::*;
use vstd::string::StringSliceAdditionalSpecFns;
use vstd::utf8::encode_utf8;

use crate::merkle::{compute_merkle_root, merkle_root, node_views};
use crate::message::{create_message, ed25519_accepts, signed_message, verify_ed25519_signature};

verus! {

/// Longest device identifier, in UTF-8 bytes.
pub const MAX_DEVICE_ID_LEN: usize = 60;

/// Longest sensor type, in UTF-8 bytes.
pub const MAX_SENSOR_TYPE_LEN: usize = 60;

/// Longest reading payload, in bytes.
pub const MAX_DATA_LEN: usize = 252;

/// Why an operation was refused. A refused operation changes nothing.
#[derive(Clone, Copy, Debug, PartialEq, Eq, Structural)]
pub enum ErrorCode {
    AccountInactive,
    InvalidTimestamp,
    InvalidSignature,
    InvalidProofCount,
    InvalidTimestampRange,
    InvalidMerkleProof,
    Unauthorized,
}

impl ErrorCode {
    /// A short human-readable description.
    pub fn msg(&self) -> &'static str {
        match self {
            ErrorCode::AccountInactive => "Sensor account is not active",
            ErrorCode::InvalidTimestamp => "Invalid timestamp",
            ErrorCode::InvalidSignature => "Invalid signature",
            ErrorCode::InvalidProofCount => "Invalid proof count",
            ErrorCode::InvalidTimestampRange => "Invalid timestamp range",
            ErrorCode::InvalidMerkleProof => "Invalid Merkle proof",
            ErrorCode::Unauthorized => "Caller is not the sensor's authority",
        }
    }
}

/// The registration of one physical device.
///
/// A single counter holds the number of proofs attributed to the device,
/// individual and batched alike; `total_proofs_verified` reads the same one.
#[derive(Debug)]
pub struct SensorAccount {
    pub authority: [u8; 32],
    pub device_id: String,
    pub proof_count: u64,
    pub last_proof_timestamp: i64,
    pub is_active: bool,
}

impl SensorAccount {
    /// The number of proofs attributed to the device.
    pub fn total_proofs_verified(&self) -> (r: u64)
        ensures
            r == self.proof_count,
    {
        self.proof_count
    }
}

/// An individually submitted, accepted proof.
#[derive(Debug)]
pub struct ProofAccount {
    pub sensor_account: [u8; 32],
    pub sensor_type: String,
    pub timestamp: i64,
    pub data: Vec<u8>,
    pub signature: [u8; 64],
    pub verifier: [u8; 32],
    pub verified_at: i64,
}

/// A committed batch: a Merkle root over readings built elsewhere.
#[derive(Debug)]
pub struct BatchProofAccount {
    pub sensor_account: [u8; 32],
    pub merkle_root: [u8; 32],
    pub proof_count: u32,
    pub start_timestamp: i64,
    pub end_timestamp: i64,
    pub submitted_at: i64,
    pub submitter: [u8; 32],
}

/// The identity that registers a new device.
#[derive(Debug)]
pub struct InitializeSensorAccount {
    pub authority: [u8; 32],
}

/// A registration, its address, and the caller whose key signed the reading.
#[derive(Debug)]
pub struct SubmitProof {
    pub sensor_account: SensorAccount,
    pub sensor_account_key: [u8; 32],
    pub authority: [u8; 32],
}

/// A registration, its address, and the caller committing a batch.
#[derive(Debug)]
pub struct SubmitBatchProof {
    pub sensor_account: SensorAccount,
    pub sensor_account_key: [u8; 32],
    pub authority: [u8; 32],
}

/// The stored batch that an inclusion proof is checked against.
#[derive(Debug)]
pub struct VerifyMerkleProof {
    pub batch_account: BatchProofAccount,
}

/// A registration and the caller asking to change its state.
#[derive(Debug)]
pub struct UpdateSensorStatus {
    pub sensor_account: SensorAccount,
    pub authority: [u8; 32],
}

/// The registration whose statistics are read.
#[derive(Debug)]
pub struct GetSensorStats {
    pub sensor_account: SensorAccount,
}

/// A summary of a registration.
#[derive(Clone, Copy, Debug, PartialEq, Eq, Structural)]
pub struct SensorStats {
    pub total_proofs: u64,
    pub last_proof_timestamp: i64,
    pub is_active: bool,
}

/// The registration after `n` more proofs, the latest stamped `last`.
pub open spec fn with_proofs(s: SensorAccount, n: nat, last: i64) -> SensorAccount {
    SensorAccount { proof_count: (s.proof_count + n) as u64, last_proof_timestamp: last, ..s }
}

/// The registration with its active flag set to `active`.
pub open spec fn with_active(s: SensorAccount, active: bool) -> SensorAccount {
    SensorAccount { is_active: active, ..s }
}

/// The checks on a single proof, in order; the first that fails decides.
pub open spec fn proof_check(s: SensorAccount, timestamp: i64, now: i64, signature_valid: bool) -> Result<(), ErrorCode> {
    if !s.is_active {
        Err(ErrorCode::AccountInactive)
    } else if timestamp > now {
        Err(ErrorCode::InvalidTimestamp)
    } else if !signature_valid {
        Err(ErrorCode::InvalidSignature)
    } else {
        Ok(())
    }
}

/// The checks on a batch, in order; the first that fails decides.
pub open spec fn batch_check(s: SensorAccount, proof_count: u32, start_timestamp: i64, end_timestamp: i64) -> Result<(), ErrorCode> {
    if !s.is_active {
        Err(ErrorCode::AccountInactive)
    } else if proof_count == 0 {
        Err(ErrorCode::InvalidProofCount)
    } else if start_timestamp > end_timestamp {
        Err(ErrorCode::InvalidTimestampRange)
    } else {
        Ok(())
    }
}

/// A proof stamped one second after the current time is refused as a bad
/// timestamp on an active registration, and one stamped exactly at the current
/// time passes the timestamp check.
pub proof fn lemma_future_timestamp_refused(s: SensorAccount, now: i64, signature_valid: bool)
    requires
        s.is_active,
        now < i64::MAX,
    ensures
        proof_check(s, (now + 1) as i64, now, signature_valid) == Err::<(), ErrorCode>(
            ErrorCode::InvalidTimestamp,
        ),
        signature_valid ==> proof_check(s, now, now, signature_valid) == Ok::<(), ErrorCode>(()),
{
}

/// A deactivated registration refuses every proof as inactive, whatever the
/// timestamp and signature.
pub proof fn lemma_inactive_refuses_proofs(s: SensorAccount, timestamp: i64, now: i64, signature_valid: bool)
    requires
        !s.is_active,
    ensures
        proof_check(s, timestamp, now, signature_valid) == Err::<(), ErrorCode>(
            ErrorCode::AccountInactive,
        ),
{
}

/// Two accepted proofs in a row each add exactly one to the count, and the
/// registration is left stamped with the second proof's timestamp.
pub proof fn lemma_two_proofs(s: SensorAccount, first: i64, second: i64)
    requires
        s.proof_count + 2 <= u64::MAX,
    ensures
        with_proofs(s, 1, first).proof_count == s.proof_count + 1,
        with_proofs(with_proofs(s, 1, first), 1, second).proof_count == s.proof_count + 2,
        with_proofs(with_proofs(s, 1, first), 1, second).last_proof_timestamp == second,
{
}

/// A batch with no proofs is refused, a batch whose range runs backwards is
/// refused, and an accepted batch adds exactly its proof count.
pub proof fn lemma_batch_checks(s: SensorAccount, proof_count: u32, start_timestamp: i64, end_timestamp: i64)
    requires
        s.is_active,
        s.proof_count + proof_count <= u64::MAX,
    ensures
        proof_count == 0 ==> batch_check(s, proof_count, start_timestamp, end_timestamp) == Err::<
            (),
            ErrorCode,
        >(ErrorCode::InvalidProofCount),
        proof_count > 0 && start_timestamp > end_timestamp ==> batch_check(
            s,
            proof_count,
            start_timestamp,
            end_timestamp,
        ) == Err::<(), ErrorCode>(ErrorCode::InvalidTimestampRange),
        batch_check(s, proof_count, start_timestamp, end_timestamp) is Ok ==> with_proofs(
            s,
            proof_count as nat,
            end_timestamp,
        ).proof_count == s.proof_count + proof_count,
{
}

/// Registers a device: active, with no proofs, owned by the caller.
pub fn initialize_sensor_account(ctx: &InitializeSensorAccount, device_id: String) -> (r: SensorAccount)
    requires
        encode_utf8(device_id@).len() <= MAX_DEVICE_ID_LEN,
    ensures
        r == (SensorAccount {
            authority: ctx.authority,
            device_id,
            proof_count: 0,
            last_proof_timestamp: 0,
            is_active: true,
        }),
{
    SensorAccount {
        authority: ctx.authority,
        device_id,
        proof_count: 0,
        last_proof_timestamp: 0,
        is_active: true,
    }
}

/// Records a single proof once the signature check has been made:
/// `signature_valid` is its outcome. The registration must be active and
/// `timestamp` not after `now`; then the record is returned and the
/// registration counts one more proof, stamped `timestamp`.
pub fn accept_proof(
    ctx: &mut SubmitProof,
    sensor_type: String,
    timestamp: i64,
    data: Vec<u8>,
    signature: [u8; 64],
    now: i64,
    signature_valid: bool,
) -> (r: Result<ProofAccount, ErrorCode>)
    requires
        old(ctx).sensor_account.proof_count < u64::MAX,
    ensures
        match proof_check(old(ctx).sensor_account, timestamp, now, signature_valid) {
            Err(e) => r == Err::<ProofAccount, ErrorCode>(e) && *final(ctx) == *old(ctx),
            Ok(_) => r == Ok::<ProofAccount, ErrorCode>(
                ProofAccount {
                    sensor_account: old(ctx).sensor_account_key,
                    sensor_type,
                    timestamp,
                    data,
                    signature,
                    verifier: old(ctx).authority,
                    verified_at: now,
                },
            ) && *final(ctx) == (SubmitProof {
                sensor_account: with_proofs(old(ctx).sensor_account, 1, timestamp),
                ..*old(ctx)
            }),
        },
{
    if !ctx.sensor_account.is_active {
        return Err(ErrorCode::AccountInactive);
    }
    if timestamp > now {
        return Err(ErrorCode::InvalidTimestamp);
    }
    if !signature_valid {
        return Err(ErrorCode::InvalidSignature);
    }
    let proof = ProofAccount {
        sensor_account: ctx.sensor_account_key,
        sensor_type,
        timestamp,
        data,
        signature,
        verifier: ctx.authority,
        verified_at: now,
    };
    ctx.sensor_account.proof_count = ctx.sensor_account.proof_count + 1;
    ctx.sensor_account.last_proof_timestamp = timestamp;
    Ok(proof)
}

/// Submits one signed reading at time `now`. The signature is checked with
/// Ed25519 against the caller's key over the canonical message of the reading
/// and the registration's device identifier.
pub fn submit_proof(
    ctx: &mut SubmitProof,
    sensor_type: String,
    timestamp: i64,
    data: Vec<u8>,
    signature: [u8; 64],
    now: i64,
) -> (r: Result<ProofAccount, ErrorCode>)
    requires
        old(ctx).sensor_account.proof_count < u64::MAX,
        encode_utf8(sensor_type@).len() <= MAX_SENSOR_TYPE_LEN,
        data@.len() <= MAX_DATA_LEN,
    ensures
        ({
            let message = signed_message(
                encode_utf8(sensor_type@),
                timestamp as int,
                data@,
                encode_utf8(old(ctx).sensor_account.device_id@),
            );
            let valid = ed25519_accepts(signature@, old(ctx).authority@, message);
            match proof_check(old(ctx).sensor_account, timestamp, now, valid) {
                Err(e) => r == Err::<ProofAccount, ErrorCode>(e) && *final(ctx) == *old(ctx),
                Ok(_) => r == Ok::<ProofAccount, ErrorCode>(
                    ProofAccount {
                        sensor_account: old(ctx).sensor_account_key,
                        sensor_type,
                        timestamp,
                        data,
                        signature,
                        verifier: old(ctx).authority,
                        verified_at: now,
                    },
                ) && *final(ctx) == (SubmitProof {
                    sensor_account: with_proofs(old(ctx).sensor_account, 1, timestamp),
                    ..*old(ctx)
                }),
            }
        }),
{
    let mut valid = false;
    if ctx.sensor_account.is_active && timestamp <= now {
        let message = create_message(
            sensor_type.as_str(),
            timestamp,
            data.as_slice(),
            ctx.sensor_account.device_id.as_str(),
        );
        valid = verify_ed25519_signature(&signature, &ctx.authority, message.as_slice());
    }
    accept_proof(ctx, sensor_type, timestamp, data, signature, now, valid)
}

/// Commits a batch of `proof_count` readings from `start_timestamp` to
/// `end_timestamp` under `merkle_root`, at time `now`. The registration counts
/// the batch's proofs and is stamped `end_timestamp`.
pub fn submit_batch_proof(
    ctx: &mut SubmitBatchProof,
    merkle_root: [u8; 32],
    proof_count: u32,
    start_timestamp: i64,
    end_timestamp: i64,
    now: i64,
) -> (r: Result<BatchProofAccount, ErrorCode>)
    requires
        old(ctx).sensor_account.proof_count + proof_count <= u64::MAX,
    ensures
        match batch_check(old(ctx).sensor_account, proof_count, start_timestamp, end_timestamp) {
            Err(e) => r == Err::<BatchProofAccount, ErrorCode>(e) && *final(ctx) == *old(ctx),
            Ok(_) => r == Ok::<BatchProofAccount, ErrorCode>(
                BatchProofAccount {
                    sensor_account: old(ctx).sensor_account_key,
                    merkle_root,
                    proof_count,
                    start_timestamp,
                    end_timestamp,
                    submitted_at: now,
                    submitter: old(ctx).authority,
                },
            ) && *final(ctx) == (SubmitBatchProof {
                sensor_account: with_proofs(
                    old(ctx).sensor_account,
                    proof_count as nat,
                    end_timestamp,
                ),
                ..*old(ctx)
            }),
        },
{
    if !ctx.sensor_account.is_active {
        return Err(ErrorCode::AccountInactive);
    }
    if proof_count == 0 {
        return Err(ErrorCode::InvalidProofCount);
    }
    if start_timestamp > end_timestamp {
        return Err(ErrorCode::InvalidTimestampRange);
    }
    let batch = BatchProofAccount {
        sensor_account: ctx.sensor_account_key,
        merkle_root,
        proof_count,
        start_timestamp,
        end_timestamp,
        submitted_at: now,
        submitter: ctx.authority,
    };
    ctx.sensor_account.proof_count = ctx.sensor_account.proof_count + proof_count as u64;
    ctx.sensor_account.last_proof_timestamp = end_timestamp;
    Ok(batch)
}

fn same_bytes(a: &[u8; 32], b: &[u8; 32]) -> (r: bool)
    ensures
        r == (a@ == b@),
{
    let mut i: usize = 0;
    while i < 32
        invariant
            i <= 32,
            a@.len() == 32,
            b@.len() == 32,
            forall|j: int| 0 <= j < i ==> a@[j] == b@[j],
        decreases 32 - i,
    {
        if a[i] != b[i] {
            return false;
        }
        i = i + 1;
    }
    proof {
        assert(a@ =~= b@);
    }
    true
}

/// Compares a recomputed root with the batch's stored root.
pub fn check_root(ctx: &VerifyMerkleProof, computed: [u8; 32]) -> (r: Result<(), ErrorCode>)
    ensures
        r == (if computed@ == ctx.batch_account.merkle_root@ {
            Ok::<(), ErrorCode>(())
        } else {
            Err::<(), ErrorCode>(ErrorCode::InvalidMerkleProof)
        }),
{
    if same_bytes(&computed, &ctx.batch_account.merkle_root) {
        Ok(())
    } else {
        Err(ErrorCode::InvalidMerkleProof)
    }
}

/// Checks that `proof_hash` is the leaf at `index` of the batch's tree, given
/// its authentication path. Reads the batch and changes nothing.
pub fn verify_merkle_proof(
    ctx: &VerifyMerkleProof,
    proof_hash: [u8; 32],
    merkle_path: Vec<[u8; 32]>,
    index: u32,
) -> (r: Result<(), ErrorCode>)
    ensures
        r == (if merkle_root(proof_hash@, node_views(merkle_path@), index as nat)
            == ctx.batch_account.merkle_root@ {
            Ok::<(), ErrorCode>(())
        } else {
            Err::<(), ErrorCode>(ErrorCode::InvalidMerkleProof)
        }),
{
    let computed = compute_merkle_root(proof_hash, merkle_path.as_slice(), index);
    check_root(ctx, computed)
}

/// Turns the registration off. Only its authority may do so; setting it off
/// twice is no error.
pub fn deactivate_sensor(ctx: &mut UpdateSensorStatus) -> (r: Result<(), ErrorCode>)
    ensures
        old(ctx).authority@ == old(ctx).sensor_account.authority@ ==> r == Ok::<(), ErrorCode>(())
            && *final(ctx) == (UpdateSensorStatus {
            sensor_account: with_active(old(ctx).sensor_account, false),
            ..*old(ctx)
        }),
        old(ctx).authority@ != old(ctx).sensor_account.authority@ ==> r == Err::<(), ErrorCode>(
            ErrorCode::Unauthorized,
        ) && *final(ctx) == *old(ctx),
{
    if !same_bytes(&ctx.authority, &ctx.sensor_account.authority) {
        return Err(ErrorCode::Unauthorized);
    }
    ctx.sensor_account.is_active = false;
    Ok(())
}

/// Turns the registration on. Only its authority may do so; setting it on
/// twice is no error.
pub fn activate_sensor(ctx: &mut UpdateSensorStatus) -> (r: Result<(), ErrorCode>)
    ensures
        old(ctx).authority@ == old(ctx).sensor_account.authority@ ==> r == Ok::<(), ErrorCode>(())
            && *final(ctx) == (UpdateSensorStatus {
            sensor_account: with_active(old(ctx).sensor_account, true),
            ..*old(ctx)
        }),
        old(ctx).authority@ != old(ctx).sensor_account.authority@ ==> r == Err::<(), ErrorCode>(
            ErrorCode::Unauthorized,
        ) && *final(ctx) == *old(ctx),
{
    if !same_bytes(&ctx.authority, &ctx.sensor_account.authority) {
        return Err(ErrorCode::Unauthorized);
    }
    ctx.sensor_account.is_active = true;
    Ok(())
}

/// Reads the registration's proof total, latest timestamp and state.
pub fn get_sensor_stats(ctx: &GetSensorStats) -> (r: Result<SensorStats, ErrorCode>)
    ensures
        r == Ok::<SensorStats, ErrorCode>(
            SensorStats {
                total_proofs: ctx.sensor_account.proof_count,
                last_proof_timestamp: ctx.sensor_account.last_proof_timestamp,
                is_active: ctx.sensor_account.is_active,
            },
        ),
{
    Ok(
        SensorStats {
            total_proofs: ctx.sensor_account.total_proofs_verified(),
            last_proof_timestamp: ctx.sensor_account.last_proof_timestamp,
            is_active: ctx.sensor_account.is_active,
        },
    )
}

} // verus!
