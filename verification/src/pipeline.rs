//! The stage pipeline: validate, pre-hash, persist, post-hash, pin, receipt.
//!
//! Each stage invocation is an independent, stateless unit of work. The
//! persist and pin calls are the storage collaborator's and happen between
//! the functions here: the caller runs `begin_stage`, submits the record
//! body, hands the outcome to `after_persist`, requests the pin, and hands
//! that outcome to `after_pin`. A receipt exists only on the one success
//! path; on any failure an error is returned and no partial receipt is ever
//! constructed. A timeout at either boundary is a failure of that boundary,
//! never a success with missing data.

use vstd::prelude::*;

use crate::envelope::RecordEnvelope;
use crate::errors::StageError;
use crate::payload::StagePayload;
use crate::stages::complete_digests_ok;
use crate::stages::compute_pre_digests;
use crate::stages::pre_digests_ok;
use crate::stages::warehouse_state_hash;
use crate::stages::StageDigests;

verus! {

/// The registration receipt.
#[derive(Debug, Clone)]
pub struct FarmerRegistrationResponse {
    pub farmer_did: String,
    pub crop_id_hash: String,
    pub ipfs_cid: String,
    pub registered_at: String,
}

/// The purchase receipt.
#[derive(Debug, Clone)]
pub struct FpoPurchaseResponse {
    pub batch_hash: String,
    pub ipfs_cid: String,
    pub purchased_at: String,
}

/// The warehouse update receipt.
#[derive(Debug, Clone)]
pub struct WarehouseUpdateResponse {
    pub warehouse_id: String,
    pub state_hash: String,
    pub ipfs_cid: String,
    pub updated_at: String,
}

/// The logistics milestone receipt.
#[derive(Debug, Clone)]
pub struct LogisticsMilestoneResponse {
    pub shipment_id: String,
    pub location_hash: String,
    pub ipfs_cid: String,
    pub recorded_at: String,
}

/// The processing receipt.
#[derive(Debug, Clone)]
pub struct ProcessBatchResponse {
    pub input_batch_hash: String,
    pub transform_hash: String,
    pub output_batch_hashes: Vec<String>,
    pub ipfs_cid: String,
    pub processed_at: String,
}

/// The packaging receipt.
#[derive(Debug, Clone)]
pub struct CreateSkuResponse {
    pub sku_id: String,
    pub parent_batch_hash: String,
    pub merkle_root: String,
    pub ipfs_cid: String,
    pub packaged_at: String,
}

/// The AI scoring receipt.
#[derive(Debug, Clone)]
pub struct AiScoreResponse {
    pub batch_hash: String,
    pub commit_hash: String,
    pub reveal_hash: String,
    pub ipfs_cid: String,
    pub scored_at: String,
}

/// The per-stage receipt: the only externally visible artifact of a stage
/// operation; never mutated after construction.
#[derive(Debug, Clone)]
pub enum Receipt {
    Registration(FarmerRegistrationResponse),
    Purchase(FpoPurchaseResponse),
    Warehouse(WarehouseUpdateResponse),
    Logistics(LogisticsMilestoneResponse),
    Processing(ProcessBatchResponse),
    Packaging(CreateSkuResponse),
    AiScore(AiScoreResponse),
}

/// A validated stage whose record body is ready to persist. No digest that
/// depends on the content address exists yet.
pub struct PendingStage {
    pub envelope: RecordEnvelope,
    pub record_body: String,
}

impl PendingStage {
    /// The pending invariant: a well-formed envelope without a content
    /// address, carrying exactly the pre-persistence digests, and a record
    /// body that is the envelope's canonical serialization.
    pub open spec fn wf(self) -> bool {
        &&& self.envelope.wf()
        &&& self.envelope.content_address is None
        &&& pre_digests_ok(self.envelope.payload, self.envelope.created_at@, self.envelope.digests)
        &&& self.record_body@ == self.envelope.body_view()
    }
}

/// A persisted stage: the content address is set and every digest —
/// including any that depends on the address — is in place. Only the pin
/// remains.
pub struct SealedStage {
    pub envelope: RecordEnvelope,
}

impl SealedStage {
    /// The sealed invariant: a well-formed envelope whose content address is
    /// set and whose digests are complete with respect to it.
    pub open spec fn wf(self) -> bool {
        &&& self.envelope.wf()
        &&& self.envelope.content_address matches Some(cid) && complete_digests_ok(
            self.envelope.payload,
            self.envelope.created_at@,
            cid@,
            self.envelope.digests,
        )
    }
}

/// Validate the payload and derive every digest the stage can compute from
/// the payload alone, assembling the record to persist. Rejected input is
/// the only error: no side effect precedes validation.
pub fn begin_stage(payload: StagePayload, created_at: String) -> (r: Result<
    PendingStage,
    StageError,
>)
    ensures
        payload.valid() <==> r is Ok,
        r matches Ok(pending) ==> {
            &&& pending.wf()
            &&& pending.envelope.payload == payload
            &&& pending.envelope.created_at == created_at
            &&& pre_digests_ok(payload, created_at@, pending.envelope.digests)
        },
        r matches Err(e) ==> e is Validation,
{
    match payload.validate() {
        Result::Err(e) => {
            return Result::Err(e);
        },
        Result::Ok(()) => {},
    }
    let digests = compute_pre_digests(&payload, created_at.as_str());
    let envelope = RecordEnvelope { payload, digests, created_at, content_address: Option::None };
    proof {
        assert(envelope.consistent());
        assert(envelope.wf());
    }
    match envelope.render_body() {
        Result::Ok(body) => Result::Ok(PendingStage { envelope, record_body: body }),
        Result::Err(e) => Result::Err(e),
    }
}

/// Seal the stage with the persist outcome. A failed persist fails the whole
/// operation with a storage error: no receipt exists and no digest that
/// depends on a content address is ever computed. A successful persist sets
/// the address exactly once and, for the warehouse stage, derives the state
/// hash over it.
pub fn after_persist(pending: PendingStage, outcome: Result<String, String>) -> (r: Result<
    SealedStage,
    StageError,
>)
    requires
        pending.wf(),
    ensures
        outcome matches Err(m) ==> r matches Err(e) && e is StorageUnavailable
            && e.message_view() == m@,
        outcome matches Ok(cid) ==> r matches Ok(sealed) && {
            &&& sealed.wf()
            &&& sealed.envelope.payload == pending.envelope.payload
            &&& sealed.envelope.created_at == pending.envelope.created_at
            &&& sealed.envelope.content_address == Some(cid)
            &&& complete_digests_ok(
                pending.envelope.payload,
                pending.envelope.created_at@,
                cid@,
                sealed.envelope.digests,
            )
        },
{
    match outcome {
        Result::Err(m) => Result::Err(StageError::StorageUnavailable(m)),
        Result::Ok(cid) => {
            let mut envelope = pending.envelope;
            let post_hash: Option<String> = match (&envelope.payload, &envelope.digests) {
                (StagePayload::Warehouse(p), StageDigests::Warehouse { .. }) => Option::Some(
                    warehouse_state_hash(
                        p.warehouse_id.as_str(),
                        p.batch_id.as_str(),
                        &p.temperature_celsius,
                        &p.humidity_percentage,
                        cid.as_str(),
                    ),
                ),
                _ => Option::None,
            };
            match post_hash {
                Option::Some(h) => {
                    envelope.digests = StageDigests::Warehouse { state_hash: Option::Some(h) };
                },
                Option::None => {},
            }
            envelope.content_address = Option::Some(cid);
            Result::Ok(SealedStage { envelope })
        },
    }
}

/// Whether a receipt reports exactly the sealed envelope: its identifiers,
/// its digests, its content address and its timestamp.
pub open spec fn receipt_matches(e: RecordEnvelope, r: Receipt) -> bool {
    e.content_address matches Some(cid) && match (e.payload, e.digests, r) {
        (
            StagePayload::Registration(_),
            StageDigests::Registration { farmer_did, crop_id_hash },
            Receipt::Registration(resp),
        ) => {
            &&& resp.farmer_did@ == farmer_did@
            &&& resp.crop_id_hash@ == crop_id_hash@
            &&& resp.ipfs_cid@ == cid@
            &&& resp.registered_at@ == e.created_at@
        },
        (
            StagePayload::Purchase(_),
            StageDigests::Purchase { batch_hash },
            Receipt::Purchase(resp),
        ) => {
            &&& resp.batch_hash@ == batch_hash@
            &&& resp.ipfs_cid@ == cid@
            &&& resp.purchased_at@ == e.created_at@
        },
        (
            StagePayload::Warehouse(p),
            StageDigests::Warehouse { state_hash },
            Receipt::Warehouse(resp),
        ) => {
            &&& resp.warehouse_id@ == p.warehouse_id@
            &&& state_hash matches Some(h) && resp.state_hash@ == h@
            &&& resp.ipfs_cid@ == cid@
            &&& resp.updated_at@ == e.created_at@
        },
        (
            StagePayload::Logistics(p),
            StageDigests::Logistics { location_hash },
            Receipt::Logistics(resp),
        ) => {
            &&& resp.shipment_id@ == p.shipment_id@
            &&& resp.location_hash@ == location_hash@
            &&& resp.ipfs_cid@ == cid@
            &&& resp.recorded_at@ == e.created_at@
        },
        (
            StagePayload::Processing(_),
            StageDigests::Processing { input_batch_hash, transform_hash, output_batch_hashes },
            Receipt::Processing(resp),
        ) => {
            &&& resp.input_batch_hash@ == input_batch_hash@
            &&& resp.transform_hash@ == transform_hash@
            &&& resp.output_batch_hashes@.len() == output_batch_hashes@.len()
            &&& forall|i: int|
                0 <= i < output_batch_hashes@.len() ==> resp.output_batch_hashes@[i]@
                    == output_batch_hashes@[i]@
            &&& resp.ipfs_cid@ == cid@
            &&& resp.processed_at@ == e.created_at@
        },
        (
            StagePayload::Packaging(p),
            StageDigests::Packaging { parent_batch_hash, merkle_root },
            Receipt::Packaging(resp),
        ) => {
            &&& resp.sku_id@ == p.sku_id@
            &&& resp.parent_batch_hash@ == parent_batch_hash@
            &&& resp.merkle_root@ == merkle_root@
            &&& resp.ipfs_cid@ == cid@
            &&& resp.packaged_at@ == e.created_at@
        },
        (
            StagePayload::AiScore(_),
            StageDigests::AiScore { batch_hash, pair },
            Receipt::AiScore(resp),
        ) => {
            &&& resp.batch_hash@ == batch_hash@
            &&& resp.commit_hash@ == pair.commit_hash@
            &&& resp.reveal_hash@ == pair.reveal_hash@
            &&& resp.ipfs_cid@ == cid@
            &&& resp.scored_at@ == e.created_at@
        },
        _ => false,
    }
}

/// Finish the stage with the pin outcome. A failed pin is its own error
/// class: the content is persisted, so the caller may retry the pin alone.
/// A successful pin yields the receipt — the sole success path of the whole
/// pipeline.
pub fn after_pin(sealed: SealedStage, pin_outcome: Result<(), String>) -> (r: Result<
    Receipt,
    StageError,
>)
    requires
        sealed.wf(),
    ensures
        pin_outcome matches Err(m) ==> r matches Err(e) && e is PinFailed && e.message_view()
            == m@,
        pin_outcome is Ok ==> (r matches Ok(receipt) && receipt_matches(sealed.envelope, receipt)),
{
    match pin_outcome {
        Result::Err(m) => {
            return Result::Err(StageError::PinFailed(m));
        },
        Result::Ok(()) => {},
    }
    let envelope = sealed.envelope;
    let cid: String = match &envelope.content_address {
        Option::Some(c) => c.clone(),
        Option::None => vstd::pervasive::unreached(),
    };
    match (&envelope.payload, &envelope.digests) {
        (
            StagePayload::Registration(_),
            StageDigests::Registration { farmer_did, crop_id_hash },
        ) => Result::Ok(
            Receipt::Registration(
                FarmerRegistrationResponse {
                    farmer_did: farmer_did.clone(),
                    crop_id_hash: crop_id_hash.clone(),
                    ipfs_cid: cid,
                    registered_at: envelope.created_at.clone(),
                },
            ),
        ),
        (StagePayload::Purchase(_), StageDigests::Purchase { batch_hash }) => Result::Ok(
            Receipt::Purchase(
                FpoPurchaseResponse {
                    batch_hash: batch_hash.clone(),
                    ipfs_cid: cid,
                    purchased_at: envelope.created_at.clone(),
                },
            ),
        ),
        (
            StagePayload::Warehouse(p),
            StageDigests::Warehouse { state_hash: Option::Some(h) },
        ) => Result::Ok(
            Receipt::Warehouse(
                WarehouseUpdateResponse {
                    warehouse_id: p.warehouse_id.clone(),
                    state_hash: h.clone(),
                    ipfs_cid: cid,
                    updated_at: envelope.created_at.clone(),
                },
            ),
        ),
        (StagePayload::Logistics(p), StageDigests::Logistics { location_hash }) => Result::Ok(
            Receipt::Logistics(
                LogisticsMilestoneResponse {
                    shipment_id: p.shipment_id.clone(),
                    location_hash: location_hash.clone(),
                    ipfs_cid: cid,
                    recorded_at: envelope.created_at.clone(),
                },
            ),
        ),
        (
            StagePayload::Processing(_),
            StageDigests::Processing { input_batch_hash, transform_hash, output_batch_hashes },
        ) => {
            let mut hashes: Vec<String> = Vec::new();
            let n = output_batch_hashes.len();
            let mut i: usize = 0;
            while i < n
                invariant
                    n == output_batch_hashes@.len(),
                    i <= n,
                    hashes@.len() == i,
                    forall|k: int| 0 <= k < i ==> hashes@[k]@ == output_batch_hashes@[k]@,
                decreases n - i,
            {
                hashes.push(output_batch_hashes[i].clone());
                i = i + 1;
            }
            Result::Ok(
                Receipt::Processing(
                    ProcessBatchResponse {
                        input_batch_hash: input_batch_hash.clone(),
                        transform_hash: transform_hash.clone(),
                        output_batch_hashes: hashes,
                        ipfs_cid: cid,
                        processed_at: envelope.created_at.clone(),
                    },
                ),
            )
        },
        (
            StagePayload::Packaging(p),
            StageDigests::Packaging { parent_batch_hash, merkle_root },
        ) => Result::Ok(
            Receipt::Packaging(
                CreateSkuResponse {
                    sku_id: p.sku_id.clone(),
                    parent_batch_hash: parent_batch_hash.clone(),
                    merkle_root: merkle_root.clone(),
                    ipfs_cid: cid,
                    packaged_at: envelope.created_at.clone(),
                },
            ),
        ),
        (StagePayload::AiScore(_), StageDigests::AiScore { batch_hash, pair }) => Result::Ok(
            Receipt::AiScore(
                AiScoreResponse {
                    batch_hash: batch_hash.clone(),
                    commit_hash: pair.commit_hash.clone(),
                    reveal_hash: pair.reveal_hash.clone(),
                    ipfs_cid: cid,
                    scored_at: envelope.created_at.clone(),
                },
            ),
        ),
        _ => vstd::pervasive::unreached(),
    }
}

/// Run one whole stage against the two boundary outcomes: exactly the error
/// taxonomy of the pipeline. Rejected input fails with a validation error
/// before anything else; a failed persist fails with a storage error and
/// yields no receipt; a failed pin fails with its own error class; a receipt
/// exists only when validation, persist and pin all succeeded — and then it
/// reports exactly the payload's completed digests, the content address, and
/// the timestamp.
pub fn run_stage(
    payload: StagePayload,
    created_at: String,
    persist_outcome: Result<String, String>,
    pin_outcome: Result<(), String>,
) -> (r: Result<Receipt, StageError>)
    ensures
        !payload.valid() ==> (r matches Err(e) && e is Validation),
        payload.valid() && persist_outcome is Err ==> (r matches Err(e)
            && e is StorageUnavailable),
        payload.valid() && persist_outcome is Ok && pin_outcome is Err ==> (r matches Err(e)
            && e is PinFailed),
        (payload.valid() && pin_outcome is Ok && persist_outcome is Ok) ==> (r matches Ok(receipt)
            && exists|d: StageDigests|
            #[trigger] complete_digests_ok(payload, created_at@, (persist_outcome->Ok_0)@, d)
                && receipt_matches(
                (RecordEnvelope {
                    payload: payload,
                    digests: d,
                    created_at: created_at,
                    content_address: Some(persist_outcome->Ok_0),
                }),
                receipt,
            )),
{
    let ghost entry_payload = payload;
    let ghost entry_created_at = created_at;
    let ghost entry_persist = persist_outcome;
    let pending = match begin_stage(payload, created_at) {
        Result::Ok(p) => p,
        Result::Err(e) => {
            return Result::Err(e);
        },
    };
    let sealed = match after_persist(pending, persist_outcome) {
        Result::Ok(s) => s,
        Result::Err(e) => {
            return Result::Err(e);
        },
    };
    let ghost env = sealed.envelope;
    let r = after_pin(sealed, pin_outcome);
    proof {
        if entry_persist is Ok {
            let cid = entry_persist->Ok_0;
            assert(env == (RecordEnvelope {
                payload: entry_payload,
                digests: env.digests,
                created_at: entry_created_at,
                content_address: Some(cid),
            }));
            assert(complete_digests_ok(entry_payload, entry_created_at@, cid@, env.digests));
        }
    }
    r
}

} // verus!
