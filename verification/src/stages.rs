//! Stage-specific digest composition.
//!
//! Each stage hashes a fixed list of fields joined with a fixed `-`
//! delimiter in a fixed order; the order and delimiter are part of the
//! reproducibility contract, so every input is written out explicitly here.
//! Most stages derive their digests from the payload alone (pre-hash); the
//! warehouse stage hashes the content address too, so its digest exists only
//! after persistence succeeds.

use vstd::prelude::*;
use vstd::string::StringExecFns;

use crate::canonical::field_framed;
use crate::canonical::opt_rendered;
use crate::canonical::opt_view;
use crate::canonical::push_field;
use crate::canonical::push_opt_field;
use crate::canonical::render_opt;
use crate::commit_reveal::commit;
use crate::commit_reveal::pair_valid_for;
use crate::commit_reveal::CommitRevealPair;
use crate::hashing::compute_keccak256;
use crate::hashing::keccak_digest;
use crate::identity::generate_did;
use crate::identity::is_did;
use crate::merkle::compute_merkle_root;
use crate::merkle::merkle_root_of;
use crate::merkle::views_of;
use crate::payload::AiScoreRequest;
use crate::payload::CreateSkuRequest;
use crate::payload::StagePayload;

verus! {

/// Registration: identifier, crop type and timestamp, in that order.
pub open spec fn crop_id_input(
    farmer_did: Seq<char>,
    crop_type: Seq<char>,
    registered_at: Seq<char>,
) -> Seq<char> {
    farmer_did + "-"@ + crop_type + "-"@ + registered_at
}

/// The registration crop identifier hash.
pub fn crop_id_hash(farmer_did: &str, crop_type: &str, registered_at: &str) -> (r: String)
    ensures
        r@ == keccak_digest(crop_id_input(farmer_did@, crop_type@, registered_at@)),
{
    let mut s = farmer_did.to_owned();
    s.append("-");
    s.append(crop_type);
    s.append("-");
    s.append(registered_at);
    compute_keccak256(s.as_str())
}

/// Purchase: farmer id, batch id, quantity and purchaser name, in that order.
pub open spec fn purchase_batch_input(
    farmer_did: Seq<char>,
    batch_id: Seq<char>,
    quantity_kg: Seq<char>,
    fpo_name: Seq<char>,
) -> Seq<char> {
    farmer_did + "-"@ + batch_id + "-"@ + quantity_kg + "-"@ + fpo_name
}

/// The purchase batch hash.
pub fn purchase_batch_hash(
    farmer_did: &str,
    batch_id: &str,
    quantity_kg: &str,
    fpo_name: &str,
) -> (r: String)
    ensures
        r@ == keccak_digest(
            purchase_batch_input(farmer_did@, batch_id@, quantity_kg@, fpo_name@),
        ),
{
    let mut s = farmer_did.to_owned();
    s.append("-");
    s.append(batch_id);
    s.append("-");
    s.append(quantity_kg);
    s.append("-");
    s.append(fpo_name);
    compute_keccak256(s.as_str())
}

/// Warehouse: warehouse id, batch id, the two rendered sensor readings, and
/// the content address, in that order. This is the one post-hash input: it
/// cannot be formed before persistence yields the address.
pub open spec fn warehouse_state_input(
    warehouse_id: Seq<char>,
    batch_id: Seq<char>,
    temperature: Option<Seq<char>>,
    humidity: Option<Seq<char>>,
    content_address: Seq<char>,
) -> Seq<char> {
    warehouse_id + "-"@ + batch_id + "-"@ + opt_rendered(temperature) + "-"@ + opt_rendered(
        humidity,
    ) + "-"@ + content_address
}

/// The warehouse state hash, computed only once the content address exists.
pub fn warehouse_state_hash(
    warehouse_id: &str,
    batch_id: &str,
    temperature: &Option<String>,
    humidity: &Option<String>,
    content_address: &str,
) -> (r: String)
    ensures
        r@ == keccak_digest(
            warehouse_state_input(
                warehouse_id@,
                batch_id@,
                opt_view(*temperature),
                opt_view(*humidity),
                content_address@,
            ),
        ),
{
    let mut s = warehouse_id.to_owned();
    s.append("-");
    s.append(batch_id);
    s.append("-");
    let t = render_opt(temperature);
    s.append(t.as_str());
    s.append("-");
    let h = render_opt(humidity);
    s.append(h.as_str());
    s.append("-");
    s.append(content_address);
    compute_keccak256(s.as_str())
}

/// Logistics: shipment id, location and the two coordinates, in that order.
pub open spec fn location_input(
    shipment_id: Seq<char>,
    current_location: Seq<char>,
    latitude: Seq<char>,
    longitude: Seq<char>,
) -> Seq<char> {
    shipment_id + "-"@ + current_location + "-"@ + latitude + "-"@ + longitude
}

/// The logistics location hash.
pub fn location_hash(
    shipment_id: &str,
    current_location: &str,
    latitude: &str,
    longitude: &str,
) -> (r: String)
    ensures
        r@ == keccak_digest(
            location_input(shipment_id@, current_location@, latitude@, longitude@),
        ),
{
    let mut s = shipment_id.to_owned();
    s.append("-");
    s.append(current_location);
    s.append("-");
    s.append(latitude);
    s.append("-");
    s.append(longitude);
    compute_keccak256(s.as_str())
}

/// Processing, first family: input batch id, processor and input quantity.
pub open spec fn processing_input_input(
    input_batch_id: Seq<char>,
    processor_name: Seq<char>,
    input_quantity_kg: Seq<char>,
) -> Seq<char> {
    input_batch_id + "-"@ + processor_name + "-"@ + input_quantity_kg
}

/// The processing input batch hash.
pub fn processing_input_hash(
    input_batch_id: &str,
    processor_name: &str,
    input_quantity_kg: &str,
) -> (r: String)
    ensures
        r@ == keccak_digest(
            processing_input_input(input_batch_id@, processor_name@, input_quantity_kg@),
        ),
{
    let mut s = input_batch_id.to_owned();
    s.append("-");
    s.append(processor_name);
    s.append("-");
    s.append(input_quantity_kg);
    compute_keccak256(s.as_str())
}

/// Processing, second family: each output batch id with the output quantity.
pub open spec fn processing_output_input(
    output_batch_id: Seq<char>,
    output_quantity_kg: Seq<char>,
) -> Seq<char> {
    output_batch_id + "-"@ + output_quantity_kg
}

/// One output batch hash per output id, in the caller's order.
pub fn processing_output_hashes(output_batch_ids: &Vec<String>, output_quantity_kg: &str) -> (r:
    Vec<String>)
    ensures
        r@.len() == output_batch_ids@.len(),
        forall|i: int|
            0 <= i < r@.len() ==> r@[i]@ == keccak_digest(
                processing_output_input(output_batch_ids@[i]@, output_quantity_kg@),
            ),
{
    let mut r: Vec<String> = Vec::new();
    let n = output_batch_ids.len();
    let mut i: usize = 0;
    while i < n
        invariant
            n == output_batch_ids@.len(),
            i <= n,
            r@.len() == i,
            forall|k: int|
                0 <= k < i ==> r@[k]@ == keccak_digest(
                    processing_output_input(output_batch_ids@[k]@, output_quantity_kg@),
                ),
        decreases n - i,
    {
        let mut s = output_batch_ids[i].clone();
        s.append("-");
        s.append(output_quantity_kg);
        r.push(compute_keccak256(s.as_str()));
        i = i + 1;
    }
    r
}

/// Processing, third family: the transformation itself — its kind's label,
/// the yield percentage and the waste percentage.
pub open spec fn transform_input(
    processing_label: Seq<char>,
    yield_percentage: Seq<char>,
    waste_percentage: Seq<char>,
) -> Seq<char> {
    processing_label + "-"@ + yield_percentage + "-"@ + waste_percentage
}

/// The processing transform hash.
pub fn transform_hash(
    processing_label: &str,
    yield_percentage: &str,
    waste_percentage: &str,
) -> (r: String)
    ensures
        r@ == keccak_digest(
            transform_input(processing_label@, yield_percentage@, waste_percentage@),
        ),
{
    let mut s = processing_label.to_owned();
    s.append("-");
    s.append(yield_percentage);
    s.append("-");
    s.append(waste_percentage);
    compute_keccak256(s.as_str())
}

/// Packaging: parent batch id and product name.
pub open spec fn parent_batch_input(
    parent_batch_id: Seq<char>,
    product_name: Seq<char>,
) -> Seq<char> {
    parent_batch_id + "-"@ + product_name
}

/// The packaging parent batch hash.
pub fn parent_batch_hash(parent_batch_id: &str, product_name: &str) -> (r: String)
    ensures
        r@ == keccak_digest(parent_batch_input(parent_batch_id@, product_name@)),
{
    let mut s = parent_batch_id.to_owned();
    s.append("-");
    s.append(product_name);
    compute_keccak256(s.as_str())
}

/// The merkle leaves of a packaging request: the supplied proof list, or the
/// SKU id alone when none is supplied.
pub open spec fn packaging_leaves(p: CreateSkuRequest) -> Seq<Seq<char>> {
    match p.merkle_proof {
        Option::Some(proof) => views_of(proof@),
        Option::None => seq![p.sku_id@],
    }
}

/// The packaging merkle root over the request's leaves.
pub fn packaging_merkle_root(p: &CreateSkuRequest) -> (r: String)
    ensures
        r@ == merkle_root_of(packaging_leaves(*p)),
{
    match &p.merkle_proof {
        Option::Some(proof) => compute_merkle_root(proof.as_slice()),
        Option::None => {
            let mut leaves: Vec<String> = Vec::new();
            leaves.push(p.sku_id.clone());
            let r = compute_merkle_root(leaves.as_slice());
            proof {
                assert(views_of(leaves@) =~= seq![p.sku_id@]);
            }
            r
        },
    }
}

/// AI scoring: batch id and model name form the plain identifier hash.
pub open spec fn ai_batch_input(batch_id: Seq<char>, model_name: Seq<char>) -> Seq<char> {
    batch_id + "-"@ + model_name
}

/// The AI scoring batch identifier hash.
pub fn ai_batch_hash(batch_id: &str, model_name: &str) -> (r: String)
    ensures
        r@ == keccak_digest(ai_batch_input(batch_id@, model_name@)),
{
    let mut s = batch_id.to_owned();
    s.append("-");
    s.append(model_name);
    compute_keccak256(s.as_str())
}

/// The canonical form of a full AI scoring payload: every field framed, in
/// declaration order. This is the reveal-hash input of the commit-reveal
/// pair.
pub open spec fn ai_canonical(p: AiScoreRequest) -> Seq<char> {
    field_framed("batch_id"@, p.batch_id@) + field_framed("quality_score"@, p.quality_score@)
        + field_framed("sustainability_score"@, p.sustainability_score@) + field_framed(
        "traceability_score"@,
        p.traceability_score@,
    ) + field_framed("model_name"@, p.model_name@) + field_framed(
        "model_version"@,
        p.model_version@,
    ) + field_framed("features"@, p.features@) + field_framed("predictions"@, p.predictions@)
        + field_framed("confidence"@, p.confidence@) + field_framed(
        "model_artifacts_url"@,
        opt_rendered(opt_view(p.model_artifacts_url)),
    ) + field_framed("training_data_hash"@, opt_rendered(opt_view(p.training_data_hash)))
}

/// Render the canonical form of an AI scoring payload.
pub fn render_ai_canonical(p: &AiScoreRequest) -> (r: String)
    ensures
        r@ == ai_canonical(*p),
{
    let mut r = String::new();
    push_field(&mut r, "batch_id", p.batch_id.as_str());
    push_field(&mut r, "quality_score", p.quality_score.as_str());
    push_field(&mut r, "sustainability_score", p.sustainability_score.as_str());
    push_field(&mut r, "traceability_score", p.traceability_score.as_str());
    push_field(&mut r, "model_name", p.model_name.as_str());
    push_field(&mut r, "model_version", p.model_version.as_str());
    push_field(&mut r, "features", p.features.as_str());
    push_field(&mut r, "predictions", p.predictions.as_str());
    push_field(&mut r, "confidence", p.confidence.as_str());
    push_opt_field(&mut r, "model_artifacts_url", &p.model_artifacts_url);
    push_opt_field(&mut r, "training_data_hash", &p.training_data_hash);
    proof {
        assert(r@ =~= ai_canonical(*p));
    }
    r
}

/// The derived hashes of one stage invocation, tagged by stage. The
/// warehouse state hash is optional: it exists only once the content address
/// does.
#[derive(Debug, Clone)]
pub enum StageDigests {
    Registration { farmer_did: String, crop_id_hash: String },
    Purchase { batch_hash: String },
    Warehouse { state_hash: Option<String> },
    Logistics { location_hash: String },
    Processing { input_batch_hash: String, transform_hash: String, output_batch_hashes: Vec<String> },
    Packaging { parent_batch_hash: String, merkle_root: String },
    AiScore { batch_hash: String, pair: CommitRevealPair },
}

/// The digests a stage derives from the payload alone, before persistence.
/// The warehouse stage derives none: its hash needs the content address.
pub open spec fn pre_digests_ok(
    payload: StagePayload,
    created_at: Seq<char>,
    d: StageDigests,
) -> bool {
    match (payload, d) {
        (
            StagePayload::Registration(p),
            StageDigests::Registration { farmer_did, crop_id_hash },
        ) => {
            &&& is_did(farmer_did@, "farmer"@)
            &&& crop_id_hash@ == keccak_digest(
                crop_id_input(farmer_did@, p.crop_type@, created_at),
            )
        },
        (StagePayload::Purchase(p), StageDigests::Purchase { batch_hash }) => batch_hash@
            == keccak_digest(
            purchase_batch_input(p.farmer_did@, p.batch_id@, p.quantity_kg@, p.fpo_name@),
        ),
        (StagePayload::Warehouse(_), StageDigests::Warehouse { state_hash }) => state_hash
            is None,
        (StagePayload::Logistics(p), StageDigests::Logistics { location_hash }) => location_hash@
            == keccak_digest(
            location_input(
                p.shipment_id@,
                p.current_location@,
                p.gps_coordinates.latitude@,
                p.gps_coordinates.longitude@,
            ),
        ),
        (
            StagePayload::Processing(p),
            StageDigests::Processing { input_batch_hash, transform_hash, output_batch_hashes },
        ) => {
            &&& input_batch_hash@ == keccak_digest(
                processing_input_input(p.input_batch_id@, p.processor_name@, p.input_quantity_kg@),
            )
            &&& transform_hash@ == keccak_digest(
                transform_input(
                    p.processing_type.label_view(),
                    p.yield_percentage@,
                    p.waste_percentage@,
                ),
            )
            &&& output_batch_hashes@.len() == p.output_batch_ids@.len()
            &&& forall|i: int|
                0 <= i < output_batch_hashes@.len() ==> output_batch_hashes@[i]@ == keccak_digest(
                    processing_output_input(p.output_batch_ids@[i]@, p.output_quantity_kg@),
                )
        },
        (
            StagePayload::Packaging(p),
            StageDigests::Packaging { parent_batch_hash, merkle_root },
        ) => {
            &&& parent_batch_hash@ == keccak_digest(
                parent_batch_input(p.parent_batch_id@, p.product_name@),
            )
            &&& merkle_root@ == merkle_root_of(packaging_leaves(p))
        },
        (StagePayload::AiScore(p), StageDigests::AiScore { batch_hash, pair }) => {
            &&& batch_hash@ == keccak_digest(ai_batch_input(p.batch_id@, p.model_name@))
            &&& pair_valid_for(pair, ai_canonical(p))
            &&& pair.nonce@.len() == 72
        },
        _ => false,
    }
}

/// The digests a finished stage carries, the content address known. Every
/// stage but the warehouse carries exactly its pre-persistence digests; the
/// warehouse stage now carries its state hash over the address.
pub open spec fn complete_digests_ok(
    payload: StagePayload,
    created_at: Seq<char>,
    content_address: Seq<char>,
    d: StageDigests,
) -> bool {
    match (payload, d) {
        (StagePayload::Warehouse(p), StageDigests::Warehouse { state_hash }) => state_hash
            matches Some(h) && h@ == keccak_digest(
            warehouse_state_input(
                p.warehouse_id@,
                p.batch_id@,
                opt_view(p.temperature_celsius),
                opt_view(p.humidity_percentage),
                content_address,
            ),
        ),
        _ => pre_digests_ok(payload, created_at, d),
    }
}

/// Compute every digest a stage derives from the payload alone. The
/// registration identifier and the commit nonce are drawn fresh here, so two
/// calls on one payload agree on every digest that is a function of the
/// payload and differ in the drawn values.
pub fn compute_pre_digests(payload: &StagePayload, created_at: &str) -> (d: StageDigests)
    ensures
        pre_digests_ok(*payload, created_at@, d),
{
    match payload {
        StagePayload::Registration(p) => {
            let farmer_did = generate_did("farmer");
            let h = crop_id_hash(farmer_did.as_str(), p.crop_type.as_str(), created_at);
            StageDigests::Registration { farmer_did, crop_id_hash: h }
        },
        StagePayload::Purchase(p) => {
            let h = purchase_batch_hash(
                p.farmer_did.as_str(),
                p.batch_id.as_str(),
                p.quantity_kg.as_str(),
                p.fpo_name.as_str(),
            );
            StageDigests::Purchase { batch_hash: h }
        },
        StagePayload::Warehouse(_) => StageDigests::Warehouse { state_hash: Option::None },
        StagePayload::Logistics(p) => {
            let h = location_hash(
                p.shipment_id.as_str(),
                p.current_location.as_str(),
                p.gps_coordinates.latitude.as_str(),
                p.gps_coordinates.longitude.as_str(),
            );
            StageDigests::Logistics { location_hash: h }
        },
        StagePayload::Processing(p) => {
            let input_h = processing_input_hash(
                p.input_batch_id.as_str(),
                p.processor_name.as_str(),
                p.input_quantity_kg.as_str(),
            );
            let transform_h = transform_hash(
                p.processing_type.label(),
                p.yield_percentage.as_str(),
                p.waste_percentage.as_str(),
            );
            let output_hs = processing_output_hashes(
                &p.output_batch_ids,
                p.output_quantity_kg.as_str(),
            );
            StageDigests::Processing {
                input_batch_hash: input_h,
                transform_hash: transform_h,
                output_batch_hashes: output_hs,
            }
        },
        StagePayload::Packaging(p) => {
            let parent_h = parent_batch_hash(p.parent_batch_id.as_str(), p.product_name.as_str());
            let root = packaging_merkle_root(p);
            StageDigests::Packaging { parent_batch_hash: parent_h, merkle_root: root }
        },
        StagePayload::AiScore(p) => {
            let batch_h = ai_batch_hash(p.batch_id.as_str(), p.model_name.as_str());
            let canonical = render_ai_canonical(p);
            let pair = commit(canonical.as_str());
            StageDigests::AiScore { batch_hash: batch_h, pair }
        },
    }
}

} // verus!
