//! The record envelope: one stage's canonical persisted record.
//!
//! An envelope wraps the validated payload with its derived hashes and the
//! creation timestamp. The content address is absent until persistence
//! succeeds and is set exactly once, atomically with it; a derived hash that
//! depends on the address (the warehouse state hash) exists only once the
//! address does. The record body is an unambiguous framing of every field:
//! each line carries the field's name, its value's decimal length and the
//! value, so the same envelope always serializes to the same bytes.

use vstd::prelude::*;
use vstd::string::StringExecFns;

use crate::canonical::dec_of;
use crate::canonical::field_framed;
use crate::canonical::list_block;
use crate::canonical::opt_rendered;
use crate::canonical::opt_view;
use crate::canonical::push_field;
use crate::canonical::push_list_field;
use crate::canonical::push_opt_field;
use crate::canonical::render_opt;
use crate::canonical::string_views;
use crate::canonical::u64_to_dec;
use crate::errors::StageError;
use crate::payload::AiScoreRequest;
use crate::payload::CreateSkuRequest;
use crate::payload::FarmerRegistrationRequest;
use crate::payload::FpoPurchaseRequest;
use crate::payload::GpsCoordinates;
use crate::payload::LogisticsMilestoneRequest;
use crate::payload::PestInspection;
use crate::payload::ProcessBatchRequest;
use crate::payload::ProcessingParameters;
use crate::payload::ShockEvent;
use crate::payload::StagePayload;
use crate::payload::WarehouseUpdateRequest;
use crate::stages::StageDigests;

verus! {

/// A boolean field's canonical text.
pub open spec fn bool_rendered(b: bool) -> Seq<char> {
    if b {
        "true"@
    } else {
        "false"@
    }
}

fn render_bool(b: bool) -> (r: &'static str)
    ensures
        r@ == bool_rendered(b),
{
    if b {
        "true"
    } else {
        "false"
    }
}

/// A position fix's canonical text: latitude, longitude, optional altitude.
pub open spec fn gps_rendered(g: GpsCoordinates) -> Seq<char> {
    g.latitude@ + ","@ + g.longitude@ + ","@ + opt_rendered(opt_view(g.altitude))
}

fn render_gps(g: &GpsCoordinates) -> (r: String)
    ensures
        r@ == gps_rendered(*g),
{
    let mut r = g.latitude.clone();
    r.append(",");
    r.append(g.longitude.as_str());
    r.append(",");
    let alt = render_opt(&g.altitude);
    r.append(alt.as_str());
    r
}

/// An optional position fix's canonical text.
pub open spec fn opt_gps_rendered(o: Option<GpsCoordinates>) -> Seq<char> {
    match o {
        Option::None => "None"@,
        Option::Some(g) => "Some("@ + gps_rendered(g) + ")"@,
    }
}

fn render_opt_gps(o: &Option<GpsCoordinates>) -> (r: String)
    ensures
        r@ == opt_gps_rendered(*o),
{
    match o {
        Option::None => "None".to_owned(),
        Option::Some(g) => {
            let mut r = "Some(".to_owned();
            let inner = render_gps(g);
            r.append(inner.as_str());
            r.append(")");
            r
        },
    }
}

/// A pest inspection's canonical text.
pub open spec fn pest_rendered(p: PestInspection) -> Seq<char> {
    p.inspected_at@ + ","@ + bool_rendered(p.pest_found) + ","@ + opt_rendered(
        opt_view(p.pest_type),
    ) + ","@ + opt_rendered(opt_view(p.treatment_applied))
}

fn render_pest(p: &PestInspection) -> (r: String)
    ensures
        r@ == pest_rendered(*p),
{
    let mut r = p.inspected_at.clone();
    r.append(",");
    r.append(render_bool(p.pest_found));
    r.append(",");
    let t = render_opt(&p.pest_type);
    r.append(t.as_str());
    r.append(",");
    let a = render_opt(&p.treatment_applied);
    r.append(a.as_str());
    r
}

/// An optional pest inspection's canonical text.
pub open spec fn opt_pest_rendered(o: Option<PestInspection>) -> Seq<char> {
    match o {
        Option::None => "None"@,
        Option::Some(p) => "Some("@ + pest_rendered(p) + ")"@,
    }
}

fn render_opt_pest(o: &Option<PestInspection>) -> (r: String)
    ensures
        r@ == opt_pest_rendered(*o),
{
    match o {
        Option::None => "None".to_owned(),
        Option::Some(p) => {
            let mut r = "Some(".to_owned();
            let inner = render_pest(p);
            r.append(inner.as_str());
            r.append(")");
            r
        },
    }
}

/// An optional duration's canonical text, in decimal minutes.
pub open spec fn opt_duration_rendered(o: Option<u32>) -> Seq<char> {
    match o {
        Option::None => "None"@,
        Option::Some(d) => "Some("@ + dec_of(d as nat) + ")"@,
    }
}

fn render_opt_duration(o: &Option<u32>) -> (r: String)
    ensures
        r@ == opt_duration_rendered(*o),
{
    match o {
        Option::None => "None".to_owned(),
        Option::Some(d) => {
            let mut r = "Some(".to_owned();
            let inner = u64_to_dec(*d as u64);
            r.append(inner.as_str());
            r.append(")");
            r
        },
    }
}

/// Processing parameters' canonical text.
pub open spec fn params_rendered(p: ProcessingParameters) -> Seq<char> {
    opt_rendered(opt_view(p.temperature_celsius)) + ","@ + opt_rendered(opt_view(p.pressure_bar))
        + ","@ + opt_duration_rendered(p.duration_minutes) + ","@ + p.method@
}

fn render_params(p: &ProcessingParameters) -> (r: String)
    ensures
        r@ == params_rendered(*p),
{
    let mut r = render_opt(&p.temperature_celsius);
    r.append(",");
    let pr = render_opt(&p.pressure_bar);
    r.append(pr.as_str());
    r.append(",");
    let d = render_opt_duration(&p.duration_minutes);
    r.append(d.as_str());
    r.append(",");
    r.append(p.method.as_str());
    r
}

/// Optional processing parameters' canonical text.
pub open spec fn opt_params_rendered(o: Option<ProcessingParameters>) -> Seq<char> {
    match o {
        Option::None => "None"@,
        Option::Some(p) => "Some("@ + params_rendered(p) + ")"@,
    }
}

fn render_opt_params(o: &Option<ProcessingParameters>) -> (r: String)
    ensures
        r@ == opt_params_rendered(*o),
{
    match o {
        Option::None => "None".to_owned(),
        Option::Some(p) => {
            let mut r = "Some(".to_owned();
            let inner = render_params(p);
            r.append(inner.as_str());
            r.append(")");
            r
        },
    }
}

/// A shock event's canonical text.
pub open spec fn shock_rendered(e: ShockEvent) -> Seq<char> {
    e.timestamp@ + ","@ + e.g_force@ + ","@ + opt_gps_rendered(e.location)
}

fn render_shock(e: &ShockEvent) -> (r: String)
    ensures
        r@ == shock_rendered(*e),
{
    let mut r = e.timestamp.clone();
    r.append(",");
    r.append(e.g_force.as_str());
    r.append(",");
    let l = render_opt_gps(&e.location);
    r.append(l.as_str());
    r
}

/// The canonical texts of a list of shock events.
pub open spec fn shock_views(events: Seq<ShockEvent>) -> Seq<Seq<char>> {
    events.map_values(|e: ShockEvent| shock_rendered(e))
}

fn render_shocks(events: &Vec<ShockEvent>) -> (r: Vec<String>)
    ensures
        string_views(r@) == shock_views(events@),
{
    let mut r: Vec<String> = Vec::new();
    let n = events.len();
    let mut i: usize = 0;
    while i < n
        invariant
            n == events@.len(),
            i <= n,
            r@.len() == i,
            forall|k: int| 0 <= k < i ==> r@[k]@ == shock_rendered(events@[k]),
        decreases n - i,
    {
        r.push(render_shock(&events[i]));
        i = i + 1;
    }
    proof {
        assert(string_views(r@) =~= shock_views(events@));
    }
    r
}

/// A merkle proof field's canonical text: absent, or the framed list.
pub open spec fn merkle_proof_block(o: Option<Vec<String>>) -> Seq<char> {
    match o {
        Option::None => field_framed("merkle_proof"@, "None"@),
        Option::Some(proof) => list_block("merkle_proof"@, string_views(proof@)),
    }
}

/// The registration record body.
pub open spec fn registration_body(
    p: FarmerRegistrationRequest,
    farmer_did: Seq<char>,
    crop_id_hash: Seq<char>,
    created_at: Seq<char>,
) -> Seq<char> {
    field_framed("stage"@, "farmer_registration"@) + field_framed("created_at"@, created_at)
        + field_framed("farmer_did"@, farmer_did) + field_framed("farmer_name"@, p.farmer_name@)
        + field_framed("crop_type"@, p.crop_type@) + field_framed(
        "land_area_hectares"@,
        p.land_area_hectares@,
    ) + field_framed("location"@, p.location@) + field_framed(
        "gps_coordinates"@,
        opt_gps_rendered(p.gps_coordinates),
    ) + field_framed("kyc_document_url"@, opt_rendered(opt_view(p.kyc_document_url))) + list_block(
        "land_ownership_docs"@,
        string_views(p.land_ownership_docs@),
    ) + field_framed("satellite_imagery_url"@, opt_rendered(opt_view(p.satellite_imagery_url)))
        + field_framed("soil_test_report"@, opt_rendered(opt_view(p.soil_test_report)))
        + field_framed("phone_number"@, opt_rendered(opt_view(p.phone_number))) + field_framed(
        "email"@,
        opt_rendered(opt_view(p.email)),
    ) + field_framed("crop_id_hash"@, crop_id_hash)
}

fn render_registration_body(
    p: &FarmerRegistrationRequest,
    farmer_did: &str,
    crop_id_hash: &str,
    created_at: &str,
) -> (r: String)
    ensures
        r@ == registration_body(*p, farmer_did@, crop_id_hash@, created_at@),
{
    let mut r = String::new();
    push_field(&mut r, "stage", "farmer_registration");
    push_field(&mut r, "created_at", created_at);
    push_field(&mut r, "farmer_did", farmer_did);
    push_field(&mut r, "farmer_name", p.farmer_name.as_str());
    push_field(&mut r, "crop_type", p.crop_type.as_str());
    push_field(&mut r, "land_area_hectares", p.land_area_hectares.as_str());
    push_field(&mut r, "location", p.location.as_str());
    let gps = render_opt_gps(&p.gps_coordinates);
    push_field(&mut r, "gps_coordinates", gps.as_str());
    push_opt_field(&mut r, "kyc_document_url", &p.kyc_document_url);
    push_list_field(&mut r, "land_ownership_docs", &p.land_ownership_docs);
    push_opt_field(&mut r, "satellite_imagery_url", &p.satellite_imagery_url);
    push_opt_field(&mut r, "soil_test_report", &p.soil_test_report);
    push_opt_field(&mut r, "phone_number", &p.phone_number);
    push_opt_field(&mut r, "email", &p.email);
    push_field(&mut r, "crop_id_hash", crop_id_hash);
    proof {
        assert(r@ =~= registration_body(*p, farmer_did@, crop_id_hash@, created_at@));
    }
    r
}

/// The purchase record body.
pub open spec fn purchase_body(
    p: FpoPurchaseRequest,
    batch_hash: Seq<char>,
    created_at: Seq<char>,
) -> Seq<char> {
    field_framed("stage"@, "fpo_purchase"@) + field_framed("created_at"@, created_at)
        + field_framed("batch_hash"@, batch_hash) + field_framed("farmer_did"@, p.farmer_did@)
        + field_framed("fpo_name"@, p.fpo_name@) + field_framed("batch_id"@, p.batch_id@)
        + field_framed("quantity_kg"@, p.quantity_kg@) + field_framed(
        "price_per_kg"@,
        p.price_per_kg@,
    ) + field_framed("quality_grade"@, p.quality_grade@) + field_framed(
        "quality_report_url"@,
        opt_rendered(opt_view(p.quality_report_url)),
    ) + field_framed("weight_slip_url"@, opt_rendered(opt_view(p.weight_slip_url))) + list_block(
        "photos"@,
        string_views(p.photos@),
    ) + field_framed("moisture_content"@, opt_rendered(opt_view(p.moisture_content)))
        + field_framed("impurity_percentage"@, opt_rendered(opt_view(p.impurity_percentage)))
        + field_framed("payment_reference"@, opt_rendered(opt_view(p.payment_reference)))
}

fn render_purchase_body(p: &FpoPurchaseRequest, batch_hash: &str, created_at: &str) -> (r: String)
    ensures
        r@ == purchase_body(*p, batch_hash@, created_at@),
{
    let mut r = String::new();
    push_field(&mut r, "stage", "fpo_purchase");
    push_field(&mut r, "created_at", created_at);
    push_field(&mut r, "batch_hash", batch_hash);
    push_field(&mut r, "farmer_did", p.farmer_did.as_str());
    push_field(&mut r, "fpo_name", p.fpo_name.as_str());
    push_field(&mut r, "batch_id", p.batch_id.as_str());
    push_field(&mut r, "quantity_kg", p.quantity_kg.as_str());
    push_field(&mut r, "price_per_kg", p.price_per_kg.as_str());
    push_field(&mut r, "quality_grade", p.quality_grade.as_str());
    push_opt_field(&mut r, "quality_report_url", &p.quality_report_url);
    push_opt_field(&mut r, "weight_slip_url", &p.weight_slip_url);
    push_list_field(&mut r, "photos", &p.photos);
    push_opt_field(&mut r, "moisture_content", &p.moisture_content);
    push_opt_field(&mut r, "impurity_percentage", &p.impurity_percentage);
    push_opt_field(&mut r, "payment_reference", &p.payment_reference);
    proof {
        assert(r@ =~= purchase_body(*p, batch_hash@, created_at@));
    }
    r
}

/// The warehouse record body. The state hash is not part of it: it depends
/// on the content address, which does not exist before persistence.
pub open spec fn warehouse_body(p: WarehouseUpdateRequest, created_at: Seq<char>) -> Seq<char> {
    field_framed("stage"@, "warehouse_update"@) + field_framed("created_at"@, created_at)
        + field_framed("warehouse_id"@, p.warehouse_id@) + field_framed("batch_id"@, p.batch_id@)
        + field_framed("storage_location"@, p.storage_location@) + field_framed(
        "temperature_celsius"@,
        opt_rendered(opt_view(p.temperature_celsius)),
    ) + field_framed("humidity_percentage"@, opt_rendered(opt_view(p.humidity_percentage)))
        + field_framed("co2_level_ppm"@, opt_rendered(opt_view(p.co2_level_ppm))) + field_framed(
        "iot_logs_url"@,
        opt_rendered(opt_view(p.iot_logs_url)),
    ) + list_block("inspection_reports"@, string_views(p.inspection_reports@)) + field_framed(
        "pest_inspection"@,
        opt_pest_rendered(p.pest_inspection),
    ) + field_framed("quality_degradation"@, opt_rendered(opt_view(p.quality_degradation)))
}

fn render_warehouse_body(p: &WarehouseUpdateRequest, created_at: &str) -> (r: String)
    ensures
        r@ == warehouse_body(*p, created_at@),
{
    let mut r = String::new();
    push_field(&mut r, "stage", "warehouse_update");
    push_field(&mut r, "created_at", created_at);
    push_field(&mut r, "warehouse_id", p.warehouse_id.as_str());
    push_field(&mut r, "batch_id", p.batch_id.as_str());
    push_field(&mut r, "storage_location", p.storage_location.as_str());
    push_opt_field(&mut r, "temperature_celsius", &p.temperature_celsius);
    push_opt_field(&mut r, "humidity_percentage", &p.humidity_percentage);
    push_opt_field(&mut r, "co2_level_ppm", &p.co2_level_ppm);
    push_opt_field(&mut r, "iot_logs_url", &p.iot_logs_url);
    push_list_field(&mut r, "inspection_reports", &p.inspection_reports);
    let pest = render_opt_pest(&p.pest_inspection);
    push_field(&mut r, "pest_inspection", pest.as_str());
    push_opt_field(&mut r, "quality_degradation", &p.quality_degradation);
    proof {
        assert(r@ =~= warehouse_body(*p, created_at@));
    }
    r
}

/// The logistics record body.
pub open spec fn logistics_body(
    p: LogisticsMilestoneRequest,
    location_hash: Seq<char>,
    created_at: Seq<char>,
) -> Seq<char> {
    field_framed("stage"@, "logistics_milestone"@) + field_framed("created_at"@, created_at)
        + field_framed("shipment_id"@, p.shipment_id@) + field_framed(
        "location_hash"@,
        location_hash,
    ) + field_framed("current_location"@, p.current_location@) + field_framed(
        "gps_coordinates"@,
        gps_rendered(p.gps_coordinates),
    ) + field_framed("milestone_type"@, p.milestone_type.label_view()) + field_framed(
        "gps_history_url"@,
        opt_rendered(opt_view(p.gps_history_url)),
    ) + field_framed("carrier_name"@, p.carrier_name@) + field_framed(
        "vehicle_id"@,
        p.vehicle_id@,
    ) + field_framed("driver_name"@, opt_rendered(opt_view(p.driver_name))) + field_framed(
        "temperature_log"@,
        opt_rendered(opt_view(p.temperature_log)),
    ) + list_block("shock_events"@, shock_views(p.shock_events@)) + field_framed(
        "estimated_arrival"@,
        opt_rendered(opt_view(p.estimated_arrival)),
    ) + field_framed("is_delivered"@, bool_rendered(p.is_delivered))
}

fn render_logistics_body(
    p: &LogisticsMilestoneRequest,
    location_hash: &str,
    created_at: &str,
) -> (r: String)
    ensures
        r@ == logistics_body(*p, location_hash@, created_at@),
{
    let mut r = String::new();
    push_field(&mut r, "stage", "logistics_milestone");
    push_field(&mut r, "created_at", created_at);
    push_field(&mut r, "shipment_id", p.shipment_id.as_str());
    push_field(&mut r, "location_hash", location_hash);
    push_field(&mut r, "current_location", p.current_location.as_str());
    let gps = render_gps(&p.gps_coordinates);
    push_field(&mut r, "gps_coordinates", gps.as_str());
    push_field(&mut r, "milestone_type", p.milestone_type.label());
    push_opt_field(&mut r, "gps_history_url", &p.gps_history_url);
    push_field(&mut r, "carrier_name", p.carrier_name.as_str());
    push_field(&mut r, "vehicle_id", p.vehicle_id.as_str());
    push_opt_field(&mut r, "driver_name", &p.driver_name);
    push_opt_field(&mut r, "temperature_log", &p.temperature_log);
    let shocks = render_shocks(&p.shock_events);
    push_list_field(&mut r, "shock_events", &shocks);
    push_opt_field(&mut r, "estimated_arrival", &p.estimated_arrival);
    push_field(&mut r, "is_delivered", render_bool(p.is_delivered));
    proof {
        assert(r@ =~= logistics_body(*p, location_hash@, created_at@));
    }
    r
}

/// The processing record body.
pub open spec fn processing_body(
    p: ProcessBatchRequest,
    input_batch_hash: Seq<char>,
    transform_hash: Seq<char>,
    output_batch_hashes: Seq<Seq<char>>,
    created_at: Seq<char>,
) -> Seq<char> {
    field_framed("stage"@, "process_batch"@) + field_framed("created_at"@, created_at)
        + field_framed("input_batch_hash"@, input_batch_hash) + field_framed(
        "transform_hash"@,
        transform_hash,
    ) + list_block("output_batch_hashes"@, output_batch_hashes) + field_framed(
        "input_batch_id"@,
        p.input_batch_id@,
    ) + field_framed("processor_name"@, p.processor_name@) + field_framed(
        "processing_type"@,
        p.processing_type.label_view(),
    ) + field_framed("input_quantity_kg"@, p.input_quantity_kg@) + field_framed(
        "output_quantity_kg"@,
        p.output_quantity_kg@,
    ) + field_framed("yield_percentage"@, p.yield_percentage@) + field_framed(
        "waste_percentage"@,
        p.waste_percentage@,
    ) + list_block("lab_results_url"@, string_views(p.lab_results_url@)) + list_block(
        "certifications"@,
        string_views(p.certifications@),
    ) + list_block("output_batch_ids"@, string_views(p.output_batch_ids@)) + field_framed(
        "processing_parameters"@,
        opt_params_rendered(p.processing_parameters),
    )
}

fn render_processing_body(
    p: &ProcessBatchRequest,
    input_batch_hash: &str,
    transform_hash: &str,
    output_batch_hashes: &Vec<String>,
    created_at: &str,
) -> (r: String)
    ensures
        r@ == processing_body(
            *p,
            input_batch_hash@,
            transform_hash@,
            string_views(output_batch_hashes@),
            created_at@,
        ),
{
    let mut r = String::new();
    push_field(&mut r, "stage", "process_batch");
    push_field(&mut r, "created_at", created_at);
    push_field(&mut r, "input_batch_hash", input_batch_hash);
    push_field(&mut r, "transform_hash", transform_hash);
    push_list_field(&mut r, "output_batch_hashes", output_batch_hashes);
    push_field(&mut r, "input_batch_id", p.input_batch_id.as_str());
    push_field(&mut r, "processor_name", p.processor_name.as_str());
    push_field(&mut r, "processing_type", p.processing_type.label());
    push_field(&mut r, "input_quantity_kg", p.input_quantity_kg.as_str());
    push_field(&mut r, "output_quantity_kg", p.output_quantity_kg.as_str());
    push_field(&mut r, "yield_percentage", p.yield_percentage.as_str());
    push_field(&mut r, "waste_percentage", p.waste_percentage.as_str());
    push_list_field(&mut r, "lab_results_url", &p.lab_results_url);
    push_list_field(&mut r, "certifications", &p.certifications);
    push_list_field(&mut r, "output_batch_ids", &p.output_batch_ids);
    let params = render_opt_params(&p.processing_parameters);
    push_field(&mut r, "processing_parameters", params.as_str());
    proof {
        assert(r@ =~= processing_body(
            *p,
            input_batch_hash@,
            transform_hash@,
            string_views(output_batch_hashes@),
            created_at@,
        ));
    }
    r
}

/// The packaging record body.
pub open spec fn packaging_body(
    p: CreateSkuRequest,
    parent_batch_hash: Seq<char>,
    merkle_root: Seq<char>,
    created_at: Seq<char>,
) -> Seq<char> {
    field_framed("stage"@, "create_sku"@) + field_framed("created_at"@, created_at) + field_framed(
        "sku_id"@,
        p.sku_id@,
    ) + field_framed("parent_batch_hash"@, parent_batch_hash) + field_framed(
        "merkle_root"@,
        merkle_root,
    ) + field_framed("parent_batch_id"@, p.parent_batch_id@) + field_framed(
        "product_name"@,
        p.product_name@,
    ) + field_framed("brand"@, p.brand@) + field_framed(
        "unit_weight_grams"@,
        p.unit_weight_grams@,
    ) + field_framed("units_packaged"@, dec_of(p.units_packaged as nat)) + field_framed(
        "package_type"@,
        p.package_type@,
    ) + field_framed("barcode"@, opt_rendered(opt_view(p.barcode))) + field_framed(
        "qr_code"@,
        opt_rendered(opt_view(p.qr_code)),
    ) + field_framed("nutritional_info_url"@, opt_rendered(opt_view(p.nutritional_info_url)))
        + list_block("regulatory_certifications"@, string_views(p.regulatory_certifications@))
        + list_block("label_images"@, string_views(p.label_images@)) + field_framed(
        "expiry_date"@,
        opt_rendered(opt_view(p.expiry_date)),
    ) + field_framed("best_before_date"@, opt_rendered(opt_view(p.best_before_date)))
        + merkle_proof_block(p.merkle_proof)
}

fn render_packaging_body(
    p: &CreateSkuRequest,
    parent_batch_hash: &str,
    merkle_root: &str,
    created_at: &str,
) -> (r: String)
    ensures
        r@ == packaging_body(*p, parent_batch_hash@, merkle_root@, created_at@),
{
    let mut r = String::new();
    push_field(&mut r, "stage", "create_sku");
    push_field(&mut r, "created_at", created_at);
    push_field(&mut r, "sku_id", p.sku_id.as_str());
    push_field(&mut r, "parent_batch_hash", parent_batch_hash);
    push_field(&mut r, "merkle_root", merkle_root);
    push_field(&mut r, "parent_batch_id", p.parent_batch_id.as_str());
    push_field(&mut r, "product_name", p.product_name.as_str());
    push_field(&mut r, "brand", p.brand.as_str());
    push_field(&mut r, "unit_weight_grams", p.unit_weight_grams.as_str());
    let units = u64_to_dec(p.units_packaged as u64);
    push_field(&mut r, "units_packaged", units.as_str());
    push_field(&mut r, "package_type", p.package_type.as_str());
    push_opt_field(&mut r, "barcode", &p.barcode);
    push_opt_field(&mut r, "qr_code", &p.qr_code);
    push_opt_field(&mut r, "nutritional_info_url", &p.nutritional_info_url);
    push_list_field(&mut r, "regulatory_certifications", &p.regulatory_certifications);
    push_list_field(&mut r, "label_images", &p.label_images);
    push_opt_field(&mut r, "expiry_date", &p.expiry_date);
    push_opt_field(&mut r, "best_before_date", &p.best_before_date);
    match &p.merkle_proof {
        Option::None => {
            push_field(&mut r, "merkle_proof", "None");
        },
        Option::Some(proof_list) => {
            push_list_field(&mut r, "merkle_proof", proof_list);
        },
    }
    proof {
        assert(r@ =~= packaging_body(*p, parent_batch_hash@, merkle_root@, created_at@));
    }
    r
}

/// The AI scoring record body. The nonce is part of the persisted record:
/// the commit hash must be independently recomputable from the record alone.
pub open spec fn ai_body(
    p: AiScoreRequest,
    batch_hash: Seq<char>,
    commit_hash: Seq<char>,
    reveal_hash: Seq<char>,
    nonce: Seq<char>,
    created_at: Seq<char>,
) -> Seq<char> {
    field_framed("stage"@, "ai_score"@) + field_framed("created_at"@, created_at) + field_framed(
        "batch_hash"@,
        batch_hash,
    ) + field_framed("commit_hash"@, commit_hash) + field_framed("reveal_hash"@, reveal_hash)
        + field_framed("nonce"@, nonce) + field_framed("batch_id"@, p.batch_id@) + field_framed(
        "quality_score"@,
        p.quality_score@,
    ) + field_framed("sustainability_score"@, p.sustainability_score@) + field_framed(
        "traceability_score"@,
        p.traceability_score@,
    ) + field_framed("model_name"@, p.model_name@) + field_framed(
        "model_version"@,
        p.model_version@,
    ) + field_framed("features"@, p.features@) + field_framed("predictions"@, p.predictions@)
        + field_framed("confidence"@, p.confidence@) + field_framed(
        "model_artifacts_url"@,
        opt_rendered(opt_view(p.model_artifacts_url)),
    ) + field_framed("training_data_hash"@, opt_rendered(opt_view(p.training_data_hash)))
}

fn render_ai_body(
    p: &AiScoreRequest,
    batch_hash: &str,
    commit_hash: &str,
    reveal_hash: &str,
    nonce: &str,
    created_at: &str,
) -> (r: String)
    ensures
        r@ == ai_body(*p, batch_hash@, commit_hash@, reveal_hash@, nonce@, created_at@),
{
    let mut r = String::new();
    push_field(&mut r, "stage", "ai_score");
    push_field(&mut r, "created_at", created_at);
    push_field(&mut r, "batch_hash", batch_hash);
    push_field(&mut r, "commit_hash", commit_hash);
    push_field(&mut r, "reveal_hash", reveal_hash);
    push_field(&mut r, "nonce", nonce);
    push_field(&mut r, "batch_id", p.batch_id.as_str());
    push_field(&mut r, "quality_score", p.quality_score.as_str());
    push_field(&mut r, "sustainability_score", p.sustainability_score.as_str());
    push_field(&mut r, "traceability_score", p.traceability_score.as_str());
    push_field(&mut r, "model_name", p.model_name.as_str());
    push_field(&mut r, "model_version", p.model_version.as_str());
    push_field(&mut r, "features", p.features.as_str());
    push_field(&mut r, "predictions", p.predictions.as_str());
    push_field(&mut r, "confidence", p.confidence.as_str());
    push_opt_field(&mut r, "model_artifacts_url", &p.model_artifacts_url);
    push_opt_field(&mut r, "training_data_hash", &p.training_data_hash);
    proof {
        assert(r@ =~= ai_body(*p, batch_hash@, commit_hash@, reveal_hash@, nonce@, created_at@));
    }
    r
}

/// One stage's record: the payload, its derived hashes, the creation
/// timestamp, and — only once persistence has succeeded — the content
/// address.
#[derive(Debug, Clone)]
pub struct RecordEnvelope {
    pub payload: StagePayload,
    pub digests: StageDigests,
    pub created_at: String,
    pub content_address: Option<String>,
}

impl RecordEnvelope {
    /// The payload and the digests belong to the same stage.
    pub open spec fn consistent(self) -> bool {
        match (self.payload, self.digests) {
            (StagePayload::Registration(_), StageDigests::Registration { .. }) => true,
            (StagePayload::Purchase(_), StageDigests::Purchase { .. }) => true,
            (StagePayload::Warehouse(_), StageDigests::Warehouse { .. }) => true,
            (StagePayload::Logistics(_), StageDigests::Logistics { .. }) => true,
            (StagePayload::Processing(_), StageDigests::Processing { .. }) => true,
            (StagePayload::Packaging(_), StageDigests::Packaging { .. }) => true,
            (StagePayload::AiScore(_), StageDigests::AiScore { .. }) => true,
            _ => false,
        }
    }

    /// The envelope invariant: the stages match, and a derived hash that
    /// depends on the content address exists only once the address is set.
    pub open spec fn wf(self) -> bool {
        &&& self.consistent()
        &&& match self.digests {
            StageDigests::Warehouse { state_hash } => state_hash is Some
                ==> self.content_address is Some,
            _ => true,
        }
    }

    /// The canonical record body of the envelope-so-far: what is submitted
    /// to the storage collaborator. The content address is never part of it.
    pub open spec fn body_view(self) -> Seq<char> {
        match (self.payload, self.digests) {
            (
                StagePayload::Registration(p),
                StageDigests::Registration { farmer_did, crop_id_hash },
            ) => registration_body(p, farmer_did@, crop_id_hash@, self.created_at@),
            (StagePayload::Purchase(p), StageDigests::Purchase { batch_hash }) => purchase_body(
                p,
                batch_hash@,
                self.created_at@,
            ),
            (StagePayload::Warehouse(p), StageDigests::Warehouse { .. }) => warehouse_body(
                p,
                self.created_at@,
            ),
            (StagePayload::Logistics(p), StageDigests::Logistics { location_hash }) =>
                logistics_body(p, location_hash@, self.created_at@),
            (
                StagePayload::Processing(p),
                StageDigests::Processing { input_batch_hash, transform_hash, output_batch_hashes },
            ) => processing_body(
                p,
                input_batch_hash@,
                transform_hash@,
                string_views(output_batch_hashes@),
                self.created_at@,
            ),
            (
                StagePayload::Packaging(p),
                StageDigests::Packaging { parent_batch_hash, merkle_root },
            ) => packaging_body(p, parent_batch_hash@, merkle_root@, self.created_at@),
            (StagePayload::AiScore(p), StageDigests::AiScore { batch_hash, pair }) => ai_body(
                p,
                batch_hash@,
                pair.commit_hash@,
                pair.reveal_hash@,
                pair.nonce@,
                self.created_at@,
            ),
            _ => Seq::empty(),
        }
    }

    /// Serialize the envelope-so-far into its canonical record body. A
    /// payload paired with another stage's digests cannot be canonicalized:
    /// that is an internal defect, surfaced as a serialization error.
    pub fn render_body(&self) -> (r: Result<String, StageError>)
        ensures
            self.consistent() <==> r is Ok,
            r matches Ok(s) ==> s@ == self.body_view(),
            r matches Err(e) ==> e is Serialization,
    {
        match (&self.payload, &self.digests) {
            (
                StagePayload::Registration(p),
                StageDigests::Registration { farmer_did, crop_id_hash },
            ) => Ok(
                render_registration_body(
                    p,
                    farmer_did.as_str(),
                    crop_id_hash.as_str(),
                    self.created_at.as_str(),
                ),
            ),
            (StagePayload::Purchase(p), StageDigests::Purchase { batch_hash }) => Ok(
                render_purchase_body(p, batch_hash.as_str(), self.created_at.as_str()),
            ),
            (StagePayload::Warehouse(p), StageDigests::Warehouse { .. }) => Ok(
                render_warehouse_body(p, self.created_at.as_str()),
            ),
            (StagePayload::Logistics(p), StageDigests::Logistics { location_hash }) => Ok(
                render_logistics_body(p, location_hash.as_str(), self.created_at.as_str()),
            ),
            (
                StagePayload::Processing(p),
                StageDigests::Processing { input_batch_hash, transform_hash, output_batch_hashes },
            ) => Ok(
                render_processing_body(
                    p,
                    input_batch_hash.as_str(),
                    transform_hash.as_str(),
                    output_batch_hashes,
                    self.created_at.as_str(),
                ),
            ),
            (
                StagePayload::Packaging(p),
                StageDigests::Packaging { parent_batch_hash, merkle_root },
            ) => Ok(
                render_packaging_body(
                    p,
                    parent_batch_hash.as_str(),
                    merkle_root.as_str(),
                    self.created_at.as_str(),
                ),
            ),
            (StagePayload::AiScore(p), StageDigests::AiScore { batch_hash, pair }) => Ok(
                render_ai_body(
                    p,
                    batch_hash.as_str(),
                    pair.commit_hash.as_str(),
                    pair.reveal_hash.as_str(),
                    pair.nonce.as_str(),
                    self.created_at.as_str(),
                ),
            ),
            _ => Err(
                StageError::Serialization(
                    "payload and derived hashes belong to different stages".to_owned(),
                ),
            ),
        }
    }
}

} // verus!
