//! The validated business data of each custody-chain stage.
//!
//! A payload is immutable once accepted. Numeric and timestamp fields carry
//! their canonical textual form: the canonicalization rule joins exactly
//! these texts, so the text is what the hashes are defined over, and the
//! caller fixes it once at the boundary.

use vstd::prelude::*;
use vstd::string::StringExecFns;

use crate::errors::StageError;

verus! {

/// A position fix, in canonical decimal text.
#[derive(Debug, Clone)]
pub struct GpsCoordinates {
    pub latitude: String,
    pub longitude: String,
    pub altitude: Option<String>,
}

/// Farmer registration: the first custody record of a crop.
#[derive(Debug, Clone)]
pub struct FarmerRegistrationRequest {
    pub farmer_name: String,
    pub crop_type: String,
    pub land_area_hectares: String,
    pub location: String,
    pub gps_coordinates: Option<GpsCoordinates>,
    pub kyc_document_url: Option<String>,
    pub land_ownership_docs: Vec<String>,
    pub satellite_imagery_url: Option<String>,
    pub soil_test_report: Option<String>,
    pub phone_number: Option<String>,
    pub email: Option<String>,
}

impl FarmerRegistrationRequest {
    /// The required fields: a name, a crop type and a location.
    pub open spec fn valid(self) -> bool {
        &&& self.farmer_name@.len() >= 1
        &&& self.crop_type@.len() >= 1
        &&& self.location@.len() >= 1
    }

    /// Reject the payload unless every required field is present.
    pub fn validate(&self) -> (r: Result<(), StageError>)
        ensures
            r is Ok <==> self.valid(),
            r matches Err(e) ==> e is Validation,
    {
        if self.farmer_name.as_str().is_empty() {
            return Err(StageError::Validation("farmer_name must not be empty".to_owned()));
        }
        if self.crop_type.as_str().is_empty() {
            return Err(StageError::Validation("crop_type must not be empty".to_owned()));
        }
        if self.location.as_str().is_empty() {
            return Err(StageError::Validation("location must not be empty".to_owned()));
        }
        Ok(())
    }
}

/// FPO purchase: a producer organisation buys a batch from a farmer.
#[derive(Debug, Clone)]
pub struct FpoPurchaseRequest {
    pub farmer_did: String,
    pub fpo_name: String,
    pub batch_id: String,
    pub quantity_kg: String,
    pub price_per_kg: String,
    pub quality_grade: String,
    pub quality_report_url: Option<String>,
    pub weight_slip_url: Option<String>,
    pub photos: Vec<String>,
    pub moisture_content: Option<String>,
    pub impurity_percentage: Option<String>,
    pub payment_reference: Option<String>,
}

impl FpoPurchaseRequest {
    /// The required fields: the selling farmer and the buying organisation.
    pub open spec fn valid(self) -> bool {
        &&& self.farmer_did@.len() >= 1
        &&& self.fpo_name@.len() >= 1
    }

    /// Reject the payload unless every required field is present.
    pub fn validate(&self) -> (r: Result<(), StageError>)
        ensures
            r is Ok <==> self.valid(),
            r matches Err(e) ==> e is Validation,
    {
        if self.farmer_did.as_str().is_empty() {
            return Err(StageError::Validation("farmer_did must not be empty".to_owned()));
        }
        if self.fpo_name.as_str().is_empty() {
            return Err(StageError::Validation("fpo_name must not be empty".to_owned()));
        }
        Ok(())
    }
}

/// A pest inspection attached to a warehouse update.
#[derive(Debug, Clone)]
pub struct PestInspection {
    pub inspected_at: String,
    pub pest_found: bool,
    pub pest_type: Option<String>,
    pub treatment_applied: Option<String>,
}

/// Warehouse update: storage conditions of a batch at one moment.
#[derive(Debug, Clone)]
pub struct WarehouseUpdateRequest {
    pub warehouse_id: String,
    pub batch_id: String,
    pub storage_location: String,
    pub temperature_celsius: Option<String>,
    pub humidity_percentage: Option<String>,
    pub co2_level_ppm: Option<String>,
    pub iot_logs_url: Option<String>,
    pub inspection_reports: Vec<String>,
    pub pest_inspection: Option<PestInspection>,
    pub quality_degradation: Option<String>,
}

impl WarehouseUpdateRequest {
    /// The required fields: the warehouse and the batch.
    pub open spec fn valid(self) -> bool {
        &&& self.warehouse_id@.len() >= 1
        &&& self.batch_id@.len() >= 1
    }

    /// Reject the payload unless every required field is present.
    pub fn validate(&self) -> (r: Result<(), StageError>)
        ensures
            r is Ok <==> self.valid(),
            r matches Err(e) ==> e is Validation,
    {
        if self.warehouse_id.as_str().is_empty() {
            return Err(StageError::Validation("warehouse_id must not be empty".to_owned()));
        }
        if self.batch_id.as_str().is_empty() {
            return Err(StageError::Validation("batch_id must not be empty".to_owned()));
        }
        Ok(())
    }
}

/// The kind of a logistics milestone.
#[derive(Debug, Clone)]
pub enum MilestoneType {
    PickedUp,
    InTransit,
    AtCheckpoint,
    Delivered,
    Delayed,
    Incident,
}

impl MilestoneType {
    /// The canonical label of the milestone kind.
    pub open spec fn label_view(self) -> Seq<char> {
        match self {
            MilestoneType::PickedUp => "picked_up"@,
            MilestoneType::InTransit => "in_transit"@,
            MilestoneType::AtCheckpoint => "at_checkpoint"@,
            MilestoneType::Delivered => "delivered"@,
            MilestoneType::Delayed => "delayed"@,
            MilestoneType::Incident => "incident"@,
        }
    }

    /// The canonical label of the milestone kind.
    pub fn label(&self) -> (r: &'static str)
        ensures
            r@ == self.label_view(),
    {
        match self {
            MilestoneType::PickedUp => "picked_up",
            MilestoneType::InTransit => "in_transit",
            MilestoneType::AtCheckpoint => "at_checkpoint",
            MilestoneType::Delivered => "delivered",
            MilestoneType::Delayed => "delayed",
            MilestoneType::Incident => "incident",
        }
    }
}

/// A shock event recorded during transport.
#[derive(Debug, Clone)]
pub struct ShockEvent {
    pub timestamp: String,
    pub g_force: String,
    pub location: Option<GpsCoordinates>,
}

/// Logistics milestone: one step of a shipment's journey.
#[derive(Debug, Clone)]
pub struct LogisticsMilestoneRequest {
    pub shipment_id: String,
    pub current_location: String,
    pub gps_coordinates: GpsCoordinates,
    pub milestone_type: MilestoneType,
    pub gps_history_url: Option<String>,
    pub carrier_name: String,
    pub vehicle_id: String,
    pub driver_name: Option<String>,
    pub temperature_log: Option<String>,
    pub shock_events: Vec<ShockEvent>,
    pub estimated_arrival: Option<String>,
    pub is_delivered: bool,
}

impl LogisticsMilestoneRequest {
    /// The required field: the shipment.
    pub open spec fn valid(self) -> bool {
        self.shipment_id@.len() >= 1
    }

    /// Reject the payload unless every required field is present.
    pub fn validate(&self) -> (r: Result<(), StageError>)
        ensures
            r is Ok <==> self.valid(),
            r matches Err(e) ==> e is Validation,
    {
        if self.shipment_id.as_str().is_empty() {
            return Err(StageError::Validation("shipment_id must not be empty".to_owned()));
        }
        Ok(())
    }
}

/// The kind of a processing transformation.
#[derive(Debug, Clone)]
pub enum ProcessingType {
    Cleaning,
    Drying,
    Milling,
    Extraction,
    Refining,
    Blending,
}

impl ProcessingType {
    /// The canonical label of the processing kind, as it enters the
    /// transform hash input.
    pub open spec fn label_view(self) -> Seq<char> {
        match self {
            ProcessingType::Cleaning => "Cleaning"@,
            ProcessingType::Drying => "Drying"@,
            ProcessingType::Milling => "Milling"@,
            ProcessingType::Extraction => "Extraction"@,
            ProcessingType::Refining => "Refining"@,
            ProcessingType::Blending => "Blending"@,
        }
    }

    /// The canonical label of the processing kind.
    pub fn label(&self) -> (r: &'static str)
        ensures
            r@ == self.label_view(),
    {
        match self {
            ProcessingType::Cleaning => "Cleaning",
            ProcessingType::Drying => "Drying",
            ProcessingType::Milling => "Milling",
            ProcessingType::Extraction => "Extraction",
            ProcessingType::Refining => "Refining",
            ProcessingType::Blending => "Blending",
        }
    }
}

/// Parameters of a processing run.
#[derive(Debug, Clone)]
pub struct ProcessingParameters {
    pub temperature_celsius: Option<String>,
    pub pressure_bar: Option<String>,
    pub duration_minutes: Option<u32>,
    pub method: String,
}

/// Process batch: one batch transformed into one or more output batches.
#[derive(Debug, Clone)]
pub struct ProcessBatchRequest {
    pub input_batch_id: String,
    pub processor_name: String,
    pub processing_type: ProcessingType,
    pub input_quantity_kg: String,
    pub output_quantity_kg: String,
    pub yield_percentage: String,
    pub waste_percentage: String,
    pub lab_results_url: Vec<String>,
    pub certifications: Vec<String>,
    pub output_batch_ids: Vec<String>,
    pub processing_parameters: Option<ProcessingParameters>,
}

impl ProcessBatchRequest {
    /// The required fields: the input batch and the processor.
    pub open spec fn valid(self) -> bool {
        &&& self.input_batch_id@.len() >= 1
        &&& self.processor_name@.len() >= 1
    }

    /// Reject the payload unless every required field is present.
    pub fn validate(&self) -> (r: Result<(), StageError>)
        ensures
            r is Ok <==> self.valid(),
            r matches Err(e) ==> e is Validation,
    {
        if self.input_batch_id.as_str().is_empty() {
            return Err(StageError::Validation("input_batch_id must not be empty".to_owned()));
        }
        if self.processor_name.as_str().is_empty() {
            return Err(StageError::Validation("processor_name must not be empty".to_owned()));
        }
        Ok(())
    }
}

/// SKU creation: packaged consumer units cut from a parent batch.
#[derive(Debug, Clone)]
pub struct CreateSkuRequest {
    pub sku_id: String,
    pub parent_batch_id: String,
    pub product_name: String,
    pub brand: String,
    pub unit_weight_grams: String,
    pub units_packaged: u32,
    pub package_type: String,
    pub barcode: Option<String>,
    pub qr_code: Option<String>,
    pub nutritional_info_url: Option<String>,
    pub regulatory_certifications: Vec<String>,
    pub label_images: Vec<String>,
    pub expiry_date: Option<String>,
    pub best_before_date: Option<String>,
    pub merkle_proof: Option<Vec<String>>,
}

impl CreateSkuRequest {
    /// The required fields: the SKU, its parent batch and the product name.
    pub open spec fn valid(self) -> bool {
        &&& self.sku_id@.len() >= 1
        &&& self.parent_batch_id@.len() >= 1
        &&& self.product_name@.len() >= 1
    }

    /// Reject the payload unless every required field is present.
    pub fn validate(&self) -> (r: Result<(), StageError>)
        ensures
            r is Ok <==> self.valid(),
            r matches Err(e) ==> e is Validation,
    {
        if self.sku_id.as_str().is_empty() {
            return Err(StageError::Validation("sku_id must not be empty".to_owned()));
        }
        if self.parent_batch_id.as_str().is_empty() {
            return Err(StageError::Validation("parent_batch_id must not be empty".to_owned()));
        }
        if self.product_name.as_str().is_empty() {
            return Err(StageError::Validation("product_name must not be empty".to_owned()));
        }
        Ok(())
    }
}

/// AI scoring: model scores committed now, revealable later.
#[derive(Debug, Clone)]
pub struct AiScoreRequest {
    pub batch_id: String,
    pub quality_score: String,
    pub sustainability_score: String,
    pub traceability_score: String,
    pub model_name: String,
    pub model_version: String,
    pub features: String,
    pub predictions: String,
    pub confidence: String,
    pub model_artifacts_url: Option<String>,
    pub training_data_hash: Option<String>,
}

impl AiScoreRequest {
    /// The required field: the scored batch.
    pub open spec fn valid(self) -> bool {
        self.batch_id@.len() >= 1
    }

    /// Reject the payload unless every required field is present.
    pub fn validate(&self) -> (r: Result<(), StageError>)
        ensures
            r is Ok <==> self.valid(),
            r matches Err(e) ==> e is Validation,
    {
        if self.batch_id.as_str().is_empty() {
            return Err(StageError::Validation("batch_id must not be empty".to_owned()));
        }
        Ok(())
    }
}

/// The business data of one stage invocation, tagged by stage.
#[derive(Debug, Clone)]
pub enum StagePayload {
    Registration(FarmerRegistrationRequest),
    Purchase(FpoPurchaseRequest),
    Warehouse(WarehouseUpdateRequest),
    Logistics(LogisticsMilestoneRequest),
    Processing(ProcessBatchRequest),
    Packaging(CreateSkuRequest),
    AiScore(AiScoreRequest),
}

impl StagePayload {
    /// Whether the stage's required fields are all present.
    pub open spec fn valid(self) -> bool {
        match self {
            StagePayload::Registration(p) => p.valid(),
            StagePayload::Purchase(p) => p.valid(),
            StagePayload::Warehouse(p) => p.valid(),
            StagePayload::Logistics(p) => p.valid(),
            StagePayload::Processing(p) => p.valid(),
            StagePayload::Packaging(p) => p.valid(),
            StagePayload::AiScore(p) => p.valid(),
        }
    }

    /// Reject the payload unless the stage's required fields are present.
    /// No side effect of a stage operation precedes this check.
    pub fn validate(&self) -> (r: Result<(), StageError>)
        ensures
            r is Ok <==> self.valid(),
            r matches Err(e) ==> e is Validation,
    {
        match self {
            StagePayload::Registration(p) => p.validate(),
            StagePayload::Purchase(p) => p.validate(),
            StagePayload::Warehouse(p) => p.validate(),
            StagePayload::Logistics(p) => p.validate(),
            StagePayload::Processing(p) => p.validate(),
            StagePayload::Packaging(p) => p.validate(),
            StagePayload::AiScore(p) => p.validate(),
        }
    }
}

} // verus!
