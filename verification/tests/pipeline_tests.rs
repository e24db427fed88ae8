use offchain::commit_reveal::verify;
use offchain::errors::StageError;
use offchain::hashing::compute_keccak256;
use offchain::payload::AiScoreRequest;
use offchain::payload::CreateSkuRequest;
use offchain::payload::FarmerRegistrationRequest;
use offchain::payload::FpoPurchaseRequest;
use offchain::payload::GpsCoordinates;
use offchain::payload::LogisticsMilestoneRequest;
use offchain::payload::MilestoneType;
use offchain::payload::ProcessBatchRequest;
use offchain::payload::ProcessingType;
use offchain::payload::StagePayload;
use offchain::payload::WarehouseUpdateRequest;
use offchain::pipeline::after_persist;
use offchain::pipeline::after_pin;
use offchain::pipeline::begin_stage;
use offchain::pipeline::run_stage;
use offchain::pipeline::Receipt;
use offchain::stages::render_ai_canonical;
use offchain::stages::StageDigests;

fn s(v: &str) -> String {
    v.to_string()
}

fn registration_payload() -> FarmerRegistrationRequest {
    FarmerRegistrationRequest {
        farmer_name: s("A"),
        crop_type: s("rice"),
        land_area_hectares: s("2.5"),
        location: s("Village X"),
        gps_coordinates: None,
        kyc_document_url: None,
        land_ownership_docs: vec![],
        satellite_imagery_url: None,
        soil_test_report: None,
        phone_number: None,
        email: None,
    }
}

fn purchase_payload() -> FpoPurchaseRequest {
    FpoPurchaseRequest {
        farmer_did: s("did:farmer:123"),
        fpo_name: s("FPO"),
        batch_id: s("B1"),
        quantity_kg: s("100"),
        price_per_kg: s("25.5"),
        quality_grade: s("A"),
        quality_report_url: None,
        weight_slip_url: None,
        photos: vec![],
        moisture_content: None,
        impurity_percentage: None,
        payment_reference: None,
    }
}

fn warehouse_payload() -> WarehouseUpdateRequest {
    WarehouseUpdateRequest {
        warehouse_id: s("W1"),
        batch_id: s("B1"),
        storage_location: s("bay 4"),
        temperature_celsius: Some(s("21.5")),
        humidity_percentage: Some(s("60.0")),
        co2_level_ppm: None,
        iot_logs_url: None,
        inspection_reports: vec![],
        pest_inspection: None,
        quality_degradation: None,
    }
}

fn logistics_payload() -> LogisticsMilestoneRequest {
    LogisticsMilestoneRequest {
        shipment_id: s("S1"),
        current_location: s("Depot"),
        gps_coordinates: GpsCoordinates {
            latitude: s("12.9716"),
            longitude: s("77.5946"),
            altitude: None,
        },
        milestone_type: MilestoneType::InTransit,
        gps_history_url: None,
        carrier_name: s("Carrier"),
        vehicle_id: s("KA-01"),
        driver_name: None,
        temperature_log: None,
        shock_events: vec![],
        estimated_arrival: None,
        is_delivered: false,
    }
}

fn processing_payload() -> ProcessBatchRequest {
    ProcessBatchRequest {
        input_batch_id: s("B1"),
        processor_name: s("Mill"),
        processing_type: ProcessingType::Milling,
        input_quantity_kg: s("100"),
        output_quantity_kg: s("80"),
        yield_percentage: s("80"),
        waste_percentage: s("20"),
        lab_results_url: vec![],
        certifications: vec![],
        output_batch_ids: vec![s("O1"), s("O2")],
        processing_parameters: None,
    }
}

fn packaging_payload(merkle_proof: Option<Vec<String>>) -> CreateSkuRequest {
    CreateSkuRequest {
        sku_id: s("SKU1"),
        parent_batch_id: s("B1"),
        product_name: s("Rice 1kg"),
        brand: s("Brand"),
        unit_weight_grams: s("1000"),
        units_packaged: 40,
        package_type: s("bag"),
        barcode: None,
        qr_code: None,
        nutritional_info_url: None,
        regulatory_certifications: vec![],
        label_images: vec![],
        expiry_date: None,
        best_before_date: None,
        merkle_proof,
    }
}

fn ai_payload() -> AiScoreRequest {
    AiScoreRequest {
        batch_id: s("B1"),
        quality_score: s("92.5"),
        sustainability_score: s("88.0"),
        traceability_score: s("95.0"),
        model_name: s("model-x"),
        model_version: s("1.2.0"),
        features: s("{\"ndvi\":0.82}"),
        predictions: s("{\"grade\":\"A\"}"),
        confidence: s("0.97"),
        model_artifacts_url: None,
        training_data_hash: None,
    }
}

fn run_ok(payload: StagePayload, created_at: &str, cid: &str) -> Receipt {
    run_stage(payload, s(created_at), Ok(s(cid)), Ok(())).unwrap()
}

#[test]
fn registration_hash_is_reproducible_for_identical_canonical_input() {
    // Two independent runs with the identical canonicalized input (same
    // identifier, crop type and timestamp) produce the identical hash.
    let a = offchain::stages::crop_id_hash("did:farmer:fixed", "rice", "2024-01-01 00:00:00 UTC");
    let b = offchain::stages::crop_id_hash("did:farmer:fixed", "rice", "2024-01-01 00:00:00 UTC");
    assert_eq!(a, b);
    assert_eq!(
        a,
        compute_keccak256("did:farmer:fixed-rice-2024-01-01 00:00:00 UTC")
    );
}

#[test]
fn registration_pipeline_produces_a_full_receipt() {
    let payload = StagePayload::Registration(registration_payload());
    let receipt = run_ok(payload, "2024-01-01 00:00:00 UTC", "QmReg");
    match receipt {
        Receipt::Registration(r) => {
            assert!(r.farmer_did.starts_with("did:farmer:"));
            assert_eq!(r.farmer_did.len(), "did:farmer:".len() + 36);
            let expected = compute_keccak256(&format!(
                "{}-rice-2024-01-01 00:00:00 UTC",
                r.farmer_did
            ));
            assert_eq!(r.crop_id_hash, expected);
            assert_eq!(r.ipfs_cid, "QmReg");
            assert_eq!(r.registered_at, "2024-01-01 00:00:00 UTC");
        }
        _ => panic!("expected a registration receipt"),
    }
}

#[test]
fn purchase_hash_is_identical_across_two_pipeline_runs() {
    let r1 = run_ok(StagePayload::Purchase(purchase_payload()), "T0", "Qm1");
    let r2 = run_ok(StagePayload::Purchase(purchase_payload()), "T0", "Qm2");
    match (r1, r2) {
        (Receipt::Purchase(a), Receipt::Purchase(b)) => {
            assert_eq!(a.batch_hash, b.batch_hash);
            assert_eq!(a.batch_hash, compute_keccak256("did:farmer:123-B1-100-FPO"));
        }
        _ => panic!("expected purchase receipts"),
    }
}

#[test]
fn warehouse_persist_failure_yields_storage_error_and_no_state_hash() {
    let payload = StagePayload::Warehouse(warehouse_payload());
    let pending = begin_stage(payload, s("T0")).unwrap();
    // Before persistence no digest that depends on the content address exists.
    match &pending.envelope.digests {
        StageDigests::Warehouse { state_hash } => assert!(state_hash.is_none()),
        _ => panic!("expected warehouse digests"),
    }
    let result = after_persist(pending, Err(s("ipfs unreachable")));
    match result {
        Err(StageError::StorageUnavailable(m)) => assert_eq!(m, "ipfs unreachable"),
        _ => panic!("expected a storage unavailable error"),
    }
}

#[test]
fn warehouse_state_hash_covers_the_content_address() {
    let payload = StagePayload::Warehouse(warehouse_payload());
    let receipt = run_ok(payload, "T0", "QmWarehouse");
    match receipt {
        Receipt::Warehouse(r) => {
            let expected =
                compute_keccak256("W1-B1-Some(21.5)-Some(60.0)-QmWarehouse");
            assert_eq!(r.state_hash, expected);
            assert_eq!(r.warehouse_id, "W1");
            assert_eq!(r.ipfs_cid, "QmWarehouse");
        }
        _ => panic!("expected a warehouse receipt"),
    }
}

#[test]
fn logistics_location_hash_joins_the_coordinates() {
    let receipt = run_ok(StagePayload::Logistics(logistics_payload()), "T0", "QmL");
    match receipt {
        Receipt::Logistics(r) => {
            assert_eq!(
                r.location_hash,
                compute_keccak256("S1-Depot-12.9716-77.5946")
            );
            assert_eq!(r.shipment_id, "S1");
        }
        _ => panic!("expected a logistics receipt"),
    }
}

#[test]
fn processing_yields_three_hash_families() {
    let receipt = run_ok(StagePayload::Processing(processing_payload()), "T0", "QmP");
    match receipt {
        Receipt::Processing(r) => {
            assert_eq!(r.input_batch_hash, compute_keccak256("B1-Mill-100"));
            assert_eq!(r.transform_hash, compute_keccak256("Milling-80-20"));
            assert_eq!(
                r.output_batch_hashes,
                vec![compute_keccak256("O1-80"), compute_keccak256("O2-80")]
            );
        }
        _ => panic!("expected a processing receipt"),
    }
}

#[test]
fn packaging_with_proof_list_builds_the_three_level_root() {
    let payload = StagePayload::Packaging(packaging_payload(Some(vec![
        s("leaf1"),
        s("leaf2"),
        s("leaf3"),
    ])));
    let receipt = run_ok(payload, "T0", "QmSku");
    match receipt {
        Receipt::Packaging(r) => {
            assert_eq!(
                r.merkle_root,
                "0x63518cf2acc9618d65969a6c6e6f2ac3f7600196eb1e51d6f952a21c3e1687ad"
            );
            assert_eq!(r.parent_batch_hash, compute_keccak256("B1-Rice 1kg"));
        }
        _ => panic!("expected a packaging receipt"),
    }
}

#[test]
fn packaging_without_proof_uses_the_sku_id_verbatim() {
    let payload = StagePayload::Packaging(packaging_payload(None));
    let receipt = run_ok(payload, "T0", "QmSku");
    match receipt {
        Receipt::Packaging(r) => assert_eq!(r.merkle_root, "SKU1"),
        _ => panic!("expected a packaging receipt"),
    }
}

#[test]
fn ai_score_commit_is_recomputable_and_tamper_evident() {
    let payload = ai_payload();
    let pending = begin_stage(StagePayload::AiScore(payload.clone()), s("T0")).unwrap();
    let pair = match &pending.envelope.digests {
        StageDigests::AiScore { pair, .. } => pair.clone(),
        _ => panic!("expected AI score digests"),
    };
    let sealed = after_persist(pending, Ok(s("QmAi"))).unwrap();
    let receipt = after_pin(sealed, Ok(())).unwrap();
    match receipt {
        Receipt::AiScore(r) => {
            assert_eq!(r.commit_hash, pair.commit_hash);
            assert_eq!(r.reveal_hash, pair.reveal_hash);
            assert_eq!(r.batch_hash, compute_keccak256("B1-model-x"));
        }
        _ => panic!("expected an AI score receipt"),
    }
    // Recomputing the commit hash from the returned nonce and reveal hash
    // accepts the committed payload.
    let canonical = render_ai_canonical(&payload);
    assert!(verify(&pair, &canonical));
    // Mutating any payload field before verification is rejected.
    let mut mutated = payload.clone();
    mutated.quality_score = s("99.9");
    let mutated_canonical = render_ai_canonical(&mutated);
    assert!(!verify(&pair, &mutated_canonical));
}

#[test]
fn pin_failure_is_a_distinct_error_class() {
    let payload = StagePayload::Purchase(purchase_payload());
    let result = run_stage(payload, s("T0"), Ok(s("Qm1")), Err(s("pin quota exceeded")));
    match result {
        Err(StageError::PinFailed(m)) => assert_eq!(m, "pin quota exceeded"),
        _ => panic!("expected a pin failure"),
    }
}

#[test]
fn each_stage_rejects_missing_required_fields() {
    let mut reg = registration_payload();
    reg.crop_type = s("");
    let r = run_stage(StagePayload::Registration(reg), s("T0"), Ok(s("Qm")), Ok(()));
    match r {
        Err(StageError::Validation(m)) => assert_eq!(m, "crop_type must not be empty"),
        _ => panic!("expected a validation error"),
    }

    let mut purchase = purchase_payload();
    purchase.farmer_did = s("");
    assert!(matches!(
        run_stage(StagePayload::Purchase(purchase), s("T0"), Ok(s("Qm")), Ok(())),
        Err(StageError::Validation(_))
    ));

    let mut warehouse = warehouse_payload();
    warehouse.warehouse_id = s("");
    assert!(matches!(
        run_stage(StagePayload::Warehouse(warehouse), s("T0"), Ok(s("Qm")), Ok(())),
        Err(StageError::Validation(_))
    ));

    let mut logistics = logistics_payload();
    logistics.shipment_id = s("");
    assert!(matches!(
        run_stage(StagePayload::Logistics(logistics), s("T0"), Ok(s("Qm")), Ok(())),
        Err(StageError::Validation(_))
    ));

    let mut processing = processing_payload();
    processing.input_batch_id = s("");
    assert!(matches!(
        run_stage(StagePayload::Processing(processing), s("T0"), Ok(s("Qm")), Ok(())),
        Err(StageError::Validation(_))
    ));

    let mut packaging = packaging_payload(None);
    packaging.sku_id = s("");
    assert!(matches!(
        run_stage(StagePayload::Packaging(packaging), s("T0"), Ok(s("Qm")), Ok(())),
        Err(StageError::Validation(_))
    ));

    let mut ai = ai_payload();
    ai.batch_id = s("");
    assert!(matches!(
        run_stage(StagePayload::AiScore(ai), s("T0"), Ok(s("Qm")), Ok(())),
        Err(StageError::Validation(_))
    ));
}

#[test]
fn record_body_frames_every_field_unambiguously() {
    let pending = begin_stage(StagePayload::Purchase(purchase_payload()), s("T0")).unwrap();
    let batch_hash = compute_keccak256("did:farmer:123-B1-100-FPO");
    let expected = format!(
        "stage:12:fpo_purchase\ncreated_at:2:T0\nbatch_hash:66:{}\nfarmer_did:14:did:farmer:123\n\
         fpo_name:3:FPO\nbatch_id:2:B1\nquantity_kg:3:100\nprice_per_kg:4:25.5\n\
         quality_grade:1:A\nquality_report_url:4:None\nweight_slip_url:4:None\nphotos:1:0\n\
         moisture_content:4:None\nimpurity_percentage:4:None\npayment_reference:4:None\n",
        batch_hash
    );
    assert_eq!(pending.record_body, expected);
}

#[test]
fn mismatched_envelope_cannot_be_canonicalized() {
    // A payload paired with another stage's digests is an internal defect:
    // serialization refuses it instead of producing a wrong record.
    let pending = begin_stage(StagePayload::Purchase(purchase_payload()), s("T0")).unwrap();
    let mismatched = offchain::envelope::RecordEnvelope {
        payload: StagePayload::Registration(registration_payload()),
        digests: pending.envelope.digests.clone(),
        created_at: s("T0"),
        content_address: None,
    };
    match mismatched.render_body() {
        Err(StageError::Serialization(m)) => {
            assert_eq!(m, "payload and derived hashes belong to different stages")
        }
        _ => panic!("expected a serialization error"),
    }
}

#[test]
fn persist_failure_never_yields_a_receipt_for_any_stage() {
    let payloads = vec![
        StagePayload::Registration(registration_payload()),
        StagePayload::Purchase(purchase_payload()),
        StagePayload::Warehouse(warehouse_payload()),
        StagePayload::Logistics(logistics_payload()),
        StagePayload::Processing(processing_payload()),
        StagePayload::Packaging(packaging_payload(None)),
        StagePayload::AiScore(ai_payload()),
    ];
    for payload in payloads {
        let result = run_stage(payload, s("T0"), Err(s("down")), Ok(()));
        assert!(matches!(result, Err(StageError::StorageUnavailable(_))));
    }
}
