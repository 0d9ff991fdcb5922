use edi_amend::assemble::{build_document, classify_buyer_name, parse_purpose, BuildError};
use edi_amend::codes::{DealerType, DocumentType, IdentifierType};
use edi_amend::records::{ContractData, EndBuyerData};

fn sample_buyer() -> EndBuyerData {
    EndBuyerData {
        name: "ACME HOSPITAL".to_string(),
        id: "H123".to_string(),
        address: "1 Main St".to_string(),
        city: "Springfield".to_string(),
        state: "IL".to_string(),
        zipcode: "62704".to_string(),
        change: "069".to_string(),
        start: "20240101".to_string(),
        end: "20241231".to_string(),
    }
}

fn sample_line() -> ContractData {
    ContractData {
        part: "P-1".to_string(),
        price: "12.5".to_string(),
        description: "Widget".to_string(),
        start: "20240201".to_string(),
        end: "".to_string(),
        purpose: "delete".to_string(),
    }
}

#[test]
fn purpose_parsing_defaults_to_new() {
    assert_eq!(parse_purpose("new"), DocumentType::New);
    assert_eq!(parse_purpose("change"), DocumentType::Change);
    assert_eq!(parse_purpose("resubmit"), DocumentType::Resubmit);
    assert_eq!(parse_purpose("renew"), DocumentType::Renew);
    assert_eq!(parse_purpose("cancel"), DocumentType::Cancel);
    assert_eq!(parse_purpose("anything"), DocumentType::New);
    assert_eq!(parse_purpose(""), DocumentType::New);
}

#[test]
fn buying_group_names_classify_as_buying_group() {
    assert_eq!(
        classify_buyer_name("MEDASSETS"),
        (DealerType::BuyingGroup, IdentifierType::Hin)
    );
    assert_eq!(
        classify_buyer_name("PREMIER HOSPITALS"),
        (DealerType::BuyingGroup, IdentifierType::Hin)
    );
}

#[test]
fn other_names_classify_as_end_user() {
    for name in ["ACME", "MEDASSETS ", "medassets", "PREMIER HOSPITAL", ""] {
        assert_eq!(
            classify_buyer_name(name),
            (DealerType::EndUser, IdentifierType::VendorDefined)
        );
    }
}

#[test]
fn new_workflow_populates_the_full_document() {
    let buyers = vec![sample_buyer()];
    let lines = vec![sample_line()];
    let document = build_document(
        DocumentType::New,
        "CN1",
        "20240101",
        "20241231",
        "",
        "OUT9",
        &buyers,
        &lines,
    )
    .expect("new workflow must succeed");

    assert_eq!(document.document_type, "00");
    assert_eq!(document.datetimes.len(), 2);
    assert_eq!(document.datetimes[0].datetime_type, "092");
    assert_eq!(document.datetimes[0].datetime, "2024-01-01");
    assert_eq!(document.datetimes[1].datetime_type, "093");
    assert_eq!(document.datetimes[1].datetime, "2024-12-31");

    assert_eq!(document.contracts.len(), 1);
    let contract = &document.contracts[0];
    assert_eq!(contract.contract_id, "CN1");

    assert_eq!(contract.references.len(), 3);
    assert_eq!(contract.references[0].reference_type, "CT");
    assert_eq!(contract.references[0].reference, "LOI");
    assert_eq!(contract.references[1].reference_type, "BC");
    assert_eq!(contract.references[1].reference, "CN1");
    assert_eq!(contract.references[2].reference_type, "ZZ");
    assert_eq!(contract.references[2].reference, "OUT9");

    assert_eq!(contract.dealers.len(), 2);
    let manufacturer = &contract.dealers[0];
    assert_eq!(manufacturer.group_type, "MF");
    assert_eq!(manufacturer.group_name, "BUSSE HOSPITAL DISPOSABLES");
    assert_eq!(manufacturer.id_type, "UL");
    assert_eq!(manufacturer.id, "0849233000001");
    assert_eq!(manufacturer.address.addr1, "");
    assert_eq!(manufacturer.references.len(), 0);
    assert_eq!(manufacturer.datetimes.len(), 0);

    let dealer = &contract.dealers[1];
    assert_eq!(dealer.group_type, "EB");
    assert_eq!(dealer.group_name, "ACME HOSPITAL");
    assert_eq!(dealer.id_type, "92");
    assert_eq!(dealer.id, "H123");
    assert_eq!(dealer.address.addr1, "1 Main St");
    assert_eq!(dealer.address.city, "Springfield");
    assert_eq!(dealer.address.state, "IL");
    assert_eq!(dealer.address.zip, "62704");
    assert_eq!(dealer.references.len(), 1);
    assert_eq!(dealer.references[0].reference_type, "TD");
    assert_eq!(dealer.references[0].reference, "069");
    assert_eq!(dealer.datetimes.len(), 2);
    assert_eq!(dealer.datetimes[0].datetime_type, "129");
    assert_eq!(dealer.datetimes[0].datetime, "2024-01-01");
    assert_eq!(dealer.datetimes[1].datetime_type, "130");
    assert_eq!(dealer.datetimes[1].datetime, "2024-12-31");

    assert_eq!(contract.agreements.len(), 1);
    let agreement = &contract.agreements[0];
    assert_eq!(agreement.line_number, 1);
    assert_eq!(agreement.reference, "DI");
    assert_eq!(agreement.details.len(), 1);
    assert_eq!(agreement.details[0].description, "Widget");
    assert_eq!(agreement.line_information.len(), 1);
    assert_eq!(agreement.line_information[0].line_number, 1);
    assert_eq!(agreement.line_information[0].item_id, "P-1");
    assert_eq!(agreement.pricing.len(), 1);
    let pricing = &agreement.pricing[0];
    assert_eq!(pricing.price, "12.5");
    assert_eq!(pricing.quantity, 1);
    assert_eq!(pricing.uom, "CA");
    assert_eq!(pricing.datetimes.len(), 2);
    assert_eq!(pricing.datetimes[0].datetime_type, "129");
    assert_eq!(pricing.datetimes[0].datetime, "2024-02-01");
    assert_eq!(pricing.datetimes[1].datetime_type, "130");
    assert_eq!(pricing.datetimes[1].datetime, "2024-12-31");
}

#[test]
fn new_and_resubmit_differ_only_in_document_type() {
    let buyers = vec![sample_buyer()];
    let lines = vec![sample_line()];
    let new_doc = build_document(
        DocumentType::New,
        "CN1",
        "20240101",
        "20241231",
        "",
        "OUT9",
        &buyers,
        &lines,
    )
    .unwrap();
    let resubmit_doc = build_document(
        DocumentType::Resubmit,
        "CN1",
        "20240101",
        "20241231",
        "",
        "OUT9",
        &buyers,
        &lines,
    )
    .unwrap();

    assert_eq!(new_doc.document_type, "00");
    assert_eq!(resubmit_doc.document_type, "18");
    assert_eq!(new_doc.contracts, resubmit_doc.contracts);
    assert_eq!(new_doc.datetimes, resubmit_doc.datetimes);
}

#[test]
fn change_workflow_omits_distributor_and_outgoing_references() {
    let buyers = vec![sample_buyer()];
    let lines = vec![sample_line()];
    let document = build_document(
        DocumentType::Change,
        "CN1",
        "20240101",
        "20241231",
        "",
        "OUT9",
        &buyers,
        &lines,
    )
    .unwrap();

    assert_eq!(document.document_type, "04");
    let contract = &document.contracts[0];
    assert_eq!(contract.references.len(), 2);
    assert_eq!(contract.references[0].reference_type, "CT");
    assert_eq!(contract.references[1].reference_type, "BC");
    assert_eq!(contract.dealers.len(), 2);
    assert_eq!(contract.dealers[1].references.len(), 0);
    assert_eq!(contract.agreements.len(), 1);
}

#[test]
fn change_with_no_rows_produces_the_minimal_contract() {
    let document = build_document(
        DocumentType::Change,
        "CN1",
        "2024-01-01",
        "2024-12-31",
        "",
        "",
        &vec![],
        &vec![],
    )
    .unwrap();

    let contract = &document.contracts[0];
    assert_eq!(contract.references.len(), 2);
    assert_eq!(contract.references[0].reference_type, "CT");
    assert_eq!(contract.references[0].reference, "LOI");
    assert_eq!(contract.references[1].reference_type, "BC");
    assert_eq!(contract.references[1].reference, "CN1");
    assert_eq!(contract.dealers.len(), 1);
    assert_eq!(contract.dealers[0].group_type, "MF");
    assert_eq!(contract.agreements.len(), 0);
}

#[test]
fn buyer_without_address_or_dates_stays_bare() {
    let mut buyer = sample_buyer();
    buyer.address = "".to_string();
    buyer.start = "".to_string();
    buyer.end = "".to_string();
    let document = build_document(
        DocumentType::New,
        "CN1",
        "2024-01-01",
        "2024-12-31",
        "",
        "",
        &vec![buyer],
        &vec![],
    )
    .unwrap();
    let contract = &document.contracts[0];
    assert_eq!(contract.references.len(), 2);
    let dealer = &contract.dealers[1];
    assert_eq!(dealer.address.addr1, "");
    assert_eq!(dealer.address.city, "");
    assert_eq!(dealer.datetimes.len(), 0);
    assert_eq!(dealer.references.len(), 1);
}

#[test]
fn line_purposes_map_to_reference_codes_with_add_as_default() {
    let mut lines = Vec::new();
    for purpose in ["add", "delete", "change", "", "other"] {
        let mut line = sample_line();
        line.purpose = purpose.to_string();
        lines.push(line);
    }
    let document = build_document(
        DocumentType::New,
        "CN1",
        "2024-01-01",
        "2024-12-31",
        "",
        "",
        &vec![],
        &lines,
    )
    .unwrap();
    let contract = &document.contracts[0];
    let codes: Vec<&str> = contract
        .agreements
        .iter()
        .map(|a| a.reference.as_str())
        .collect();
    assert_eq!(codes, vec!["AI", "DI", "CI", "AI", "AI"]);
    let numbers: Vec<i32> = contract.agreements.iter().map(|a| a.line_number).collect();
    assert_eq!(numbers, vec![1, 2, 3, 4, 5]);
}

#[test]
fn renew_and_cancel_demand_a_new_end_date() {
    let err = build_document(
        DocumentType::Renew,
        "CN1",
        "2024-01-01",
        "2024-12-31",
        "",
        "",
        &vec![],
        &vec![],
    )
    .unwrap_err();
    assert_eq!(err, BuildError::MissingNewEndDate);
    let err = build_document(
        DocumentType::Cancel,
        "CN1",
        "2024-01-01",
        "2024-12-31",
        "",
        "",
        &vec![],
        &vec![],
    )
    .unwrap_err();
    assert_eq!(err, BuildError::MissingNewEndDate);
    assert_eq!(
        err.message(),
        "New end date is required for cancel or renew purposes."
    );
}

#[test]
fn renew_succeeds_with_a_later_new_end_date() {
    let document = build_document(
        DocumentType::Renew,
        "CN1",
        "2023-01-01",
        "2024-01-01",
        "2024-06-01",
        "",
        &vec![],
        &vec![],
    )
    .unwrap();
    assert_eq!(document.document_type, "30");
    assert_eq!(document.datetimes.len(), 3);
    assert_eq!(document.datetimes[0].datetime_type, "092");
    assert_eq!(document.datetimes[0].datetime, "2023-01-01");
    assert_eq!(document.datetimes[1].datetime_type, "093");
    assert_eq!(document.datetimes[1].datetime, "2024-06-01");
    assert_eq!(document.datetimes[2].datetime_type, "094");
    assert_eq!(document.datetimes[2].datetime, "2024-01-01");
    let contract = &document.contracts[0];
    assert_eq!(contract.references.len(), 2);
    assert_eq!(contract.dealers.len(), 1);
    assert_eq!(contract.agreements.len(), 0);
}

#[test]
fn renew_rejects_an_earlier_new_end_date() {
    let err = build_document(
        DocumentType::Renew,
        "CN1",
        "2022-01-01",
        "2024-01-01",
        "2023-01-01",
        "",
        &vec![],
        &vec![],
    )
    .unwrap_err();
    assert_eq!(err, BuildError::NewEndDateNotLater);
    assert_eq!(
        err.message(),
        "New end date must be greater than current end date"
    );
}

#[test]
fn cancel_succeeds_with_an_earlier_new_end_date() {
    let document = build_document(
        DocumentType::Cancel,
        "CN1",
        "2023-01-01",
        "2024-06-01",
        "2024-01-01",
        "",
        &vec![],
        &vec![],
    )
    .unwrap();
    assert_eq!(document.document_type, "56");
    let contract = &document.contracts[0];
    assert_eq!(contract.references.len(), 2);
    assert_eq!(contract.dealers.len(), 1);
    assert_eq!(contract.agreements.len(), 0);
}

#[test]
fn cancel_rejects_a_later_new_end_date() {
    let err = build_document(
        DocumentType::Cancel,
        "CN1",
        "2023-01-01",
        "2024-01-01",
        "2024-06-01",
        "",
        &vec![],
        &vec![],
    )
    .unwrap_err();
    assert_eq!(err, BuildError::NewEndDateNotEarlier);
    assert_eq!(
        err.message(),
        "New end date must be less than current end date"
    );
}

#[test]
fn renew_rejects_unparsable_dates() {
    let err = build_document(
        DocumentType::Renew,
        "CN1",
        "2023-01-01",
        "not-a-date",
        "2024-06-01",
        "",
        &vec![],
        &vec![],
    )
    .unwrap_err();
    assert_eq!(err, BuildError::InvalidEndDate);
    let err = build_document(
        DocumentType::Renew,
        "CN1",
        "2023-01-01",
        "2024-01-01",
        "2024-02-30",
        "",
        &vec![],
        &vec![],
    )
    .unwrap_err();
    assert_eq!(err, BuildError::InvalidNewEndDate);
}

#[test]
fn renew_accepts_eight_character_dates_after_normalization() {
    let document = build_document(
        DocumentType::Renew,
        "CN1",
        "20230101",
        "20240101",
        "20240601",
        "",
        &vec![],
        &vec![],
    )
    .unwrap();
    assert_eq!(document.datetimes[1].datetime, "2024-06-01");
}

#[test]
fn renew_and_cancel_reject_equal_dates() {
    let err = build_document(
        DocumentType::Renew,
        "CN1",
        "2023-01-01",
        "2024-01-01",
        "2024-01-01",
        "",
        &vec![],
        &vec![],
    )
    .unwrap_err();
    assert_eq!(err, BuildError::NewEndDateNotLater);
    let err = build_document(
        DocumentType::Cancel,
        "CN1",
        "2023-01-01",
        "2024-01-01",
        "2024-01-01",
        "",
        &vec![],
        &vec![],
    )
    .unwrap_err();
    assert_eq!(err, BuildError::NewEndDateNotEarlier);
}

#[test]
fn buying_group_buyer_gets_group_codes_in_the_document() {
    let mut buyer = sample_buyer();
    buyer.name = "MEDASSETS".to_string();
    let document = build_document(
        DocumentType::New,
        "CN1",
        "2024-01-01",
        "2024-12-31",
        "",
        "",
        &vec![buyer],
        &vec![],
    )
    .unwrap();
    let dealer = &document.contracts[0].dealers[1];
    assert_eq!(dealer.group_type, "BG");
    assert_eq!(dealer.id_type, "21");
    assert_eq!(dealer.group_name, "MEDASSETS");
}

#[test]
fn new_without_outgoing_number_has_only_default_references() {
    let document = build_document(
        DocumentType::New,
        "CN1",
        "2024-01-01",
        "2024-12-31",
        "",
        "",
        &vec![sample_buyer()],
        &vec![sample_line()],
    )
    .unwrap();
    assert_eq!(document.contracts[0].references.len(), 2);
}

#[test]
fn renew_ignores_any_rows_it_is_handed() {
    let document = build_document(
        DocumentType::Renew,
        "CN1",
        "2023-01-01",
        "2024-01-01",
        "2024-06-01",
        "OUT9",
        &vec![sample_buyer()],
        &vec![sample_line()],
    )
    .unwrap();
    let contract = &document.contracts[0];
    assert_eq!(contract.references.len(), 2);
    assert_eq!(contract.dealers.len(), 1);
    assert_eq!(contract.agreements.len(), 0);
}
