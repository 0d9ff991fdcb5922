use edi_amend::codes::{
    DatetimeType, DealerType, DocumentType, IdentifierType, ReferenceType,
};
use edi_amend::digits::{parse_digits, u32_to_string};
use edi_amend::payload::{
    Address, Agreement, Contract, Datetime, Dealer, Document, Payload, Pricing, Reference,
};

#[test]
fn document_type_codes() {
    assert_eq!(DocumentType::New.to_string(), "00");
    assert_eq!(DocumentType::Change.to_string(), "04");
    assert_eq!(DocumentType::Resubmit.to_string(), "18");
    assert_eq!(DocumentType::Renew.to_string(), "30");
    assert_eq!(DocumentType::Cancel.to_string(), "56");
}

#[test]
fn datetime_type_codes() {
    assert_eq!(DatetimeType::ContractEffective.to_string(), "092");
    assert_eq!(DatetimeType::ContractExpiration.to_string(), "093");
    assert_eq!(DatetimeType::ContractPriorExpiration.to_string(), "094");
    assert_eq!(DatetimeType::AgreementEffective.to_string(), "129");
    assert_eq!(DatetimeType::AgreementExpiration.to_string(), "130");
}

#[test]
fn reference_dealer_and_identifier_codes() {
    assert_eq!(ReferenceType::BuyersContractNumber.to_string(), "BC");
    assert_eq!(ReferenceType::ContractType.to_string(), "CT");
    assert_eq!(ReferenceType::MutuallyDefined.to_string(), "ZZ");
    assert_eq!(ReferenceType::AddDistributor.to_string(), "TD");
    assert_eq!(DealerType::Manufacturer.to_string(), "MF");
    assert_eq!(DealerType::BuyingGroup.to_string(), "BG");
    assert_eq!(DealerType::EndUser.to_string(), "EB");
    assert_eq!(IdentifierType::Duns.to_string(), "UL");
    assert_eq!(IdentifierType::Hin.to_string(), "21");
    assert_eq!(IdentifierType::VendorDefined.to_string(), "92");
}

#[test]
fn new_contract_starts_with_the_two_default_references() {
    let contract = Contract::new("CN7");
    assert_eq!(contract.contract_id, "CN7");
    assert_eq!(contract.references.len(), 2);
    assert_eq!(contract.references[0].reference_type, "CT");
    assert_eq!(contract.references[0].reference, "LOI");
    assert_eq!(contract.references[1].reference_type, "BC");
    assert_eq!(contract.references[1].reference, "CN7");
    assert_eq!(contract.dealers.len(), 1);
    assert_eq!(contract.dealers[0].group_type, "MF");
    assert_eq!(contract.dealers[0].group_name, "BUSSE HOSPITAL DISPOSABLES");
    assert_eq!(contract.dealers[0].id_type, "UL");
    assert_eq!(contract.dealers[0].id, "0849233000001");
    assert_eq!(contract.agreements.len(), 0);
}

#[test]
fn builders_append_in_order() {
    let mut contract = Contract::new("CN7");
    contract.add_reference(ReferenceType::MutuallyDefined, "OUT1");
    assert_eq!(contract.references.len(), 3);
    assert_eq!(contract.references[2].reference_type, "ZZ");

    let mut dealer = Dealer::new(DealerType::EndUser, "ACME", IdentifierType::VendorDefined, "X1");
    assert_eq!(dealer.address.addr1, "");
    dealer.set_address(Address::new("1 Main St", "Springfield", "IL", "62704"));
    dealer.add_reference(ReferenceType::AddDistributor, "069");
    dealer.add_datetime(Datetime::new(DatetimeType::AgreementEffective, "2024-01-01"));
    assert_eq!(dealer.address.state, "IL");
    assert_eq!(dealer.references[0].reference_type, "TD");
    assert_eq!(dealer.datetimes[0].datetime_type, "129");
    contract.add_dealer(dealer);
    assert_eq!(contract.dealers.len(), 2);

    let line_number = 1;
    let mut agreement = Agreement::new(&line_number, "AI");
    agreement.add_detail("Widget");
    agreement.add_line(&line_number, "P-1");
    agreement.add_pricing(Pricing::new("9.99", 1, "CA", "2024-01-01", "2024-12-31"));
    assert_eq!(agreement.details[0].description, "Widget");
    assert_eq!(agreement.line_information[0].item_id, "P-1");
    assert_eq!(agreement.pricing[0].price, "9.99");
    assert_eq!(agreement.pricing[0].datetimes[0].datetime, "2024-01-01");
    assert_eq!(agreement.pricing[0].datetimes[1].datetime, "2024-12-31");
    contract.add_agreement(agreement);

    let mut document = Document::new(DocumentType::Change);
    document.add_datetime(Datetime::new(DatetimeType::ContractEffective, "2024-01-01"));
    document.add_contract(contract);
    assert_eq!(document.document_type, "04");
    assert_eq!(document.datetimes.len(), 1);
    assert_eq!(document.contracts.len(), 1);

    let mut payload = Payload::new();
    assert_eq!(payload.documents.len(), 0);
    payload.add_document(document);
    assert_eq!(payload.documents.len(), 1);
}

#[test]
fn reference_new_renders_its_type_code() {
    let reference = Reference::new(ReferenceType::AddDistributor, "069");
    assert_eq!(reference.reference_type, "TD");
    assert_eq!(reference.reference, "069");
}

#[test]
fn decimal_rendering_and_parsing() {
    assert_eq!(u32_to_string(0), "0");
    assert_eq!(u32_to_string(3), "3");
    assert_eq!(u32_to_string(305), "305");
    assert_eq!(u32_to_string(u32::MAX), "4294967295");
    assert_eq!(parse_digits("0042"), Some(42));
    assert_eq!(parse_digits("4294967295"), Some(u32::MAX));
    assert_eq!(parse_digits("4294967296"), None);
    assert_eq!(parse_digits(""), None);
    assert_eq!(parse_digits("12a"), None);
    assert_eq!(parse_digits("99999999999999999999999"), None);
}
