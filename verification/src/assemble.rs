//! The assembly engine: builds one amendment document from a workflow
//! selection, command parameters, and tabular buyer and contract-line rows.

use vstd::prelude::*;

use crate::codes::{DatetimeType, DealerType, DocumentType, IdentifierType, ReferenceType};
use crate::dates::{
    iso_date_of, normalize_date, parse_iso_date, spec_normalize_date, spec_ymd_lt, ymd_lt,
};
use crate::digits::spec_digits_1_9;
use crate::payload::{
    spec_base_references, spec_empty_address, spec_manufacturer_dealer, Address, AddressV,
    Agreement, AgreementV, Contract, ContractV, Datetime, DatetimeV, Dealer, DealerV, DetailV,
    Document, LineV, Pricing, PricingV, ReferenceV,
};
use crate::records::{ContractData, ContractDataV, EndBuyerData, EndBuyerDataV};
use crate::text::str_eq;

verus! {

/// A fatal configuration or business-rule violation that aborts the run.
#[derive(Clone, Copy, Debug, PartialEq, Eq, Structural)]
pub enum BuildError {
    /// Renew and Cancel demand a new end date.
    MissingNewEndDate,
    /// The current end date does not parse as a calendar date.
    InvalidEndDate,
    /// The new end date does not parse as a calendar date.
    InvalidNewEndDate,
    /// Renew demands a new end date strictly later than the current one.
    NewEndDateNotLater,
    /// Cancel demands a new end date strictly earlier than the current one.
    NewEndDateNotEarlier,
}

impl BuildError {
    pub open spec fn spec_message(self) -> Seq<char> {
        match self {
            BuildError::MissingNewEndDate => "New end date is required for cancel or renew purposes."@,
            BuildError::InvalidEndDate => "End date is not a valid calendar date"@,
            BuildError::InvalidNewEndDate => "New end date is not a valid calendar date"@,
            BuildError::NewEndDateNotLater => "New end date must be greater than current end date"@,
            BuildError::NewEndDateNotEarlier => "New end date must be less than current end date"@,
        }
    }

    /// The user-visible message naming the violated rule.
    pub fn message(&self) -> (r: String)
        ensures
            r@ == self.spec_message(),
    {
        match self {
            BuildError::MissingNewEndDate => String::from_str(
                "New end date is required for cancel or renew purposes.",
            ),
            BuildError::InvalidEndDate => String::from_str("End date is not a valid calendar date"),
            BuildError::InvalidNewEndDate => String::from_str(
                "New end date is not a valid calendar date",
            ),
            BuildError::NewEndDateNotLater => String::from_str(
                "New end date must be greater than current end date",
            ),
            BuildError::NewEndDateNotEarlier => String::from_str(
                "New end date must be less than current end date",
            ),
        }
    }
}

/// The workflow named by a purpose parameter; anything unrecognized is New.
pub open spec fn spec_purpose_of(s: Seq<char>) -> DocumentType {
    if s == "new"@ {
        DocumentType::New
    } else if s == "change"@ {
        DocumentType::Change
    } else if s == "resubmit"@ {
        DocumentType::Resubmit
    } else if s == "renew"@ {
        DocumentType::Renew
    } else if s == "cancel"@ {
        DocumentType::Cancel
    } else {
        DocumentType::New
    }
}

pub fn parse_purpose(s: &str) -> (r: DocumentType)
    ensures
        r == spec_purpose_of(s@),
{
    if str_eq(s, "new") {
        DocumentType::New
    } else if str_eq(s, "change") {
        DocumentType::Change
    } else if str_eq(s, "resubmit") {
        DocumentType::Resubmit
    } else if str_eq(s, "renew") {
        DocumentType::Renew
    } else if str_eq(s, "cancel") {
        DocumentType::Cancel
    } else {
        DocumentType::New
    }
}

/// The two reserved buying-group organization names; this lookup is fixed,
/// not configurable.
pub open spec fn spec_is_buying_group(name: Seq<char>) -> bool {
    name == "MEDASSETS"@ || name == "PREMIER HOSPITALS"@
}

/// Classifies a buyer by name: exactly the two reserved names map to
/// BuyingGroup/Hin, every other name to EndUser/VendorDefined.
pub fn classify_buyer_name(name: &str) -> (r: (DealerType, IdentifierType))
    ensures
        spec_is_buying_group(name@) ==> r == (DealerType::BuyingGroup, IdentifierType::Hin),
        !spec_is_buying_group(name@) ==> r == (DealerType::EndUser, IdentifierType::VendorDefined),
{
    if str_eq(name, "MEDASSETS") || str_eq(name, "PREMIER HOSPITALS") {
        (DealerType::BuyingGroup, IdentifierType::Hin)
    } else {
        (DealerType::EndUser, IdentifierType::VendorDefined)
    }
}

/// The dates a buyer row attaches to its dealer: each of the start and end
/// fields, when non-empty, normalized.
pub open spec fn spec_buyer_datetimes(b: EndBuyerDataV) -> Seq<DatetimeV> {
    (if b.start.len() > 0 {
        seq![
            DatetimeV {
                datetime_type: DatetimeType::AgreementEffective.spec_code(),
                datetime: spec_normalize_date(b.start),
            },
        ]
    } else {
        Seq::<DatetimeV>::empty()
    }) + (if b.end.len() > 0 {
        seq![
            DatetimeV {
                datetime_type: DatetimeType::AgreementExpiration.spec_code(),
                datetime: spec_normalize_date(b.end),
            },
        ]
    } else {
        Seq::<DatetimeV>::empty()
    })
}

/// The dealer a buyer row translates to. The AddDistributor reference is
/// attached only when `with_change_reference` is set (New and Resubmit).
pub open spec fn spec_dealer_of_buyer(b: EndBuyerDataV, with_change_reference: bool) -> DealerV {
    DealerV {
        group_type: if spec_is_buying_group(b.name) {
            DealerType::BuyingGroup.spec_code()
        } else {
            DealerType::EndUser.spec_code()
        },
        group_name: b.name,
        id_type: if spec_is_buying_group(b.name) {
            IdentifierType::Hin.spec_code()
        } else {
            IdentifierType::VendorDefined.spec_code()
        },
        id: b.id,
        address: if b.address.len() > 0 {
            AddressV { addr1: b.address, city: b.city, state: b.state, zip: b.zipcode }
        } else {
            spec_empty_address()
        },
        references: if with_change_reference {
            seq![
                ReferenceV {
                    reference_type: ReferenceType::AddDistributor.spec_code(),
                    reference: b.change,
                },
            ]
        } else {
            Seq::<ReferenceV>::empty()
        },
        datetimes: spec_buyer_datetimes(b),
    }
}

/// Translates one buyer row into a dealer.
pub fn dealer_from_buyer(buyer: &EndBuyerData, with_change_reference: bool) -> (r: Dealer)
    ensures
        r@ == spec_dealer_of_buyer(buyer@, with_change_reference),
{
    let (group_type, id_type) = classify_buyer_name(buyer.name.as_str());
    let mut processed = Dealer::new(group_type, buyer.name.as_str(), id_type, buyer.id.as_str());
    if !buyer.address.as_str().is_empty() {
        processed.set_address(
            Address::new(
                buyer.address.as_str(),
                buyer.city.as_str(),
                buyer.state.as_str(),
                buyer.zipcode.as_str(),
            ),
        );
    }
    if with_change_reference {
        processed.add_reference(ReferenceType::AddDistributor, buyer.change.as_str());
    }
    if !buyer.start.as_str().is_empty() {
        let normalized = normalize_date(buyer.start.as_str());
        processed.add_datetime(Datetime::new(DatetimeType::AgreementEffective, normalized.as_str()));
    }
    if !buyer.end.as_str().is_empty() {
        let normalized = normalize_date(buyer.end.as_str());
        processed.add_datetime(Datetime::new(DatetimeType::AgreementExpiration, normalized.as_str()));
    }
    proof {
        assert(processed@ =~~= spec_dealer_of_buyer(buyer@, with_change_reference));
    }
    processed
}

/// The add/change/delete reference code of a contract-line purpose field;
/// anything unrecognized, the empty string included, defaults to add.
pub open spec fn spec_line_reference_code(purpose: Seq<char>) -> Seq<char> {
    if purpose == "add"@ {
        "AI"@
    } else if purpose == "delete"@ {
        "DI"@
    } else if purpose == "change"@ {
        "CI"@
    } else {
        "AI"@
    }
}

/// The agreement a contract-line row translates to. The pricing entry takes
/// the row's own start date but the run's global end date, both normalized.
pub open spec fn spec_agreement_of_line(
    l: ContractDataV,
    line_number: int,
    end_date: Seq<char>,
) -> AgreementV {
    AgreementV {
        line_number: line_number,
        reference: spec_line_reference_code(l.purpose),
        details: seq![DetailV { description: l.description }],
        line_information: seq![LineV { line_number: line_number, item_id: l.part }],
        pricing: seq![
            PricingV {
                price: l.price,
                quantity: 1,
                uom: "CA"@,
                datetimes: seq![
                    DatetimeV {
                        datetime_type: DatetimeType::AgreementEffective.spec_code(),
                        datetime: spec_normalize_date(l.start),
                    },
                    DatetimeV {
                        datetime_type: DatetimeType::AgreementExpiration.spec_code(),
                        datetime: spec_normalize_date(end_date),
                    },
                ],
            },
        ],
    }
}

/// Translates one contract-line row into an agreement under the given
/// 1-based line number.
pub fn agreement_from_line(line: &ContractData, line_number: i32, end_date: &str) -> (r: Agreement)
    ensures
        r@ == spec_agreement_of_line(line@, line_number as int, end_date@),
{
    let reference_code: &str = if str_eq(line.purpose.as_str(), "add") {
        "AI"
    } else if str_eq(line.purpose.as_str(), "delete") {
        "DI"
    } else if str_eq(line.purpose.as_str(), "change") {
        "CI"
    } else {
        "AI"
    };
    let mut processed = Agreement::new(&line_number, reference_code);
    processed.add_detail(line.description.as_str());
    processed.add_line(&line_number, line.part.as_str());
    let start_normalized = normalize_date(line.start.as_str());
    let end_normalized = normalize_date(end_date);
    processed.add_pricing(
        Pricing::new(line.price.as_str(), 1, "CA", start_normalized.as_str(), end_normalized.as_str()),
    );
    proof {
        assert(processed@ =~~= spec_agreement_of_line(line@, line_number as int, end_date@));
    }
    processed
}

/// The workflows that read buyer and contract-line rows.
pub open spec fn spec_reads_rows(purpose: DocumentType) -> bool {
    purpose == DocumentType::New || purpose == DocumentType::Change || purpose
        == DocumentType::Resubmit
}

/// The workflows with full handling: the outgoing-contract-number reference
/// and the per-buyer AddDistributor reference.
pub open spec fn spec_full_handling(purpose: DocumentType) -> bool {
    purpose == DocumentType::New || purpose == DocumentType::Resubmit
}

pub open spec fn spec_dealers_of(buyers: Seq<EndBuyerDataV>, with_change_reference: bool) -> Seq<
    DealerV,
> {
    Seq::new(buyers.len(), |i: int| spec_dealer_of_buyer(buyers[i], with_change_reference))
}

pub open spec fn spec_agreements_of(lines: Seq<ContractDataV>, end_date: Seq<char>) -> Seq<
    AgreementV,
> {
    Seq::new(lines.len(), |i: int| spec_agreement_of_line(lines[i], i + 1, end_date))
}

/// The contract a run produces: the two default references, then the
/// workflow-specific extras; the manufacturer dealer, then one dealer per
/// buyer row; one agreement per contract-line row.
pub open spec fn spec_contract_for(
    purpose: DocumentType,
    contract_number: Seq<char>,
    end_date: Seq<char>,
    outgoing: Seq<char>,
    buyers: Seq<EndBuyerDataV>,
    lines: Seq<ContractDataV>,
) -> ContractV {
    ContractV {
        contract_id: contract_number,
        references: spec_base_references(contract_number) + (
        if spec_full_handling(purpose) && outgoing.len() > 0 {
            seq![
                ReferenceV {
                    reference_type: ReferenceType::MutuallyDefined.spec_code(),
                    reference: outgoing,
                },
            ]
        } else {
            Seq::<ReferenceV>::empty()
        }),
        dealers: seq![spec_manufacturer_dealer()] + (if spec_reads_rows(purpose) {
            spec_dealers_of(buyers, spec_full_handling(purpose))
        } else {
            Seq::<DealerV>::empty()
        }),
        agreements: if spec_reads_rows(purpose) {
            spec_agreements_of(lines, end_date)
        } else {
            Seq::<AgreementV>::empty()
        },
    }
}

/// The document-level dates: ContractEffective is always the start date; a
/// supplied new end date becomes ContractExpiration with the original end
/// date as ContractPriorExpiration; otherwise the original end date is the
/// ContractExpiration. All normalized.
pub open spec fn spec_document_datetimes(
    start_date: Seq<char>,
    end_date: Seq<char>,
    new_end_date: Seq<char>,
) -> Seq<DatetimeV> {
    if new_end_date.len() > 0 {
        seq![
            DatetimeV {
                datetime_type: DatetimeType::ContractEffective.spec_code(),
                datetime: spec_normalize_date(start_date),
            },
            DatetimeV {
                datetime_type: DatetimeType::ContractExpiration.spec_code(),
                datetime: spec_normalize_date(new_end_date),
            },
            DatetimeV {
                datetime_type: DatetimeType::ContractPriorExpiration.spec_code(),
                datetime: spec_normalize_date(end_date),
            },
        ]
    } else {
        seq![
            DatetimeV {
                datetime_type: DatetimeType::ContractEffective.spec_code(),
                datetime: spec_normalize_date(start_date),
            },
            DatetimeV {
                datetime_type: DatetimeType::ContractExpiration.spec_code(),
                datetime: spec_normalize_date(end_date),
            },
        ]
    }
}

/// The error, if any, a run with these parameters fails with: a missing new
/// end date for Renew/Cancel, an unparsable date, or a violated date-order
/// rule. Workflows other than Renew and Cancel never fail.
pub open spec fn spec_build_error(
    purpose: DocumentType,
    end_date: Seq<char>,
    new_end_date: Seq<char>,
) -> Option<BuildError> {
    if purpose == DocumentType::Renew || purpose == DocumentType::Cancel {
        if new_end_date.len() == 0 {
            Some(BuildError::MissingNewEndDate)
        } else {
            let end_parsed = iso_date_of(spec_normalize_date(end_date));
            let new_parsed = iso_date_of(spec_normalize_date(new_end_date));
            if end_parsed is None {
                Some(BuildError::InvalidEndDate)
            } else if new_parsed is None {
                Some(BuildError::InvalidNewEndDate)
            } else if purpose == DocumentType::Renew && !spec_ymd_lt(
                end_parsed->0,
                new_parsed->0,
            ) {
                Some(BuildError::NewEndDateNotLater)
            } else if purpose == DocumentType::Cancel && !spec_ymd_lt(
                new_parsed->0,
                end_parsed->0,
            ) {
                Some(BuildError::NewEndDateNotEarlier)
            } else {
                None
            }
        }
    } else {
        None
    }
}

/// Builds the one document of a run. Renew and Cancel read no rows and only
/// validate their dates; the row-reading workflows translate every row.
pub fn build_document(
    purpose: DocumentType,
    contract_number: &str,
    start_date: &str,
    end_date: &str,
    new_end_date_if_any: &str,
    outgoing_contract_number_if_any: &str,
    buyers: &Vec<EndBuyerData>,
    contract_lines: &Vec<ContractData>,
) -> (r: Result<Document, BuildError>)
    requires
        contract_lines@.len() <= i32::MAX as int,
    ensures
        (r is Err) == (spec_build_error(purpose, end_date@, new_end_date_if_any@) is Some),
        r is Err ==> spec_build_error(purpose, end_date@, new_end_date_if_any@) == Some(r->Err_0),
        r is Ok ==> {
            let d = r->Ok_0;
            &&& d@.document_type == purpose.spec_code()
            &&& 111111111 <= d@.control_number <= 999999999
            &&& spec_digits_1_9(d@.control_number as nat)
            &&& d@.datetimes == spec_document_datetimes(
                start_date@,
                end_date@,
                new_end_date_if_any@,
            )
            &&& d@.contracts == seq![
                spec_contract_for(
                    purpose,
                    contract_number@,
                    end_date@,
                    outgoing_contract_number_if_any@,
                    buyers.deep_view(),
                    contract_lines.deep_view(),
                ),
            ]
        },
{
    let is_renew_or_cancel = match purpose {
        DocumentType::Renew => true,
        DocumentType::Cancel => true,
        _ => false,
    };
    if is_renew_or_cancel && new_end_date_if_any.is_empty() {
        return Err(BuildError::MissingNewEndDate);
    }
    if is_renew_or_cancel {
        let end_normalized = normalize_date(end_date);
        let new_end_normalized = normalize_date(new_end_date_if_any);
        let end_parsed = match parse_iso_date(end_normalized.as_str()) {
            Some(d) => d,
            None => {
                return Err(BuildError::InvalidEndDate);
            },
        };
        let new_parsed = match parse_iso_date(new_end_normalized.as_str()) {
            Some(d) => d,
            None => {
                return Err(BuildError::InvalidNewEndDate);
            },
        };
        let is_renew = match purpose {
            DocumentType::Renew => true,
            _ => false,
        };
        if is_renew && !ymd_lt(end_parsed, new_parsed) {
            return Err(BuildError::NewEndDateNotLater);
        }
        if !is_renew && !ymd_lt(new_parsed, end_parsed) {
            return Err(BuildError::NewEndDateNotEarlier);
        }
    }
    let mut document = Document::new(purpose);
    let start_normalized = normalize_date(start_date);
    document.add_datetime(Datetime::new(DatetimeType::ContractEffective, start_normalized.as_str()));
    if !new_end_date_if_any.is_empty() {
        let new_end_normalized = normalize_date(new_end_date_if_any);
        let end_normalized = normalize_date(end_date);
        document.add_datetime(
            Datetime::new(DatetimeType::ContractExpiration, new_end_normalized.as_str()),
        );
        document.add_datetime(
            Datetime::new(DatetimeType::ContractPriorExpiration, end_normalized.as_str()),
        );
    } else {
        let end_normalized = normalize_date(end_date);
        document.add_datetime(
            Datetime::new(DatetimeType::ContractExpiration, end_normalized.as_str()),
        );
    }
    proof {
        assert(document@.datetimes =~~= spec_document_datetimes(
            start_date@,
            end_date@,
            new_end_date_if_any@,
        ));
    }
    let mut contract = Contract::new(contract_number);
    let reads_rows = match purpose {
        DocumentType::New => true,
        DocumentType::Change => true,
        DocumentType::Resubmit => true,
        _ => false,
    };
    let full_handling = match purpose {
        DocumentType::New => true,
        DocumentType::Resubmit => true,
        _ => false,
    };
    if full_handling && !outgoing_contract_number_if_any.is_empty() {
        contract.add_reference(ReferenceType::MutuallyDefined, outgoing_contract_number_if_any);
    }
    proof {
        assert(contract@.references =~~= spec_contract_for(
            purpose,
            contract_number@,
            end_date@,
            outgoing_contract_number_if_any@,
            buyers.deep_view(),
            contract_lines.deep_view(),
        ).references);
    }
    if reads_rows {
        let ghost buyers_v = buyers.deep_view();
        let mut i: usize = 0;
        while i < buyers.len()
            invariant
                0 <= i <= buyers.len(),
                buyers_v == buyers.deep_view(),
                buyers_v.len() == buyers@.len(),
                contract@.dealers =~~= seq![spec_manufacturer_dealer()] + spec_dealers_of(
                    buyers_v.take(i as int),
                    full_handling,
                ),
                contract@.contract_id == contract_number@,
                contract@.references == spec_contract_for(
                    purpose,
                    contract_number@,
                    end_date@,
                    outgoing_contract_number_if_any@,
                    buyers.deep_view(),
                    contract_lines.deep_view(),
                ).references,
                contract@.agreements == Seq::<AgreementV>::empty(),
            decreases buyers.len() - i,
        {
            let dealer = dealer_from_buyer(&buyers[i], full_handling);
            contract.add_dealer(dealer);
            proof {
                assert(buyers_v[i as int] == buyers@[i as int]@);
                assert(spec_dealers_of(buyers_v.take(i + 1), full_handling) =~= spec_dealers_of(
                    buyers_v.take(i as int),
                    full_handling,
                ).push(spec_dealer_of_buyer(buyers_v[i as int], full_handling)));
            }
            i = i + 1;
        }
        proof {
            assert(buyers_v.take(buyers_v.len() as int) =~= buyers_v);
        }
        let ghost lines_v = contract_lines.deep_view();
        let mut j: usize = 0;
        while j < contract_lines.len()
            invariant
                0 <= j <= contract_lines.len(),
                contract_lines@.len() <= i32::MAX as int,
                lines_v == contract_lines.deep_view(),
                lines_v.len() == contract_lines@.len(),
                contract@.agreements =~~= spec_agreements_of(lines_v.take(j as int), end_date@),
                contract@.dealers == seq![spec_manufacturer_dealer()] + spec_dealers_of(
                    buyers_v,
                    full_handling,
                ),
                contract@.contract_id == contract_number@,
                contract@.references == spec_contract_for(
                    purpose,
                    contract_number@,
                    end_date@,
                    outgoing_contract_number_if_any@,
                    buyers.deep_view(),
                    contract_lines.deep_view(),
                ).references,
            decreases contract_lines.len() - j,
        {
            let line_number: i32 = (j as i32) + 1;
            let agreement = agreement_from_line(&contract_lines[j], line_number, end_date);
            contract.add_agreement(agreement);
            proof {
                assert(lines_v[j as int] == contract_lines@[j as int]@);
                assert(spec_agreements_of(lines_v.take(j + 1), end_date@) =~= spec_agreements_of(
                    lines_v.take(j as int),
                    end_date@,
                ).push(spec_agreement_of_line(lines_v[j as int], j + 1, end_date@)));
            }
            j = j + 1;
        }
        proof {
            assert(lines_v.take(lines_v.len() as int) =~= lines_v);
        }
    }
    proof {
        assert(contract@ =~~= spec_contract_for(
            purpose,
            contract_number@,
            end_date@,
            outgoing_contract_number_if_any@,
            buyers.deep_view(),
            contract_lines.deep_view(),
        ));
    }
    document.add_contract(contract);
    proof {
        assert(document@.contracts =~~= seq![
            spec_contract_for(
                purpose,
                contract_number@,
                end_date@,
                outgoing_contract_number_if_any@,
                buyers.deep_view(),
                contract_lines.deep_view(),
            ),
        ]);
    }
    Ok(document)
}

/// New and Resubmit, given identical inputs, produce identical contract
/// sub-trees; the two workflows differ only in the document type code,
/// "00" against "18". The document-level dates do not depend on the
/// workflow at all.
pub proof fn lemma_new_resubmit_agree(
    contract_number: Seq<char>,
    end_date: Seq<char>,
    outgoing: Seq<char>,
    buyers: Seq<EndBuyerDataV>,
    lines: Seq<ContractDataV>,
)
    ensures
        spec_contract_for(DocumentType::New, contract_number, end_date, outgoing, buyers, lines)
            == spec_contract_for(
            DocumentType::Resubmit,
            contract_number,
            end_date,
            outgoing,
            buyers,
            lines,
        ),
        DocumentType::New.spec_code() != DocumentType::Resubmit.spec_code(),
{
    assert(spec_contract_for(
        DocumentType::New,
        contract_number,
        end_date,
        outgoing,
        buyers,
        lines,
    ) =~~= spec_contract_for(
        DocumentType::Resubmit,
        contract_number,
        end_date,
        outgoing,
        buyers,
        lines,
    ));
    reveal_strlit("00");
    reveal_strlit("18");
    assert(DocumentType::New.spec_code()[0] == '0');
    assert(DocumentType::Resubmit.spec_code()[0] == '1');
}

/// Whatever the workflow, a contract's reference list starts with exactly
/// the two default references: the fixed contract type and the buyer's
/// contract number.
pub proof fn lemma_references_start_with_defaults(
    purpose: DocumentType,
    contract_number: Seq<char>,
    end_date: Seq<char>,
    outgoing: Seq<char>,
    buyers: Seq<EndBuyerDataV>,
    lines: Seq<ContractDataV>,
)
    ensures
        ({
            let c = spec_contract_for(purpose, contract_number, end_date, outgoing, buyers, lines);
            &&& c.references.len() >= 2
            &&& c.references.take(2) == spec_base_references(contract_number)
        }),
{
    let c = spec_contract_for(purpose, contract_number, end_date, outgoing, buyers, lines);
    assert(c.references.take(2) =~~= spec_base_references(contract_number));
}

/// A Change run handed no rows at all produces the same minimal contract
/// shape as Renew and Cancel: only the two default references, the default
/// manufacturer dealer, and no agreements.
pub proof fn lemma_change_empty_is_minimal(
    contract_number: Seq<char>,
    end_date: Seq<char>,
    outgoing: Seq<char>,
)
    ensures
        spec_contract_for(
            DocumentType::Change,
            contract_number,
            end_date,
            outgoing,
            Seq::<EndBuyerDataV>::empty(),
            Seq::<ContractDataV>::empty(),
        ) == spec_contract_for(
            DocumentType::Renew,
            contract_number,
            end_date,
            outgoing,
            Seq::<EndBuyerDataV>::empty(),
            Seq::<ContractDataV>::empty(),
        ),
        spec_contract_for(
            DocumentType::Change,
            contract_number,
            end_date,
            outgoing,
            Seq::<EndBuyerDataV>::empty(),
            Seq::<ContractDataV>::empty(),
        ).references == spec_base_references(contract_number),
        spec_contract_for(
            DocumentType::Change,
            contract_number,
            end_date,
            outgoing,
            Seq::<EndBuyerDataV>::empty(),
            Seq::<ContractDataV>::empty(),
        ).dealers == seq![spec_manufacturer_dealer()],
        spec_contract_for(
            DocumentType::Change,
            contract_number,
            end_date,
            outgoing,
            Seq::<EndBuyerDataV>::empty(),
            Seq::<ContractDataV>::empty(),
        ).agreements == Seq::<AgreementV>::empty(),
{
    let change = spec_contract_for(
        DocumentType::Change,
        contract_number,
        end_date,
        outgoing,
        Seq::<EndBuyerDataV>::empty(),
        Seq::<ContractDataV>::empty(),
    );
    let renew = spec_contract_for(
        DocumentType::Renew,
        contract_number,
        end_date,
        outgoing,
        Seq::<EndBuyerDataV>::empty(),
        Seq::<ContractDataV>::empty(),
    );
    assert(change =~~= renew);
    assert(change.references =~~= spec_base_references(contract_number));
    assert(change.dealers =~~= seq![spec_manufacturer_dealer()]);
    assert(change.agreements =~~= Seq::<AgreementV>::empty());
}

} // verus!
