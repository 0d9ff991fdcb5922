//! The canonical document model: Payload -> Document -> Contract ->
//! {Dealer, Agreement}, with append-only builders.
//!
//! Every type has a ghost view (`...V`) over `Seq<char>` and `int`, and every
//! builder states in its contract exactly what the view of the result is.

use vstd::prelude::*;

use crate::codes::{DatetimeType, DealerType, DocumentType, IdentifierType, ReferenceType};
use crate::control_number::{lemma_control_number_value, spec_digits_1_9, ControlNumber};

verus! {

/// A (type-code, value) cross-reference pair.
#[derive(Clone, Debug, PartialEq)]
pub struct Reference {
    pub reference_type: String,
    pub reference: String,
}

#[verifier::ext_equal]
pub ghost struct ReferenceV {
    pub reference_type: Seq<char>,
    pub reference: Seq<char>,
}

impl View for Reference {
    type V = ReferenceV;

    open spec fn view(&self) -> ReferenceV {
        ReferenceV { reference_type: self.reference_type@, reference: self.reference@ }
    }
}

impl DeepView for Reference {
    type V = ReferenceV;

    open spec fn deep_view(&self) -> ReferenceV {
        self.view()
    }
}

/// A (type-code, date string) pair.
#[derive(Clone, Debug, PartialEq)]
pub struct Datetime {
    pub datetime_type: String,
    pub datetime: String,
}

#[verifier::ext_equal]
pub ghost struct DatetimeV {
    pub datetime_type: Seq<char>,
    pub datetime: Seq<char>,
}

impl View for Datetime {
    type V = DatetimeV;

    open spec fn view(&self) -> DatetimeV {
        DatetimeV { datetime_type: self.datetime_type@, datetime: self.datetime@ }
    }
}

impl DeepView for Datetime {
    type V = DatetimeV;

    open spec fn deep_view(&self) -> DatetimeV {
        self.view()
    }
}

/// A dealer's postal address; all fields are empty strings when absent.
#[derive(Clone, Debug, PartialEq)]
pub struct Address {
    pub addr1: String,
    pub city: String,
    pub state: String,
    pub zip: String,
}

#[verifier::ext_equal]
pub ghost struct AddressV {
    pub addr1: Seq<char>,
    pub city: Seq<char>,
    pub state: Seq<char>,
    pub zip: Seq<char>,
}

impl View for Address {
    type V = AddressV;

    open spec fn view(&self) -> AddressV {
        AddressV { addr1: self.addr1@, city: self.city@, state: self.state@, zip: self.zip@ }
    }
}

/// The view of an address whose every field is empty.
pub open spec fn spec_empty_address() -> AddressV {
    AddressV {
        addr1: Seq::<char>::empty(),
        city: Seq::<char>::empty(),
        state: Seq::<char>::empty(),
        zip: Seq::<char>::empty(),
    }
}

/// One free-text description attached to an agreement.
#[derive(Clone, Debug, PartialEq)]
pub struct Detail {
    pub description: String,
}

#[verifier::ext_equal]
pub ghost struct DetailV {
    pub description: Seq<char>,
}

impl View for Detail {
    type V = DetailV;

    open spec fn view(&self) -> DetailV {
        DetailV { description: self.description@ }
    }
}

impl DeepView for Detail {
    type V = DetailV;

    open spec fn deep_view(&self) -> DetailV {
        self.view()
    }
}

/// A line-number / item-id pair attached to an agreement.
#[derive(Clone, Debug, PartialEq)]
pub struct Line {
    pub line_number: i32,
    pub item_id: String,
}

#[verifier::ext_equal]
pub ghost struct LineV {
    pub line_number: int,
    pub item_id: Seq<char>,
}

impl View for Line {
    type V = LineV;

    open spec fn view(&self) -> LineV {
        LineV { line_number: self.line_number as int, item_id: self.item_id@ }
    }
}

impl DeepView for Line {
    type V = LineV;

    open spec fn deep_view(&self) -> LineV {
        self.view()
    }
}

/// One pricing entry: a decimal price rendered as text, a quantity, a
/// unit-of-measure code, and its effective/expiration dates.
#[derive(Clone, Debug, PartialEq)]
pub struct Pricing {
    pub price: String,
    pub quantity: i32,
    pub uom: String,
    pub datetimes: Vec<Datetime>,
}

#[verifier::ext_equal]
pub ghost struct PricingV {
    pub price: Seq<char>,
    pub quantity: int,
    pub uom: Seq<char>,
    pub datetimes: Seq<DatetimeV>,
}

impl View for Pricing {
    type V = PricingV;

    open spec fn view(&self) -> PricingV {
        PricingV {
            price: self.price@,
            quantity: self.quantity as int,
            uom: self.uom@,
            datetimes: self.datetimes.deep_view(),
        }
    }
}

impl DeepView for Pricing {
    type V = PricingV;

    open spec fn deep_view(&self) -> PricingV {
        self.view()
    }
}

/// A buying-group, end-user, or manufacturer party on a contract.
#[derive(Clone, Debug, PartialEq)]
pub struct Dealer {
    pub group_type: String,
    pub group_name: String,
    pub id_type: String,
    pub id: String,
    pub address: Address,
    pub references: Vec<Reference>,
    pub datetimes: Vec<Datetime>,
}

#[verifier::ext_equal]
pub ghost struct DealerV {
    pub group_type: Seq<char>,
    pub group_name: Seq<char>,
    pub id_type: Seq<char>,
    pub id: Seq<char>,
    pub address: AddressV,
    pub references: Seq<ReferenceV>,
    pub datetimes: Seq<DatetimeV>,
}

impl View for Dealer {
    type V = DealerV;

    open spec fn view(&self) -> DealerV {
        DealerV {
            group_type: self.group_type@,
            group_name: self.group_name@,
            id_type: self.id_type@,
            id: self.id@,
            address: self.address@,
            references: self.references.deep_view(),
            datetimes: self.datetimes.deep_view(),
        }
    }
}

impl DeepView for Dealer {
    type V = DealerV;

    open spec fn deep_view(&self) -> DealerV {
        self.view()
    }
}

/// One contract line under amendment.
#[derive(Clone, Debug, PartialEq)]
pub struct Agreement {
    pub line_number: i32,
    pub reference: String,
    pub details: Vec<Detail>,
    pub line_information: Vec<Line>,
    pub pricing: Vec<Pricing>,
}

#[verifier::ext_equal]
pub ghost struct AgreementV {
    pub line_number: int,
    pub reference: Seq<char>,
    pub details: Seq<DetailV>,
    pub line_information: Seq<LineV>,
    pub pricing: Seq<PricingV>,
}

impl View for Agreement {
    type V = AgreementV;

    open spec fn view(&self) -> AgreementV {
        AgreementV {
            line_number: self.line_number as int,
            reference: self.reference@,
            details: self.details.deep_view(),
            line_information: self.line_information.deep_view(),
            pricing: self.pricing.deep_view(),
        }
    }
}

impl DeepView for Agreement {
    type V = AgreementV;

    open spec fn deep_view(&self) -> AgreementV {
        self.view()
    }
}

/// One contract under amendment.
#[derive(Clone, Debug, PartialEq)]
pub struct Contract {
    pub contract_id: String,
    pub references: Vec<Reference>,
    pub dealers: Vec<Dealer>,
    pub agreements: Vec<Agreement>,
}

#[verifier::ext_equal]
pub ghost struct ContractV {
    pub contract_id: Seq<char>,
    pub references: Seq<ReferenceV>,
    pub dealers: Seq<DealerV>,
    pub agreements: Seq<AgreementV>,
}

impl View for Contract {
    type V = ContractV;

    open spec fn view(&self) -> ContractV {
        ContractV {
            contract_id: self.contract_id@,
            references: self.references.deep_view(),
            dealers: self.dealers.deep_view(),
            agreements: self.agreements.deep_view(),
        }
    }
}

impl DeepView for Contract {
    type V = ContractV;

    open spec fn deep_view(&self) -> ContractV {
        self.view()
    }
}

/// One amendment filing.
#[derive(Clone, Debug, PartialEq)]
pub struct Document {
    pub document_type: String,
    pub control_number: i32,
    pub datetimes: Vec<Datetime>,
    pub contracts: Vec<Contract>,
}

#[verifier::ext_equal]
pub ghost struct DocumentV {
    pub document_type: Seq<char>,
    pub control_number: int,
    pub datetimes: Seq<DatetimeV>,
    pub contracts: Seq<ContractV>,
}

impl View for Document {
    type V = DocumentV;

    open spec fn view(&self) -> DocumentV {
        DocumentV {
            document_type: self.document_type@,
            control_number: self.control_number as int,
            datetimes: self.datetimes.deep_view(),
            contracts: self.contracts.deep_view(),
        }
    }
}

impl DeepView for Document {
    type V = DocumentV;

    open spec fn deep_view(&self) -> DocumentV {
        self.view()
    }
}

/// The root of serialization: the ordered documents of one run.
#[derive(Clone, Debug, PartialEq)]
pub struct Payload {
    pub documents: Vec<Document>,
}

#[verifier::ext_equal]
pub ghost struct PayloadV {
    pub documents: Seq<DocumentV>,
}

impl View for Payload {
    type V = PayloadV;

    open spec fn view(&self) -> PayloadV {
        PayloadV { documents: self.documents.deep_view() }
    }
}

impl Reference {
    pub fn new(reference_type: ReferenceType, reference: &str) -> (r: Self)
        ensures
            r@ == (ReferenceV { reference_type: reference_type.spec_code(), reference: reference@ }),
    {
        Self { reference_type: reference_type.to_string(), reference: String::from_str(reference) }
    }
}

impl Datetime {
    pub fn new(datetime_type: DatetimeType, datetime: &str) -> (r: Self)
        ensures
            r@ == (DatetimeV { datetime_type: datetime_type.spec_code(), datetime: datetime@ }),
    {
        Self { datetime_type: datetime_type.to_string(), datetime: String::from_str(datetime) }
    }
}

impl Address {
    pub fn new(addr1: &str, city: &str, state: &str, zip: &str) -> (r: Self)
        ensures
            r@ == (AddressV { addr1: addr1@, city: city@, state: state@, zip: zip@ }),
    {
        Self {
            addr1: String::from_str(addr1),
            city: String::from_str(city),
            state: String::from_str(state),
            zip: String::from_str(zip),
        }
    }
}

impl Dealer {
    pub fn new(group_type: DealerType, group_name: &str, id_type: IdentifierType, id: &str) -> (r:
        Self)
        ensures
            r@ == (DealerV {
                group_type: group_type.spec_code(),
                group_name: group_name@,
                id_type: id_type.spec_code(),
                id: id@,
                address: spec_empty_address(),
                references: Seq::<ReferenceV>::empty(),
                datetimes: Seq::<DatetimeV>::empty(),
            }),
    {
        let r = Self {
            group_type: group_type.to_string(),
            group_name: String::from_str(group_name),
            id_type: id_type.to_string(),
            id: String::from_str(id),
            address: Address {
                addr1: String::new(),
                city: String::new(),
                state: String::new(),
                zip: String::new(),
            },
            references: Vec::new(),
            datetimes: Vec::new(),
        };
        proof {
            assert(r@ =~~= (DealerV {
                group_type: group_type.spec_code(),
                group_name: group_name@,
                id_type: id_type.spec_code(),
                id: id@,
                address: spec_empty_address(),
                references: Seq::<ReferenceV>::empty(),
                datetimes: Seq::<DatetimeV>::empty(),
            }));
        }
        r
    }

    pub fn set_address(&mut self, address: Address)
        ensures
            final(self)@ == (DealerV { address: address@, ..old(self)@ }),
    {
        self.address = address;
        proof {
            assert(final(self)@ =~~= (DealerV { address: address@, ..old(self)@ }));
        }
    }

    pub fn add_reference(&mut self, reference_type: ReferenceType, reference: &str)
        ensures
            final(self)@ == (DealerV {
                references: old(self)@.references.push(
                    ReferenceV {
                        reference_type: reference_type.spec_code(),
                        reference: reference@,
                    },
                ),
                ..old(self)@
            }),
    {
        self.references.push(
            Reference {
                reference_type: reference_type.to_string(),
                reference: String::from_str(reference),
            },
        );
        proof {
            assert(final(self)@ =~~= (DealerV {
                references: old(self)@.references.push(
                    ReferenceV {
                        reference_type: reference_type.spec_code(),
                        reference: reference@,
                    },
                ),
                ..old(self)@
            }));
        }
    }

    pub fn add_datetime(&mut self, datetime: Datetime)
        ensures
            final(self)@ == (DealerV {
                datetimes: old(self)@.datetimes.push(datetime@),
                ..old(self)@
            }),
    {
        self.datetimes.push(datetime);
        proof {
            assert(final(self)@ =~~= (DealerV {
                datetimes: old(self)@.datetimes.push(datetime@),
                ..old(self)@
            }));
        }
    }
}

impl Pricing {
    pub fn new(price: &str, quantity: i32, uom: &str, start: &str, end: &str) -> (r: Self)
        ensures
            r@ == (PricingV {
                price: price@,
                quantity: quantity as int,
                uom: uom@,
                datetimes: seq![
                    DatetimeV {
                        datetime_type: DatetimeType::AgreementEffective.spec_code(),
                        datetime: start@,
                    },
                    DatetimeV {
                        datetime_type: DatetimeType::AgreementExpiration.spec_code(),
                        datetime: end@,
                    },
                ],
            }),
    {
        let mut datetimes: Vec<Datetime> = Vec::new();
        datetimes.push(Datetime::new(DatetimeType::AgreementEffective, start));
        datetimes.push(Datetime::new(DatetimeType::AgreementExpiration, end));
        let r = Self { price: String::from_str(price), quantity, uom: String::from_str(uom), datetimes };
        proof {
            assert(r@ =~~= (PricingV {
                price: price@,
                quantity: quantity as int,
                uom: uom@,
                datetimes: seq![
                    DatetimeV {
                        datetime_type: DatetimeType::AgreementEffective.spec_code(),
                        datetime: start@,
                    },
                    DatetimeV {
                        datetime_type: DatetimeType::AgreementExpiration.spec_code(),
                        datetime: end@,
                    },
                ],
            }));
        }
        r
    }
}

impl Agreement {
    pub fn new(line_number: &i32, reference: &str) -> (r: Self)
        ensures
            r@ == (AgreementV {
                line_number: *line_number as int,
                reference: reference@,
                details: Seq::<DetailV>::empty(),
                line_information: Seq::<LineV>::empty(),
                pricing: Seq::<PricingV>::empty(),
            }),
    {
        let r = Self {
            line_number: *line_number,
            reference: String::from_str(reference),
            details: Vec::new(),
            line_information: Vec::new(),
            pricing: Vec::new(),
        };
        proof {
            assert(r@ =~~= (AgreementV {
                line_number: *line_number as int,
                reference: reference@,
                details: Seq::<DetailV>::empty(),
                line_information: Seq::<LineV>::empty(),
                pricing: Seq::<PricingV>::empty(),
            }));
        }
        r
    }

    pub fn add_detail(&mut self, description: &str)
        ensures
            final(self)@ == (AgreementV {
                details: old(self)@.details.push(DetailV { description: description@ }),
                ..old(self)@
            }),
    {
        self.details.push(Detail { description: String::from_str(description) });
        proof {
            assert(final(self)@ =~~= (AgreementV {
                details: old(self)@.details.push(DetailV { description: description@ }),
                ..old(self)@
            }));
        }
    }

    pub fn add_line(&mut self, line_number: &i32, item_id: &str)
        ensures
            final(self)@ == (AgreementV {
                line_information: old(self)@.line_information.push(
                    LineV { line_number: *line_number as int, item_id: item_id@ },
                ),
                ..old(self)@
            }),
    {
        self.line_information.push(
            Line { line_number: *line_number, item_id: String::from_str(item_id) },
        );
        proof {
            assert(final(self)@ =~~= (AgreementV {
                line_information: old(self)@.line_information.push(
                    LineV { line_number: *line_number as int, item_id: item_id@ },
                ),
                ..old(self)@
            }));
        }
    }

    pub fn add_pricing(&mut self, pricing: Pricing)
        ensures
            final(self)@ == (AgreementV {
                pricing: old(self)@.pricing.push(pricing@),
                ..old(self)@
            }),
    {
        self.pricing.push(pricing);
        proof {
            assert(final(self)@ =~~= (AgreementV {
                pricing: old(self)@.pricing.push(pricing@),
                ..old(self)@
            }));
        }
    }
}

/// The fixed manufacturer party that opens every dealer list.
pub open spec fn spec_manufacturer_dealer() -> DealerV {
    DealerV {
        group_type: DealerType::Manufacturer.spec_code(),
        group_name: "BUSSE HOSPITAL DISPOSABLES"@,
        id_type: IdentifierType::Duns.spec_code(),
        id: "0849233000001"@,
        address: spec_empty_address(),
        references: Seq::<ReferenceV>::empty(),
        datetimes: Seq::<DatetimeV>::empty(),
    }
}

/// The two references every contract starts with: the fixed contract type and
/// the buyer's contract number.
pub open spec fn spec_base_references(contract_id: Seq<char>) -> Seq<ReferenceV> {
    seq![
        ReferenceV { reference_type: ReferenceType::ContractType.spec_code(), reference: "LOI"@ },
        ReferenceV {
            reference_type: ReferenceType::BuyersContractNumber.spec_code(),
            reference: contract_id,
        },
    ]
}

impl Contract {
    pub fn new(contract_id: &str) -> (r: Self)
        ensures
            r@ == (ContractV {
                contract_id: contract_id@,
                references: spec_base_references(contract_id@),
                dealers: seq![spec_manufacturer_dealer()],
                agreements: Seq::<AgreementV>::empty(),
            }),
    {
        let mut references: Vec<Reference> = Vec::new();
        references.push(Reference::new(ReferenceType::ContractType, "LOI"));
        references.push(Reference::new(ReferenceType::BuyersContractNumber, contract_id));
        let mut dealers: Vec<Dealer> = Vec::new();
        dealers.push(
            Dealer::new(
                DealerType::Manufacturer,
                "BUSSE HOSPITAL DISPOSABLES",
                IdentifierType::Duns,
                "0849233000001",
            ),
        );
        let r = Self {
            contract_id: String::from_str(contract_id),
            references,
            dealers,
            agreements: Vec::new(),
        };
        proof {
            assert(r@ =~~= (ContractV {
                contract_id: contract_id@,
                references: spec_base_references(contract_id@),
                dealers: seq![spec_manufacturer_dealer()],
                agreements: Seq::<AgreementV>::empty(),
            }));
        }
        r
    }

    pub fn add_reference(&mut self, reference_type: ReferenceType, reference: &str)
        ensures
            final(self)@ == (ContractV {
                references: old(self)@.references.push(
                    ReferenceV {
                        reference_type: reference_type.spec_code(),
                        reference: reference@,
                    },
                ),
                ..old(self)@
            }),
    {
        self.references.push(
            Reference {
                reference_type: reference_type.to_string(),
                reference: String::from_str(reference),
            },
        );
        proof {
            assert(final(self)@ =~~= (ContractV {
                references: old(self)@.references.push(
                    ReferenceV {
                        reference_type: reference_type.spec_code(),
                        reference: reference@,
                    },
                ),
                ..old(self)@
            }));
        }
    }

    pub fn add_dealer(&mut self, dealer: Dealer)
        ensures
            final(self)@ == (ContractV { dealers: old(self)@.dealers.push(dealer@), ..old(self)@ }),
    {
        self.dealers.push(dealer);
        proof {
            assert(final(self)@ =~~= (ContractV {
                dealers: old(self)@.dealers.push(dealer@),
                ..old(self)@
            }));
        }
    }

    pub fn add_agreement(&mut self, agreement: Agreement)
        ensures
            final(self)@ == (ContractV {
                agreements: old(self)@.agreements.push(agreement@),
                ..old(self)@
            }),
    {
        self.agreements.push(agreement);
        proof {
            assert(final(self)@ =~~= (ContractV {
                agreements: old(self)@.agreements.push(agreement@),
                ..old(self)@
            }));
        }
    }
}

impl Document {
    /// Opens a fresh document of the given type under a newly drawn control
    /// number; the number is random, but always reads as nine digits drawn
    /// from 1 through 9.
    pub fn new(document_type: DocumentType) -> (r: Self)
        ensures
            r@.document_type == document_type.spec_code(),
            111111111 <= r@.control_number <= 999999999,
            spec_digits_1_9(r@.control_number as nat),
            r@.datetimes == Seq::<DatetimeV>::empty(),
            r@.contracts == Seq::<ContractV>::empty(),
    {
        let generated = ControlNumber::create();
        let control_number = ControlNumber::to_i32(generated.as_str());
        proof {
            lemma_control_number_value(generated@);
        }
        let r = Self {
            document_type: document_type.to_string(),
            control_number,
            datetimes: Vec::new(),
            contracts: Vec::new(),
        };
        proof {
            assert(r@.datetimes =~~= Seq::<DatetimeV>::empty());
            assert(r@.contracts =~~= Seq::<ContractV>::empty());
        }
        r
    }

    pub fn add_datetime(&mut self, datetime: Datetime)
        ensures
            final(self)@ == (DocumentV {
                datetimes: old(self)@.datetimes.push(datetime@),
                ..old(self)@
            }),
    {
        self.datetimes.push(datetime);
        proof {
            assert(final(self)@ =~~= (DocumentV {
                datetimes: old(self)@.datetimes.push(datetime@),
                ..old(self)@
            }));
        }
    }

    pub fn add_contract(&mut self, contract: Contract)
        ensures
            final(self)@ == (DocumentV {
                contracts: old(self)@.contracts.push(contract@),
                ..old(self)@
            }),
    {
        self.contracts.push(contract);
        proof {
            assert(final(self)@ =~~= (DocumentV {
                contracts: old(self)@.contracts.push(contract@),
                ..old(self)@
            }));
        }
    }
}

impl Payload {
    pub fn new() -> (r: Self)
        ensures
            r@.documents == Seq::<DocumentV>::empty(),
    {
        let r = Self { documents: Vec::new() };
        proof {
            assert(r@.documents =~~= Seq::<DocumentV>::empty());
        }
        r
    }

    pub fn add_document(&mut self, document: Document)
        ensures
            final(self)@ == (PayloadV { documents: old(self)@.documents.push(document@) }),
    {
        self.documents.push(document);
        proof {
            assert(final(self)@ =~~= (PayloadV {
                documents: old(self)@.documents.push(document@),
            }));
        }
    }
}

} // verus!
