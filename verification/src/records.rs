//! Typed views of the two tabular input record shapes: buyer rows and
//! contract-line rows. Missing optional fields arrive as empty strings.

use vstd::prelude::*;

verus! {

/// One buyer row: a party to attach to the contract as a dealer.
#[derive(Clone, Debug, PartialEq)]
pub struct EndBuyerData {
    pub name: String,
    pub id: String,
    pub address: String,
    pub city: String,
    pub state: String,
    pub zipcode: String,
    pub change: String,
    pub start: String,
    pub end: String,
}

#[verifier::ext_equal]
pub ghost struct EndBuyerDataV {
    pub name: Seq<char>,
    pub id: Seq<char>,
    pub address: Seq<char>,
    pub city: Seq<char>,
    pub state: Seq<char>,
    pub zipcode: Seq<char>,
    pub change: Seq<char>,
    pub start: Seq<char>,
    pub end: Seq<char>,
}

impl View for EndBuyerData {
    type V = EndBuyerDataV;

    open spec fn view(&self) -> EndBuyerDataV {
        EndBuyerDataV {
            name: self.name@,
            id: self.id@,
            address: self.address@,
            city: self.city@,
            state: self.state@,
            zipcode: self.zipcode@,
            change: self.change@,
            start: self.start@,
            end: self.end@,
        }
    }
}

impl DeepView for EndBuyerData {
    type V = EndBuyerDataV;

    open spec fn deep_view(&self) -> EndBuyerDataV {
        self.view()
    }
}

/// One contract-line row: an item, its price as decimal text, and its dates.
#[derive(Clone, Debug, PartialEq)]
pub struct ContractData {
    pub part: String,
    pub price: String,
    pub description: String,
    pub start: String,
    pub end: String,
    pub purpose: String,
}

#[verifier::ext_equal]
pub ghost struct ContractDataV {
    pub part: Seq<char>,
    pub price: Seq<char>,
    pub description: Seq<char>,
    pub start: Seq<char>,
    pub end: Seq<char>,
    pub purpose: Seq<char>,
}

impl View for ContractData {
    type V = ContractDataV;

    open spec fn view(&self) -> ContractDataV {
        ContractDataV {
            part: self.part@,
            price: self.price@,
            description: self.description@,
            start: self.start@,
            end: self.end@,
            purpose: self.purpose@,
        }
    }
}

impl DeepView for ContractData {
    type V = ContractDataV;

    open spec fn deep_view(&self) -> ContractDataV {
        self.view()
    }
}

} // verus!
