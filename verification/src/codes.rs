//! Enumerated type-code vocabularies of the document model, each with its
//! fixed interchange code string.

use vstd::prelude::*;

verus! {

/// The amendment workflow a run performs; doubles as the document type.
#[derive(Clone, Copy, Debug, PartialEq, Eq, Structural)]
pub enum DocumentType {
    New,
    Change,
    Resubmit,
    Renew,
    Cancel,
}

impl DocumentType {
    /// The two-digit transaction-set purpose code of this document type.
    pub open spec fn spec_code(self) -> Seq<char> {
        match self {
            DocumentType::New => "00"@,
            DocumentType::Change => "04"@,
            DocumentType::Resubmit => "18"@,
            DocumentType::Renew => "30"@,
            DocumentType::Cancel => "56"@,
        }
    }

    pub fn to_string(&self) -> (r: String)
        ensures
            r@ == self.spec_code(),
    {
        match self {
            DocumentType::New => String::from_str("00"),
            DocumentType::Change => String::from_str("04"),
            DocumentType::Resubmit => String::from_str("18"),
            DocumentType::Renew => String::from_str("30"),
            DocumentType::Cancel => String::from_str("56"),
        }
    }
}

/// The semantic role of a date attached to a document, dealer, or pricing.
#[derive(Clone, Copy, Debug, PartialEq, Eq, Structural)]
pub enum DatetimeType {
    ContractEffective,
    ContractExpiration,
    ContractPriorExpiration,
    AgreementEffective,
    AgreementExpiration,
}

impl DatetimeType {
    /// The three-digit date/time qualifier of this role.
    pub open spec fn spec_code(self) -> Seq<char> {
        match self {
            DatetimeType::ContractEffective => "092"@,
            DatetimeType::ContractExpiration => "093"@,
            DatetimeType::ContractPriorExpiration => "094"@,
            DatetimeType::AgreementEffective => "129"@,
            DatetimeType::AgreementExpiration => "130"@,
        }
    }

    pub fn to_string(&self) -> (r: String)
        ensures
            r@ == self.spec_code(),
    {
        match self {
            DatetimeType::ContractEffective => String::from_str("092"),
            DatetimeType::ContractExpiration => String::from_str("093"),
            DatetimeType::ContractPriorExpiration => String::from_str("094"),
            DatetimeType::AgreementEffective => String::from_str("129"),
            DatetimeType::AgreementExpiration => String::from_str("130"),
        }
    }
}

/// The kind of a cross-reference carried by a contract or dealer.
#[derive(Clone, Copy, Debug, PartialEq, Eq, Structural)]
pub enum ReferenceType {
    BuyersContractNumber,
    ContractType,
    MutuallyDefined,
    AddDistributor,
}

impl ReferenceType {
    /// The two-letter reference qualifier of this kind.
    pub open spec fn spec_code(self) -> Seq<char> {
        match self {
            ReferenceType::BuyersContractNumber => "BC"@,
            ReferenceType::ContractType => "CT"@,
            ReferenceType::MutuallyDefined => "ZZ"@,
            ReferenceType::AddDistributor => "TD"@,
        }
    }

    pub fn to_string(&self) -> (r: String)
        ensures
            r@ == self.spec_code(),
    {
        match self {
            ReferenceType::BuyersContractNumber => String::from_str("BC"),
            ReferenceType::ContractType => String::from_str("CT"),
            ReferenceType::MutuallyDefined => String::from_str("ZZ"),
            ReferenceType::AddDistributor => String::from_str("TD"),
        }
    }
}

/// The role a dealer party plays on a contract.
#[derive(Clone, Copy, Debug, PartialEq, Eq, Structural)]
pub enum DealerType {
    Manufacturer,
    BuyingGroup,
    EndUser,
}

impl DealerType {
    /// The two-letter entity identifier code of this role.
    pub open spec fn spec_code(self) -> Seq<char> {
        match self {
            DealerType::Manufacturer => "MF"@,
            DealerType::BuyingGroup => "BG"@,
            DealerType::EndUser => "EB"@,
        }
    }

    pub fn to_string(&self) -> (r: String)
        ensures
            r@ == self.spec_code(),
    {
        match self {
            DealerType::Manufacturer => String::from_str("MF"),
            DealerType::BuyingGroup => String::from_str("BG"),
            DealerType::EndUser => String::from_str("EB"),
        }
    }
}

/// The scheme under which a dealer's identifier was issued.
#[derive(Clone, Copy, Debug, PartialEq, Eq, Structural)]
pub enum IdentifierType {
    Duns,
    Hin,
    VendorDefined,
}

impl IdentifierType {
    /// The identification-code qualifier of this scheme.
    pub open spec fn spec_code(self) -> Seq<char> {
        match self {
            IdentifierType::Duns => "UL"@,
            IdentifierType::Hin => "21"@,
            IdentifierType::VendorDefined => "92"@,
        }
    }

    pub fn to_string(&self) -> (r: String)
        ensures
            r@ == self.spec_code(),
    {
        match self {
            IdentifierType::Duns => String::from_str("UL"),
            IdentifierType::Hin => String::from_str("21"),
            IdentifierType::VendorDefined => String::from_str("92"),
        }
    }
}

} // verus!
