//! Run configuration: the input directories, derived from a base path, and
//! the translation-gateway parameters. Reading and parsing the configuration
//! file happens outside the library; the values arrive here as plain strings.

use vstd::prelude::*;

verus! {

/// The input directories of a run.
#[derive(Clone, Debug, PartialEq)]
pub struct Paths {
    base: String,
    buyers: String,
    contracts: String,
}

/// The parameters of the translation gateway.
#[derive(Clone, Debug, PartialEq)]
pub struct Stedi {
    map_id: String,
    api_key: String,
    guide_id: String,
}

pub struct Config {
    paths: Paths,
    stedi: Stedi,
}

#[verifier::ext_equal]
pub ghost struct ConfigV {
    pub base: Seq<char>,
    pub buyers: Seq<char>,
    pub contracts: Seq<char>,
    pub map_id: Seq<char>,
    pub api_key: Seq<char>,
    pub guide_id: Seq<char>,
}

impl View for Config {
    type V = ConfigV;

    closed spec fn view(&self) -> ConfigV {
        ConfigV {
            base: self.paths.base@,
            buyers: self.paths.buyers@,
            contracts: self.paths.contracts@,
            map_id: self.stedi.map_id@,
            api_key: self.stedi.api_key@,
            guide_id: self.stedi.guide_id@,
        }
    }
}

impl Config {
    /// Builds the configuration from its raw values: the buyers and
    /// contracts directories are each the base path followed by the
    /// configured relative part.
    pub fn new(
        base: &str,
        buyers: &str,
        contracts: &str,
        map_id: &str,
        api_key: &str,
        guide_id: &str,
    ) -> (r: Self)
        ensures
            r@ == (ConfigV {
                base: base@,
                buyers: base@ + buyers@,
                contracts: base@ + contracts@,
                map_id: map_id@,
                api_key: api_key@,
                guide_id: guide_id@,
            }),
    {
        let mut buyers_dir = String::from_str(base);
        buyers_dir.append(buyers);
        let mut contracts_dir = String::from_str(base);
        contracts_dir.append(contracts);
        let r = Self {
            paths: Paths {
                base: String::from_str(base),
                buyers: buyers_dir,
                contracts: contracts_dir,
            },
            stedi: Stedi {
                map_id: String::from_str(map_id),
                api_key: String::from_str(api_key),
                guide_id: String::from_str(guide_id),
            },
        };
        proof {
            assert(r@ =~~= (ConfigV {
                base: base@,
                buyers: base@ + buyers@,
                contracts: base@ + contracts@,
                map_id: map_id@,
                api_key: api_key@,
                guide_id: guide_id@,
            }));
        }
        r
    }

    /// The path of a buyer file: the buyers directory, a separator, and the
    /// file name with the csv suffix.
    pub fn get_buyers_path(&self, file_name: &str) -> (r: String)
        ensures
            r@ == self@.buyers + "/"@ + file_name@ + ".csv"@,
    {
        let mut r = String::from_str(self.paths.buyers.as_str());
        r.append("/");
        r.append(file_name);
        r.append(".csv");
        r
    }

    /// The path of a contract-line file: the contracts directory, a
    /// separator, and the file name with the csv suffix.
    pub fn get_contracts_path(&self, file_name: &str) -> (r: String)
        ensures
            r@ == self@.contracts + "/"@ + file_name@ + ".csv"@,
    {
        let mut r = String::from_str(self.paths.contracts.as_str());
        r.append("/");
        r.append(file_name);
        r.append(".csv");
        r
    }

    /// The gateway parameters: map id, api key, and guide id.
    pub fn get_stedi_params(&self) -> (r: (&str, &str, &str))
        ensures
            r.0@ == self@.map_id,
            r.1@ == self@.api_key,
            r.2@ == self@.guide_id,
    {
        (self.stedi.map_id.as_str(), self.stedi.api_key.as_str(), self.stedi.guide_id.as_str())
    }
}

} // verus!
