//! Data models for requests, responses, and the wire form of code types.

use vstd::prelude::*;
use vstd::string::*;

verus! {

broadcast use vstd::string::group_string_axioms;

/// Medical billing code standards accepted by the service.
///
/// Each variant has a fixed upper-case (possibly hyphenated) wire token;
/// `to_wire` and `from_wire` are the two directions of that mapping.
#[derive(Debug, Clone, Copy, PartialEq, Eq, Structural)]
pub enum CodeType {
    /// Current Procedural Terminology
    Cpt,
    /// National Drug Code
    Ndc,
    /// Healthcare Common Procedure Coding System
    Hcpcs,
    /// Revenue Code
    Rc,
    /// International Classification of Diseases
    Icd,
    /// Medicare Severity Diagnosis Related Group
    MsDrg,
    /// Refined Diagnosis Related Group
    RDrg,
    /// Severity Diagnosis Related Group
    SDrg,
    /// All Patient Severity Diagnosis Related Group
    ApsDrg,
    /// All Patient Diagnosis Related Group
    ApDrg,
    /// All Patient Refined Diagnosis Related Group
    AprDrg,
    /// Ambulatory Payment Classification
    Apc,
    /// Local code
    Local,
    /// Enhanced Ambulatory Patient Grouping
    Eapg,
    /// Health Insurance Prospective Payment System
    Hipps,
    /// Current Dental Terminology
    Cdt,
    /// Custom All
    CstmAll,
}

/// The fixed wire token of each code standard. The casing is irregular
/// (`MS-DRG`, `CSTM-ALL`), so the mapping is an explicit table in both
/// directions rather than a mechanical case transform.
pub open spec fn spec_wire_token(ct: CodeType) -> Seq<char> {
    match ct {
        CodeType::Cpt => "CPT"@,
        CodeType::Ndc => "NDC"@,
        CodeType::Hcpcs => "HCPCS"@,
        CodeType::Rc => "RC"@,
        CodeType::Icd => "ICD"@,
        CodeType::MsDrg => "MS-DRG"@,
        CodeType::RDrg => "R-DRG"@,
        CodeType::SDrg => "S-DRG"@,
        CodeType::ApsDrg => "APS-DRG"@,
        CodeType::ApDrg => "AP-DRG"@,
        CodeType::AprDrg => "APR-DRG"@,
        CodeType::Apc => "APC"@,
        CodeType::Local => "LOCAL"@,
        CodeType::Eapg => "EAPG"@,
        CodeType::Hipps => "HIPPS"@,
        CodeType::Cdt => "CDT"@,
        CodeType::CstmAll => "CSTM-ALL"@,
    }
}

/// The code standard a wire token names, if any: the other direction of the
/// lookup table.
pub open spec fn spec_code_type_of(s: Seq<char>) -> Option<CodeType> {
    if s == "CPT"@ {
        Some(CodeType::Cpt)
    } else if s == "NDC"@ {
        Some(CodeType::Ndc)
    } else if s == "HCPCS"@ {
        Some(CodeType::Hcpcs)
    } else if s == "RC"@ {
        Some(CodeType::Rc)
    } else if s == "ICD"@ {
        Some(CodeType::Icd)
    } else if s == "MS-DRG"@ {
        Some(CodeType::MsDrg)
    } else if s == "R-DRG"@ {
        Some(CodeType::RDrg)
    } else if s == "S-DRG"@ {
        Some(CodeType::SDrg)
    } else if s == "APS-DRG"@ {
        Some(CodeType::ApsDrg)
    } else if s == "AP-DRG"@ {
        Some(CodeType::ApDrg)
    } else if s == "APR-DRG"@ {
        Some(CodeType::AprDrg)
    } else if s == "APC"@ {
        Some(CodeType::Apc)
    } else if s == "LOCAL"@ {
        Some(CodeType::Local)
    } else if s == "EAPG"@ {
        Some(CodeType::Eapg)
    } else if s == "HIPPS"@ {
        Some(CodeType::Hipps)
    } else if s == "CDT"@ {
        Some(CodeType::Cdt)
    } else if s == "CSTM-ALL"@ {
        Some(CodeType::CstmAll)
    } else {
        None
    }
}

impl CodeType {
    /// The wire token of this code standard.
    pub fn to_wire(self) -> (r: &'static str)
        ensures
            r@ == spec_wire_token(self),
    {
        match self {
            CodeType::Cpt => "CPT",
            CodeType::Ndc => "NDC",
            CodeType::Hcpcs => "HCPCS",
            CodeType::Rc => "RC",
            CodeType::Icd => "ICD",
            CodeType::MsDrg => "MS-DRG",
            CodeType::RDrg => "R-DRG",
            CodeType::SDrg => "S-DRG",
            CodeType::ApsDrg => "APS-DRG",
            CodeType::ApDrg => "AP-DRG",
            CodeType::AprDrg => "APR-DRG",
            CodeType::Apc => "APC",
            CodeType::Local => "LOCAL",
            CodeType::Eapg => "EAPG",
            CodeType::Hipps => "HIPPS",
            CodeType::Cdt => "CDT",
            CodeType::CstmAll => "CSTM-ALL",
        }
    }

    /// The code standard a wire token names, if it is one of the table.
    pub fn from_wire(s: &str) -> (r: Option<CodeType>)
        ensures
            r == spec_code_type_of(s@),
    {
        if crate::strings::str_eq_str(s, "CPT") {
            Some(CodeType::Cpt)
        } else if crate::strings::str_eq_str(s, "NDC") {
            Some(CodeType::Ndc)
        } else if crate::strings::str_eq_str(s, "HCPCS") {
            Some(CodeType::Hcpcs)
        } else if crate::strings::str_eq_str(s, "RC") {
            Some(CodeType::Rc)
        } else if crate::strings::str_eq_str(s, "ICD") {
            Some(CodeType::Icd)
        } else if crate::strings::str_eq_str(s, "MS-DRG") {
            Some(CodeType::MsDrg)
        } else if crate::strings::str_eq_str(s, "R-DRG") {
            Some(CodeType::RDrg)
        } else if crate::strings::str_eq_str(s, "S-DRG") {
            Some(CodeType::SDrg)
        } else if crate::strings::str_eq_str(s, "APS-DRG") {
            Some(CodeType::ApsDrg)
        } else if crate::strings::str_eq_str(s, "AP-DRG") {
            Some(CodeType::ApDrg)
        } else if crate::strings::str_eq_str(s, "APR-DRG") {
            Some(CodeType::AprDrg)
        } else if crate::strings::str_eq_str(s, "APC") {
            Some(CodeType::Apc)
        } else if crate::strings::str_eq_str(s, "LOCAL") {
            Some(CodeType::Local)
        } else if crate::strings::str_eq_str(s, "EAPG") {
            Some(CodeType::Eapg)
        } else if crate::strings::str_eq_str(s, "HIPPS") {
            Some(CodeType::Hipps)
        } else if crate::strings::str_eq_str(s, "CDT") {
            Some(CodeType::Cdt)
        } else if crate::strings::str_eq_str(s, "CSTM-ALL") {
            Some(CodeType::CstmAll)
        } else {
            None
        }
    }
}

/// Decoding the wire token of any code standard yields that same standard:
/// the lookup table is a bijection onto its tokens.
pub proof fn lemma_code_type_round_trip(ct: CodeType)
    ensures
        spec_code_type_of(spec_wire_token(ct)) == Some(ct),
{
    reveal_strlit("CPT");
    reveal_strlit("NDC");
    reveal_strlit("HCPCS");
    reveal_strlit("RC");
    reveal_strlit("ICD");
    reveal_strlit("MS-DRG");
    reveal_strlit("R-DRG");
    reveal_strlit("S-DRG");
    reveal_strlit("APS-DRG");
    reveal_strlit("AP-DRG");
    reveal_strlit("APR-DRG");
    reveal_strlit("APC");
    reveal_strlit("LOCAL");
    reveal_strlit("EAPG");
    reveal_strlit("HIPPS");
    reveal_strlit("CDT");
    reveal_strlit("CSTM-ALL");
    assert("CPT"@.len() == 3 && "NDC"@.len() == 3 && "HCPCS"@.len() == 5 && "RC"@.len() == 2
        && "ICD"@.len() == 3 && "MS-DRG"@.len() == 6 && "R-DRG"@.len() == 5 && "S-DRG"@.len() == 5
        && "APS-DRG"@.len() == 7 && "AP-DRG"@.len() == 6 && "APR-DRG"@.len() == 7 && "APC"@.len()
        == 3 && "LOCAL"@.len() == 5 && "EAPG"@.len() == 4 && "HIPPS"@.len() == 5 && "CDT"@.len()
        == 3 && "CSTM-ALL"@.len() == 8);
    match ct {
        CodeType::Cpt => assert(spec_code_type_of("CPT"@) == Some(CodeType::Cpt)),
        CodeType::Ndc => {
            assert("NDC"@[0] == 'N' && "CPT"@[0] == 'C');
            assert(spec_code_type_of("NDC"@) == Some(CodeType::Ndc));
        },
        CodeType::Hcpcs => assert(spec_code_type_of("HCPCS"@) == Some(CodeType::Hcpcs)),
        CodeType::Rc => assert(spec_code_type_of("RC"@) == Some(CodeType::Rc)),
        CodeType::Icd => {
            assert("ICD"@[0] == 'I' && "CPT"@[0] == 'C' && "NDC"@[0] == 'N');
            assert(spec_code_type_of("ICD"@) == Some(CodeType::Icd));
        },
        CodeType::MsDrg => assert(spec_code_type_of("MS-DRG"@) == Some(CodeType::MsDrg)),
        CodeType::RDrg => {
            assert("R-DRG"@[0] == 'R' && "HCPCS"@[0] == 'H');
            assert(spec_code_type_of("R-DRG"@) == Some(CodeType::RDrg));
        },
        CodeType::SDrg => {
            assert("S-DRG"@[0] == 'S' && "HCPCS"@[0] == 'H' && "R-DRG"@[0] == 'R');
            assert(spec_code_type_of("S-DRG"@) == Some(CodeType::SDrg));
        },
        CodeType::ApsDrg => assert(spec_code_type_of("APS-DRG"@) == Some(CodeType::ApsDrg)),
        CodeType::ApDrg => {
            assert("AP-DRG"@[0] == 'A' && "MS-DRG"@[0] == 'M');
            assert(spec_code_type_of("AP-DRG"@) == Some(CodeType::ApDrg));
        },
        CodeType::AprDrg => {
            assert("APR-DRG"@[2] == 'R' && "APS-DRG"@[2] == 'S');
            assert(spec_code_type_of("APR-DRG"@) == Some(CodeType::AprDrg));
        },
        CodeType::Apc => {
            assert("APC"@[0] == 'A' && "CPT"@[0] == 'C' && "NDC"@[0] == 'N' && "ICD"@[0] == 'I');
            assert(spec_code_type_of("APC"@) == Some(CodeType::Apc));
        },
        CodeType::Local => {
            assert("LOCAL"@[0] == 'L' && "HCPCS"@[0] == 'H' && "R-DRG"@[0] == 'R' && "S-DRG"@[0]
                == 'S');
            assert(spec_code_type_of("LOCAL"@) == Some(CodeType::Local));
        },
        CodeType::Eapg => assert(spec_code_type_of("EAPG"@) == Some(CodeType::Eapg)),
        CodeType::Hipps => {
            assert("HIPPS"@[1] == 'I' && "HCPCS"@[1] == 'C');
            assert("HIPPS"@[0] == 'H' && "R-DRG"@[0] == 'R' && "S-DRG"@[0] == 'S' && "LOCAL"@[0]
                == 'L');
            assert(spec_code_type_of("HIPPS"@) == Some(CodeType::Hipps));
        },
        CodeType::Cdt => {
            assert("CDT"@[1] == 'D' && "CPT"@[1] == 'P');
            assert("CDT"@[0] == 'C' && "NDC"@[0] == 'N' && "ICD"@[0] == 'I' && "APC"@[0] == 'A');
            assert(spec_code_type_of("CDT"@) == Some(CodeType::Cdt));
        },
        CodeType::CstmAll => assert(spec_code_type_of("CSTM-ALL"@) == Some(CodeType::CstmAll)),
    }
}

impl Default for CodeType {
    /// The default code standard.
    fn default() -> (r: Self)
        ensures
            r == CodeType::Cpt,
    {
        CodeType::Cpt
    }
}

/// A request for in-network pricing.
#[derive(Debug, Clone)]
pub struct PricingRequest {
    /// Provider identifiers (NPIs) to look pricing up for; each must be a
    /// 10-digit number, and a request carries 1 to 10 of them.
    pub npis: Vec<String>,
    /// Medical billing code to retrieve pricing for.
    pub condition_code: String,
    /// Insurance plan identifier, where one restricts the lookup.
    pub plan_id: Option<String>,
    /// Medical billing code standard.
    pub code_type: Option<CodeType>,
}

impl PricingRequest {
    /// Start building a pricing request; nothing is set yet.
    pub fn builder() -> (r: PricingRequestBuilder)
        ensures
            r.npis is None,
            r.condition_code is None,
            r.plan_id is None,
            r.code_type is None,
    {
        PricingRequestBuilder { npis: None, condition_code: None, plan_id: None, code_type: None }
    }
}

/// Step-by-step construction of a pricing request. The two required fields
/// must be set before `build`; the two optional ones stay unset by default.
/// In particular the code standard defaults to unset here, not to the
/// enumeration's own default.
#[derive(Debug, Clone)]
pub struct PricingRequestBuilder {
    /// Providers set so far.
    pub npis: Option<Vec<String>>,
    /// Billing code set so far.
    pub condition_code: Option<String>,
    /// Plan identifier set so far.
    pub plan_id: Option<String>,
    /// Code standard set so far.
    pub code_type: Option<CodeType>,
}

impl PricingRequestBuilder {
    /// Set the provider identifiers.
    pub fn npis(self, npis: Vec<String>) -> (r: Self)
        ensures
            r.npis == Some(npis),
            r.condition_code == self.condition_code,
            r.plan_id == self.plan_id,
            r.code_type == self.code_type,
    {
        Self { npis: Some(npis), ..self }
    }

    /// Set the billing code.
    pub fn condition_code(self, condition_code: &str) -> (r: Self)
        ensures
            r.npis == self.npis,
            r.condition_code matches Some(s) && s@ == condition_code@,
            r.plan_id == self.plan_id,
            r.code_type == self.code_type,
    {
        Self { condition_code: Some(String::from_str(condition_code)), ..self }
    }

    /// Set the plan identifier.
    pub fn plan_id(self, plan_id: &str) -> (r: Self)
        ensures
            r.npis == self.npis,
            r.condition_code == self.condition_code,
            r.plan_id matches Some(s) && s@ == plan_id@,
            r.code_type == self.code_type,
    {
        Self { plan_id: Some(String::from_str(plan_id)), ..self }
    }

    /// Set the code standard.
    pub fn code_type(self, code_type: CodeType) -> (r: Self)
        ensures
            r.npis == self.npis,
            r.condition_code == self.condition_code,
            r.plan_id == self.plan_id,
            r.code_type == Some(code_type),
    {
        Self { code_type: Some(code_type), ..self }
    }

    /// Finish the request from what was set.
    pub fn build(self) -> (r: PricingRequest)
        requires
            self.npis is Some,
            self.condition_code is Some,
        ensures
            r.npis == self.npis.unwrap(),
            r.condition_code == self.condition_code.unwrap(),
            r.plan_id == self.plan_id,
            r.code_type == self.code_type,
    {
        PricingRequest {
            npis: self.npis.unwrap(),
            condition_code: self.condition_code.unwrap(),
            plan_id: self.plan_id,
            code_type: self.code_type,
        }
    }
}

/// A request for procedure likelihood evaluation.
#[derive(Debug, Clone)]
pub struct LikelihoodRequest {
    /// Provider identifiers (NPIs) to evaluate; each must be a 10-digit
    /// number, and at least one is required.
    pub npis: Vec<String>,
    /// Medical billing code to evaluate likelihood for.
    pub condition_code: String,
    /// Medical billing code standard, as free-form text.
    pub code_type: String,
}

impl LikelihoodRequest {
    /// Start building a likelihood request; nothing is set yet.
    pub fn builder() -> (r: LikelihoodRequestBuilder)
        ensures
            r.npis is None,
            r.condition_code is None,
            r.code_type is None,
    {
        LikelihoodRequestBuilder { npis: None, condition_code: None, code_type: None }
    }
}

/// Step-by-step construction of a likelihood request. All three fields must
/// be set before `build`.
#[derive(Debug, Clone)]
pub struct LikelihoodRequestBuilder {
    /// Providers set so far.
    pub npis: Option<Vec<String>>,
    /// Billing code set so far.
    pub condition_code: Option<String>,
    /// Code standard set so far.
    pub code_type: Option<String>,
}

impl LikelihoodRequestBuilder {
    /// Set the provider identifiers.
    pub fn npis(self, npis: Vec<String>) -> (r: Self)
        ensures
            r.npis == Some(npis),
            r.condition_code == self.condition_code,
            r.code_type == self.code_type,
    {
        Self { npis: Some(npis), ..self }
    }

    /// Set the billing code.
    pub fn condition_code(self, condition_code: &str) -> (r: Self)
        ensures
            r.npis == self.npis,
            r.condition_code matches Some(s) && s@ == condition_code@,
            r.code_type == self.code_type,
    {
        Self { condition_code: Some(String::from_str(condition_code)), ..self }
    }

    /// Set the code standard.
    pub fn code_type(self, code_type: &str) -> (r: Self)
        ensures
            r.npis == self.npis,
            r.condition_code == self.condition_code,
            r.code_type matches Some(s) && s@ == code_type@,
    {
        Self { code_type: Some(String::from_str(code_type)), ..self }
    }

    /// Finish the request from what was set.
    pub fn build(self) -> (r: LikelihoodRequest)
        requires
            self.npis is Some,
            self.condition_code is Some,
            self.code_type is Some,
        ensures
            r.npis == self.npis.unwrap(),
            r.condition_code == self.condition_code.unwrap(),
            r.code_type == self.code_type.unwrap(),
    {
        LikelihoodRequest {
            npis: self.npis.unwrap(),
            condition_code: self.condition_code.unwrap(),
            code_type: self.code_type.unwrap(),
        }
    }
}

/// Rate data for a specific billing code. The code fields are free-form
/// text as received from the service and are not re-validated against the
/// code standards table. The three rates are currency amounts; they arrive
/// as JSON numbers and are carried here as their decimal text, which no
/// logic in this library reads.
#[derive(Debug, Clone)]
pub struct RateData {
    /// Medical billing code.
    pub code: String,
    /// Medical billing code standard.
    pub code_type: String,
    /// Type of negotiated rate.
    pub negotiated_type: String,
    /// Minimum contracted rate, as decimal text.
    pub min_rate: String,
    /// Maximum contracted rate, as decimal text.
    pub max_rate: String,
    /// Average contracted rate, as decimal text.
    pub avg_rate: String,
    /// Number of rate instances found.
    pub instances: u32,
}

/// Likelihood data for a specific billing code. The score arrives as a
/// JSON number between zero and one and is carried here as its decimal
/// text, which no logic in this library reads.
#[derive(Debug, Clone)]
pub struct LikelihoodData {
    /// Medical billing code.
    pub code: String,
    /// Medical billing code standard.
    pub code_type: String,
    /// Likelihood score, as decimal text.
    pub likelihood: String,
}

/// Metadata of a pricing response.
#[derive(Debug, Clone)]
pub struct PricingMeta {
    /// Insurance plan identifier.
    pub plan_id: String,
    /// Insurance payer code.
    pub payer: String,
    /// Unique request identifier.
    pub request_id: String,
    /// Request timestamp, as RFC 3339 text.
    pub timestamp: String,
    /// Processing time in milliseconds.
    pub processing_time_ms: u32,
    /// Number of in-network records found.
    pub in_network_records_count: u32,
}

/// Metadata of a likelihood response.
#[derive(Debug, Clone)]
pub struct LikelihoodMeta {
    /// Unique request identifier.
    pub request_id: String,
    /// Request timestamp, as RFC 3339 text.
    pub timestamp: String,
    /// Processing time in milliseconds.
    pub processing_time_ms: u32,
    /// Number of out-of-network records analyzed.
    pub out_of_network_records_count: u32,
}

/// A pricing response: rate data keyed by provider identifier, and the
/// response metadata.
#[derive(Debug, Clone)]
pub struct PricingResponse {
    /// Rate data per provider, in the order the payload listed it.
    pub data: Vec<(String, Vec<RateData>)>,
    /// Response metadata.
    pub meta: PricingMeta,
}

impl PricingResponse {
    /// Well-formed response data: no provider identifier appears under
    /// two entries, the shape a JSON object gives its keys.
    pub open spec fn wf(&self) -> bool {
        forall|i: int, j: int|
            0 <= i < j < self.data@.len() ==> (#[trigger] self.data@[i]).0@
                != (#[trigger] self.data@[j]).0@
    }

    /// Under well-formed data two entries with one key are one entry, so
    /// the first entry `rates_for` finds under a key is the only one.
    pub proof fn lemma_wf_key_unique(&self, i: int, j: int)
        requires
            self.wf(),
            0 <= i < self.data@.len(),
            0 <= j < self.data@.len(),
            self.data@[i].0@ == self.data@[j].0@,
        ensures
            i == j,
    {
    }

    /// The rate data recorded for one provider: the first entry under that
    /// key, in payload order (under `wf`, the only one).
    pub fn rates_for(&self, npi: &str) -> (r: Option<&Vec<RateData>>)
        ensures
            match r {
                Some(rates) => exists|i: int|
                    {
                        &&& 0 <= i < self.data@.len()
                        &&& (#[trigger] self.data@[i]).0@ == npi@
                        &&& forall|k: int| 0 <= k < i ==> (#[trigger] self.data@[k]).0@ != npi@
                        &&& *rates == self.data@[i].1
                    },
                None => forall|i: int|
                    0 <= i < self.data@.len() ==> (#[trigger] self.data@[i]).0@ != npi@,
            },
    {
        let mut i: usize = 0;
        while i < self.data.len()
            invariant
                i <= self.data@.len(),
                forall|k: int| 0 <= k < i ==> (#[trigger] self.data@[k]).0@ != npi@,
            decreases self.data@.len() - i,
        {
            if crate::strings::str_eq_str(self.data[i].0.as_str(), npi) {
                return Some(&self.data[i].1);
            }
            i = i + 1;
        }
        None
    }
}

/// A likelihood response: one score per provider identifier, and the
/// response metadata.
#[derive(Debug, Clone)]
pub struct LikelihoodResponse {
    /// Likelihood data per provider, in the order the payload listed it.
    pub data: Vec<(String, LikelihoodData)>,
    /// Response metadata.
    pub meta: LikelihoodMeta,
}

impl LikelihoodResponse {
    /// Well-formed response data: no provider identifier appears under
    /// two entries, the shape a JSON object gives its keys.
    pub open spec fn wf(&self) -> bool {
        forall|i: int, j: int|
            0 <= i < j < self.data@.len() ==> (#[trigger] self.data@[i]).0@
                != (#[trigger] self.data@[j]).0@
    }

    /// Under well-formed data two entries with one key are one entry, so
    /// the first entry `likelihood_for` finds under a key is the only one.
    pub proof fn lemma_wf_key_unique(&self, i: int, j: int)
        requires
            self.wf(),
            0 <= i < self.data@.len(),
            0 <= j < self.data@.len(),
            self.data@[i].0@ == self.data@[j].0@,
        ensures
            i == j,
    {
    }

    /// The likelihood data recorded for one provider: the first entry
    /// under that key, in payload order (under `wf`, the only one).
    pub fn likelihood_for(&self, npi: &str) -> (r: Option<&LikelihoodData>)
        ensures
            match r {
                Some(data) => exists|i: int|
                    {
                        &&& 0 <= i < self.data@.len()
                        &&& (#[trigger] self.data@[i]).0@ == npi@
                        &&& forall|k: int| 0 <= k < i ==> (#[trigger] self.data@[k]).0@ != npi@
                        &&& *data == self.data@[i].1
                    },
                None => forall|i: int|
                    0 <= i < self.data@.len() ==> (#[trigger] self.data@[i]).0@ != npi@,
            },
    {
        let mut i: usize = 0;
        while i < self.data.len()
            invariant
                i <= self.data@.len(),
                forall|k: int| 0 <= k < i ==> (#[trigger] self.data@[k]).0@ != npi@,
            decreases self.data@.len() - i,
        {
            if crate::strings::str_eq_str(self.data[i].0.as_str(), npi) {
                return Some(&self.data[i].1);
            }
            i = i + 1;
        }
        None
    }
}

/// The part of a structured error detail payload that classification reads:
/// the throttling hint, when it is present and numeric.
#[derive(Debug, Clone, Copy, PartialEq, Eq, Structural)]
pub struct ErrorDetails {
    /// Seconds to wait before retrying, as the server sent them.
    pub retry_after: Option<u64>,
}

/// An error payload from the service on a non-2xx response.
#[derive(Debug, Clone)]
pub struct ErrorResponse {
    /// Machine-readable error code.
    pub error: String,
    /// Human-readable error message.
    pub message: String,
    /// Structured details, reduced to the fields classification reads.
    pub details: Option<ErrorDetails>,
    /// Request identifier for support.
    pub request_id: Option<String>,
    /// Error timestamp, as RFC 3339 text.
    pub timestamp: Option<String>,
}

} // verus!
