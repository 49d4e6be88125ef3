//! Procedure likelihood operations: validation of likelihood requests and
//! the bulk provider-check convenience.

use vstd::prelude::*;
use vstd::string::*;

use crate::client::DocarooClient;
use crate::error::DocarooError;
use crate::models::LikelihoodRequest;
use crate::strings::{concat3, spec_blank};
use crate::validate::{
    find_invalid_npi, spec_all_npis_valid, spec_invalid_npi_message, spec_valid_npi,
};

verus! {

/// A likelihood request the service will accept: at least one well-formed
/// provider identifier — there is no upper bound here, unlike pricing —
/// and non-blank billing code and code standard.
pub open spec fn spec_likelihood_request_valid(req: LikelihoodRequest) -> bool {
    &&& req.npis@.len() >= 1
    &&& spec_all_npis_valid(req.npis@)
    &&& !spec_blank(req.condition_code@)
    &&& !spec_blank(req.code_type@)
}

/// Client for procedure likelihood operations.
#[derive(Debug, Clone)]
pub struct ProceduresClient {
    client: DocarooClient,
}

impl ProceduresClient {
    /// The underlying client.
    pub closed spec fn spec_client(&self) -> DocarooClient {
        self.client
    }

    /// A procedures client over the given connection.
    pub fn new(client: DocarooClient) -> (r: Self)
        ensures
            r.spec_client() == client,
    {
        ProceduresClient { client }
    }

    /// The underlying client, for the caller that performs the send.
    pub fn client(&self) -> (r: &DocarooClient)
        ensures
            *r == self.spec_client(),
    {
        &self.client
    }

    /// Check a likelihood request before it is sent. The checks run top to
    /// bottom and the first violation decides the message: no providers,
    /// the first malformed provider in list order, a blank billing code,
    /// and a blank code standard, in that order. No upper bound is put on
    /// the number of providers.
    pub fn validate_likelihood_request(&self, request: &LikelihoodRequest) -> (r: Result<
        (),
        DocarooError,
    >)
        ensures
            r is Ok <==> spec_likelihood_request_valid(*request),
            request.npis@.len() == 0 ==> (r matches Err(DocarooError::InvalidRequest(m)) && m@
                == "At least one NPI must be provided"@),
            request.npis@.len() >= 1 && !spec_all_npis_valid(request.npis@) ==> exists|j: int|
                {
                    &&& 0 <= j < request.npis@.len()
                    &&& !spec_valid_npi(#[trigger] request.npis@[j]@)
                    &&& forall|k: int| 0 <= k < j ==> spec_valid_npi(request.npis@[k]@)
                    &&& r matches Err(DocarooError::InvalidRequest(m)) && m@
                        == spec_invalid_npi_message(request.npis@[j]@)
                },
            request.npis@.len() >= 1 && spec_all_npis_valid(request.npis@) && spec_blank(
                request.condition_code@,
            ) ==> (r matches Err(DocarooError::InvalidRequest(m)) && m@
                == "Condition code cannot be empty"@),
            request.npis@.len() >= 1 && spec_all_npis_valid(request.npis@) && !spec_blank(
                request.condition_code@,
            ) && spec_blank(request.code_type@) ==> (r matches Err(
                DocarooError::InvalidRequest(m),
            ) && m@ == "Code type cannot be empty"@),
    {
        if request.npis.len() == 0 {
            return Err(
                DocarooError::InvalidRequest(String::from_str("At least one NPI must be provided")),
            );
        }
        if let Some(i) = find_invalid_npi(&request.npis) {
            let msg = concat3(
                "Invalid NPI format: '",
                request.npis[i].as_str(),
                "'. NPIs must be 10-digit numbers",
            );
            return Err(DocarooError::InvalidRequest(msg));
        }
        if crate::strings::is_blank(request.condition_code.as_str()) {
            return Err(
                DocarooError::InvalidRequest(String::from_str("Condition code cannot be empty")),
            );
        }
        if crate::strings::is_blank(request.code_type.as_str()) {
            return Err(
                DocarooError::InvalidRequest(String::from_str("Code type cannot be empty")),
            );
        }
        Ok(())
    }

    /// The request that a bulk provider check sends: the same providers,
    /// billing code and code standard assembled into one likelihood
    /// request.
    pub fn check_providers_request(
        &self,
        npis: Vec<String>,
        condition_code: &str,
        code_type: &str,
    ) -> (r: LikelihoodRequest)
        ensures
            r.npis == npis,
            r.condition_code@ == condition_code@,
            r.code_type@ == code_type@,
    {
        LikelihoodRequest::builder().npis(npis).condition_code(condition_code).code_type(
            code_type,
        ).build()
    }
}

} // verus!
