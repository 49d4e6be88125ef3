//! Pricing operations: validation of in-network rate requests.

use vstd::prelude::*;
use vstd::string::*;

use crate::client::DocarooClient;
use crate::error::DocarooError;
use crate::models::PricingRequest;
use crate::strings::{concat3, spec_blank};
use crate::validate::{
    find_invalid_npi, spec_all_npis_valid, spec_invalid_npi_message, spec_valid_npi,
};

verus! {

/// Largest number of providers one pricing request may carry.
pub const MAX_PRICING_NPIS: usize = 10;

/// A pricing request the service will accept: one to ten well-formed
/// provider identifiers and a non-blank billing code.
pub open spec fn spec_pricing_request_valid(req: PricingRequest) -> bool {
    &&& req.npis@.len() >= 1
    &&& req.npis@.len() <= MAX_PRICING_NPIS
    &&& spec_all_npis_valid(req.npis@)
    &&& !spec_blank(req.condition_code@)
}

/// Client for pricing-related operations.
#[derive(Debug, Clone)]
pub struct PricingClient {
    client: DocarooClient,
}

impl PricingClient {
    /// The underlying client.
    pub closed spec fn spec_client(&self) -> DocarooClient {
        self.client
    }

    /// A pricing client over the given connection.
    pub fn new(client: DocarooClient) -> (r: Self)
        ensures
            r.spec_client() == client,
    {
        PricingClient { client }
    }

    /// The underlying client, for the caller that performs the send.
    pub fn client(&self) -> (r: &DocarooClient)
        ensures
            *r == self.spec_client(),
    {
        &self.client
    }

    /// Check a pricing request before it is sent. The checks run top to
    /// bottom and the first violation decides the message: no providers,
    /// too many providers, the first malformed provider in list order, and
    /// a blank billing code, in that order.
    pub fn validate_pricing_request(&self, request: &PricingRequest) -> (r: Result<
        (),
        DocarooError,
    >)
        ensures
            r is Ok <==> spec_pricing_request_valid(*request),
            request.npis@.len() == 0 ==> (r matches Err(DocarooError::InvalidRequest(m)) && m@
                == "At least one NPI must be provided"@),
            request.npis@.len() > MAX_PRICING_NPIS ==> (r matches Err(
                DocarooError::InvalidRequest(m),
            ) && m@ == "Maximum 10 NPIs allowed per request"@),
            1 <= request.npis@.len() <= MAX_PRICING_NPIS && !spec_all_npis_valid(request.npis@)
                ==> exists|j: int|
                {
                    &&& 0 <= j < request.npis@.len()
                    &&& !spec_valid_npi(#[trigger] request.npis@[j]@)
                    &&& forall|k: int| 0 <= k < j ==> spec_valid_npi(request.npis@[k]@)
                    &&& r matches Err(DocarooError::InvalidRequest(m)) && m@
                        == spec_invalid_npi_message(request.npis@[j]@)
                },
            1 <= request.npis@.len() <= MAX_PRICING_NPIS && spec_all_npis_valid(request.npis@)
                && spec_blank(request.condition_code@) ==> (r matches Err(
                DocarooError::InvalidRequest(m),
            ) && m@ == "Condition code cannot be empty"@),
    {
        if request.npis.len() == 0 {
            return Err(
                DocarooError::InvalidRequest(String::from_str("At least one NPI must be provided")),
            );
        }
        if request.npis.len() > MAX_PRICING_NPIS {
            return Err(
                DocarooError::InvalidRequest(
                    String::from_str("Maximum 10 NPIs allowed per request"),
                ),
            );
        }
        if let Some(i) = find_invalid_npi(&request.npis) {
            let msg = concat3(
                "Invalid NPI format: '",
                request.npis[i].as_str(),
                "'. NPIs must be 10-digit numbers",
            );
            return Err(DocarooError::InvalidRequest(msg));
        }
        if crate::strings::is_blank(request.condition_code.as_str()) {
            return Err(
                DocarooError::InvalidRequest(String::from_str("Condition code cannot be empty")),
            );
        }
        Ok(())
    }
}

} // verus!
