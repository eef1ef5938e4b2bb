//! The fundamental-factor service: a statement client built from
//! construction parameters, handed out to indicator steps.

use vstd::prelude::*;

use crate::akshare::Akshare;
use crate::errors::RedCrabError;

verus! {

/// Construction parameters of the fundamental-factor service.
#[derive(Clone, Debug)]
pub struct Parameters {
    pub url: String,
}

/// The fundamental-factor service: owns the statement client.
pub struct FundamentalFactor {
    pub client: Akshare,
}

impl FundamentalFactor {
    /// A service whose client talks to the base URL of the parameters.
    pub fn new(parameters: Parameters) -> (r: Result<FundamentalFactor, RedCrabError>)
        ensures
            r matches Ok(f) ==> f.client.transport.base_url@ == parameters.url@,
            r matches Err(e) ==> (e is InvalidHeaderError || e is ReqError),
    {
        let akshare = match Akshare::from(parameters.url.as_str()) {
            Ok(a) => a,
            Err(e) => {
                return Err(e);
            },
        };
        Ok(FundamentalFactor { client: akshare })
    }

    /// The inner statement client, always present.
    pub fn inner_client(&self) -> (r: Option<&Akshare>)
        ensures
            r matches Some(c) && c == &self.client,
    {
        Some(&self.client)
    }
}

} // verus!
