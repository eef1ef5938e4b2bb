//! The narrow-field client handle: a transport against the statement API.

use vstd::prelude::*;

use crate::errors::RedCrabError;
use crate::transport::Transport;

verus! {

/// A client of the date-scoped statement endpoints.
pub struct Akshare {
    pub transport: Transport,
}

impl Akshare {
    /// A client against the default local base URL.
    pub fn new() -> (r: Result<Akshare, RedCrabError>)
        ensures
            r matches Ok(a) ==> a.transport.base_url@ == "http://127.0.0.1:8080/api/public/"@,
            r matches Err(e) ==> (e is InvalidHeaderError || e is ReqError),
    {
        let t = match Transport::new() {
            Ok(t) => t,
            Err(e) => {
                return Err(e);
            },
        };
        Ok(Akshare { transport: t })
    }

    /// A client against the given base URL.
    pub fn from(url: String) -> (r: Result<Akshare, RedCrabError>)
        ensures
            r matches Ok(a) ==> a.transport.base_url@ == url@,
            r matches Err(e) ==> (e is InvalidHeaderError || e is ReqError),
    {
        let t = match Transport::from(url) {
            Ok(t) => t,
            Err(e) => {
                return Err(e);
            },
        };
        Ok(Akshare { transport: t })
    }
}

} // verus!
