//! Client library for retrieving Chinese A-share financial statements from an
//! upstream HTTP data provider, with a verified transport core: URL and query
//! construction, response-status dispatch, report-period bookkeeping and the
//! fundamental-factor scoring rules.

pub mod akshare;
pub mod digits;
pub mod errors;
pub mod indicator;
pub mod storage;
pub mod tables;
pub mod transport;
