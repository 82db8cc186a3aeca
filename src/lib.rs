//! Status resource service and static file resolution: the decisions that
//! every endpoint relies on, stated and proved over plain values.
pub mod http_status;
pub mod storage;
pub mod response;
pub mod status;
pub mod static_files;
