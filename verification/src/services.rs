//! The operation handlers' decision cores: validation, gating, and the
//! store mutation of each inbound operation, with transport left to the
//! surrounding application.

pub mod company_service;
pub mod notes_service;
pub mod project_service;
pub mod task_service;
