//! The query layer: the operations the persistence collaborator used to
//! answer with ad hoc SQL, made explicit over the in-memory stores.

pub mod companies_query;
pub mod company_query;
pub mod notes_query;
pub mod projects_query;
pub mod tasks_query;
pub mod user_query;
