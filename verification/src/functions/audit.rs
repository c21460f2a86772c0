//! Audit-log functions.
#![allow(non_snake_case)]
pub mod helpers;
pub mod auditCount;
pub mod auditEntries;
pub mod auditLatest;
pub mod auditEntryTarget;
pub mod auditEntryUser;
pub mod auditEntryChanges;
