//! What the operations of the library are for, stated over the fields of what
//! they are given and of what they answer.

pub mod annotations;
pub mod auth_key;
pub mod base;
pub mod dns;
pub mod egress;
pub mod expose;
pub mod forwards;
pub mod instances;
pub mod provision;
pub mod resources;
pub mod serve;
pub mod support;
