//! Certificate record service: validated wire DTOs, domain entities, and
//! storage models, with verified mapping between the three layers.

pub mod accreditation;
pub mod assessment;
pub mod base;
pub mod certificate;
pub mod certificate_dto;
pub mod certificate_metadata;
pub mod certificate_metadata_dto;
pub mod error;
pub mod handlers;
pub mod helpers;
pub mod laws;
pub mod model;
pub mod organization;
pub mod person;
pub mod recipient_dto;
pub mod retry;
mod sys;
pub mod text;
pub mod validity;
