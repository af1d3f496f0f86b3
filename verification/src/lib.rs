//! Verified core of the Google Drive ownership migrator: item and job state
//! machines, scan classification, transfer decisions, secret redaction and
//! the report renderers.

pub mod account_lifecycle;
pub mod account_token_provider;
pub mod backoff;
pub mod classifier;
pub mod connect_account;
pub mod credentials;
pub mod domain;
pub mod commands;
pub mod drive;
pub mod drive_browser;
pub mod entity_id;
pub mod final_report;
pub mod item;
pub mod job_events;
pub mod job_service;
pub mod job_store;
pub mod item_store;
pub mod logs;
pub mod preflight;
pub mod queue_service;
pub mod redact;
pub mod root_parser;
pub mod scanner;
pub mod text;
pub mod transfer;
pub mod urls;

use vstd::prelude::*;
verus! {
} // verus!
