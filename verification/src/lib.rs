use vstd::prelude::*;

pub mod text;
pub mod json;
pub mod text_map;
pub mod model;
pub mod config;
pub mod metrics;
pub mod sift;
pub mod urls;
pub mod times;
pub mod privacy;
pub mod privacy_service;
pub mod permission;
pub mod xvp;
pub mod account_link;
pub mod catalog;
pub mod sync;
pub mod governance;
pub mod defaults;
pub mod resolver;
pub mod storage;
pub mod sync_settings;
pub mod gateway_state;

verus! {
}
