//! Shared logic of the yral services: coin denominations and sats limits,
//! video generation requests, models and prices, feed cache items and keys,
//! hot-or-not and pump-or-dump game records, user profiles, and the steps
//! of signing in.

pub mod global_constants;
pub mod limits;
pub mod decimal;
pub mod text;
pub mod outside;
pub mod post;
pub mod feed_consts;
pub mod feed_items;
pub mod feed_cache;
pub mod feed_compat;
pub mod videogen;
pub mod hon;
pub mod vote;
pub mod pump_dump;
pub mod games_pager;
pub mod profile;
pub mod post_details;
pub mod session;
pub mod ref_history;
pub mod token_info;
