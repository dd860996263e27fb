//! Link relay: detects links of known content providers in chat messages and
//! decides, per guild, whether a proxied version of the link is posted.

pub mod commands;
pub mod db;
pub mod dispatch;
pub mod pattern;
pub mod providers;
pub mod text;
