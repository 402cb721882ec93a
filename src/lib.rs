//! Client-side core of a coding-challenge platform: the request lifecycle with
//! one retry after a session refresh, the shared session record, the background
//! tickers that keep it current, and the validation and encoding of what is sent.

pub mod text;
pub mod languages;
pub mod challenges;
pub mod app_state;
pub mod refresh;
pub mod fetchers;
pub mod json;
pub mod submission;
pub mod background;
pub mod accounts;
pub mod screens;
