//! The persistent state and authorization core of a cycles wallet: who may act
//! for the wallet, what it has sent and done, and how its stored state is
//! carried forward from one layout to the next.
//!
//! - [`identity`]: the identities of callers and targets.
//! - [`address`], [`address_lemmas`]: the address book, which gives each
//!   identity a role, and what holds of it.
//! - [`retention`]: how bounded logs count, drop and look up their records.
//! - [`events`], [`events_lemmas`]: the global log and the logs of the single
//!   targets, and what holds of them.
//! - [`ordered_map`]: the insertion-ordered maps that hold the targets.
//! - [`storage`], [`migrations`], [`upgrade`]: the stored state, its older
//!   layouts, and saving and restoring it.
//! - [`wallet`], [`cycles`], [`queries`], [`chart`], [`text`]: the wallet's
//!   state, its operations, and what it answers.
//! - [`custodians`]: a plain set of custodians under one controller.
//! - [`cli`]: what the provisioning tool decides from its arguments.

pub mod address;
pub mod address_lemmas;
pub mod chart;
pub mod cli;
pub mod custodians;
pub mod cycles;
pub mod events;
pub mod events_lemmas;
pub mod identity;
pub mod migrations;
pub mod ordered_map;
pub mod queries;
pub mod retention;
pub mod storage;
pub mod text;
pub mod upgrade;
pub mod wallet;
