//! Timed, barrier-synchronised claiming of limited rewards: the decisions of
//! the scheduler, the dispatcher, the workers and the outcome classifier, and
//! the state behind the terminal pages that configure them.

pub mod button;
pub mod calendar;
pub mod clock;
pub mod config;
pub mod console;
pub mod dispatch;
pub mod error;
pub mod games;
pub mod info;
pub mod json;
pub mod keys;
pub mod login;
pub mod menu;
pub mod notice;
pub mod number;
pub mod outcome;
pub mod plan;
pub mod proxy;
pub mod reporter;
pub mod scan;
pub mod schedule;
pub mod setting;
pub mod slot;
pub mod text;
pub mod tickets;
pub mod timed;
pub mod token;
pub mod worker;
