use vstd::prelude::*;

pub mod arena;
pub mod audit;
pub mod branches;
pub mod certify;
pub mod clock;
pub mod closure;
pub mod deviations;
pub mod events;
pub mod fields;
pub mod gate;
pub mod grid;
pub mod guard;
pub mod keys;
pub mod laws;
pub mod ledger;
pub mod matrices;
pub mod mapview;
pub mod mechanics;
pub mod panels;
pub mod paths;
pub mod probes;
pub mod projectiles;
pub mod prompts;
pub mod readers;
pub mod rebaseline;
pub mod recovery;
pub mod refresh;
pub mod replay;
pub mod reports;
pub mod scan;
pub mod screens;
pub mod services;
pub mod smokes;
pub mod sitediff;
pub mod tables;
pub mod tally;
pub mod text;
pub mod views;

verus! {

} // verus!
