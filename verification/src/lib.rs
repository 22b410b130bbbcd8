//! Race-session rules of the TDRace arcade game: screen flow, starting-grid
//! ordering, roster sizing, career rewards and race standings, stated over
//! plain values and proved with Verus.
use vstd::prelude::*;

pub mod calendars;
pub mod career;
pub mod career_hub;
pub mod editor;
pub mod flow;
pub mod garage;
pub mod grid;
pub mod hotkeys;
pub mod lobby;
pub mod menus;
pub mod modules;
pub mod profile_form;
pub mod profiles;
pub mod records;
pub mod roster;
pub mod screens;
pub mod series;
pub mod standings;
pub mod stunts;
pub mod workshop;

verus! {

} // verus!
