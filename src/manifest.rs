use std::collections::HashMap;
use vstd::prelude::*;

verus! {

/// What a mod declares about itself and the tickflows it brings.
#[derive(Debug)]
pub struct ModManifest {
    pub info: ModInfo,
    pub requirements: Requirements,
    pub code: Option<ModCode>,
    pub tickflow: ModTickflows,
}

/// A mod's name, author, version and languages.
#[derive(Debug)]
pub struct ModInfo {
    pub name: String,
    pub author: String,
    pub version: String,
    pub description: Option<String>,
    pub contributors: Vec<String>,
    pub languages: Vec<RHLanguage>,
}

/// A language release of the game.
#[derive(Clone, Copy, Debug, PartialEq, Eq, Structural)]
pub enum RHLanguage {
    Japanese,
    USEnglish,
    EUEnglish,
    French,
    German,
    Spanish,
    Italian,
    Korean,
}

/// The loader version a mod needs, and the version it needs of each other mod.
#[derive(Debug)]
pub struct Requirements {
    pub version: String,
    pub dependencies: HashMap<String, String>,
}

/// Code that a mod brings (none is described yet).
#[derive(Debug)]
pub struct ModCode {}

/// The tickflows that a mod adds, by kind.
#[derive(Debug)]
pub struct ModTickflows {
    pub game: Vec<TickflowGame>,
    pub land: Vec<TickflowLand>,
    pub tower: Vec<TickflowTower>,
    pub gate: Vec<TickflowGate>,
    pub patch: Vec<TickflowPatch>,
}

/// One rhythm game: its tickflow and the files that override its assets.
#[derive(Debug)]
pub struct ShortGame {
    pub name: String,
    pub tickflow: String,
    pub fs: Option<String>,
    pub music: Option<String>,
    pub prologue: Option<String>,
    pub epilogue: Option<String>,
    pub text_prefix: Option<String>,
}

/// A game that takes a slot of its own.
#[derive(Debug)]
pub struct TickflowGame {
    pub game: ShortGame,
    pub default_index: u32,
    pub fixed: bool,
}

/// A land: four games under one set of assets.
#[derive(Debug)]
pub struct TickflowLand {
    pub name: String,
    pub fs: Option<String>,
    pub default_position: u32,
    pub fixed: bool,
    pub game1: ShortGame,
    pub game2: ShortGame,
    pub game3: ShortGame,
    pub game4: ShortGame,
}

/// A tower: four games and a remix.
#[derive(Debug)]
pub struct TickflowTower {
    pub name: String,
    pub fs: Option<String>,
    pub default_position: u32,
    pub fixed: bool,
    pub game1: ShortGame,
    pub game2: ShortGame,
    pub game3: ShortGame,
    pub game4: ShortGame,
    pub remix: ShortGame,
}

/// A gate game, with one tickflow per difficulty and mode.
#[derive(Debug)]
pub struct TickflowGate {
    pub name: String,
    pub fs: Option<String>,
    pub default_position: u32,
    pub fixed: bool,
    pub tickflow_easy: String,
    pub tickflow_medium: String,
    pub tickflow_hard: String,
    pub tickflow_endless: String,
    pub tickflow_practice: String,
    pub music: Option<String>,
    pub prologue: Option<String>,
    pub text_prefix: Option<String>,
}

/// A patch to a tickflow, at a position for each regional release.
#[derive(Debug)]
pub struct TickflowPatch {
    pub tickflow: String,
    pub pos_us: Option<u32>,
    pub pos_eu: Option<u32>,
    pub pos_kr: Option<u32>,
    pub pos_jp: Option<u32>,
}

} // verus!
