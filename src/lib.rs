pub mod launcher;
pub mod log;
pub mod manifest;
pub mod menu;
pub mod pcm;
pub mod saltwater_cfg;
pub mod source;
