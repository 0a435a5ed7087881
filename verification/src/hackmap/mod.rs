//! The hack map proper: its configuration, the automap markers, the item
//! name colouring, the small tweaks and the helper bot.
pub mod config;
pub mod unit_color;
pub mod config_deserializer;
pub mod tweaks;
pub mod helper_bot;
pub mod input;
pub mod auto_map;
pub mod hackmap;
