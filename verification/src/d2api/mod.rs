//! Where the hack map finds the game's functions and tables: the image
//! bases of the game modules, the address tables computed from the bases
//! the modules were loaded at, and the plain records of game data the hack
//! map reads.
pub mod types;
pub mod image_base;
pub mod d2client;
pub mod d2common;
pub mod d2gfx;
pub mod d2multi;
pub mod d2sigma;
pub mod d2win;
pub mod d2winex;
pub mod fog;
pub mod d2ex;
