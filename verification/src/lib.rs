#![allow(non_snake_case, non_camel_case_types, non_upper_case_globals)]

pub mod text;
pub mod consts;
pub mod hackmap;
pub mod d2api;
