use vstd::prelude::*;

pub mod bar;
pub mod battery;
pub mod color;
pub mod config;
pub mod drawer;
pub mod icon_text;
pub mod root;
pub mod row;
pub mod services;
pub mod signals;
pub mod text;
pub mod widgets;

verus! {

} // verus!
