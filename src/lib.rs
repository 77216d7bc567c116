//! A retained-mode widget layer: widgets report layout intent, fold their
//! layout-relevant state into a hash, draw themselves and turn input events
//! into application messages.
pub mod geometry;
pub mod input;
pub mod hasher;
pub mod layout;
pub mod widget;
pub mod renderer;
pub mod text;
pub mod radio;
pub mod column;
pub mod interface;
pub mod recorder;
