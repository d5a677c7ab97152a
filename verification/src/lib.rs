//! Embedded control building blocks for grid-interfacing inverters, in
//! 16.16 fixed-point arithmetic.
pub mod calculations;
pub mod dc;
pub mod droop;
pub mod dvoc;
pub mod dynamics;
pub mod fixed_point;
pub mod gfl;
pub mod gfm;
pub mod inverter;
pub mod osg;
pub mod pll;
pub mod reference_frames;
pub mod simulations;
pub mod state;
pub mod trig;
