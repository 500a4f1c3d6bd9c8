//! Count-down timers over the SysTick block and the general-purpose timer
//! blocks: the register-pair solver, the idle and running timer states over a
//! plain-value model of each register block, and the channel remap table.

use vstd::prelude::*;

pub mod outside;
pub mod solver;
pub mod periph;
pub mod timer;
pub mod remap;
