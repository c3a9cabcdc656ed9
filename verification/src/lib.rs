//! A small text adventure: a character wanders a grid of plots, picks up
//! money, fights bureaucrats, trains and tries to catch a ride out.

pub mod adventure;
pub mod chance;
pub mod commands;
pub mod creatures;
pub mod geography;
pub mod intro;
pub mod logger;
pub mod text;
