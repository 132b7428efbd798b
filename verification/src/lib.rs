//! Small, self-contained building blocks: checked arithmetic, string
//! ownership and borrowing, records, tagged unions, decimal text, a guessing
//! game, a blinking output and a one-number configuration reader.

pub mod arithmetic;
pub mod ownership;
pub mod lifetimes;
pub mod text;
pub mod parse;
pub mod person;
pub mod enums;
pub mod shapes;
pub mod config;
pub mod guessing;
pub mod blink;
