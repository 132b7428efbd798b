//! Tagged unions and exhaustive matching over them.

use vstd::prelude::*;
use vstd::string::*;
use crate::text::{decimal, push_decimal};

verus! {

/// One of the four directions of a grid.
#[derive(Clone, Copy, Debug, PartialEq, Eq, Structural)]
pub enum Direction {
    Up,
    Down,
    Left,
    Right,
}

impl Direction {
    /// The sentence that announces a move in this direction.
    pub open spec fn spec_announce(self) -> Seq<char> {
        match self {
            Direction::Up => "Moving up"@,
            Direction::Down => "Moving down"@,
            Direction::Left => "Moving left"@,
            Direction::Right => "Moving right"@,
        }
    }

    /// The sentence that announces a move in this direction.
    pub fn announce(self) -> (sentence: &'static str)
        ensures
            sentence@ == self.spec_announce(),
    {
        match self {
            Direction::Up => "Moving up",
            Direction::Down => "Moving down",
            Direction::Left => "Moving left",
            Direction::Right => "Moving right",
        }
    }
}

/// A command, some with data attached.
#[derive(Debug)]
pub enum Message {
    Quit,
    Move { x: i32, y: i32 },
    Write(String),
    ChangeColor(i32, i32, i32),
}

impl Message {
    /// The line that reports this command.
    pub open spec fn spec_process(&self) -> Seq<char> {
        match self {
            Message::Quit => "Quitting..."@,
            Message::Move { x, y } => "Moving to ("@ + decimal(*x as int) + ", "@ + decimal(
                *y as int,
            ) + ")"@,
            Message::Write(text) => "Writing: "@ + text@,
            Message::ChangeColor(r, g, b) => "Changing color to ("@ + decimal(*r as int) + ", "@
                + decimal(*g as int) + ", "@ + decimal(*b as int) + ")"@,
        }
    }

    /// Works out the line that reports this command; the caller prints it.
    pub fn process(&self) -> (line: String)
        ensures
            line@ == self.spec_process(),
    {
        match self {
            Message::Quit => "Quitting...".to_owned(),
            Message::Move { x, y } => {
                let mut line = "Moving to (".to_owned();
                push_decimal(&mut line, *x as i64);
                line.append(", ");
                push_decimal(&mut line, *y as i64);
                line.append(")");
                line
            },
            Message::Write(text) => {
                let mut line = "Writing: ".to_owned();
                line.append(text.as_str());
                line
            },
            Message::ChangeColor(r, g, b) => {
                let mut line = "Changing color to (".to_owned();
                push_decimal(&mut line, *r as i64);
                line.append(", ");
                push_decimal(&mut line, *g as i64);
                line.append(", ");
                push_decimal(&mut line, *b as i64);
                line.append(")");
                line
            },
        }
    }
}

/// The first element of a list, where it has one.
pub fn get_first_element(list: Vec<i32>) -> (first: Option<i32>)
    ensures
        first == (if list@.len() == 0 { None } else { Some(list@[0]) }),
{
    if list.is_empty() {
        return None;
    }
    Some(list[0])
}

} // verus!
