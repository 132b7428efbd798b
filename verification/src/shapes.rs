//! Describing the variants of a shape.

use vstd::prelude::*;
use vstd::string::*;
use crate::text::{decimal, holds_lines, push_decimal};

verus! {

/// A shape with its dimensions.
#[derive(Clone, Copy, Debug, PartialEq, Eq, Structural)]
pub enum Shape {
    Circle(i32),
    Rectangle(i32, i32),
    Triangle(i32, i32),
}

impl Shape {
    /// The sentence that names the shape and its dimensions.
    pub open spec fn sentence(self) -> Seq<char> {
        match self {
            Shape::Circle(radius) => "Circle with radius "@ + decimal(radius as int),
            Shape::Rectangle(width, height) => "Rectangle with width "@ + decimal(width as int)
                + " and height "@ + decimal(height as int),
            Shape::Triangle(base, height) => "Triangle with base "@ + decimal(base as int)
                + " and height "@ + decimal(height as int),
        }
    }

    /// A shape is large where it has two dimensions and both exceed 10.
    pub open spec fn spec_is_large(self) -> bool {
        match self {
            Shape::Circle(_) => false,
            Shape::Rectangle(width, height) => width > 10 && height > 10,
            Shape::Triangle(base, height) => base > 10 && height > 10,
        }
    }

    /// Whether the shape has two dimensions that both exceed 10.
    pub fn is_large(self) -> (large: bool)
        ensures
            large == self.spec_is_large(),
    {
        match self {
            Shape::Circle(_) => false,
            Shape::Rectangle(width, height) => width > 10 && height > 10,
            Shape::Triangle(base, height) => base > 10 && height > 10,
        }
    }

    /// The lines that describe the shape: its sentence, and a remark where it is large.
    pub open spec fn description(self) -> Seq<Seq<char>> {
        if self.spec_is_large() {
            seq![self.sentence(), "Large shape detected."@]
        } else {
            seq![self.sentence()]
        }
    }
}

/// Works out the lines that describe a shape; the caller prints them.
pub fn describe_shape(shape: Shape) -> (lines: Vec<String>)
    ensures
        holds_lines(lines@, shape.description()),
{
    let mut sentence: String;
    match shape {
        Shape::Circle(radius) => {
            sentence = "Circle with radius ".to_owned();
            push_decimal(&mut sentence, radius as i64);
        },
        Shape::Rectangle(width, height) => {
            sentence = "Rectangle with width ".to_owned();
            push_decimal(&mut sentence, width as i64);
            sentence.append(" and height ");
            push_decimal(&mut sentence, height as i64);
        },
        Shape::Triangle(base, height) => {
            sentence = "Triangle with base ".to_owned();
            push_decimal(&mut sentence, base as i64);
            sentence.append(" and height ");
            push_decimal(&mut sentence, height as i64);
        },
    }
    let mut lines: Vec<String> = Vec::new();
    lines.push(sentence);
    if shape.is_large() {
        lines.push("Large shape detected.".to_owned());
    }
    lines
}

} // verus!
