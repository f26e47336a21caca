//! Kinds of controllers and things that come in pairs.

use vstd::prelude::*;
use crate::xr_input::Hand;

verus! {

/// The controllers whose input can be set up.
#[derive(Clone, Copy, Debug, PartialEq, Eq, Structural)]
pub enum XrControllerType {
    OculusTouch,
}

/// One of something for each hand.
#[derive(Debug)]
pub struct Handed<T> {
    pub left: T,
    pub right: T,
}

impl<T> Handed<T> {
    /// The one of the given hand.
    pub open spec fn of(self, hand: Hand) -> T {
        match hand {
            Hand::Left => self.left,
            Hand::Right => self.right,
        }
    }

    /// The one of the given hand.
    pub fn get(&self, hand: Hand) -> (side: &T)
        ensures
            *side == self.of(hand),
    {
        match hand {
            Hand::Left => &self.left,
            Hand::Right => &self.right,
        }
    }
}

} // verus!
