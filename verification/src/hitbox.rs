//! A collision body: a rectangle with collision and extreme-point queries.

use crate::geometry::{spec_collides, spec_mpv, spec_rect_bounded, Point, Rectangle, GEO_LIMIT};
use vstd::prelude::*;

verus! {

/// Wraps a rectangle; equality is the rectangle's field-wise equality.
#[derive(Clone, Copy, Debug, PartialEq, Eq, Structural)]
pub struct Hitbox {
    pub rect: Rectangle,
}

impl Hitbox {
    pub fn new(rect: Rectangle) -> (r: Hitbox)
        ensures
            r.rect == rect,
    {
        Hitbox { rect }
    }

    pub fn update(&mut self, rect: Rectangle)
        ensures
            final(self).rect == rect,
    {
        self.rect = rect;
    }

    pub fn collides(&self, other: &Hitbox) -> (r: bool)
        ensures
            r == spec_collides(self.rect, other.rect),
    {
        self.rect.collides(&other.rect)
    }

    pub fn get_mpv(&self, other: &Hitbox) -> (r: Point)
        requires
            spec_rect_bounded(self.rect, GEO_LIMIT as int + 100),
            spec_rect_bounded(other.rect, GEO_LIMIT as int + 100),
        ensures
            (r.x as int, r.y as int) == spec_mpv(self.rect, other.rect),
    {
        self.rect.get_mpv(&other.rect)
    }

    pub fn get_leftmost_point(&self) -> (r: i64)
        ensures
            r == self.rect.x1,
    {
        self.rect.x1
    }

    pub fn get_rightmost_point(&self) -> (r: i64)
        ensures
            r == self.rect.x2,
    {
        self.rect.x2
    }

    pub fn get_highest_point(&self) -> (r: i64)
        ensures
            r == self.rect.y2,
    {
        self.rect.y2
    }

    pub fn get_lowest_point(&self) -> (r: i64)
        ensures
            r == self.rect.y1,
    {
        self.rect.y1
    }
}

} // verus!
