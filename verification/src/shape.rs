//! The outline of a box on the map, as the four segments that border it.

use vstd::prelude::*;

verus! {

/// A straight line between two points of the map.
#[derive(Debug, Clone, Copy, PartialEq, Eq, Structural)]
pub struct Segment {
    pub x1: u32,
    pub y1: u32,
    pub x2: u32,
    pub y2: u32,
}

/// A box on the map: its lower left corner and its extent.
#[derive(Debug, Clone, Copy, PartialEq, Eq, Structural)]
pub struct BoxShape {
    pub x: u16,
    pub y: u16,
    pub width: u16,
    pub height: u16,
}

impl BoxShape {
    /// The left border.
    pub open spec fn left(self) -> Segment {
        Segment {
            x1: self.x as u32,
            y1: self.y as u32,
            x2: self.x as u32,
            y2: (self.y + self.height) as u32,
        }
    }

    /// The top border.
    pub open spec fn top(self) -> Segment {
        Segment {
            x1: self.x as u32,
            y1: (self.y + self.height) as u32,
            x2: (self.x + self.width) as u32,
            y2: (self.y + self.height) as u32,
        }
    }

    /// The right border.
    pub open spec fn right(self) -> Segment {
        Segment {
            x1: (self.x + self.width) as u32,
            y1: self.y as u32,
            x2: (self.x + self.width) as u32,
            y2: (self.y + self.height) as u32,
        }
    }

    /// The bottom border.
    pub open spec fn bottom(self) -> Segment {
        Segment {
            x1: self.x as u32,
            y1: self.y as u32,
            x2: (self.x + self.width) as u32,
            y2: self.y as u32,
        }
    }

    /// The four borders: left, top, right, bottom.
    pub open spec fn outline(self) -> Seq<Segment> {
        seq![self.left(), self.top(), self.right(), self.bottom()]
    }

    /// The four borders of the box: left, top, right, bottom. A box at
    /// the edge of what coordinates can hold still has its borders, since
    /// these are given in a wider type.
    pub fn segments(&self) -> (r: Vec<Segment>)
        ensures
            r@ == self.outline(),
    {
        let x = self.x as u32;
        let y = self.y as u32;
        let far_x = x + self.width as u32;
        let far_y = y + self.height as u32;
        let r = vec![
            Segment { x1: x, y1: y, x2: x, y2: far_y },
            Segment { x1: x, y1: far_y, x2: far_x, y2: far_y },
            Segment { x1: far_x, y1: y, x2: far_x, y2: far_y },
            Segment { x1: x, y1: y, x2: far_x, y2: y },
        ];
        assert(r@ =~= self.outline());
        r
    }
}

/// The borders of a box close up: each ends where the next one starts or
/// ends, and every border runs along one axis.
pub proof fn lemma_outline_is_closed(shape: BoxShape)
    ensures
        shape.left().x1 == shape.left().x2,
        shape.right().x1 == shape.right().x2,
        shape.top().y1 == shape.top().y2,
        shape.bottom().y1 == shape.bottom().y2,
        (shape.left().x2, shape.left().y2) == (shape.top().x1, shape.top().y1),
        (shape.top().x2, shape.top().y2) == (shape.right().x2, shape.right().y2),
        (shape.right().x1, shape.right().y1) == (shape.bottom().x2, shape.bottom().y2),
        (shape.bottom().x1, shape.bottom().y1) == (shape.left().x1, shape.left().y1),
{
}

} // verus!
