//! Integer plane geometry: points, sizes, rectangles and output transforms.
//!
//! Sums and differences of coordinates saturate at the bounds of `i32`, as those
//! of smithay do. The library links no native code, which smithay cannot do
//! without, so the little that it needs of rectangles is proved here.
use vstd::prelude::*;

verus! {

#[derive(Clone, Copy, Debug, PartialEq, Eq, Structural)]
pub struct Point {
    pub x: i32,
    pub y: i32,
}

#[derive(Clone, Copy, Debug, PartialEq, Eq, Structural)]
pub struct Size {
    pub w: i32,
    pub h: i32,
}

#[derive(Clone, Copy, Debug, PartialEq, Eq, Structural)]
pub struct Rect {
    pub loc: Point,
    pub size: Size,
}

/// The `i32` nearest to an integer.
pub open spec fn saturated(n: int) -> int {
    if n > i32::MAX {
        i32::MAX as int
    } else if n < i32::MIN {
        i32::MIN as int
    } else {
        n
    }
}

pub open spec fn lesser(a: int, b: int) -> int {
    if a <= b { a } else { b }
}

pub open spec fn greater(a: int, b: int) -> int {
    if a >= b { a } else { b }
}

fn saturate(n: i64) -> (r: i32)
    ensures
        r == saturated(n as int),
{
    if n > 0x7fff_ffff {
        0x7fff_ffff
    } else if n < -0x8000_0000 {
        -0x8000_0000
    } else {
        n as i32
    }
}

/// `a + b`, saturating.
pub fn sat_add(a: i32, b: i32) -> (r: i32)
    ensures
        r == saturated(a + b),
{
    saturate(a as i64 + b as i64)
}

/// `a - b`, saturating.
pub fn sat_sub(a: i32, b: i32) -> (r: i32)
    ensures
        r == saturated(a - b),
{
    saturate(a as i64 - b as i64)
}

pub fn min_i32(a: i32, b: i32) -> (r: i32)
    ensures
        r == lesser(a as int, b as int),
{
    if a <= b { a } else { b }
}

pub fn max_i32(a: i32, b: i32) -> (r: i32)
    ensures
        r == greater(a as int, b as int),
{
    if a >= b { a } else { b }
}

impl Point {
    pub fn new(x: i32, y: i32) -> (p: Point)
        ensures
            p == (Point { x, y }),
    {
        Point { x, y }
    }

    pub open spec fn plus(self, other: Point) -> Point {
        Point {
            x: saturated(self.x + other.x) as i32,
            y: saturated(self.y + other.y) as i32,
        }
    }

    pub open spec fn minus(self, other: Point) -> Point {
        Point {
            x: saturated(self.x - other.x) as i32,
            y: saturated(self.y - other.y) as i32,
        }
    }

    /// The sum of two points, saturating in each coordinate.
    pub fn offset_by(self, other: Point) -> (p: Point)
        ensures
            p == self.plus(other),
    {
        Point { x: sat_add(self.x, other.x), y: sat_add(self.y, other.y) }
    }

    /// The difference of two points, saturating in each coordinate.
    pub fn relative_to(self, other: Point) -> (p: Point)
        ensures
            p == self.minus(other),
    {
        Point { x: sat_sub(self.x, other.x), y: sat_sub(self.y, other.y) }
    }
}

impl Size {
    pub fn new(w: i32, h: i32) -> (s: Size)
        ensures
            s == (Size { w, h }),
    {
        Size { w, h }
    }
}

impl Rect {
    pub fn new(loc: Point, size: Size) -> (r: Rect)
        ensures
            r == (Rect { loc, size }),
    {
        Rect { loc, size }
    }

    /// The first column right of the rectangle.
    pub open spec fn right(self) -> int {
        saturated(self.loc.x + self.size.w)
    }

    /// The first row below the rectangle.
    pub open spec fn bottom(self) -> int {
        saturated(self.loc.y + self.size.h)
    }

    /// Whether the rectangle holds the point (`x`, `y`): its left and top edges
    /// are inside, its right and bottom edges are not.
    pub open spec fn holds(self, x: int, y: int) -> bool {
        self.loc.x <= x < self.right() && self.loc.y <= y < self.bottom()
    }

    pub open spec fn meets(self, other: Rect) -> bool {
        &&& self.loc.x < other.right()
        &&& other.loc.x < self.right()
        &&& self.loc.y < other.bottom()
        &&& other.loc.y < self.bottom()
    }

    /// The rectangle with the given top left and bottom right corners.
    pub open spec fn between(x1: int, y1: int, x2: int, y2: int) -> Rect {
        Rect {
            loc: Point { x: x1 as i32, y: y1 as i32 },
            size: Size { w: saturated(x2 - x1) as i32, h: saturated(y2 - y1) as i32 },
        }
    }

    pub open spec fn common(self, other: Rect) -> Rect {
        Rect::between(
            greater(self.loc.x as int, other.loc.x as int),
            greater(self.loc.y as int, other.loc.y as int),
            lesser(self.right(), other.right()),
            lesser(self.bottom(), other.bottom()),
        )
    }

    /// The smallest rectangle around both.
    pub open spec fn joined(self, other: Rect) -> Rect {
        Rect::between(
            lesser(
                lesser(self.loc.x as int, self.right()),
                lesser(other.loc.x as int, other.right()),
            ),
            lesser(
                lesser(self.loc.y as int, self.bottom()),
                lesser(other.loc.y as int, other.bottom()),
            ),
            greater(
                greater(self.loc.x as int, self.right()),
                greater(other.loc.x as int, other.right()),
            ),
            greater(
                greater(self.loc.y as int, self.bottom()),
                greater(other.loc.y as int, other.bottom()),
            ),
        )
    }

    fn right_edge(&self) -> (x: i32)
        ensures
            x == self.right(),
    {
        sat_add(self.loc.x, self.size.w)
    }

    fn bottom_edge(&self) -> (y: i32)
        ensures
            y == self.bottom(),
    {
        sat_add(self.loc.y, self.size.h)
    }

    /// Whether the point lies in the rectangle.
    pub fn contains(&self, p: Point) -> (r: bool)
        ensures
            r == self.holds(p.x as int, p.y as int),
    {
        p.x >= self.loc.x && p.x < self.right_edge() && p.y >= self.loc.y && p.y
            < self.bottom_edge()
    }

    /// Whether the two rectangles share area; touching is not enough.
    pub fn overlaps(&self, other: &Rect) -> (r: bool)
        ensures
            r == self.meets(*other),
    {
        self.loc.x < other.right_edge() && other.loc.x < self.right_edge() && self.loc.y
            < other.bottom_edge() && other.loc.y < self.bottom_edge()
    }

    /// The area that two rectangles share, `None` if they do not overlap.
    pub fn intersection(&self, other: &Rect) -> (r: Option<Rect>)
        ensures
            r == (if self.meets(*other) { Some(self.common(*other)) } else { None }),
    {
        if !self.overlaps(other) {
            return None;
        }
        let x1: i32 = max_i32(self.loc.x, other.loc.x);
        let y1: i32 = max_i32(self.loc.y, other.loc.y);
        let x2: i32 = min_i32(self.right_edge(), other.right_edge());
        let y2: i32 = min_i32(self.bottom_edge(), other.bottom_edge());
        Some(Rect { loc: Point { x: x1, y: y1 }, size: Size { w: sat_sub(x2, x1), h: sat_sub(y2, y1) } })
    }

    /// The smallest rectangle around both.
    pub fn merge(&self, other: &Rect) -> (r: Rect)
        ensures
            r == self.joined(*other),
    {
        let x1: i32 = min_i32(
            min_i32(self.loc.x, self.right_edge()),
            min_i32(other.loc.x, other.right_edge()),
        );
        let y1: i32 = min_i32(
            min_i32(self.loc.y, self.bottom_edge()),
            min_i32(other.loc.y, other.bottom_edge()),
        );
        let x2: i32 = max_i32(
            max_i32(self.loc.x, self.right_edge()),
            max_i32(other.loc.x, other.right_edge()),
        );
        let y2: i32 = max_i32(
            max_i32(self.loc.y, self.bottom_edge()),
            max_i32(other.loc.y, other.bottom_edge()),
        );
        Rect { loc: Point { x: x1, y: y1 }, size: Size { w: sat_sub(x2, x1), h: sat_sub(y2, y1) } }
    }
}

/// A point lies in the intersection of two rectangles exactly if it lies in
/// both; where there is no intersection, no point lies in both.
pub proof fn intersection_is_common_area(a: Rect, b: Rect, x: int, y: int)
    requires
        a.size.w >= 0,
        a.size.h >= 0,
        b.size.w >= 0,
        b.size.h >= 0,
    ensures
        a.meets(b) ==> (a.common(b).holds(x, y) <==> a.holds(x, y) && b.holds(x, y)),
        !a.meets(b) ==> !(a.holds(x, y) && b.holds(x, y)),
{
}

/// The merged rectangle holds every point of both.
pub proof fn merge_covers_both(a: Rect, b: Rect, x: int, y: int)
    requires
        a.size.w >= 0,
        a.size.h >= 0,
        b.size.w >= 0,
        b.size.h >= 0,
        greater(a.right(), b.right()) - lesser(a.loc.x as int, b.loc.x as int) <= i32::MAX,
        greater(a.bottom(), b.bottom()) - lesser(a.loc.y as int, b.loc.y as int) <= i32::MAX,
    ensures
        a.holds(x, y) || b.holds(x, y) ==> a.joined(b).holds(x, y),
{
}

/// The rectangle at a place, with sides as near to these lengths as can be.
pub open spec fn span(x: int, y: int, w: int, h: int) -> Rect {
    Rect {
        loc: Point { x: x as i32, y: y as i32 },
        size: Size { w: saturated(w) as i32, h: saturated(h) as i32 },
    }
}

/// Whether one of some rectangles holds a point.
pub open spec fn covered(rects: Seq<Rect>, x: int, y: int) -> bool {
    exists|i: int| 0 <= i < rects.len() && (#[trigger] rects[i]).holds(x, y)
}

/// No rectangle has a negative side.
pub open spec fn are_sized(rects: Seq<Rect>) -> bool {
    forall|i: int| 0 <= i < rects.len() ==> (#[trigger] rects[i]).is_sized()
}

/// Every rectangle holds at least a point.
pub open spec fn are_solid(rects: Seq<Rect>) -> bool {
    forall|i: int| 0 <= i < rects.len() ==> (#[trigger] rects[i]).is_solid()
}

proof fn covered_by_one_more(rects: Seq<Rect>, rect: Rect)
    ensures
        forall|x: int, y: int| #[trigger]
            covered(rects.push(rect), x, y) <==> covered(rects, x, y) || rect.holds(x, y),
{
    assert forall|x: int, y: int| #[trigger] covered(rects.push(rect), x, y) <==> covered(
        rects,
        x,
        y,
    ) || rect.holds(x, y) by {
        let all = rects.push(rect);
        if covered(rects, x, y) {
            let i = choose|i: int| 0 <= i < rects.len() && (#[trigger] rects[i]).holds(x, y);
            assert(all[i].holds(x, y));
        }
        if rect.holds(x, y) {
            assert(all[rects.len() as int].holds(x, y));
        }
        if covered(all, x, y) {
            let i = choose|i: int| 0 <= i < all.len() && (#[trigger] all[i]).holds(x, y);
            if i < rects.len() {
                assert(rects[i].holds(x, y));
            }
        }
    }
}

proof fn covered_by_both(a: Seq<Rect>, b: Seq<Rect>)
    ensures
        forall|x: int, y: int| #[trigger]
            covered(a + b, x, y) <==> covered(a, x, y) || covered(b, x, y),
{
    assert forall|x: int, y: int| #[trigger] covered(a + b, x, y) <==> covered(a, x, y) || covered(
        b,
        x,
        y,
    ) by {
        let all = a + b;
        if covered(a, x, y) {
            let i = choose|i: int| 0 <= i < a.len() && (#[trigger] a[i]).holds(x, y);
            assert(all[i].holds(x, y));
        }
        if covered(b, x, y) {
            let i = choose|i: int| 0 <= i < b.len() && (#[trigger] b[i]).holds(x, y);
            assert(all[a.len() + i].holds(x, y));
        }
        if covered(all, x, y) {
            let i = choose|i: int| 0 <= i < all.len() && (#[trigger] all[i]).holds(x, y);
            if i < a.len() {
                assert(a[i].holds(x, y));
            } else {
                assert(b[i - a.len()].holds(x, y));
            }
        }
    }
}

fn add_piece(pieces: &mut Vec<Rect>, rect: Rect)
    requires
        are_sized(old(pieces)@),
        rect.is_sized(),
    ensures
        are_sized(final(pieces)@),
        are_solid(old(pieces)@) && (rect.size.w > 0 && rect.size.h > 0 ==> rect.is_solid())
            ==> are_solid(final(pieces)@),
        forall|x: int, y: int| #[trigger]
            covered(final(pieces)@, x, y) <==> covered(old(pieces)@, x, y) || rect.holds(x, y),
        final(pieces)@ == old(pieces)@ + rect.piece(),
{
    if rect.size.w != 0 && rect.size.h != 0 {
        proof {
            covered_by_one_more(pieces@, rect);
        }
        pieces.push(rect);
    }
}

impl Rect {
    pub open spec fn is_sized(self) -> bool {
        self.size.w >= 0 && self.size.h >= 0
    }

    /// Whether the rectangle holds at least a point.
    pub open spec fn is_solid(self) -> bool {
        self.loc.x < self.right() && self.loc.y < self.bottom()
    }

    /// Whether all of another rectangle lies in this one.
    pub open spec fn encloses(self, other: Rect) -> bool {
        &&& self.loc.x <= other.loc.x
        &&& self.loc.y <= other.loc.y
        &&& other.right() <= self.right()
        &&& other.bottom() <= self.bottom()
    }

    /// Whether all of another rectangle lies in this one.
    pub fn contains_rect(&self, other: &Rect) -> (r: bool)
        ensures
            r == self.encloses(*other),
    {
        other.loc.x >= self.loc.x && other.loc.y >= self.loc.y && other.right_edge()
            <= self.right_edge() && other.bottom_edge() <= self.bottom_edge()
    }

    /// The rectangle, unless it is empty.
    pub open spec fn piece(self) -> Seq<Rect> {
        if self.size.w != 0 && self.size.h != 0 {
            seq![self]
        } else {
            Seq::empty()
        }
    }

    /// What is left of a rectangle without another that it overlaps: what is
    /// above it, left of it, right of it and below it.
    pub open spec fn parts_without(self, other: Rect) -> Seq<Rect> {
        let c = self.common(other);
        let (x, y, w) = (self.loc.x as int, self.loc.y as int, self.size.w as int);
        span(x, y, w, c.loc.y - y).piece() + span(x, c.loc.y as int, c.loc.x - x, c.size.h as int).piece()
            + span(c.right(), c.loc.y as int, self.right() - c.right(), c.size.h as int).piece()
            + span(x, c.bottom(), w, self.bottom() - c.bottom()).piece()
    }

    /// What is left of a rectangle without another, in up to four parts; `None`
    /// where they share nothing.
    pub fn cut(&self, other: &Rect) -> (r: Option<Vec<Rect>>)
        requires
            self.is_sized(),
            other.is_sized(),
        ensures
            match r {
                None => !self.meets(*other) && forall|x: int, y: int|
                    self.holds(x, y) ==> !#[trigger] other.holds(x, y),
                Some(parts) => {
                    &&& self.meets(*other)
                    &&& parts@ == self.parts_without(*other)
                    &&& are_sized(parts@)
                    &&& self.is_solid() ==> are_solid(parts@)
                    &&& forall|x: int, y: int| #[trigger]
                        covered(parts@, x, y) <==> self.holds(x, y) && !other.holds(x, y)
                },
            },
    {
        let common = match self.intersection(other) {
            None => {
                return None;
            },
            Some(c) => c,
        };
        let mut parts: Vec<Rect> = Vec::new();
        if other.contains_rect(self) {
            return Some(parts);
        }
        let common_right: i32 = sat_add(common.loc.x, common.size.w);
        let common_bottom: i32 = sat_add(common.loc.y, common.size.h);
        let top = Rect {
            loc: self.loc,
            size: Size { w: self.size.w, h: sat_sub(common.loc.y, self.loc.y) },
        };
        let left = Rect {
            loc: Point { x: self.loc.x, y: common.loc.y },
            size: Size { w: sat_sub(common.loc.x, self.loc.x), h: common.size.h },
        };
        let right = Rect {
            loc: Point { x: common_right, y: common.loc.y },
            size: Size { w: sat_sub(self.right_edge(), common_right), h: common.size.h },
        };
        let bottom = Rect {
            loc: Point { x: self.loc.x, y: common_bottom },
            size: Size { w: self.size.w, h: sat_sub(self.bottom_edge(), common_bottom) },
        };
        add_piece(&mut parts, top);
        add_piece(&mut parts, left);
        add_piece(&mut parts, right);
        add_piece(&mut parts, bottom);
        assert(parts@ =~= top.piece() + left.piece() + right.piece() + bottom.piece());
        Some(parts)
    }
}

fn copy_rects(rects: &Vec<Rect>) -> (r: Vec<Rect>)
    ensures
        r@ == rects@,
{
    let mut r: Vec<Rect> = Vec::new();
    let mut i: usize = 0;
    while i < rects.len()
        invariant
            i <= rects@.len(),
            r@ == rects@.take(i as int),
        decreases rects@.len() - i,
    {
        r.push(rects[i]);
        i = i + 1;
        assert(r@ =~= rects@.take(i as int));
    }
    assert(r@ =~= rects@);
    r
}

/// What is left of some rectangles without another: those that it does not
/// overlap, then the parts of those that it does.
pub open spec fn without_one(rects: Seq<Rect>, other: Rect) -> Seq<Rect> {
    rects.filter(|r: Rect| !r.meets(other)) + rects.flat_map(
        |r: Rect| if r.meets(other) { r.parts_without(other) } else { Seq::empty() },
    )
}

/// What is left of some rectangles without others, one after the other.
pub open spec fn without(rects: Seq<Rect>, others: Seq<Rect>) -> Seq<Rect> {
    others.fold_left(rects, |left: Seq<Rect>, other: Rect| without_one(left, other))
}

/// What is left of some rectangles without another: first those that it does
/// not touch, then the parts of the others.
fn subtract_one(rects: &Vec<Rect>, other: &Rect) -> (r: Vec<Rect>)
    requires
        are_sized(rects@),
        other.is_sized(),
    ensures
        are_sized(r@),
        are_solid(rects@) ==> are_solid(r@),
        forall|x: int, y: int| #[trigger]
            covered(r@, x, y) <==> covered(rects@, x, y) && !other.holds(x, y),
        r@ == without_one(rects@, *other),
{
    let ghost apart = |r: Rect| !r.meets(*other);
    let ghost left_of = |r: Rect| if r.meets(*other) { r.parts_without(*other) } else { Seq::empty() };
    let mut kept: Vec<Rect> = Vec::new();
    let mut parts: Vec<Rect> = Vec::new();
    let mut i: usize = 0;
    assert(kept@ == rects@.take(0).filter(apart)) by {
        reveal(Seq::filter);
    }
    while i < rects.len()
        invariant
            i <= rects@.len(),
            are_sized(rects@),
            other.is_sized(),
            apart == (|r: Rect| !r.meets(*other)),
            left_of == (|r: Rect|
                if r.meets(*other) { r.parts_without(*other) } else { Seq::empty() }),
            kept@ == rects@.take(i as int).filter(apart),
            parts@ == rects@.take(i as int).flat_map(left_of),
            are_sized(kept@),
            are_sized(parts@),
            are_solid(rects@) ==> are_solid(kept@) && are_solid(parts@),
            forall|x: int, y: int| #[trigger]
                covered(rects@.take(i as int), x, y) && !other.holds(x, y) <==> covered(kept@, x, y)
                    || covered(parts@, x, y),
        decreases rects@.len() - i,
    {
        let ghost before = rects@.take(i as int);
        let rect = rects[i];
        let ghost kept_before = kept@;
        let ghost parts_before = parts@;
        proof {
            assert(rects@.take(i + 1) =~= before.push(rect));
            covered_by_one_more(before, rect);
            covered_by_one_more(kept@, rect);
            rects@.lemma_flat_map_take_append(left_of, i as int);
            assert(before.push(rect).filter(apart) == (if apart(rect) {
                before.filter(apart).push(rect)
            } else {
                before.filter(apart)
            })) by {
                reveal(Seq::filter);
                assert(before.push(rect).drop_last() =~= before);
            }
        }
        match rect.cut(other) {
            None => {
                kept.push(rect);
            },
            Some(more) => {
                let mut more = more;
                proof {
                    covered_by_both(parts@, more@);
                }
                parts.append(&mut more);
            },
        }
        i = i + 1;
        proof {
            assert forall|x: int, y: int| #[trigger] covered(rects@.take(i as int), x, y)
                && !other.holds(x, y) <==> covered(kept@, x, y) || covered(parts@, x, y) by {
                assert(covered(before, x, y) && !other.holds(x, y) <==> covered(kept_before, x, y)
                    || covered(parts_before, x, y));
            }
        }
    }
    assert(rects@.take(i as int) =~= rects@);
    proof {
        covered_by_both(kept@, parts@);
        assert forall|x: int, y: int| #[trigger] covered(kept@ + parts@, x, y) <==> covered(
            rects@,
            x,
            y,
        ) && !other.holds(x, y) by {
            assert(covered(rects@.take(i as int), x, y) && !other.holds(x, y) <==> covered(
                kept@,
                x,
                y,
            ) || covered(parts@, x, y));
        }
    }
    kept.append(&mut parts);
    kept
}

/// What is left of some rectangles without others: exactly the points of the
/// first that are in none of the second.
pub fn subtract_rects_many(rects: &Vec<Rect>, others: &Vec<Rect>) -> (r: Vec<Rect>)
    requires
        are_sized(rects@),
        are_sized(others@),
    ensures
        are_sized(r@),
        are_solid(rects@) ==> are_solid(r@),
        forall|x: int, y: int| #[trigger]
            covered(r@, x, y) <==> covered(rects@, x, y) && !covered(others@, x, y),
        r@ == without(rects@, others@),
{
    let mut left = copy_rects(rects);
    let mut i: usize = 0;
    while i < others.len()
        invariant
            i <= others@.len(),
            are_sized(others@),
            left@ == without(rects@, others@.take(i as int)),
            are_sized(left@),
            are_solid(rects@) ==> are_solid(left@),
            forall|x: int, y: int| #[trigger]
                covered(left@, x, y) <==> covered(rects@, x, y) && !covered(
                    others@.take(i as int),
                    x,
                    y,
                ),
        decreases others@.len() - i,
    {
        proof {
            assert(others@.take(i + 1) =~= others@.take(i as int).push(others@[i as int]));
            covered_by_one_more(others@.take(i as int), others@[i as int]);
            assert(others@.take(i + 1).drop_last() =~= others@.take(i as int));
        }
        left = subtract_one(&left, &others[i]);
        i = i + 1;
    }
    assert(others@.take(i as int) =~= others@);
    left
}

/// How an output turns what is drawn on it.
#[derive(Clone, Copy, Debug, PartialEq, Eq, Structural)]
pub enum Transform {
    Normal,
    Rot90,
    Rot180,
    Rot270,
    Flipped,
    Flipped90,
    Flipped180,
    Flipped270,
}

impl Transform {
    /// Whether width and height change places.
    pub open spec fn turns_sideways(self) -> bool {
        self is Rot90 || self is Rot270 || self is Flipped90 || self is Flipped270
    }

    pub open spec fn sized(self, size: Size) -> Size {
        if self.turns_sideways() {
            Size { w: size.h, h: size.w }
        } else {
            size
        }
    }

    pub open spec fn inverse(self) -> Transform {
        match self {
            Transform::Rot90 => Transform::Rot270,
            Transform::Rot270 => Transform::Rot90,
            Transform::Flipped90 => Transform::Flipped270,
            Transform::Flipped270 => Transform::Flipped90,
            other => other,
        }
    }

    /// The size of an area after the transform.
    pub fn transform_size(&self, size: Size) -> (r: Size)
        ensures
            r == self.sized(size),
    {
        match self {
            Transform::Rot90
            | Transform::Rot270
            | Transform::Flipped90
            | Transform::Flipped270 => Size { w: size.h, h: size.w },
            _ => size,
        }
    }

    /// Swaps the quarter turns; flips and half turns stay.
    pub fn invert(&self) -> (r: Transform)
        ensures
            r == self.inverse(),
    {
        match self {
            Transform::Rot90 => Transform::Rot270,
            Transform::Rot270 => Transform::Rot90,
            Transform::Flipped90 => Transform::Flipped270,
            Transform::Flipped270 => Transform::Flipped90,
            Transform::Normal => Transform::Normal,
            Transform::Rot180 => Transform::Rot180,
            Transform::Flipped => Transform::Flipped,
            Transform::Flipped180 => Transform::Flipped180,
        }
    }

    /// Distance from the rectangle's right edge to the area's.
    pub open spec fn right_gap(rect: Rect, area: Size) -> int {
        area.w - rect.loc.x - rect.size.w
    }

    /// Distance from the rectangle's bottom edge to the area's.
    pub open spec fn bottom_gap(rect: Rect, area: Size) -> int {
        area.h - rect.loc.y - rect.size.h
    }

    pub open spec fn placed(self, rect: Rect, area: Size) -> Rect {
        let right = Transform::right_gap(rect, area) as i32;
        let below = Transform::bottom_gap(rect, area) as i32;
        let (x, y) = match self {
            Transform::Normal => (rect.loc.x, rect.loc.y),
            Transform::Rot90 => (below, rect.loc.x),
            Transform::Rot180 => (right, below),
            Transform::Rot270 => (rect.loc.y, right),
            Transform::Flipped => (right, rect.loc.y),
            Transform::Flipped90 => (below, right),
            Transform::Flipped180 => (rect.loc.x, below),
            Transform::Flipped270 => (rect.loc.y, rect.loc.x),
        };
        Rect { loc: Point { x, y }, size: self.sized(rect.size) }
    }

    /// The rectangle that `rect` of an area becomes under the transform.
    pub fn transform_rect_in(&self, rect: Rect, area: Size) -> (r: Rect)
        requires
            i32::MIN <= area.w - rect.loc.x <= i32::MAX,
            i32::MIN <= area.h - rect.loc.y <= i32::MAX,
            i32::MIN <= Transform::right_gap(rect, area) <= i32::MAX,
            i32::MIN <= Transform::bottom_gap(rect, area) <= i32::MAX,
        ensures
            r == self.placed(rect, area),
    {
        let right: i32 = area.w - rect.loc.x - rect.size.w;
        let below: i32 = area.h - rect.loc.y - rect.size.h;
        let loc = match self {
            Transform::Normal => rect.loc,
            Transform::Rot90 => Point { x: below, y: rect.loc.x },
            Transform::Rot180 => Point { x: right, y: below },
            Transform::Rot270 => Point { x: rect.loc.y, y: right },
            Transform::Flipped => Point { x: right, y: rect.loc.y },
            Transform::Flipped90 => Point { x: below, y: right },
            Transform::Flipped180 => Point { x: rect.loc.x, y: below },
            Transform::Flipped270 => Point { x: rect.loc.y, y: rect.loc.x },
        };
        Rect { loc, size: self.transform_size(rect.size) }
    }
}

/// A transform and its inverse leave a size as it was.
pub proof fn inverse_restores_size(t: Transform, size: Size)
    ensures
        t.inverse().sized(t.sized(size)) == size,
{
}

// ---- laws ----

/// Numbers that fit stay, and others stop at the end that they went past.
pub proof fn numbers_stop_at_the_ends(n: int)
    ensures
        -0x8000_0000 <= n <= 0x7fff_ffff ==> saturated(n) == n,
        n > 0x7fff_ffff ==> saturated(n) == 0x7fff_ffff,
        n < -0x8000_0000 ==> saturated(n) == -0x8000_0000,
{
}

/// Going somewhere and back ends at the start, and either coordinate goes by
/// itself.
pub proof fn ways_lead_back(p: Point, q: Point)
    requires
        -0x8000_0000 <= p.x + q.x <= 0x7fff_ffff,
        -0x8000_0000 <= p.y + q.y <= 0x7fff_ffff,
    ensures
        p.plus(q).minus(q) == p,
        p.plus(q) == q.plus(p),
        p.plus(q).x == p.x + q.x && p.plus(q).y == p.y + q.y,
        p.minus(Point { x: 0, y: 0 }) == p,
{
}

/// A rectangle holds its first corner and not its last, from edge to edge.
pub proof fn rectangles_hold_what_is_between_their_edges(r: Rect, x: int, y: int)
    requires
        -0x8000_0000 <= r.loc.x + r.size.w <= 0x7fff_ffff,
        -0x8000_0000 <= r.loc.y + r.size.h <= 0x7fff_ffff,
    ensures
        r.right() == r.loc.x + r.size.w && r.bottom() == r.loc.y + r.size.h,
        r.holds(x, y) <==> 0 <= x - r.loc.x < r.size.w && 0 <= y - r.loc.y < r.size.h,
{
}

/// Solid rectangles meet exactly if a point is in both.
pub proof fn rectangles_meet_in_a_common_point(a: Rect, b: Rect)
    requires
        a.is_solid(),
        b.is_solid(),
    ensures
        a.meets(b) <==> exists|x: int, y: int| #[trigger] a.holds(x, y) && b.holds(x, y),
        a.meets(b) <==> b.meets(a),
        a.meets(a),
{
    let x = greater(a.loc.x as int, b.loc.x as int);
    let y = greater(a.loc.y as int, b.loc.y as int);
    if a.meets(b) {
        assert(a.holds(x, y) && b.holds(x, y));
    }
}

/// A rectangle that encloses another holds all its points.
pub proof fn enclosing_rectangles_hold_the_others(a: Rect, b: Rect, x: int, y: int)
    ensures
        a.encloses(b) && b.holds(x, y) ==> a.holds(x, y),
        a.encloses(a),
        b.is_solid() && (forall|px: int, py: int| #[trigger] b.holds(px, py) ==> a.holds(px, py))
            ==> a.encloses(b),
{
    if b.is_solid() && (forall|px: int, py: int| #[trigger] b.holds(px, py) ==> a.holds(px, py)) {
        assert(b.holds(b.loc.x as int, b.loc.y as int));
        assert(b.holds(b.right() - 1, b.bottom() - 1));
    }
}

/// Quarter turns change width and height, and nothing else does.
pub proof fn quarter_turns_change_the_sides(t: Transform, size: Size)
    ensures
        t is Rot90 || t is Rot270 || t is Flipped90 || t is Flipped270 ==> t.sized(size).w == size.h
            && t.sized(size).h == size.w,
        t is Normal || t is Rot180 || t is Flipped || t is Flipped180 ==> t.sized(size) == size,
        t.sized(t.sized(size)) == size,
{
}

/// A turn is undone by the turn in the other direction, and a mirroring by
/// itself.
pub proof fn turns_are_undone(t: Transform)
    ensures
        t.inverse().inverse() == t,
        t is Rot90 <==> t.inverse() is Rot270,
        t is Flipped90 <==> t.inverse() is Flipped270,
        t is Normal || t is Rot180 || t is Flipped || t is Flipped180 ==> t.inverse() == t,
{
}

/// What lies in an area and is turned lies in the turned area. A quarter turn
/// takes what was below to the left and what was on the left to the top; two of
/// them are a half turn, three a turn in the other direction, and four undo each
/// other. A mirroring changes left and right, and undoes itself.
pub proof fn turned_rectangles_lie_in_the_turned_area(rect: Rect, area: Size)
    requires
        0 <= rect.loc.x && 0 <= rect.loc.y && 0 <= rect.size.w && 0 <= rect.size.h,
        rect.loc.x + rect.size.w <= area.w,
        rect.loc.y + rect.size.h <= area.h,
    ensures
        ({
            let quarter = Transform::Rot90.placed(rect, area);
            let turned = Transform::Rot90.sized(area);
            let half = Transform::Rot180.placed(rect, area);
            let back = Transform::Rot270.placed(rect, area);
            let mirrored = Transform::Flipped.placed(rect, area);
            &&& Transform::Normal.placed(rect, area) == rect
            &&& quarter.loc.x == area.h - (rect.loc.y + rect.size.h) && quarter.loc.y == rect.loc.x
            &&& quarter.loc.x + quarter.size.w <= turned.w && quarter.loc.y + quarter.size.h
                <= turned.h
            &&& Transform::Rot90.placed(quarter, turned) == half
            &&& Transform::Rot90.placed(half, area) == back
            &&& Transform::Rot90.placed(back, turned) == rect
            &&& mirrored.loc.x + mirrored.size.w == area.w - rect.loc.x && mirrored.loc.y
                == rect.loc.y && mirrored.size == rect.size
            &&& Transform::Flipped.placed(mirrored, area) == rect
            &&& Transform::Rot90.placed(mirrored, area) == Transform::Flipped90.placed(rect, area)
            &&& Transform::Rot180.placed(mirrored, area) == Transform::Flipped180.placed(rect, area)
            &&& Transform::Rot270.placed(mirrored, area) == Transform::Flipped270.placed(rect, area)
        }),
{
}

/// The area of two rectangles is the least that encloses both: each of its edges
/// is an edge of one of them, and whatever encloses both encloses it.
pub proof fn joined_rectangles_are_the_least_around_both(a: Rect, b: Rect, outer: Rect)
    requires
        a.is_solid(),
        b.is_solid(),
        a.right() - b.loc.x <= 0x7fff_ffff && b.right() - a.loc.x <= 0x7fff_ffff,
        a.bottom() - b.loc.y <= 0x7fff_ffff && b.bottom() - a.loc.y <= 0x7fff_ffff,
        a.right() - a.loc.x <= 0x7fff_ffff && b.right() - b.loc.x <= 0x7fff_ffff,
        a.bottom() - a.loc.y <= 0x7fff_ffff && b.bottom() - b.loc.y <= 0x7fff_ffff,
    ensures
        a.joined(b).encloses(a) && a.joined(b).encloses(b),
        outer.encloses(a) && outer.encloses(b) ==> outer.encloses(a.joined(b)),
        a.joined(b) == b.joined(a),
        a.joined(b).loc.x == a.loc.x || a.joined(b).loc.x == b.loc.x,
        a.joined(b).loc.y == a.loc.y || a.joined(b).loc.y == b.loc.y,
        a.joined(b).right() == a.right() || a.joined(b).right() == b.right(),
        a.joined(b).bottom() == a.bottom() || a.joined(b).bottom() == b.bottom(),
{
}

} // verus!
