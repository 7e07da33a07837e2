use vstd::prelude::*;
use crate::arith::{
    floor_div,
    lemma_fraction_order_is_distance_order,
    lemma_product_bound,
    scaled_square_distance,
};
use crate::constants::FRACTION_LIMIT;
use crate::intersect::{
    crosses,
    denominator,
    hit_denominator,
    hit_numerator,
    lemma_hit_within_wall,
};
use crate::point::Point;

verus! {

/// One ray of the fan.
///
/// The ray leaves `start_point` in a direction that never changes: `reach` is
/// the displacement to the end of the ray at its full, unobstructed length,
/// and `angle` names the direction in degrees. The current end of the ray
/// lies on that line at the fraction `hit_num / hit_den` of the full length;
/// `offset` is the displacement to it, rounded down to whole units.
#[derive(Clone, Copy, Debug, PartialEq, Eq, Structural)]
pub struct Ray {
    pub start_point: Point,
    pub reach: Point,
    pub angle: u32,
    pub intersecting: bool,
    pub hit_num: i64,
    pub hit_den: i64,
    pub offset: Point,
}

impl Ray {
    pub open spec fn wf(self) -> bool {
        &&& self.start_point.in_range()
        &&& self.reach.is_offset()
        &&& self.offset.is_offset()
        &&& 0 < self.hit_num <= FRACTION_LIMIT
        &&& 0 < self.hit_den <= FRACTION_LIMIT
        &&& self.offset.x == (self.hit_num * self.reach.x) / (self.hit_den as int)
        &&& self.offset.y == (self.hit_num * self.reach.y) / (self.hit_den as int)
    }

    /// The ray at its full length from `start_point`, with the given mark.
    pub open spec fn at_full_length(
        start_point: Point,
        reach: Point,
        angle: u32,
        intersecting: bool,
    ) -> Ray {
        Ray { start_point, reach, angle, intersecting, hit_num: 1, hit_den: 1, offset: reach }
    }

    /// The ray moved as a whole so that it starts at `start_point`.
    pub open spec fn translated(self, start_point: Point) -> Ray {
        Ray { start_point, ..self }
    }

    /// The ray back at its full length and marked as not intersecting.
    pub open spec fn reset(self) -> Ray {
        Ray::at_full_length(self.start_point, self.reach, self.angle, false)
    }

    /// The ray meets the wall from `wall_start` to `wall_end`.
    pub open spec fn hits(self, wall_start: Point, wall_end: Point) -> bool {
        crosses(
            wall_start,
            wall_end,
            self.start_point,
            self.start_point.x + self.reach.x,
            self.start_point.y + self.reach.y,
        )
    }

    /// The ray's line and the line of the wall from `wall_start` to
    /// `wall_end` are parallel or coincident.
    pub open spec fn parallel_to(self, wall_start: Point, wall_end: Point) -> bool {
        denominator(
            wall_start,
            wall_end,
            self.start_point,
            self.start_point.x + self.reach.x,
            self.start_point.y + self.reach.y,
        ) == 0
    }

    /// Numerator of the fraction of the full length at which the ray's line
    /// meets the wall's line.
    pub open spec fn hit_num_at(self, wall_start: Point, wall_end: Point) -> int {
        hit_numerator(
            wall_start,
            wall_end,
            self.start_point,
            self.start_point.x + self.reach.x,
            self.start_point.y + self.reach.y,
        )
    }

    /// Denominator of that fraction.
    pub open spec fn hit_den_at(self, wall_start: Point, wall_end: Point) -> int {
        hit_denominator(
            wall_start,
            wall_end,
            self.start_point,
            self.start_point.x + self.reach.x,
            self.start_point.y + self.reach.y,
        )
    }

    /// The wall is met strictly nearer to `start_point` than the current end.
    pub open spec fn nearer(self, wall_start: Point, wall_end: Point) -> bool {
        self.hit_num_at(wall_start, wall_end) * self.hit_den < self.hit_num * self.hit_den_at(
            wall_start,
            wall_end,
        )
    }

    /// The ray cut off at the wall.
    pub open spec fn cut_at(self, wall_start: Point, wall_end: Point) -> Ray {
        let n = self.hit_num_at(wall_start, wall_end);
        let d = self.hit_den_at(wall_start, wall_end);
        Ray {
            intersecting: true,
            hit_num: n as i64,
            hit_den: d as i64,
            offset: Point { x: ((n * self.reach.x) / d) as i32, y: ((n * self.reach.y) / d) as i32 },
            ..self
        }
    }

    /// The ray after one wall has been tested: cut off at the wall where the
    /// ray meets it and either nothing was met before or the wall is strictly
    /// nearer than what was; unchanged otherwise.
    pub open spec fn tested(self, wall_start: Point, wall_end: Point) -> Ray {
        if self.hits(wall_start, wall_end) && (!self.intersecting || self.nearer(
            wall_start,
            wall_end,
        )) {
            self.cut_at(wall_start, wall_end)
        } else {
            self
        }
    }

    /// The current end of the ray, as a pair of coordinates.
    pub open spec fn current_end(self) -> (int, int) {
        (self.start_point.x + self.offset.x, self.start_point.y + self.offset.y)
    }

    /// A ray from `start_point` whose full length ends at `end_point`. It
    /// starts out marked as intersecting.
    pub fn new(start_point: &Point, end_point: &Point, angle: u32) -> (ray: Ray)
        requires
            start_point.in_range(),
            end_point.in_range(),
        ensures
            ray == Ray::at_full_length(
                *start_point,
                Point { x: (end_point.x - start_point.x) as i32, y: (end_point.y - start_point.y) as i32 },
                angle,
                true,
            ),
            ray.current_end() == (end_point.x as int, end_point.y as int),
            ray.wf(),
    {
        let reach = Point { x: end_point.x - start_point.x, y: end_point.y - start_point.y };
        Ray {
            start_point: *start_point,
            reach,
            angle,
            intersecting: true,
            hit_num: 1,
            hit_den: 1,
            offset: reach,
        }
    }

    /// A ray from `start_point` whose full length ends at the displacement
    /// `reach` from there. It starts out marked as intersecting.
    pub fn with_reach(start_point: &Point, reach: &Point, angle: u32) -> (ray: Ray)
        requires
            start_point.in_range(),
            reach.is_offset(),
        ensures
            ray == Ray::at_full_length(*start_point, *reach, angle, true),
            ray.wf(),
    {
        Ray {
            start_point: *start_point,
            reach: *reach,
            angle,
            intersecting: true,
            hit_num: 1,
            hit_den: 1,
            offset: *reach,
        }
    }

    pub fn is_valid(&self) -> (ok: bool)
        ensures
            ok == self.wf(),
    {
        if !(self.start_point.is_in_range() && self.reach.is_within_offset()
            && self.offset.is_within_offset() && 0 < self.hit_num && self.hit_num <= FRACTION_LIMIT
            && 0 < self.hit_den && self.hit_den <= FRACTION_LIMIT) {
            return false;
        }
        proof {
            lemma_product_bound(
                self.hit_num as int,
                self.reach.x as int,
                FRACTION_LIMIT as int,
                crate::constants::OFFSET_LIMIT as int,
            );
            lemma_product_bound(
                self.hit_num as int,
                self.reach.y as int,
                FRACTION_LIMIT as int,
                crate::constants::OFFSET_LIMIT as int,
            );
        }
        let qx: i128 = floor_div((self.hit_num as i128) * (self.reach.x as i128), self.hit_den as i128);
        let qy: i128 = floor_div((self.hit_num as i128) * (self.reach.y as i128), self.hit_den as i128);
        qx == self.offset.x as i128 && qy == self.offset.y as i128
    }

    /// The point where the ray ends at present.
    pub fn end_point(&self) -> (p: Point)
        requires
            self.wf(),
        ensures
            (p.x as int, p.y as int) == self.current_end(),
    {
        Point { x: self.start_point.x + self.offset.x, y: self.start_point.y + self.offset.y }
    }

    /// Moves the ray as a whole so that it starts at `start_point`: its
    /// current end moves by the same displacement, and nothing else changes.
    pub fn translate_origin(&mut self, start_point: Point)
        requires
            old(self).wf(),
            start_point.in_range(),
        ensures
            *final(self) == old(self).translated(start_point),
            final(self).wf(),
            final(self).current_end().0 - old(self).current_end().0 == start_point.x - old(
                self,
            ).start_point.x,
            final(self).current_end().1 - old(self).current_end().1 == start_point.y - old(
                self,
            ).start_point.y,
    {
        self.start_point = start_point;
    }

    /// Puts the ray back to its full length from where it starts now, and
    /// marks it as not intersecting.
    pub fn reset_end_point(&mut self)
        requires
            old(self).wf(),
        ensures
            *final(self) == old(self).reset(),
            final(self).wf(),
            !final(self).intersecting,
            final(self).current_end() == (
                old(self).start_point.x + old(self).reach.x,
                old(self).start_point.y + old(self).reach.y,
            ),
    {
        self.intersecting = false;
        self.hit_num = 1;
        self.hit_den = 1;
        self.offset = self.reach;
    }

    /// Tests the ray against the wall from `wall_start` to `wall_end`, and
    /// keeps the nearer of the wall and what the ray had met before.
    pub fn check_intersects(&mut self, wall_start: Point, wall_end: Point)
        requires
            old(self).wf(),
            wall_start.in_range(),
            wall_end.in_range(),
        ensures
            *final(self) == old(self).tested(wall_start, wall_end),
            final(self).wf(),
            final(self).start_point == old(self).start_point,
            final(self).reach == old(self).reach,
            final(self).angle == old(self).angle,
            old(self).parallel_to(wall_start, wall_end) ==> *final(self) == *old(self),
            *final(self) != *old(self) ==> old(self).hits(wall_start, wall_end)
                && final(self).intersecting,
    {
        let wall_x1: i64 = wall_start.x as i64;
        let wall_y1: i64 = wall_start.y as i64;
        let wall_x2: i64 = wall_end.x as i64;
        let wall_y2: i64 = wall_end.y as i64;
        let ray_x1: i64 = self.start_point.x as i64;
        let ray_y1: i64 = self.start_point.y as i64;
        let ray_x2: i64 = ray_x1 + self.reach.x as i64;
        let ray_y2: i64 = ray_y1 + self.reach.y as i64;

        proof {
            let lim = crate::constants::OFFSET_LIMIT as int;
            lemma_product_bound(wall_x1 - wall_x2, ray_y1 - ray_y2, lim, lim);
            lemma_product_bound(wall_y1 - wall_y2, ray_x1 - ray_x2, lim, lim);
            lemma_product_bound(wall_x1 - ray_x1, ray_y1 - ray_y2, lim, lim);
            lemma_product_bound(wall_y1 - ray_y1, ray_x1 - ray_x2, lim, lim);
            lemma_product_bound(wall_x1 - wall_x2, wall_y1 - ray_y1, lim, lim);
            lemma_product_bound(wall_y1 - wall_y2, wall_x1 - ray_x1, lim, lim);
        }
        let denom: i64 = (wall_x1 - wall_x2) * (ray_y1 - ray_y2) - (wall_y1 - wall_y2) * (
        ray_x1 - ray_x2);

        // Parallel or coincident lines.
        if denom == 0 {
            return ;
        }
        let t: i64 = (wall_x1 - ray_x1) * (ray_y1 - ray_y2) - (wall_y1 - ray_y1) * (ray_x1
            - ray_x2);
        let u: i64 = (wall_x1 - wall_x2) * (wall_y1 - ray_y1) - (wall_y1 - wall_y2) * (wall_x1
            - ray_x1);

        // 0 < t / denom < 1 and u / denom < 0, without dividing.
        let on_wall: bool = if denom > 0 {
            0 < t && t < denom
        } else {
            denom < t && t < 0
        };
        let ahead: bool = if denom > 0 {
            u < 0
        } else {
            u > 0
        };
        if on_wall && ahead {
            let new_num: i64 = if u < 0 {
                -u
            } else {
                u
            };
            let new_den: i64 = if denom > 0 {
                denom
            } else {
                -denom
            };
            proof {
                let lim = FRACTION_LIMIT as int;
                lemma_product_bound(new_num as int, self.hit_den as int, lim, lim);
                lemma_product_bound(self.hit_num as int, new_den as int, lim, lim);
            }
            if !self.intersecting || (new_num as i128) * (self.hit_den as i128) < (
            self.hit_num as i128) * (new_den as i128) {
                proof {
                    let lim = FRACTION_LIMIT as int;
                    let off = crate::constants::OFFSET_LIMIT as int;
                    lemma_product_bound(new_num as int, self.reach.x as int, lim, off);
                    lemma_product_bound(new_num as int, self.reach.y as int, lim, off);
                    lemma_hit_within_wall(
                        wall_start,
                        wall_end,
                        self.start_point,
                        self.start_point.x + self.reach.x,
                        self.start_point.y + self.reach.y,
                    );
                }
                let x_offset: i128 = floor_div(
                    (new_num as i128) * (self.reach.x as i128),
                    new_den as i128,
                );
                let y_offset: i128 = floor_div(
                    (new_num as i128) * (self.reach.y as i128),
                    new_den as i128,
                );
                self.offset = Point { x: x_offset as i32, y: y_offset as i32 };
                self.hit_num = new_num;
                self.hit_den = new_den;
                self.intersecting = true;
            }
        }
    }

    /// Moves the ray to start at `start_point`, then tests it against the
    /// wall from `line_start` to `line_end`.
    pub fn update_ray(&mut self, start_point: Point, line_start: Point, line_end: Point)
        requires
            old(self).wf(),
            start_point.in_range(),
            line_start.in_range(),
            line_end.in_range(),
        ensures
            *final(self) == old(self).translated(start_point).tested(line_start, line_end),
            final(self).wf(),
    {
        self.translate_origin(start_point);
        self.check_intersects(line_start, line_end);
    }
    /// Resetting twice is resetting once: a reset ray is not marked as
    /// intersecting and ends at its full length, and a second reset changes
    /// nothing.
    pub proof fn lemma_reset_idempotent(self)
        requires
            self.wf(),
        ensures
            self.reset().wf(),
            !self.reset().intersecting,
            self.reset().current_end() == (
                self.start_point.x + self.reach.x,
                self.start_point.y + self.reach.y,
            ),
            self.reset().reset() == self.reset(),
    {
    }

    /// Moving a ray keeps its shape: validity, mark, direction and full
    /// length stay, and the displacement from where it starts to where it
    /// ends stays too, so the end moves as far as the start does.
    pub proof fn lemma_translation_keeps_shape(self, start_point: Point)
        requires
            self.wf(),
            start_point.in_range(),
        ensures
            self.translated(start_point).wf(),
            self.translated(start_point).intersecting == self.intersecting,
            self.translated(start_point).reach == self.reach,
            self.translated(start_point).angle == self.angle,
            self.translated(start_point).current_end().0 - start_point.x == self.current_end().0
                - self.start_point.x,
            self.translated(start_point).current_end().1 - start_point.y == self.current_end().1
                - self.start_point.y,
    {
    }

    /// A wall parallel to the ray is never met: testing it changes nothing.
    pub proof fn lemma_parallel_never_hits(self, wall_start: Point, wall_end: Point)
        requires
            self.parallel_to(wall_start, wall_end),
        ensures
            !self.hits(wall_start, wall_end),
            self.tested(wall_start, wall_end) == self,
    {
    }
    /// Nearer means shorter: a wall that the ray meets is nearer than the
    /// current end exactly when the distance from `start_point` to the place
    /// where it is met is smaller than the distance to the current end, both
    /// taken before rounding.
    pub proof fn lemma_nearer_is_shorter(self, wall_start: Point, wall_end: Point)
        requires
            self.wf(),
            self.hits(wall_start, wall_end),
        ensures
            self.nearer(wall_start, wall_end) == (scaled_square_distance(
                self.hit_num_at(wall_start, wall_end),
                self.reach.x as int,
                self.reach.y as int,
                self.hit_den * self.hit_den,
            ) < scaled_square_distance(
                self.hit_num as int,
                self.reach.x as int,
                self.reach.y as int,
                self.hit_den_at(wall_start, wall_end) * self.hit_den_at(wall_start, wall_end),
            )),
    {
        if self.reach.x == 0 && self.reach.y == 0 {
            assert(self.parallel_to(wall_start, wall_end)) by (nonlinear_arith)
                requires
                    self.reach.x == 0,
                    self.reach.y == 0,
                    self.parallel_to(wall_start, wall_end) == ((wall_start.x - wall_end.x) * (
                    self.start_point.y - (self.start_point.y + self.reach.y)) - (wall_start.y
                        - wall_end.y) * (self.start_point.x - (self.start_point.x
                        + self.reach.x)) == 0),
            ;
        }
        lemma_fraction_order_is_distance_order(
            self.hit_num_at(wall_start, wall_end),
            self.hit_den_at(wall_start, wall_end),
            self.hit_num as int,
            self.hit_den as int,
            self.reach.x as int,
            self.reach.y as int,
        );
    }
}

} // verus!
