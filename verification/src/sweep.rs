use vstd::prelude::*;
use crate::arith::{
    lemma_equal_fractions_same_floor,
    lemma_fraction_order_transitive,
    lemma_product_bound,
};
use crate::constants::{FRACTION_LIMIT, OFFSET_LIMIT};
use crate::intersect::lemma_hit_within_wall;
use crate::point::Point;
use crate::ray::Ray;
use crate::wall::Wall;

verus! {

/// Every wall of the sequence has its endpoints within the coordinate limit.
pub open spec fn all_valid(walls: Seq<Wall>) -> bool {
    forall|i: int| 0 <= i < walls.len() ==> (#[trigger] walls[i]).wf()
}

impl Ray {
    /// The ray after the walls have been tested one after the other, from
    /// the first to the last.
    pub open spec fn swept(self, walls: Seq<Wall>) -> Ray
        decreases walls.len(),
    {
        if walls.len() == 0 {
            self
        } else {
            self.swept(walls.drop_last()).tested(walls.last().start_point, walls.last().end_point)
        }
    }

    /// `wall` is one of `walls`, and the ray meets it.
    pub open spec fn meets_one_of(self, walls: Seq<Wall>, wall: Wall) -> bool {
        walls.contains(wall) && self.hits(wall.start_point, wall.end_point)
    }

    /// The current end is no farther from `start_point` than the fraction
    /// `num / den` of the full length.
    pub open spec fn no_farther_than(self, num: int, den: int) -> bool {
        self.hit_num * den <= num * self.hit_den
    }

    /// The current end is no farther from `start_point` than the place where
    /// the ray meets `wall`.
    pub open spec fn no_farther_than_wall(self, wall: Wall) -> bool {
        self.no_farther_than(
            self.hit_num_at(wall.start_point, wall.end_point),
            self.hit_den_at(wall.start_point, wall.end_point),
        )
    }

    /// Cutting a valid ray off at a wall that it meets gives a valid ray.
    pub proof fn lemma_cut_valid(self, wall_start: Point, wall_end: Point)
        requires
            self.wf(),
            wall_start.in_range(),
            wall_end.in_range(),
            self.hits(wall_start, wall_end),
        ensures
            self.cut_at(wall_start, wall_end).wf(),
            0 < self.hit_num_at(wall_start, wall_end) <= FRACTION_LIMIT,
            0 < self.hit_den_at(wall_start, wall_end) <= FRACTION_LIMIT,
    {
        let o = self.start_point;
        let ex = o.x + self.reach.x;
        let ey = o.y + self.reach.y;
        let lim = OFFSET_LIMIT as int;
        lemma_product_bound(wall_start.x - wall_end.x, o.y - ey, lim, lim);
        lemma_product_bound(wall_start.y - wall_end.y, o.x - ex, lim, lim);
        lemma_product_bound(wall_start.x - wall_end.x, wall_start.y - o.y, lim, lim);
        lemma_product_bound(wall_start.y - wall_end.y, wall_start.x - o.x, lim, lim);
        lemma_hit_within_wall(wall_start, wall_end, o, ex, ey);
    }

    /// Testing a wall keeps a valid ray valid, and keeps where it starts,
    /// its direction and its full length.
    pub proof fn lemma_tested_valid(self, wall_start: Point, wall_end: Point)
        requires
            self.wf(),
            wall_start.in_range(),
            wall_end.in_range(),
        ensures
            self.tested(wall_start, wall_end).wf(),
            self.tested(wall_start, wall_end).start_point == self.start_point,
            self.tested(wall_start, wall_end).reach == self.reach,
            self.tested(wall_start, wall_end).angle == self.angle,
    {
        if self.hits(wall_start, wall_end) {
            self.lemma_cut_valid(wall_start, wall_end);
        }
    }

    /// Nearest hit: after a sweep the ray is marked as intersecting exactly
    /// when it was so before or meets one of the walls; its end is then no
    /// farther than any wall it meets, nor than its end before the sweep if
    /// it was marked then; and it is either unchanged or cut off at one of
    /// the walls it meets.
    pub proof fn lemma_swept_nearest(self, walls: Seq<Wall>)
        requires
            self.wf(),
            all_valid(walls),
        ensures
            self.swept(walls).wf(),
            self.swept(walls).start_point == self.start_point,
            self.swept(walls).reach == self.reach,
            self.swept(walls).angle == self.angle,
            self.swept(walls).intersecting == (self.intersecting || exists|w: Wall|
                self.meets_one_of(walls, w)),
            forall|w: Wall| #[trigger]
                self.meets_one_of(walls, w) ==> self.swept(walls).no_farther_than_wall(w),
            self.intersecting ==> self.swept(walls).no_farther_than(
                self.hit_num as int,
                self.hit_den as int,
            ),
            self.swept(walls) == self || exists|w: Wall| #[trigger]
                self.meets_one_of(walls, w) && self.swept(walls) == self.cut_at(
                    w.start_point,
                    w.end_point,
                ),
        decreases walls.len(),
    {
        if walls.len() == 0 {
            assert(forall|w: Wall| !walls.contains(w));
        } else {
            let init = walls.drop_last();
            let last = walls.last();
            let g = self.swept(init);
            let f = self.swept(walls);
            self.lemma_swept_nearest(init);
            g.lemma_tested_valid(last.start_point, last.end_point);
            assert(walls.contains(last)) by {
                assert(walls[walls.len() - 1] == last);
            }
            assert forall|w: Wall| walls.contains(w) <==> (init.contains(w) || w == last) by {
                if walls.contains(w) {
                    let i = choose|i: int| 0 <= i < walls.len() && walls[i] == w;
                    if i < walls.len() - 1 {
                        assert(init[i] == w);
                    }
                }
                if init.contains(w) {
                    let i = choose|i: int| 0 <= i < init.len() && init[i] == w;
                    assert(walls[i] == w);
                }
            }
            let n = self.hit_num_at(last.start_point, last.end_point);
            let d = self.hit_den_at(last.start_point, last.end_point);
            if self.hits(last.start_point, last.end_point) {
                self.lemma_cut_valid(last.start_point, last.end_point);
                assert(self.meets_one_of(walls, last));
            }
            if f != g {
                // The ray was cut off at the last wall.
                assert forall|w: Wall| #[trigger]
                    self.meets_one_of(walls, w) implies f.no_farther_than_wall(w) by {
                    if init.contains(w) {
                        assert(self.meets_one_of(init, w));
                        self.lemma_cut_valid(w.start_point, w.end_point);
                        lemma_fraction_order_transitive(
                            n,
                            d,
                            g.hit_num as int,
                            g.hit_den as int,
                            self.hit_num_at(w.start_point, w.end_point),
                            self.hit_den_at(w.start_point, w.end_point),
                        );
                    }
                }
                if self.intersecting {
                    lemma_fraction_order_transitive(
                        n,
                        d,
                        g.hit_num as int,
                        g.hit_den as int,
                        self.hit_num as int,
                        self.hit_den as int,
                    );
                }
            } else {
                assert forall|w: Wall| #[trigger]
                    self.meets_one_of(walls, w) implies f.no_farther_than_wall(w) by {
                    if init.contains(w) {
                        assert(self.meets_one_of(init, w));
                    }
                }
                if g != self {
                    let w = choose|w: Wall| #[trigger]
                        self.meets_one_of(init, w) && g == self.cut_at(
                            w.start_point,
                            w.end_point,
                        );
                    assert(self.meets_one_of(walls, w));
                }
                if exists|w: Wall| self.meets_one_of(walls, w) {
                    let w = choose|w: Wall| self.meets_one_of(walls, w);
                    if init.contains(w) {
                        assert(self.meets_one_of(init, w));
                    }
                }
            }
        }
    }
    /// Two rays that agree in everything but the integers that write their
    /// hit fraction: same start, full length, direction and mark, the same
    /// current end, and fractions of equal value.
    pub open spec fn same_cast(self, other: Ray) -> bool {
        &&& self.start_point == other.start_point
        &&& self.reach == other.reach
        &&& self.angle == other.angle
        &&& self.intersecting == other.intersecting
        &&& self.offset == other.offset
        &&& self.current_end() == other.current_end()
        &&& self.hit_num * other.hit_den == other.hit_num * self.hit_den
    }

    /// A sweep over walls drawn from the same set ends no farther than a
    /// sweep over `walls` does.
    proof fn lemma_swept_no_farther(self, walls: Seq<Wall>, others: Seq<Wall>)
        requires
            self.wf(),
            all_valid(walls),
            all_valid(others),
            forall|w: Wall| walls.contains(w) <==> others.contains(w),
            self.swept(walls).intersecting,
        ensures
            self.swept(others).no_farther_than(
                self.swept(walls).hit_num as int,
                self.swept(walls).hit_den as int,
            ),
    {
        self.lemma_swept_nearest(walls);
        self.lemma_swept_nearest(others);
        let f = self.swept(walls);
        if f != self {
            let w = choose|w: Wall| #[trigger]
                self.meets_one_of(walls, w) && f == self.cut_at(w.start_point, w.end_point);
            assert(self.meets_one_of(others, w));
            assert(self.swept(others).no_farther_than_wall(w));
            self.lemma_cut_valid(w.start_point, w.end_point);
        }
    }

    /// Order independence: two sweeps of one ray over the same walls, taken
    /// in any two orders, leave the same mark and the same current end.
    pub proof fn lemma_sweep_order_independent(self, walls: Seq<Wall>, permuted: Seq<Wall>)
        requires
            self.wf(),
            all_valid(walls),
            walls.to_multiset() == permuted.to_multiset(),
        ensures
            self.swept(walls).same_cast(self.swept(permuted)),
    {
        assert forall|w: Wall| walls.contains(w) <==> permuted.contains(w) by {
            vstd::seq_lib::to_multiset_contains(walls, w);
            vstd::seq_lib::to_multiset_contains(permuted, w);
        }
        assert forall|i: int| 0 <= i < permuted.len() implies (#[trigger] permuted[i]).wf() by {
            assert(permuted.contains(permuted[i]));
            let j = choose|j: int| 0 <= j < walls.len() && walls[j] == permuted[i];
            assert(walls[j].wf());
        }
        self.lemma_swept_nearest(walls);
        self.lemma_swept_nearest(permuted);
        let f = self.swept(walls);
        let g = self.swept(permuted);
        assert(f.intersecting == g.intersecting) by {
            if exists|w: Wall| self.meets_one_of(walls, w) {
                let w = choose|w: Wall| self.meets_one_of(walls, w);
                assert(self.meets_one_of(permuted, w));
            }
            if exists|w: Wall| self.meets_one_of(permuted, w) {
                let w = choose|w: Wall| self.meets_one_of(permuted, w);
                assert(self.meets_one_of(walls, w));
            }
        }
        if f.intersecting {
            self.lemma_swept_no_farther(walls, permuted);
            self.lemma_swept_no_farther(permuted, walls);
            lemma_equal_fractions_same_floor(
                f.hit_num as int,
                f.hit_den as int,
                g.hit_num as int,
                g.hit_den as int,
                self.reach.x as int,
            );
            lemma_equal_fractions_same_floor(
                f.hit_num as int,
                f.hit_den as int,
                g.hit_num as int,
                g.hit_den as int,
                self.reach.y as int,
            );
        } else {
            if f != self {
                let w = choose|w: Wall| #[trigger]
                    self.meets_one_of(walls, w) && f == self.cut_at(w.start_point, w.end_point);
                assert(false);
            }
            if g != self {
                let w = choose|w: Wall| #[trigger]
                    self.meets_one_of(permuted, w) && g == self.cut_at(
                        w.start_point,
                        w.end_point,
                    );
                assert(false);
            }
        }
    }

    /// Nearest of two: a ray that was reset and then tested against two
    /// walls that it meets ends at the nearer of them, and at the first where
    /// they are equally near.
    pub proof fn lemma_nearest_of_two(self, first: Wall, second: Wall)
        requires
            self.wf(),
            first.wf(),
            second.wf(),
            self.hits(first.start_point, first.end_point),
            self.hits(second.start_point, second.end_point),
        ensures
            self.reset().swept(seq![first, second]) == (if self.hit_num_at(
                second.start_point,
                second.end_point,
            ) * self.hit_den_at(first.start_point, first.end_point) < self.hit_num_at(
                first.start_point,
                first.end_point,
            ) * self.hit_den_at(second.start_point, second.end_point) {
                self.reset().cut_at(second.start_point, second.end_point)
            } else {
                self.reset().cut_at(first.start_point, first.end_point)
            }),
            self.reset().swept(seq![first, second]).intersecting,
    {
        let r = self.reset();
        let both = seq![first, second];
        let one = seq![first];
        assert(both.drop_last() == one);
        assert(one.drop_last() == Seq::<Wall>::empty());
        assert(both.last() == second);
        assert(one.last() == first);
        assert(r.swept(Seq::<Wall>::empty()) == r);
        assert(r.swept(one) == r.tested(first.start_point, first.end_point));
        assert(r.swept(both) == r.swept(one).tested(second.start_point, second.end_point));
        r.lemma_cut_valid(first.start_point, first.end_point);
        r.lemma_cut_valid(second.start_point, second.end_point);
    }
}

} // verus!
