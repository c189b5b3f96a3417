use vstd::prelude::*;

verus! {

/// A weapon's discharge pattern.
#[derive(Clone, Copy, Debug, PartialEq, Eq, Structural)]
pub struct Weapon {
    /// Projectiles per discharge (at least one).
    pub bullets: u16,
    /// Upper bound for future growth of `bullets`; not enforced here.
    pub max: u16,
    /// Total angular width of the fan, in degrees.
    pub spread: u32,
}

/// The angular layout of one discharge: projectile `i` leaves at
/// `offsets[i] / denominator` degrees from the aim direction.
#[derive(Debug)]
pub struct Fan {
    pub offsets: Vec<i64>,
    pub denominator: u64,
}

/// Common denominator of a fan of `count` projectiles.
pub open spec fn fan_denominator(count: int) -> int {
    if count <= 1 {
        1
    } else {
        2 * (count - 1)
    }
}

/// Numerator of the angle of projectile `i` in a fan of `count` projectiles
/// spread over `spread` degrees: evenly spaced from `-spread / 2` to
/// `spread / 2`, and exactly the aim direction for a single projectile.
pub open spec fn fan_offset(count: int, spread: int, i: int) -> int {
    if count <= 1 {
        0
    } else {
        (2 * i - (count - 1)) * spread
    }
}

impl Fan {
    /// The fan lays out `count` projectiles over `spread` degrees.
    pub open spec fn lays_out(self, count: int, spread: int) -> bool {
        &&& self.denominator == fan_denominator(count)
        &&& self.offsets@.len() == count
        &&& forall|i: int| 0 <= i < count ==> self.offsets@[i] == fan_offset(count, spread, i)
    }
}

/// Lays out the directions of one discharge of `bullets` projectiles over
/// `spread` degrees, relative to the aim direction.
pub fn spread_fan(bullets: u16, spread: u32) -> (r: Fan)
    requires
        1 <= bullets,
    ensures
        r.lays_out(bullets as int, spread as int),
{
    let count: i64 = bullets as i64;
    let width: i64 = spread as i64;
    let mut offsets: Vec<i64> = Vec::new();
    if bullets == 1 {
        offsets.push(0);
        return Fan { offsets, denominator: 1 };
    }
    let mut i: i64 = 0;
    while i < count
        invariant
            2 <= count <= 65535,
            0 <= width <= 0xffff_ffff,
            count == bullets,
            width == spread,
            0 <= i <= count,
            offsets@.len() == i,
            forall|j: int| 0 <= j < i ==> offsets@[j] == fan_offset(count as int, width as int, j),
        decreases count - i,
    {
        let step: i64 = 2 * i - (count - 1);
        assert(-65535 <= step <= 65535);
        assert(-65535 * 0xffff_ffff <= step * width <= 65535 * 0xffff_ffff) by (nonlinear_arith)
            requires
                -65535 <= step <= 65535,
                0 <= width <= 0xffff_ffff,
        ;
        offsets.push(step * width);
        i = i + 1;
    }
    let denominator: u64 = 2 * (bullets as u64 - 1);
    Fan { offsets, denominator }
}

/// A single-projectile fan is exactly the aim direction, whatever the spread.
pub proof fn lemma_single_projectile_is_aim(fan: Fan, spread: int)
    requires
        fan.lays_out(1, spread),
    ensures
        fan.offsets@ == seq![0i64],
        fan.denominator == 1,
{
    assert(fan.offsets@[0] == fan_offset(1, spread, 0));
    assert(fan.offsets@ =~= seq![0i64]);
}

/// A fan of two or more projectiles spans exactly the spread angle from its
/// first to its last projectile, is evenly spaced, and is mirror-symmetric
/// about the aim direction, so its centroid lies on the aim direction.
pub proof fn lemma_fan_shape(fan: Fan, count: int, spread: int)
    requires
        2 <= count,
        fan.lays_out(count, spread),
    ensures
        fan.offsets@[count - 1] - fan.offsets@[0] == spread * fan.denominator,
        forall|i: int|
            0 <= i < count - 1 ==> #[trigger] fan.offsets@[i + 1] - fan.offsets@[i] == 2 * spread,
        forall|i: int|
            0 <= i < count ==> #[trigger] fan.offsets@[i] + fan.offsets@[count - 1 - i] == 0,
{
    assert(fan.offsets@[0] == fan_offset(count, spread, 0));
    assert(fan.offsets@[count - 1] == fan_offset(count, spread, count - 1));
    assert(fan.offsets@[count - 1] - fan.offsets@[0] == spread * fan.denominator) by (nonlinear_arith)
        requires
            fan.offsets@[count - 1] == (2 * (count - 1) - (count - 1)) * spread,
            fan.offsets@[0] == (2 * 0 - (count - 1)) * spread,
            fan.denominator == 2 * (count - 1),
    ;
    assert forall|i: int| 0 <= i < count - 1 implies #[trigger] fan.offsets@[i + 1] - fan.offsets@[i]
        == 2 * spread by {
        assert(fan.offsets@[i] == fan_offset(count, spread, i));
        assert(fan.offsets@[i + 1] == fan_offset(count, spread, i + 1));
        assert((2 * (i + 1) - (count - 1)) * spread - (2 * i - (count - 1)) * spread == 2 * spread)
            by (nonlinear_arith);
    }
    assert forall|i: int| 0 <= i < count implies #[trigger] fan.offsets@[i] + fan.offsets@[count - 1
        - i] == 0 by {
        assert(fan.offsets@[i] == fan_offset(count, spread, i));
        assert(fan.offsets@[count - 1 - i] == fan_offset(count, spread, count - 1 - i));
        assert((2 * i - (count - 1)) * spread + (2 * (count - 1 - i) - (count - 1)) * spread == 0)
            by (nonlinear_arith);
    }
}

} // verus!
