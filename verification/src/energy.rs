//! Commands of the energy-monitor desktop application.

use rand::Rng;
use vstd::prelude::*;

verus! {

/// The text that `greet` puts before the caller's name.
pub open spec fn greeting_prefix() -> Seq<char> {
    "Hello, "@
}

/// The text that `greet` puts after the caller's name.
pub open spec fn greeting_suffix() -> Seq<char> {
    "! You've been greeted from Rust!"@
}

/// Greets `name`: `Hello, <name>! You've been greeted from Rust!`.
pub fn greet(name: &str) -> (res: String)
    ensures
        res@ == greeting_prefix() + name@ + greeting_suffix(),
{
    let mut res = String::from_str("Hello, ");
    res.append(name);
    res.append("! You've been greeted from Rust!");
    res
}

/// The thread-local random generator of `rand`.
#[verifier::external_type_specification]
#[verifier::external_body]
pub struct ExThreadRng(rand::rngs::ThreadRng);

/// Calls `rand::thread_rng`, which hands out the calling thread's generator.
/// Nothing is claimed of the generator's state.
#[verifier::external_body]
fn thread_rng() -> (rng: rand::rngs::ThreadRng) {
    rand::thread_rng()
}

/// Calls `Rng::gen_range` on `low..high`. The value is random; rand documents
/// that it lies in the half-open range, which is all that is claimed. The call
/// panics on an empty range, which `requires` rules out.
#[verifier::external_body]
fn gen_range_i32(rng: &mut rand::rngs::ThreadRng, low: i32, high: i32) -> (value: i32)
    requires
        low < high,
    ensures
        low <= value < high,
{
    rng.gen_range(low..high)
}

/// Lowest distance reported while the demo mode is on.
pub const DEMO_DISTANCE_LOW: i32 = 20;

/// Lowest distance reported while the demo mode is off.
pub const NORMAL_DISTANCE_LOW: i32 = 100;

/// Lowest distance reported when the demo mode is toggled.
pub const TOGGLE_DISTANCE_LOW: i32 = 200;

/// Every reported distance lies below this bound.
pub const DISTANCE_HIGH: i32 = 500;

/// The range the background process draws from on each tick: `20..500`
/// while the demo mode is on, `100..500` while it is off.
pub open spec fn tick_range(demo: bool) -> (i32, i32) {
    if demo {
        (DEMO_DISTANCE_LOW, DISTANCE_HIGH)
    } else {
        (NORMAL_DISTANCE_LOW, DISTANCE_HIGH)
    }
}

/// The range drawn from when the demo mode is toggled: `200..500`.
pub open spec fn toggle_range() -> (i32, i32) {
    (TOGGLE_DISTANCE_LOW, DISTANCE_HIGH)
}

/// The bounds of the range drawn from on each tick of the background process.
pub fn distance_bounds(demo: bool) -> (bounds: (i32, i32))
    ensures
        bounds == tick_range(demo),
{
    if demo {
        (DEMO_DISTANCE_LOW, DISTANCE_HIGH)
    } else {
        (NORMAL_DISTANCE_LOW, DISTANCE_HIGH)
    }
}

/// The bounds of the range drawn from when the demo mode is toggled.
pub fn toggle_bounds() -> (bounds: (i32, i32))
    ensures
        bounds == toggle_range(),
{
    (TOGGLE_DISTANCE_LOW, DISTANCE_HIGH)
}

/// The simulated distance sensor of the energy monitor: it reports random
/// distances drawn from the thread's generator, and keeps a record of its
/// draws.
pub struct DistanceSensor {
    rng: rand::rngs::ThreadRng,
    drawn_from: Ghost<(i32, i32)>,
    drawn: Ghost<Seq<(i32, i32, i32)>>,
}

impl DistanceSensor {
    /// The half-open range `low..high` of the sensor's last draw.
    pub closed spec fn last_range(self) -> (i32, i32) {
        self.drawn_from@
    }

    /// The sensor's draws so far, oldest first: each is the range `low..high`
    /// it was drawn from and the value the generator gave.
    pub closed spec fn draws(self) -> Seq<(i32, i32, i32)> {
        self.drawn@
    }

    /// A sensor that draws from the calling thread's generator and has made
    /// no draw yet.
    pub fn new() -> (sensor: DistanceSensor)
        ensures
            sensor.draws() == Seq::<(i32, i32, i32)>::empty(),
    {
        DistanceSensor {
            rng: thread_rng(),
            drawn_from: Ghost((0, 0)),
            drawn: Ghost(Seq::<(i32, i32, i32)>::empty()),
        }
    }

    /// A random distance in `low..high`: the value the generator gives. The
    /// sensor records that range as the range of its last draw, and the draw
    /// at the end of its record.
    pub fn draw(&mut self, low: i32, high: i32) -> (distance: i32)
        requires
            low < high,
        ensures
            low <= distance < high,
            final(self).last_range() == (low, high),
            final(self).draws() == old(self).draws().push((low, high, distance)),
    {
        let value = gen_range_i32(&mut self.rng, low, high);
        let ghost recorded = self.drawn@.push((low, high, value));
        self.drawn_from = Ghost((low, high));
        self.drawn = Ghost(recorded);
        value
    }

    /// The distance emitted by the background process on each tick: one draw
    /// from `20..500` while the demo mode is on and from `100..500` while it
    /// is off, reported as drawn.
    pub fn next_distance(&mut self, demo: bool) -> (distance: i32)
        ensures
            final(self).last_range() == tick_range(demo),
            tick_range(demo).0 <= distance < tick_range(demo).1,
            final(self).draws() == old(self).draws().push(
                (tick_range(demo).0, tick_range(demo).1, distance),
            ),
    {
        let (low, high) = distance_bounds(demo);
        self.draw(low, high)
    }

    /// The distance emitted when the demo mode is toggled: one draw from
    /// `200..500`, reported as drawn.
    pub fn toggle_distance(&mut self) -> (distance: i32)
        ensures
            final(self).last_range() == toggle_range(),
            toggle_range().0 <= distance < toggle_range().1,
            final(self).draws() == old(self).draws().push(
                (toggle_range().0, toggle_range().1, distance),
            ),
    {
        let (low, high) = toggle_bounds();
        self.draw(low, high)
    }
}

/// Each tick reports the value it drew, and that value lies in the tick's
/// range: if a sensor's record grows by one draw from the tick range for
/// `demo`, reported as `distance`, then `distance` is a distance the original
/// process may emit in that mode, and the last recorded draw is `distance`.
pub proof fn tick_reports_its_draw(
    before: Seq<(i32, i32, i32)>,
    after: Seq<(i32, i32, i32)>,
    demo: bool,
    distance: i32,
)
    requires
        after == before.push((tick_range(demo).0, tick_range(demo).1, distance)),
        tick_range(demo).0 <= distance < tick_range(demo).1,
    ensures
        after.len() == before.len() + 1,
        after.last().2 == distance,
        demo ==> 20 <= after.last().2 < 500,
        !demo ==> 100 <= after.last().2 < 500,
        after.subrange(0, before.len() as int) == before,
{
    assert(after.subrange(0, before.len() as int) =~= before);
}

/// The ranges nest: a toggle draws from within the normal tick range, which
/// lies within the demo tick range, and all share the upper bound 500.
pub proof fn distance_ranges_nest()
    ensures
        tick_range(true).0 <= tick_range(false).0 <= toggle_range().0,
        tick_range(true).1 == tick_range(false).1 && tick_range(false).1 == toggle_range().1,
        toggle_range() == (200i32, 500i32),
        tick_range(true) == (20i32, 500i32),
        tick_range(false) == (100i32, 500i32),
{
}

/// The demo flag after one toggle.
pub open spec fn toggled(demo: bool) -> bool {
    !demo
}

/// The update that toggling applies to the demo flag: it always succeeds and
/// gives the negated flag.
pub fn flip_demo(demo: bool) -> (flipped: Option<bool>)
    ensures
        flipped == Some(toggled(demo)),
{
    Some(!demo)
}

/// Toggling the demo mode twice restores it.
pub proof fn toggling_twice_restores(demo: bool)
    ensures
        toggled(toggled(demo)) == demo,
{
}

} // verus!
