use vstd::prelude::*;
use rand::Rng;
use crate::color::{Rgb, black, white};
use crate::strip::{Strip, blacks};

verus! {

#[verifier::external_type_specification]
#[verifier::external_body]
pub struct ExThreadRng(rand::rngs::ThreadRng);

/// Calls `rand::thread_rng()`, the handle to the thread-local generator. Nothing is
/// claimed of it.
#[verifier::external_body]
fn thread_rng() -> rand::rngs::ThreadRng {
    rand::thread_rng()
}

/// Calls `Rng::gen_range(low..high)` on `u32`. rand documents that the value lies in
/// the half-open range and that an empty range panics; the contract claims the range
/// and excludes the empty one. Which value comes is chance.
#[verifier::external_body]
fn gen_range_u32(rng: &mut rand::rngs::ThreadRng, low: u32, high: u32) -> (r: u32)
    requires
        low < high,
    ensures
        low <= r < high,
{
    rng.gen_range(low..high)
}

/// Calls `Rng::gen_range(low..high)` on `i32`; the same claims as on `u32`.
#[verifier::external_body]
fn gen_range_i32(rng: &mut rand::rngs::ThreadRng, low: i32, high: i32) -> (r: i32)
    requires
        low < high,
    ensures
        low <= r < high,
{
    rng.gen_range(low..high)
}

/// Calls `Rng::gen_range(low..high)` on `usize`; the same claims as on `u32`.
#[verifier::external_body]
fn gen_range_usize(rng: &mut rand::rngs::ThreadRng, low: usize, high: usize) -> (r: usize)
    requires
        low < high,
    ensures
        low <= r < high,
{
    rng.gen_range(low..high)
}

/// How far a rocket may climb: its sparks must still fit an `i32` position.
pub const POSITION_BOUND: u32 = 0x7fff_fff0;

/// The colours a spark may take: red, blue and magenta.
pub open spec fn spark_palette() -> Seq<Rgb> {
    seq![
        Rgb { red: 255, green: 0, blue: 0 },
        Rgb { red: 0, green: 0, blue: 255 },
        Rgb { red: 255, green: 0, blue: 255 },
    ]
}

/// A glowing fragment of an exploded rocket.
#[derive(Clone, Copy)]
pub struct FireworkSpark {
    pub position: u32,
    pub color: Rgb,
    pub speed: i32,
    pub time_to_live: u32,
}

impl FireworkSpark {
    /// A spark never moves up faster than one pixel per step, and its position
    /// stays an `i32` for the rest of its life.
    pub open spec fn wf(self) -> bool {
        &&& self.speed <= 1
        &&& self.position + self.time_to_live <= i32::MAX
    }

    /// Where a burning spark would move in one step: its position read as an
    /// `i32` (positions past `i32::MAX` wrap around), plus its speed.
    pub open spec fn next_position(self) -> int {
        (self.position as i32) + self.speed
    }

    /// A step of the spark computes without overflow: a burnt-out spark does
    /// no arithmetic, a burning one needs its next position to be an `i32`.
    pub open spec fn can_step(self) -> bool {
        self.time_to_live > 0 ==> i32::MIN <= self.next_position() <= i32::MAX
    }

    /// The spark after one step, and whether it had already burnt out.
    pub open spec fn step(self) -> (FireworkSpark, bool) {
        if self.time_to_live == 0 {
            (FireworkSpark { color: black(), ..self }, true)
        } else if self.next_position() < 0 {
            (FireworkSpark { position: 0, speed: 0, time_to_live: (self.time_to_live - 1) as u32, ..self }, false)
        } else {
            (FireworkSpark {
                position: self.next_position() as u32,
                time_to_live: (self.time_to_live - 1) as u32,
                ..self
            }, false)
        }
    }

    /// A spark as an explosion at `position` makes it.
    pub open spec fn fresh_at(self, position: u32) -> bool {
        &&& self.position == position
        &&& spark_palette().contains(self.color)
        &&& 5 <= self.time_to_live < 15
        &&& -6 <= self.speed < 2
    }

    fn new(
        position: u32,
        color_selection: &Vec<Rgb>,
        time_range: (u32, u32),
        speed_range: (i32, i32),
        rng: &mut rand::rngs::ThreadRng,
    ) -> (s: FireworkSpark)
        requires
            color_selection@.len() > 0,
            time_range.0 < time_range.1,
            speed_range.0 < speed_range.1,
        ensures
            s.position == position,
            color_selection@.contains(s.color),
            time_range.0 <= s.time_to_live < time_range.1,
            speed_range.0 <= s.speed < speed_range.1,
    {
        let index = gen_range_usize(rng, 0, color_selection.len());
        let color = color_selection[index];
        let time_to_live = gen_range_u32(rng, time_range.0, time_range.1);
        let speed = gen_range_i32(rng, speed_range.0, speed_range.1);
        assert(color_selection@[index as int] == color);
        FireworkSpark { position, color, speed, time_to_live }
    }

    /// Moves the spark one step; returns whether it had already burnt out.
    fn update(&mut self) -> (done: bool)
        requires
            old(self).can_step(),
        ensures
            (*final(self), done) == old(self).step(),
            old(self).wf() ==> final(self).wf(),
    {
        proof {
            let p = self.position;
            assert(p <= 0x7fff_ffff ==> (p as i32) as int == p as int) by (bit_vector);
        }
        if self.time_to_live == 0 {
            self.color = Rgb::black();
            true
        } else {
            self.time_to_live = self.time_to_live - 1;
            let new_position = self.position as i32 + self.speed;
            if new_position < 0 {
                self.position = 0;
                self.speed = 0;
            } else {
                self.position = new_position as u32;
            }
            false
        }
    }
}

/// The spark after `n` steps.
pub open spec fn spark_after(s: FireworkSpark, n: nat) -> FireworkSpark
    decreases n,
{
    if n == 0 {
        s
    } else {
        spark_after(s.step().0, (n - 1) as nat)
    }
}

/// A spark loses one step of life per step until it has none left: after as many
/// steps as it had to live it has burnt out, and it then reports that it is done.
pub proof fn law_spark_burns_out(s: FireworkSpark, n: nat)
    ensures
        spark_after(s, n).time_to_live == if n <= s.time_to_live { s.time_to_live - n } else { 0 },
        n >= s.time_to_live ==> spark_after(s, n).step().1,
    decreases n,
{
    if n > 0 {
        law_spark_burns_out(s.step().0, (n - 1) as nat);
    }
}

/// A rocket that climbs the strip and then bursts into sparks.
pub struct FireworkRocket {
    pub exploded: bool,
    pub position: u32,
    pub sparks: Vec<FireworkSpark>,
    pub speed: u32,
    pub time_to_explode: u32,
}

/// Every spark of `sparks` has burnt out.
pub open spec fn all_burnt_out(sparks: Seq<FireworkSpark>) -> bool {
    forall|i: int| 0 <= i < sparks.len() ==> #[trigger] sparks[i].time_to_live == 0
}

impl FireworkRocket {
    pub open spec fn wf(&self) -> bool {
        &&& !self.exploded ==> {
            &&& self.time_to_explode >= 1
            &&& self.sparks@.len() == 0
            &&& self.position + self.speed * self.time_to_explode <= POSITION_BOUND
        }
        &&& forall|i: int| 0 <= i < self.sparks@.len() ==> #[trigger] self.sparks@[i].wf()
    }

    /// A rocket as a launch makes it: at the bottom, not exploded, with a speed in
    /// `3..6` and a fuse in `8..17`.
    pub open spec fn is_fresh(&self) -> bool {
        &&& !self.exploded
        &&& self.position == 0
        &&& self.sparks@.len() == 0
        &&& 3 <= self.speed < 6
        &&& 8 <= self.time_to_explode < 17
    }

    /// The step is the last one of a burst: the rocket has exploded and all its
    /// sparks have burnt out.
    pub open spec fn is_done(&self) -> bool {
        self.exploded && all_burnt_out(self.sparks@)
    }

    /// A step of the rocket computes without overflow: a climbing rocket needs
    /// fuse left and room to rise, an exploded one needs each spark to be able to
    /// step.
    pub open spec fn can_step(&self) -> bool {
        if self.exploded {
            forall|i: int| 0 <= i < self.sparks@.len() ==> #[trigger] self.sparks@[i].can_step()
        } else {
            &&& self.time_to_explode >= 1
            &&& self.position + self.speed <= u32::MAX
        }
    }

    /// `next` is what one step makes of `self`: a climbing rocket rises by its speed
    /// and burns its fuse, and when the fuse is spent it bursts, adding fifteen
    /// fresh sparks after those it holds; an exploded rocket moves each of its
    /// sparks.
    pub open spec fn advanced(&self, next: FireworkRocket) -> bool {
        if self.exploded {
            &&& next.exploded
            &&& next.position == self.position
            &&& next.speed == self.speed
            &&& next.time_to_explode == self.time_to_explode
            &&& next.sparks@ == self.sparks@.map_values(|s: FireworkSpark| s.step().0)
        } else {
            let position = self.position + self.speed;
            let fuse = self.time_to_explode - 1;
            &&& next.position == position
            &&& next.speed == self.speed
            &&& next.time_to_explode == fuse
            &&& next.exploded == (fuse == 0)
            &&& if fuse == 0 {
                &&& next.sparks@.len() == self.sparks@.len() + 15
                &&& next.sparks@.take(self.sparks@.len() as int) == self.sparks@
                &&& forall|i: int| self.sparks@.len() <= i < next.sparks@.len()
                    ==> #[trigger] next.sparks@[i].fresh_at(position as u32)
            } else {
                next.sparks@ == self.sparks@
            }
        }
    }

    fn new(speed: u32, time_to_explode_range: (u32, u32)) -> (r: FireworkRocket)
        requires
            time_to_explode_range.0 < time_to_explode_range.1,
        ensures
            1 <= time_to_explode_range.0 && speed * time_to_explode_range.1 <= POSITION_BOUND ==> r.wf(),
            !r.exploded,
            r.position == 0,
            r.sparks@.len() == 0,
            r.speed == speed,
            time_to_explode_range.0 <= r.time_to_explode < time_to_explode_range.1,
    {
        let mut rng = thread_rng();
        let time_to_explode = gen_range_u32(&mut rng, time_to_explode_range.0, time_to_explode_range.1);
        assert(speed * time_to_explode <= speed * time_to_explode_range.1) by (nonlinear_arith)
            requires
                time_to_explode <= time_to_explode_range.1,
        ;
        assert(speed * time_to_explode >= 0) by (nonlinear_arith);
        FireworkRocket { exploded: false, position: 0, sparks: Vec::new(), speed, time_to_explode }
    }

    /// One step of the rocket; returns whether the burst is over.
    fn update(&mut self) -> (done: bool)
        requires
            old(self).can_step(),
        ensures
            old(self).wf() ==> final(self).wf(),
            old(self).advanced(*final(self)),
            done == old(self).is_done(),
    {
        if self.exploded {
            let mut all_done = true;
            let ghost before = self.sparks@;
            let mut i: usize = 0;
            while i < self.sparks.len()
                invariant
                    self.exploded,
                    self.position == old(self).position,
                    self.speed == old(self).speed,
                    self.time_to_explode == old(self).time_to_explode,
                    before == old(self).sparks@,
                    forall|j: int| 0 <= j < before.len() ==> #[trigger] before[j].can_step(),
                    i <= self.sparks@.len(),
                    self.sparks@.len() == before.len(),
                    forall|j: int| 0 <= j < i ==> self.sparks@[j] == #[trigger] before[j].step().0,
                    forall|j: int| i <= j < before.len() ==> self.sparks@[j] == #[trigger] before[j],
                    old(self).wf() ==> forall|j: int| 0 <= j < before.len() ==> #[trigger] self.sparks@[j].wf(),
                    all_done == (forall|j: int| 0 <= j < i ==> #[trigger] before[j].time_to_live == 0),
                decreases before.len() - i,
            {
                let mut spark = self.sparks[i];
                assert(before[i as int].can_step());
                proof {
                    if old(self).wf() {
                        assert(self.sparks@[i as int].wf());
                    }
                }
                let spark_done = spark.update();
                assert(spark_done == (before[i as int].time_to_live == 0));
                self.sparks.set(i, spark);
                all_done = all_done && spark_done;
                i = i + 1;
                assert(all_done == (forall|j: int| 0 <= j < i ==> #[trigger] before[j].time_to_live == 0)) by {
                    if all_done {
                        assert forall|j: int| 0 <= j < i implies #[trigger] before[j].time_to_live == 0 by {}
                    } else {
                        if spark_done {
                            let j0 = choose|j: int| 0 <= j < i - 1 && #[trigger] before[j].time_to_live != 0;
                            assert(before[j0].time_to_live != 0);
                        }
                    }
                }
            }
            assert(self.sparks@ =~= before.map_values(|s: FireworkSpark| s.step().0));
            all_done
        } else {
            let ghost s0 = self.speed as int;
            let ghost t0 = self.time_to_explode as int;
            let ghost p0 = self.position as int;
            let ghost sparks0 = self.sparks@;
            proof {
                assert(s0 * t0 == s0 + s0 * (t0 - 1)) by (nonlinear_arith);
                assert(s0 * (t0 - 1) >= 0) by (nonlinear_arith)
                    requires t0 >= 1, s0 >= 0;
            }
            self.position = self.position + self.speed;
            self.time_to_explode = self.time_to_explode - 1;
            assert(old(self).wf() ==> self.position + self.speed * self.time_to_explode <= POSITION_BOUND);
            let color_selection: Vec<Rgb> = vec![
                Rgb::new(255, 0, 0),
                Rgb::new(0, 0, 255),
                Rgb::new(255, 0, 255),
            ];
            assert(color_selection@ == spark_palette());
            let time_range: (u32, u32) = (5, 15);
            let speed_range: (i32, i32) = (-6, 2);
            let num_sparks: usize = 15;
            if self.time_to_explode == 0 {
                self.exploded = true;
                let mut rng = thread_rng();
                let mut k: usize = 0;
                while k < num_sparks
                    invariant
                        k <= num_sparks,
                        num_sparks == 15,
                        self.exploded,
                        self.position == p0 + s0,
                        self.speed == s0,
                        self.time_to_explode == 0,
                        old(self).wf() ==> self.position <= POSITION_BOUND,
                        old(self).wf() ==> sparks0.len() == 0,
                        color_selection@ == spark_palette(),
                        time_range == (5u32, 15u32),
                        speed_range == (-6i32, 2i32),
                        self.sparks@.len() == sparks0.len() + k,
                        self.sparks@.take(sparks0.len() as int) == sparks0,
                        forall|j: int| sparks0.len() <= j < self.sparks@.len()
                            ==> #[trigger] self.sparks@[j].fresh_at(self.position),
                        old(self).wf() ==> forall|j: int| 0 <= j < self.sparks@.len() ==> #[trigger] self.sparks@[j].wf(),
                    decreases num_sparks - k,
                {
                    let spark = FireworkSpark::new(self.position, &color_selection, time_range, speed_range, &mut rng);
                    assert(old(self).wf() ==> spark.wf());
                    let ghost prev = self.sparks@;
                    self.sparks.push(spark);
                    assert(self.sparks@.take(sparks0.len() as int) =~= prev.take(sparks0.len() as int));
                    k = k + 1;
                }
            }
            false
        }
    }
}

/// A burning spark falls or rises by its speed: it ends its step at its position
/// plus its speed, or at the bottom of the strip with its speed gone when that
/// sum is negative; it keeps its colour and loses one step of life. A burnt-out
/// spark stays where it is, turns black and reports that it is done.
pub proof fn law_spark_moves_by_speed(s: FireworkSpark)
    ensures
        s.time_to_live > 0 && (s.position as i32) + s.speed >= 0 ==> {
            &&& s.step().0.position == (s.position as i32) + s.speed
            &&& s.step().0.speed == s.speed
        },
        s.time_to_live > 0 && (s.position as i32) + s.speed < 0 ==> {
            &&& s.step().0.position == 0
            &&& s.step().0.speed == 0
        },
        s.time_to_live > 0 ==> {
            &&& s.step().0.time_to_live == s.time_to_live - 1
            &&& s.step().0.color == s.color
            &&& !s.step().1
        },
        s.time_to_live == 0 ==> {
            &&& s.step().0.position == s.position
            &&& s.step().0.time_to_live == 0
            &&& s.step().0.color == (Rgb { red: 0, green: 0, blue: 0 })
            &&& s.step().1
        },
{
}

/// A climbing rocket rises by its speed and burns one step of fuse; when the
/// fuse runs out it explodes where it has just risen to, and every spark the
/// burst adds starts there, while the sparks it already held are kept.
pub proof fn law_burst_where_rocket_is(r: FireworkRocket, next: FireworkRocket)
    requires
        r.can_step(),
        !r.exploded,
        r.advanced(next),
    ensures
        next.position == r.position + r.speed,
        next.time_to_explode == r.time_to_explode - 1,
        next.exploded <==> r.time_to_explode == 1,
        r.time_to_explode == 1 ==> {
            &&& next.sparks@.len() == r.sparks@.len() + 15
            &&& forall|i: int| 0 <= i < r.sparks@.len() ==> next.sparks@[i] == r.sparks@[i]
            &&& forall|i: int| r.sparks@.len() <= i < next.sparks@.len()
                ==> #[trigger] next.sparks@[i].position == r.position + r.speed
        },
        r.time_to_explode > 1 ==> next.sparks@ == r.sparks@,
{
    if r.time_to_explode == 1 {
        assert forall|i: int| 0 <= i < r.sparks@.len() implies next.sparks@[i] == r.sparks@[i] by {
            assert(next.sparks@.take(r.sparks@.len() as int)[i] == next.sparks@[i]);
        }
        assert forall|i: int| r.sparks@.len() <= i < next.sparks@.len()
            implies #[trigger] next.sparks@[i].position == r.position + r.speed by {
            assert(next.sparks@[i].fresh_at((r.position + r.speed) as u32));
        }
    }
}

/// A burst is over only when every one of its sparks has burnt out: a rocket
/// still climbing is never done, and one burning spark keeps the burst going.
pub proof fn law_burst_over_when_all_burnt_out(r: FireworkRocket)
    ensures
        r.is_done() <==> (r.exploded && forall|i: int| 0 <= i < r.sparks@.len() ==> r.sparks@[i].time_to_live == 0),
        !r.exploded ==> !r.is_done(),
        forall|i: int| 0 <= i < r.sparks@.len() && #[trigger] r.sparks@[i].time_to_live > 0 ==> !r.is_done(),
{
    if r.is_done() {
        assert forall|i: int| 0 <= i < r.sparks@.len() implies r.sparks@[i].time_to_live == 0 by {
            assert(r.sparks@[i].time_to_live == 0);
        }
    }
}

/// A well-formed rocket can always take its next step.
pub proof fn lemma_wf_can_step(r: FireworkRocket)
    requires
        r.wf(),
    ensures
        r.can_step(),
{
    if r.exploded {
        assert forall|i: int| 0 <= i < r.sparks@.len() implies #[trigger] r.sparks@[i].can_step() by {
            let sp = r.sparks@[i];
            assert(sp.wf());
            let p = sp.position;
            assert(p <= 0x7fff_ffff ==> (p as i32) as int == p as int) by (bit_vector);
            assert(sp.next_position() == p + sp.speed);
        }
    } else {
        let s = r.speed as int;
        let t = r.time_to_explode as int;
        assert(s <= s * t) by (nonlinear_arith)
            requires t >= 1, s >= 0;
    }
}

/// The pixels of a black strip of `n` pixels on which the burning sparks of
/// `sparks` are drawn one after the other.
pub open spec fn draw_sparks(n: nat, sparks: Seq<FireworkSpark>) -> Seq<Rgb>
    decreases sparks.len(),
{
    if sparks.len() == 0 {
        blacks(n)
    } else {
        let before = draw_sparks(n, sparks.drop_last());
        let s = sparks.last();
        if s.time_to_live > 0 && s.position < n {
            before.update(s.position as int, s.color)
        } else {
            before
        }
    }
}

/// What a strip of `n` pixels shows of `rocket`: its burning sparks once it has
/// exploded, otherwise a white dot where it is.
pub open spec fn render(rocket: FireworkRocket, n: nat) -> Seq<Rgb> {
    if rocket.exploded {
        draw_sparks(n, rocket.sparks@)
    } else if rocket.position < n {
        blacks(n).update(rocket.position as int, white())
    } else {
        blacks(n)
    }
}

/// Rockets that climb the strip and burst, one after the other; the picture
/// moves on every third frame.
pub struct Firework {
    rocket: FireworkRocket,
    cycle: u32,
}

impl Firework {
    #[verifier::type_invariant]
    spec fn well_formed(&self) -> bool {
        self.cycle < 3 && self.rocket.wf()
    }

    /// The rocket in flight.
    pub closed spec fn rocket(&self) -> FireworkRocket {
        self.rocket
    }

    /// How many frames have passed since the picture last moved.
    pub closed spec fn cycle(&self) -> u32 {
        self.cycle
    }

    fn random_rocket() -> (r: FireworkRocket)
        ensures
            r.wf(),
            r.is_fresh(),
    {
        let speed_range: (u32, u32) = (3, 6);
        let mut rng = thread_rng();
        let speed = gen_range_u32(&mut rng, speed_range.0, speed_range.1);
        let time_to_explode_range: (u32, u32) = (8, 17);
        FireworkRocket::new(speed, time_to_explode_range)
    }

    fn loc_initialize(&mut self)
        ensures
            final(self).rocket.is_fresh(),
            final(self).cycle == old(self).cycle,
    {
        proof { use_type_invariant(&*self); }
        self.rocket = Firework::random_rocket();
    }

    /// A firework with a fresh rocket.
    pub fn new() -> (f: Firework)
        ensures
            f.rocket().is_fresh(),
            f.cycle() == 0,
    {
        Firework { rocket: Firework::random_rocket(), cycle: 0 }
    }

    /// Launches a fresh rocket; the frame count is kept.
    pub fn initialize(&mut self)
        ensures
            final(self).rocket().is_fresh(),
            final(self).cycle() == old(self).cycle(),
    {
        self.loc_initialize();
    }

    /// One frame. On two frames out of three nothing changes. On the third the
    /// rocket takes a step, a fresh rocket replaces it once its burst is over, and
    /// the strip is redrawn from black.
    pub fn update(&mut self, strip: &mut Strip)
        ensures
            old(self).cycle() + 1 < 3 ==> {
                &&& final(self).cycle() == old(self).cycle() + 1
                &&& final(self).rocket() == old(self).rocket()
                &&& final(strip)@ == old(strip)@
                &&& final(strip).is_shut_down() == old(strip).is_shut_down()
            },
            old(self).cycle() + 1 >= 3 ==> {
                &&& final(self).cycle() == 0
                &&& if old(self).rocket().is_done() {
                    final(self).rocket().is_fresh()
                } else {
                    old(self).rocket().advanced(final(self).rocket())
                }
                &&& final(strip)@ == render(final(self).rocket(), old(strip)@.len())
                &&& final(strip).is_shut_down() == old(strip).is_shut_down()
            },
    {
        proof { use_type_invariant(&*self); }
        let next_cycle = self.cycle + 1;
        if next_cycle < 3 {
            self.cycle = next_cycle;
            return;
        }
        self.cycle = 0;
        let mut rocket = FireworkRocket {
            exploded: true,
            position: 0,
            sparks: Vec::new(),
            speed: 0,
            time_to_explode: 0,
        };
        std::mem::swap(&mut self.rocket, &mut rocket);
        proof { lemma_wf_can_step(rocket); }
        let done = rocket.update();
        self.rocket = rocket;
        if done {
            self.loc_initialize();
        }
        strip.reset();
        let n = strip.get_pixel_length();
        if self.rocket.exploded {
            let mut i: usize = 0;
            while i < self.rocket.sparks.len()
                invariant
                    i <= self.rocket.sparks@.len(),
                    strip@.len() == n,
                    strip.is_shut_down() == old(strip).is_shut_down(),
                    n == old(strip)@.len(),
                    strip@ == draw_sparks(n as nat, self.rocket.sparks@.take(i as int)),
                decreases self.rocket.sparks@.len() - i,
            {
                let spark = self.rocket.sparks[i];
                if spark.time_to_live > 0 {
                    strip.set_pixel(spark.position as usize, spark.color);
                }
                assert(self.rocket.sparks@.take(i + 1).drop_last() == self.rocket.sparks@.take(i as int));
                i = i + 1;
            }
            assert(self.rocket.sparks@.take(i as int) == self.rocket.sparks@);
        } else {
            strip.set_pixel(self.rocket.position as usize, Rgb::white());
        }
    }
}

} // verus!
