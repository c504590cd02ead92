//! The gameplay event reactor: per-table scripted behaviour driven by
//! collision-start events.
//!
//! Each loaded table selects a script by its file name; an unknown
//! table gets no script, which is a normal, purely physical mode, not
//! an error.  A script reacts to a ball touching the kicker named
//! "Drain" by despawning the ball and spawning a replacement at the
//! kicker named "BallRelease" — in one step, so no observer sees a
//! world with both balls or with neither — and by cueing a drain and
//! a release sound.  Bumper hits kick the ball radially and cue one
//! of several sound variants chosen at random.

use vstd::prelude::*;
use rand::Rng;
use crate::assets::VpxAsset;
use crate::assets::find_entry_spec;
use crate::spawn::Ball;
use crate::spawn::FlipperSide;
use crate::spawn::FLIPPER_DISABLED_TORQUE_MILLI;
use crate::spawn::FLIPPER_ENABLED_TORQUE_MILLI;
use crate::spawn::Kicker;
use crate::spawn::WallPlan;
use crate::units::SimPoint;
use crate::units::floor_half;
use crate::units::floor_half_spec;
use crate::units::floor_div;

verus! {

/// The per-table script implementations this crate carries; a table
/// with no matching script runs unscripted.
#[derive(Clone, Copy, PartialEq, Eq, Structural, Debug)]
pub enum TableScript {
    ExampleTable,
    Tna,
    Unscripted,
}

/// Selects the script for a table by its file name; unknown names
/// run unscripted, never an error.
pub fn script_for_table(file_name: &String) -> (r: TableScript)
    ensures
        r == script_for_table_spec(file_name@),
{
    if *file_name == "exampleTable.vpx".to_owned() {
        TableScript::ExampleTable
    } else if *file_name == "Total Nuclear Annihilation (Spooky 2017) VPW v2.3.vpx".to_owned() {
        TableScript::Tna
    } else {
        TableScript::Unscripted
    }
}

/// Which script a table file name selects.
pub open spec fn script_for_table_spec(name: Seq<char>) -> TableScript {
    if name == "exampleTable.vpx"@ {
        TableScript::ExampleTable
    } else if name == "Total Nuclear Annihilation (Spooky 2017) VPW v2.3.vpx"@ {
        TableScript::Tna
    } else {
        TableScript::Unscripted
    }
}

/// The name of the plunger-centring wall a script removes after
/// spawn, if the table has one.
pub fn plunger_wall_name(script: &TableScript) -> (r: Option<String>)
    ensures
        match script {
            TableScript::ExampleTable => r is Some && r.unwrap()@ == "Wall15"@,
            TableScript::Tna => r is Some && r.unwrap()@ == "Wall348"@,
            TableScript::Unscripted => r is None,
        },
{
    match script {
        TableScript::ExampleTable => Some("Wall15".to_owned()),
        TableScript::Tna => Some("Wall348".to_owned()),
        TableScript::Unscripted => None,
    }
}

/// Removes the first wall plan whose item name matches, as a script
/// removes the plunger-centring wall; reports whether one was found.
pub fn remove_plunger_wall(walls: &mut Vec<WallPlan>, name: &String) -> (removed: bool)
    ensures
        removed <==> exists|i: int|
            0 <= i < old(walls)@.len() && (#[trigger] old(walls)@[i]).wall.name@ == name@,
        removed ==> exists|i: int|
            {
                &&& 0 <= i < old(walls)@.len()
                &&& (#[trigger] old(walls)@[i]).wall.name@ == name@
                &&& forall|q: int| 0 <= q < i ==> (#[trigger] old(walls)@[q]).wall.name@ != name@
                &&& final(walls)@ == old(walls)@.remove(i)
            },
        !removed ==> final(walls)@ == old(walls)@,
{
    let n = walls.len();
    let mut i: usize = 0;
    while i < n
        invariant
            n == walls@.len(),
            walls@ == old(walls)@,
            i <= n,
            forall|q: int| 0 <= q < i ==> (#[trigger] walls@[q]).wall.name@ != name@,
        decreases n - i,
    {
        if walls[i].wall.name == *name {
            walls.remove(i);
            return true;
        }
        i += 1;
    }
    false
}

/// One live ball with its position.
#[derive(Clone, Debug)]
pub struct BallEntity {
    pub ball: Ball,
    pub pos: SimPoint,
}

/// One live kicker with its position.
#[derive(Clone, Debug)]
pub struct KickerEntity {
    pub kicker: Kicker,
    pub pos: SimPoint,
}

/// The slice of the live world the reactor reads and rewrites: the
/// balls and the kicker sensors.
#[derive(Clone, Debug)]
pub struct ReactorWorld {
    pub balls: Vec<BallEntity>,
    pub kickers: Vec<KickerEntity>,
}

/// One collision participant, classified into the closed set of tags
/// the scripts distinguish.
#[derive(Clone, Copy, PartialEq, Eq, Structural, Debug)]
pub enum Participant {
    BallAt(usize),
    KickerAt(usize),
    BumperAt(usize),
    WallAt(usize),
    Unknown,
}

/// One collision-start event between two classified participants.
#[derive(Clone, Copy, PartialEq, Eq, Structural, Debug)]
pub struct CollisionStart {
    pub first: Participant,
    pub second: Participant,
}

/// The ball and kicker of an event that pairs the two, in either
/// order.
pub open spec fn ball_kicker_pair_spec(e: CollisionStart) -> Option<(usize, usize)> {
    match (e.first, e.second) {
        (Participant::BallAt(b), Participant::KickerAt(k)) => Some((b, k)),
        (Participant::KickerAt(k), Participant::BallAt(b)) => Some((b, k)),
        _ => None,
    }
}

/// Classifies an event as a ball-kicker pair, in either order.
pub fn ball_kicker_pair(e: &CollisionStart) -> (r: Option<(usize, usize)>)
    ensures
        r == ball_kicker_pair_spec(*e),
{
    match (e.first, e.second) {
        (Participant::BallAt(b), Participant::KickerAt(k)) => Some((b, k)),
        (Participant::KickerAt(k), Participant::BallAt(b)) => Some((b, k)),
        _ => None,
    }
}

/// Finds the first kicker with the given name.
pub fn find_kicker(kickers: &Vec<KickerEntity>, name: &String) -> (r: Option<usize>)
    ensures
        match r {
            Some(i) => {
                &&& i < kickers@.len()
                &&& kickers@[i as int].kicker.name@ == name@
                &&& forall|q: int| 0 <= q < i ==> (#[trigger] kickers@[q]).kicker.name@ != name@
            },
            None => forall|q: int|
                0 <= q < kickers@.len() ==> (#[trigger] kickers@[q]).kicker.name@ != name@,
        },
{
    let n = kickers.len();
    let mut i: usize = 0;
    while i < n
        invariant
            n == kickers@.len(),
            i <= n,
            forall|q: int| 0 <= q < i ==> (#[trigger] kickers@[q]).kicker.name@ != name@,
        decreases n - i,
    {
        if kickers[i].kicker.name == *name {
            return Some(i);
        }
        i += 1;
    }
    None
}

/// Whether some kicker carries the given name.
pub open spec fn has_kicker(kickers: Seq<KickerEntity>, name: Seq<char>) -> bool {
    exists|i: int| 0 <= i < kickers.len() && (#[trigger] kickers[i]).kicker.name@ == name
}

/// Whether position `j` holds the first kicker with the given name.
pub open spec fn is_first_kicker(kickers: Seq<KickerEntity>, name: Seq<char>, j: int) -> bool {
    &&& 0 <= j < kickers.len()
    &&& kickers[j].kicker.name@ == name
    &&& forall|q: int| 0 <= q < j ==> (#[trigger] kickers[q]).kicker.name@ != name
}

/// One positional sound to emit.
#[derive(Clone, Debug)]
pub struct SoundCue {
    pub name: String,
    pub pos: SimPoint,
}

/// The drain sound a script cues, for the given one-based variant
/// draw (only the multi-variant script reads it).
pub open spec fn drain_sound_spec(script: TableScript, draw: u32) -> Seq<char> {
    match script {
        TableScript::Tna => if draw == 1 {
            "SY_TNA_REV02_Trough_Drain_1"@
        } else if draw == 2 {
            "SY_TNA_REV02_Trough_Drain_2"@
        } else if draw == 3 {
            "SY_TNA_REV02_Trough_Drain_3"@
        } else if draw == 4 {
            "SY_TNA_REV02_Trough_Drain_4"@
        } else if draw == 5 {
            "SY_TNA_REV02_Trough_Drain_5"@
        } else {
            "SY_TNA_REV02_Trough_Drain_6"@
        },
        _ => "drain"@,
    }
}

/// The release sound a script cues, for the given one-based variant
/// draw.
pub open spec fn release_sound_spec(script: TableScript, draw: u32) -> Seq<char> {
    match script {
        TableScript::Tna => if draw == 1 {
            "SY_TNA_REV02_Shooter_Lane_Metal_BallDrop_1"@
        } else if draw == 2 {
            "SY_TNA_REV02_Shooter_Lane_Metal_BallDrop_2"@
        } else {
            "SY_TNA_REV02_Shooter_Lane_Metal_BallDrop_3"@
        },
        _ => "ballrelease"@,
    }
}

/// Builds the drain sound name of a script.
fn drain_sound_name(script: &TableScript, draw: u32) -> (r: String)
    ensures
        r@ == drain_sound_spec(*script, draw),
{
    match script {
        TableScript::Tna => {
            if draw == 1 {
                "SY_TNA_REV02_Trough_Drain_1".to_owned()
            } else if draw == 2 {
                "SY_TNA_REV02_Trough_Drain_2".to_owned()
            } else if draw == 3 {
                "SY_TNA_REV02_Trough_Drain_3".to_owned()
            } else if draw == 4 {
                "SY_TNA_REV02_Trough_Drain_4".to_owned()
            } else if draw == 5 {
                "SY_TNA_REV02_Trough_Drain_5".to_owned()
            } else {
                "SY_TNA_REV02_Trough_Drain_6".to_owned()
            }
        },
        _ => "drain".to_owned(),
    }
}

/// Builds the release sound name of a script.
fn release_sound_name(script: &TableScript, draw: u32) -> (r: String)
    ensures
        r@ == release_sound_spec(*script, draw),
{
    match script {
        TableScript::Tna => {
            if draw == 1 {
                "SY_TNA_REV02_Shooter_Lane_Metal_BallDrop_1".to_owned()
            } else if draw == 2 {
                "SY_TNA_REV02_Shooter_Lane_Metal_BallDrop_2".to_owned()
            } else {
                "SY_TNA_REV02_Shooter_Lane_Metal_BallDrop_3".to_owned()
            }
        },
        _ => "ballrelease".to_owned(),
    }
}

/// What a drain reaction leaves behind: the drained ball is gone, a
/// replacement with identity zero stands at the release kicker, the
/// kickers are untouched, and the drain and release sounds are cued
/// at their kickers.  The identity is always reused, never
/// incremented: the documented behaviour of the reference scripts.
pub open spec fn drain_outcome_matches(
    world: ReactorWorld,
    new_world: ReactorWorld,
    sounds: Seq<SoundCue>,
    script: TableScript,
    ball_index: int,
    kicker_index: int,
    drain_draw: u32,
    release_draw: u32,
) -> bool {
    exists|j: int|
        {
            &&& is_first_kicker(world.kickers@, "BallRelease"@, j)
            &&& new_world.balls@ == world.balls@.remove(ball_index).push(
                BallEntity { ball: Ball { id: 0 }, pos: world.kickers@[j].pos },
            )
            &&& new_world.kickers@ == world.kickers@
            &&& sounds.len() == 2
            &&& sounds[0].name@ == drain_sound_spec(script, drain_draw)
            &&& sounds[0].pos == world.kickers@[kicker_index].pos
            &&& sounds[1].name@ == release_sound_spec(script, release_draw)
            &&& sounds[1].pos == world.kickers@[j].pos
        }
}

/// Reacts to a ball-kicker collision: a scripted table drains the
/// ball at the kicker named "Drain" and, atomically in the same
/// step, spawns the replacement at the kicker named "BallRelease".
/// Any other kicker, and any unscripted table, leaves the world
/// untouched with no sound.
pub fn script_drain_step(
    script: &TableScript,
    world: ReactorWorld,
    ball_index: usize,
    kicker_index: usize,
    drain_draw: u32,
    release_draw: u32,
) -> (r: (ReactorWorld, Vec<SoundCue>))
    requires
        ball_index < world.balls@.len(),
        kicker_index < world.kickers@.len(),
        1 <= drain_draw <= 6,
        1 <= release_draw <= 3,
        !(script is Unscripted) && world.kickers@[kicker_index as int].kicker.name@ == "Drain"@
            ==> has_kicker(world.kickers@, "BallRelease"@),
    ensures
        !(script is Unscripted) && world.kickers@[kicker_index as int].kicker.name@ == "Drain"@
            ==> drain_outcome_matches(
            world,
            r.0,
            r.1@,
            *script,
            ball_index as int,
            kicker_index as int,
            drain_draw,
            release_draw,
        ),
        script is Unscripted || world.kickers@[kicker_index as int].kicker.name@ != "Drain"@
            ==> r.0 == world && r.1@.len() == 0,
{
    if matches!(script, TableScript::Unscripted) {
        return (world, Vec::new());
    }
    let drain_name = "Drain".to_owned();
    if !(world.kickers[kicker_index].kicker.name == drain_name) {
        return (world, Vec::new());
    }
    let release_name = "BallRelease".to_owned();
    match find_kicker(&world.kickers, &release_name) {
        Some(j) => {
            let drain_pos = world.kickers[kicker_index].pos;
            let release_pos = world.kickers[j].pos;
            let mut sounds: Vec<SoundCue> = Vec::new();
            sounds.push(SoundCue { name: drain_sound_name(script, drain_draw), pos: drain_pos });
            sounds.push(
                SoundCue { name: release_sound_name(script, release_draw), pos: release_pos },
            );
            let mut new_world = world;
            new_world.balls.remove(ball_index);
            new_world.balls.push(BallEntity { ball: Ball { id: 0 }, pos: release_pos });
            proof {
                assert(is_first_kicker(new_world.kickers@, "BallRelease"@, j as int));
            }
            (new_world, sounds)
        },
        None => {
            proof {
                assert(false);
            }
            (world, Vec::new())
        },
    }
}

/// Draws a uniform integer within an inclusive range.
///
/// Relies on rand's `Rng::random_range` over `lo..=hi`: it returns a
/// value of the range, and panics only on an empty range, which the
/// precondition rules out.  Nothing more is assumed of the draw.
#[verifier::external_body]
fn random_in_range(lo: u32, hi: u32) -> (r: u32)
    requires
        lo <= hi,
    ensures
        lo <= r <= hi,
{
    rand::rng().random_range(lo..=hi)
}

/// Reacts to one collision-start event: a ball touching a kicker
/// runs the drain cycle with freshly drawn sound variants; every
/// other pairing, and any participant no longer in the world, leaves
/// the world untouched.
pub fn script_on_collision(script: &TableScript, world: ReactorWorld, event: &CollisionStart) -> (r:
    (ReactorWorld, Vec<SoundCue>))
    requires
        !(script is Unscripted) ==> match ball_kicker_pair_spec(*event) {
            Some((b, k)) => b < world.balls@.len() && k < world.kickers@.len()
                && world.kickers@[k as int].kicker.name@ == "Drain"@ ==> has_kicker(
                world.kickers@,
                "BallRelease"@,
            ),
            None => true,
        },
    ensures
        match ball_kicker_pair_spec(*event) {
            Some((b, k)) => {
                if !(script is Unscripted) && b < world.balls@.len() && k < world.kickers@.len()
                    && world.kickers@[k as int].kicker.name@ == "Drain"@ {
                    exists|d1: u32, d2: u32|
                        1 <= d1 <= 6 && 1 <= d2 <= 3 && drain_outcome_matches(
                            world,
                            r.0,
                            r.1@,
                            *script,
                            b as int,
                            k as int,
                            d1,
                            d2,
                        )
                } else {
                    r.0 == world && r.1@.len() == 0
                }
            },
            None => r.0 == world && r.1@.len() == 0,
        },
{
    match ball_kicker_pair(event) {
        Some((b, k)) => {
            if b < world.balls.len() && k < world.kickers.len() {
                let drain_draw = random_in_range(1, 6);
                let release_draw = random_in_range(1, 3);
                let ghost pre = world;
                let r = script_drain_step(script, world, b, k, drain_draw, release_draw);
                proof {
                    if !(script is Unscripted) && pre.kickers@[k as int].kicker.name@ == "Drain"@ {
                        assert(drain_outcome_matches(
                            pre,
                            r.0,
                            r.1@,
                            *script,
                            b as int,
                            k as int,
                            drain_draw,
                            release_draw,
                        ));
                    }
                }
                r
            } else {
                (world, Vec::new())
            }
        },
        None => (world, Vec::new()),
    }
}


/// Whether `r` is the integer square root of `n`: the largest
/// integer whose square does not exceed `n`.
pub open spec fn is_sqrt(n: int, r: int) -> bool {
    r >= 0 && r * r <= n < (r + 1) * (r + 1)
}

/// The integer square root is unique, so the length the bumper
/// impulse contract names is a single pinned value.
pub proof fn lemma_sqrt_unique(n: int, a: int, b: int)
    requires
        is_sqrt(n, a),
        is_sqrt(n, b),
    ensures
        a == b,
{
    assert(a == b) by (nonlinear_arith)
        requires
            a >= 0 && a * a <= n < (a + 1) * (a + 1) && b >= 0 && b * b <= n < (b + 1) * (b + 1),
    ;
}

/// Computes the integer square root by bisection.
fn isqrt_u64(n: u64) -> (r: u64)
    ensures
        is_sqrt(n as int, r as int),
        r <= 0xFFFF_FFFF,
{
    let mut lo: u64 = 0;
    let mut hi: u64 = 0xFFFF_FFFF;
    if n < 0xFFFF_FFFF {
        hi = n;
    }
    proof {
        assert((hi as int + 1) * (hi as int + 1) > n as int) by (nonlinear_arith)
            requires
                hi == if n < 0xFFFF_FFFF {
                    n as int
                } else {
                    0xFFFF_FFFFint
                } && n >= 0,
        ;
    }
    while lo < hi
        invariant
            lo <= hi <= 0xFFFF_FFFF,
            lo * lo <= n,
            (hi + 1) * (hi + 1) > n,
        decreases hi - lo,
    {
        let mid = lo + (hi - lo + 1) / 2;
        proof {
            assert(mid * mid <= 0xFFFF_FFFF * 0xFFFF_FFFF) by (nonlinear_arith)
                requires
                    0 <= mid <= 0xFFFF_FFFFint,
            ;
        }
        if mid * mid <= n {
            lo = mid;
        } else {
            hi = mid - 1;
        }
    }
    lo
}

/// The impulse a bumper hit applies to the ball: the vector from the
/// bumper centre to the ball, normalised and scaled by the bumper's
/// force.  A ball exactly at the centre has no direction, so no
/// impulse.
pub fn bumper_impulse(ball_pos: SimPoint, bumper_pos: SimPoint, force_micro: i64) -> (r: Option<
    (i64, i64),
>)
    requires
        -0x4000_0000 <= ball_pos.x <= 0x4000_0000,
        -0x4000_0000 <= ball_pos.y <= 0x4000_0000,
        -0x4000_0000 <= bumper_pos.x <= 0x4000_0000,
        -0x4000_0000 <= bumper_pos.y <= 0x4000_0000,
        0 <= force_micro <= 0x4000_0000,
    ensures
        ({
            let dx = ball_pos.x - bumper_pos.x;
            let dy = ball_pos.y - bumper_pos.y;
            &&& (r is Some <==> (dx != 0 || dy != 0))
            &&& match r {
                Some(imp) => exists|len: int|
                    {
                        &&& #[trigger] is_sqrt(dx * dx + dy * dy, len)
                        &&& len > 0
                        &&& imp.0 == (dx * force_micro) / len
                        &&& imp.1 == (dy * force_micro) / len
                    },
                None => true,
            }
        }),
{
    let dx = ball_pos.x - bumper_pos.x;
    let dy = ball_pos.y - bumper_pos.y;
    if dx == 0 && dy == 0 {
        return None;
    }
    let adx: u64 = if dx >= 0 {
        dx as u64
    } else {
        (-dx) as u64
    };
    let ady: u64 = if dy >= 0 {
        dy as u64
    } else {
        (-dy) as u64
    };
    proof {
        assert(adx * adx == dx * dx && adx * adx <= 0x4000_0000_0000_0000) by (nonlinear_arith)
            requires
                adx == if dx >= 0 {
                    dx as int
                } else {
                    -dx as int
                } && -0x8000_0000 <= dx <= 0x8000_0000,
        ;
        assert(ady * ady == dy * dy && ady * ady <= 0x4000_0000_0000_0000) by (nonlinear_arith)
            requires
                ady == if dy >= 0 {
                    dy as int
                } else {
                    -dy as int
                } && -0x8000_0000 <= dy <= 0x8000_0000,
        ;
    }
    proof {
        assert(dx != 0 ==> dx * dx > 0) by (nonlinear_arith);
        assert(dy != 0 ==> dy * dy > 0) by (nonlinear_arith);
    }
    let d2: u64 = adx * adx + ady * ady;
    let len = isqrt_u64(d2);
    proof {
        assert(len > 0) by (nonlinear_arith)
            requires
                is_sqrt(d2 as int, len as int) && d2 > 0,
        ;
        assert(-0x4000_0000_0000_0000 <= dx * force_micro <= 0x4000_0000_0000_0000)
            by (nonlinear_arith)
            requires
                -0x8000_0000 <= dx <= 0x8000_0000 && 0 <= force_micro <= 0x4000_0000,
        ;
        assert(-0x4000_0000_0000_0000 <= dy * force_micro <= 0x4000_0000_0000_0000)
            by (nonlinear_arith)
            requires
                -0x8000_0000 <= dy <= 0x8000_0000 && 0 <= force_micro <= 0x4000_0000,
        ;
    }
    let ix = floor_div(dx * force_micro, len as i64);
    let iy = floor_div(dy * force_micro, len as i64);
    Some((ix, iy))
}

/// The sound a bumper hit cues, for the given one-based variant draw.
pub open spec fn bumper_sound_spec(draw: u32) -> Seq<char> {
    if draw == 1 {
        "fx_bumper1"@
    } else if draw == 2 {
        "fx_bumper2"@
    } else if draw == 3 {
        "fx_bumper3"@
    } else {
        "fx_bumper4"@
    }
}

/// Builds the bumper hit sound name for a variant draw.
pub fn bumper_sound_name(draw: u32) -> (r: String)
    ensures
        r@ == bumper_sound_spec(draw),
{
    if draw == 1 {
        "fx_bumper1".to_owned()
    } else if draw == 2 {
        "fx_bumper2".to_owned()
    } else if draw == 3 {
        "fx_bumper3".to_owned()
    } else {
        "fx_bumper4".to_owned()
    }
}

/// Reacts to a ball hitting a bumper: the radial impulse of
/// [`bumper_impulse`], and one of the four bumper sound variants,
/// drawn at random, cued at the bumper.
pub fn bumper_hit(ball_pos: SimPoint, bumper_pos: SimPoint, force_micro: i64) -> (r: (
    Option<(i64, i64)>,
    SoundCue,
))
    requires
        -0x4000_0000 <= ball_pos.x <= 0x4000_0000,
        -0x4000_0000 <= ball_pos.y <= 0x4000_0000,
        -0x4000_0000 <= bumper_pos.x <= 0x4000_0000,
        -0x4000_0000 <= bumper_pos.y <= 0x4000_0000,
        0 <= force_micro <= 0x4000_0000,
    ensures
        ({
            let dx = ball_pos.x - bumper_pos.x;
            let dy = ball_pos.y - bumper_pos.y;
            &&& (r.0 is Some <==> (dx != 0 || dy != 0))
            &&& match r.0 {
                Some(imp) => exists|len: int|
                    {
                        &&& #[trigger] is_sqrt(dx * dx + dy * dy, len)
                        &&& len > 0
                        &&& imp.0 == (dx * force_micro) / len
                        &&& imp.1 == (dy * force_micro) / len
                    },
                None => true,
            }
            &&& exists|d: u32| 1 <= d <= 4 && r.1.name@ == bumper_sound_spec(d)
            &&& r.1.pos == bumper_pos
        }),
{
    let impulse = bumper_impulse(ball_pos, bumper_pos, force_micro);
    let draw = random_in_range(1, 4);
    let name = bumper_sound_name(draw);
    proof {
        assert(1 <= draw <= 4 && name@ == bumper_sound_spec(draw));
    }
    (impulse, SoundCue { name, pos: bumper_pos })
}

/// The speed below which the rolling sound pauses, in millimetres
/// per second.
pub const ROLLING_MIN_SPEED_MILLI: i64 = 5;

/// The rolling-sound volume for a ball speed, in thousandths:
/// five times the speed, capped at forty.
pub fn rolling_volume_milli(speed_milli: i64) -> (r: i64)
    requires
        0 <= speed_milli <= 0x1000_0000_0000,
    ensures
        r == if 5 * speed_milli > 40_000 {
            40_000int
        } else {
            5 * speed_milli
        },
{
    let v = 5 * speed_milli;
    if v > 40_000 {
        40_000
    } else {
        v
    }
}

/// The one-shot collision volume for a solver impulse, in
/// thousandths: ten times the impulse, capped at ten.
pub fn collision_volume_milli(impulse_milli: i64) -> (r: i64)
    requires
        0 <= impulse_milli <= 0x1000_0000_0000,
    ensures
        r == if 10 * impulse_milli > 10_000 {
            10_000int
        } else {
            10 * impulse_milli
        },
{
    let v = 10 * impulse_milli;
    if v > 10_000 {
        10_000
    } else {
        v
    }
}

/// What the rolling-sound emitter should do this frame.
#[derive(Clone, Copy, PartialEq, Eq, Structural, Debug)]
pub enum RollingAction {
    Play(i64),
    Pause,
}

/// Drives the ball's rolling sound from its speed: paused below the
/// minimum speed and whenever the simulation is paused, else playing
/// at the speed-derived volume.
pub fn rolling_sound_action(speed_milli: i64, sim_paused: bool) -> (r: RollingAction)
    requires
        0 <= speed_milli <= 0x1000_0000_0000,
    ensures
        sim_paused ==> r == RollingAction::Pause,
        !sim_paused && speed_milli <= ROLLING_MIN_SPEED_MILLI ==> r == RollingAction::Pause,
        !sim_paused && speed_milli > ROLLING_MIN_SPEED_MILLI ==> r == RollingAction::Play(
            if 5 * speed_milli > 40_000 {
                40_000int
            } else {
                5 * speed_milli
            } as i64,
        ),
{
    if sim_paused {
        return RollingAction::Pause;
    }
    if speed_milli > ROLLING_MIN_SPEED_MILLI {
        RollingAction::Play(rolling_volume_milli(speed_milli))
    } else {
        RollingAction::Pause
    }
}

/// Reacts to two balls colliding: the one-shot collision sound at the
/// midpoint of the two balls, at the impulse-derived volume.
pub fn ball_collision_cue(pos1: SimPoint, pos2: SimPoint, impulse_milli: i64) -> (r: (
    SoundCue,
    i64,
))
    requires
        -0x4000_0000_0000 <= pos1.x <= 0x4000_0000_0000,
        -0x4000_0000_0000 <= pos1.y <= 0x4000_0000_0000,
        -0x4000_0000_0000 <= pos2.x <= 0x4000_0000_0000,
        -0x4000_0000_0000 <= pos2.y <= 0x4000_0000_0000,
        0 <= impulse_milli <= 0x1000_0000_0000,
    ensures
        r.0.name@ == "fx_collide"@,
        r.0.pos.x == floor_half_spec(pos1.x + pos2.x),
        r.0.pos.y == floor_half_spec(pos1.y + pos2.y),
        r.1 == if 10 * impulse_milli > 10_000 {
            10_000int
        } else {
            10 * impulse_milli
        },
{
    let volume = collision_volume_milli(impulse_milli);
    let mid = SimPoint { x: floor_half(pos1.x + pos2.x), y: floor_half(pos1.y + pos2.y) };
    (SoundCue { name: "fx_collide".to_owned(), pos: mid }, volume)
}


/// The torque to drive a flipper with, from its side and whether its
/// button is held: the full solenoid torque while held, the return
/// spring's counter-torque while released, mirrored for the right
/// side.
pub fn flipper_torque_milli(side: FlipperSide, pressed: bool) -> (r: i64)
    ensures
        side is Left && pressed ==> r == FLIPPER_ENABLED_TORQUE_MILLI,
        side is Left && !pressed ==> r == FLIPPER_DISABLED_TORQUE_MILLI,
        side is Right && pressed ==> r == -FLIPPER_ENABLED_TORQUE_MILLI,
        side is Right && !pressed ==> r == -FLIPPER_DISABLED_TORQUE_MILLI,
{
    match side {
        FlipperSide::Left => if pressed {
            FLIPPER_ENABLED_TORQUE_MILLI
        } else {
            FLIPPER_DISABLED_TORQUE_MILLI
        },
        FlipperSide::Right => if pressed {
            -FLIPPER_ENABLED_TORQUE_MILLI
        } else {
            -FLIPPER_DISABLED_TORQUE_MILLI
        },
    }
}

/// The handle of the plunger pull sound, if the table carries one;
/// a missing sound only means silence, never an error.
pub fn plunger_pull_sound(assets: &VpxAsset) -> (r: Option<u32>)
    ensures
        r == find_entry_spec(assets.sounds@, "plungerpull"@),
{
    assets.find_sound(&"plungerpull".to_owned())
}

/// The handle of the plunger release sound, if the table carries one.
pub fn plunger_release_sound(assets: &VpxAsset) -> (r: Option<u32>)
    ensures
        r == find_entry_spec(assets.sounds@, "plunger"@),
{
    assets.find_sound(&"plunger".to_owned())
}

} // verus!
