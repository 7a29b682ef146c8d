//! Interface speeds: the speed tables and the choice of the nearest entry.

use vstd::prelude::*;
use crate::link::constants::commands::debug::{apiv2, apiv3, DEBUG_COMMAND};
use crate::link::constants::commands::swim;
use crate::link::constants::flags::{HAS_JTAG_SET_FREQ, HAS_SWD_SET_FREQ};
use crate::link::enums::{Cmd, DebugMode, Direction};
use crate::link::structs::SpeedMap;
use super::engine::text3;
use super::step::{LinkError, Reply, ReplyView, Step, StepView};
use super::engine::decode_frequencies;
use super::{Link, LinkView, Parse, Phase, Task};

verus! {

/// The SWD speeds of the second command set, fastest first.
pub open spec fn swd_speed_table() -> Seq<SpeedMap> {
    seq![
        SpeedMap { speed: 4000, divisor: 0 },
        SpeedMap { speed: 1800, divisor: 1 },
        SpeedMap { speed: 1200, divisor: 2 },
        SpeedMap { speed: 950, divisor: 3 },
        SpeedMap { speed: 480, divisor: 7 },
        SpeedMap { speed: 240, divisor: 15 },
        SpeedMap { speed: 125, divisor: 31 },
        SpeedMap { speed: 100, divisor: 40 },
        SpeedMap { speed: 50, divisor: 79 },
        SpeedMap { speed: 25, divisor: 158 },
        SpeedMap { speed: 15, divisor: 265 },
        SpeedMap { speed: 5, divisor: 798 },
    ]
}

/// The JTAG speeds of the second command set, fastest first.
pub open spec fn jtag_speed_table() -> Seq<SpeedMap> {
    seq![
        SpeedMap { speed: 18000, divisor: 2 },
        SpeedMap { speed: 9000, divisor: 4 },
        SpeedMap { speed: 4500, divisor: 8 },
        SpeedMap { speed: 2250, divisor: 16 },
        SpeedMap { speed: 1125, divisor: 32 },
        SpeedMap { speed: 562, divisor: 64 },
        SpeedMap { speed: 281, divisor: 128 },
        SpeedMap { speed: 140, divisor: 256 },
    ]
}

/// The speed that SWD starts with.
pub open spec fn spec_swd_default_speed() -> SpeedMap {
    SpeedMap { speed: 1800, divisor: 1 }
}

/// The speed that JTAG starts with.
pub open spec fn spec_jtag_default_speed() -> SpeedMap {
    SpeedMap { speed: 1125, divisor: 32 }
}

/// The SWD speeds of the second command set, fastest first.
pub fn swd_speed_map() -> (map: Vec<SpeedMap>)
    ensures
        map@ == swd_speed_table(),
{
    let mut map: Vec<SpeedMap> = Vec::new();
    map.push(SpeedMap::new(4000, 0));
    map.push(SpeedMap::new(1800, 1));
    map.push(SpeedMap::new(1200, 2));
    map.push(SpeedMap::new(950, 3));
    map.push(SpeedMap::new(480, 7));
    map.push(SpeedMap::new(240, 15));
    map.push(SpeedMap::new(125, 31));
    map.push(SpeedMap::new(100, 40));
    map.push(SpeedMap::new(50, 79));
    map.push(SpeedMap::new(25, 158));
    map.push(SpeedMap::new(15, 265));
    map.push(SpeedMap::new(5, 798));
    assert(map@ =~= swd_speed_table());
    map
}

/// The JTAG speeds of the second command set, fastest first.
pub fn jtag_speed_map() -> (map: Vec<SpeedMap>)
    ensures
        map@ == jtag_speed_table(),
{
    let mut map: Vec<SpeedMap> = Vec::new();
    map.push(SpeedMap::new(18000, 2));
    map.push(SpeedMap::new(9000, 4));
    map.push(SpeedMap::new(4500, 8));
    map.push(SpeedMap::new(2250, 16));
    map.push(SpeedMap::new(1125, 32));
    map.push(SpeedMap::new(562, 64));
    map.push(SpeedMap::new(281, 128));
    map.push(SpeedMap::new(140, 256));
    assert(map@ =~= jtag_speed_table());
    map
}

/// The speed that SWD starts with.
pub fn swd_default_speed() -> (entry: SpeedMap)
    ensures
        entry == spec_swd_default_speed(),
{
    SpeedMap::new(1800, 1)
}

/// The speed that JTAG starts with.
pub fn jtag_default_speed() -> (entry: SpeedMap)
    ensures
        entry == spec_jtag_default_speed(),
{
    SpeedMap::new(1125, 32)
}

/// How far `speed` is from `khz`.
pub open spec fn distance(khz: usize, speed: usize) -> int {
    if khz > speed {
        khz - speed
    } else {
        speed - khz
    }
}

/// Whether a walk down `map` stops at entry `i`: up to `i` no entry was
/// further from `khz` than the one before it, and `i` is the last entry or
/// the entry after it is further from `khz`.
pub open spec fn stops_at(khz: usize, map: Seq<SpeedMap>, i: int) -> bool {
    &&& 0 <= i < map.len()
    &&& forall|j: int|
        0 <= j < i ==> distance(khz, (#[trigger] map[j + 1]).speed) <= distance(khz, map[j].speed)
    &&& (i == map.len() - 1 || distance(khz, map[i + 1].speed) > distance(khz, map[i].speed))
}

/// Whether the speeds of `map` never rise from one entry to the next.
pub open spec fn descending(map: Seq<SpeedMap>) -> bool {
    forall|i: int, j: int| 0 <= i <= j < map.len() ==> map[i].speed >= map[j].speed
}

/// The entry that a request for `khz` selects: the entry at which a walk
/// down the table stops, that is the first one whose successor is further
/// from `khz`. An empty table gives speed 0 with divisor 1, which callers
/// read as "unchanged".
pub open spec fn closest(khz: usize, map: Seq<SpeedMap>) -> SpeedMap {
    if map.len() == 0 {
        SpeedMap { speed: 0, divisor: 1 }
    } else {
        map[choose|i: int| stops_at(khz, map, i)]
    }
}

/// The entry of `map` that a request for `khz` selects.
pub fn closest_speed(khz: usize, map: &[SpeedMap]) -> (entry: SpeedMap)
    ensures
        entry == closest(khz, map@),
        map@.len() > 0 ==> exists|i: int| stops_at(khz, map@, i) && entry == map@[i],
{
    if map.len() == 0 {
        return SpeedMap { speed: 0, divisor: 1 };
    }
    let last: usize = map.len() - 1;
    let mut i: usize = 0;
    let mut delta: usize = gap(khz, map[0].speed);
    while i < last
        invariant
            last == map@.len() - 1,
            i <= last,
            delta == distance(khz, map@[i as int].speed),
            forall|j: int|
                0 <= j < i ==> distance(khz, (#[trigger] map@[j + 1]).speed) <= distance(
                    khz,
                    map@[j].speed,
                ),
        decreases map@.len() - i,
    {
        let next = gap(khz, map[i + 1].speed);
        if next > delta {
            assert(stops_at(khz, map@, i as int));
            proof {
                lemma_stops_at_unique(khz, map@, i as int, choose|k: int| stops_at(khz, map@, k));
            }
            return map[i];
        }
        delta = next;
        i += 1;
    }
    assert(stops_at(khz, map@, i as int));
    proof {
        lemma_stops_at_unique(khz, map@, i as int, choose|k: int| stops_at(khz, map@, k));
    }
    map[i]
}

fn gap(khz: usize, speed: usize) -> (d: usize)
    ensures
        d == distance(khz, speed),
{
    if khz > speed {
        khz - speed
    } else {
        speed - khz
    }
}

/// A walk down a table stops at one entry only.
pub proof fn lemma_stops_at_unique(khz: usize, map: Seq<SpeedMap>, i: int, k: int)
    requires
        stops_at(khz, map, i),
        stops_at(khz, map, k),
    ensures
        i == k,
{
    if i < k {
        assert(distance(khz, map[i + 1].speed) <= distance(khz, map[i].speed));
    } else if k < i {
        assert(distance(khz, map[k + 1].speed) <= distance(khz, map[k].speed));
    }
}

/// In a table whose speeds never rise, the entry at which the walk stops is
/// as near to the requested speed as any entry of the table.
pub proof fn lemma_closest_speed_is_nearest(khz: usize, map: Seq<SpeedMap>, i: int, j: int)
    requires
        descending(map),
        stops_at(khz, map, i),
        0 <= j < map.len(),
    ensures
        distance(khz, map[i].speed) <= distance(khz, map[j].speed),
    decreases
            if j < i {
                i - j
            } else {
                0
            },
{
    if j < i {
        assert(distance(khz, map[j + 1].speed) <= distance(khz, map[j].speed));
        if j + 1 < i {
            lemma_closest_speed_is_nearest(khz, map, i, j + 1);
        }
    } else if j > i {
        assert(map[i + 1].speed <= map[i].speed);
        assert(map[j].speed <= map[i + 1].speed);
    }
}

/// Both built-in tables are sorted, fastest first.
pub proof fn lemma_tables_descending()
    ensures
        descending(swd_speed_table()),
        descending(jtag_speed_table()),
{
}

/// A list of three tokens.
pub(crate) fn tokens3(a: Cmd, b: Cmd, c: Cmd) -> (cmds: Vec<Cmd>)
    ensures
        cmds@ == seq![a, b, c],
        super::sendrecv::total_width(cmds@) == a.spec_width() + b.spec_width() + c.spec_width(),
{
    let mut cmds: Vec<Cmd> = Vec::new();
    cmds.push(a);
    cmds.push(b);
    cmds.push(c);
    proof {
        let s = seq![a, b, c];
        assert(cmds@ =~= s);
        assert(s.drop_last() =~= seq![a, b]);
        assert(seq![a, b].drop_last() =~= seq![a]);
        assert(seq![a].drop_last() =~= Seq::<Cmd>::empty());
        reveal_with_fuel(super::sendrecv::total_width, 4);
    }
    cmds
}

impl LinkView {
    /// The command that selects the SWIM speed: the high speed for any
    /// request but zero, the low speed for zero.
    pub open spec fn speed_swim(self, khz: usize) -> (LinkView, StepView) {
        self.asked(
            0,
            seq![
                swim::SWIM_COMMAND,
                swim::SPEED,
                if khz == 0 {
                    0u8
                } else {
                    1u8
                },
            ],
            0,
            true,
            Parse::Ack,
        )
    }

    /// The command that sets the JTAG speed on probes that can set it: its
    /// tokens are the debug group, the command and, as a 16-bit word, the
    /// divisor of the entry of the JTAG table that is nearest to `khz`. A
    /// probe that cannot set the speed is not asked, and the operation
    /// succeeds.
    pub open spec fn speed_jtag(self, khz: usize) -> (LinkView, StepView) {
        if self.version.flags & HAS_JTAG_SET_FREQ == 0 {
            (self, StepView::Finished(Ok(ReplyView::Done)))
        } else {
            self.ordered(
                2,
                Direction::In,
                seq![
                    Cmd::Int8(DEBUG_COMMAND),
                    Cmd::Int8(apiv2::JTAG_SET_FREQ),
                    Cmd::Int16(closest(khz, jtag_speed_table()).divisor as u16),
                ],
                Parse::Ack,
            )
        }
    }

    /// The command that sets the SWD speed on probes that can set it, made
    /// as the one for JTAG is, from the SWD table.
    pub open spec fn speed_swd(self, khz: usize) -> (LinkView, StepView) {
        if self.version.flags & HAS_SWD_SET_FREQ == 0 {
            (self, StepView::Finished(Ok(ReplyView::Done)))
        } else {
            self.ordered(
                2,
                Direction::In,
                seq![
                    Cmd::Int8(DEBUG_COMMAND),
                    Cmd::Int8(apiv2::SWD_SET_FREQ),
                    Cmd::Int16(closest(khz, swd_speed_table()).divisor as u16),
                ],
                Parse::Ack,
            )
        }
    }

    /// The command of the third command set that asks for the speeds of
    /// JTAG or of SWD, answered by 52 bytes.
    pub open spec fn get_com_freq(self, is_jtag: bool) -> (LinkView, StepView) {
        if self.version.jtag_api == 3 {
            self.asked(
                52,
                seq![
                    DEBUG_COMMAND,
                    apiv3::GET_COM_FREQ,
                    if is_jtag {
                        1u8
                    } else {
                        0u8
                    },
                ],
                52,
                true,
                Parse::Frequencies,
            )
        } else {
            self.refused(LinkError::UnsupportedFeature)
        }
    }
}

/// A list of five tokens: four bytes and a 32-bit word.
pub(crate) fn tokens5(a: u8, b: u8, c: u8, d: u8, word: u32) -> (cmds: Vec<Cmd>)
    ensures
        cmds@ == seq![Cmd::Int8(a), Cmd::Int8(b), Cmd::Int8(c), Cmd::Int8(d), Cmd::Int32(word)],
        super::sendrecv::total_width(cmds@) == 8,
{
    let mut cmds: Vec<Cmd> = Vec::new();
    cmds.push(Cmd::Int8(a));
    cmds.push(Cmd::Int8(b));
    cmds.push(Cmd::Int8(c));
    cmds.push(Cmd::Int8(d));
    cmds.push(Cmd::Int32(word));
    proof {
        let s4 = seq![Cmd::Int8(a), Cmd::Int8(b), Cmd::Int8(c), Cmd::Int8(d)];
        let s5 = seq![Cmd::Int8(a), Cmd::Int8(b), Cmd::Int8(c), Cmd::Int8(d), Cmd::Int32(word)];
        assert(cmds@ =~= s5);
        assert(s5.drop_last() =~= s4);
        assert(s4.drop_last() =~= seq![Cmd::Int8(a), Cmd::Int8(b), Cmd::Int8(c)]);
        assert(seq![Cmd::Int8(a), Cmd::Int8(b), Cmd::Int8(c)].drop_last() =~= seq![
            Cmd::Int8(a),
            Cmd::Int8(b),
        ]);
        assert(seq![Cmd::Int8(a), Cmd::Int8(b)].drop_last() =~= seq![Cmd::Int8(a)]);
        assert(seq![Cmd::Int8(a)].drop_last() =~= Seq::<Cmd>::empty());
        reveal_with_fuel(super::sendrecv::total_width, 6);
    }
    cmds
}

impl LinkView {
    /// The first command of the setting of a speed of the third command
    /// set: the speed table is asked for.
    pub open spec fn speed_v3(self, is_jtag: bool, khz: usize) -> (LinkView, StepView) {
        if self.version.jtag_api == 3 {
            self.issued(
                Task::SpeedV3 { is_jtag, khz, setting: false },
                52,
                seq![
                    DEBUG_COMMAND,
                    apiv3::GET_COM_FREQ,
                    if is_jtag {
                        1u8
                    } else {
                        0u8
                    },
                ],
                52,
                true,
            )
        } else {
            self.refused(LinkError::UnsupportedFeature)
        }
    }

    /// What the setting of a speed does once a round trip is over: after
    /// the table came, the command that sets the speed goes out, whose
    /// tokens are the debug group, the command, the transport, a zero and,
    /// as a 32-bit word, the speed of the table that is nearest to `khz`.
    pub open spec fn speed_next(
        self,
        is_jtag: bool,
        khz: usize,
        setting: bool,
        outcome: Result<usize, LinkError>,
    ) -> (LinkView, StepView) {
        match outcome {
            Err(e) => self.finished(Err(e)),
            Ok(_) => if setting {
                self.finished(Ok(ReplyView::Done))
            } else {
                self.tokened(
                    Task::SpeedV3 { is_jtag, khz, setting: true },
                    8,
                    Direction::In,
                    seq![
                        Cmd::Int8(DEBUG_COMMAND),
                        Cmd::Int8(apiv3::SET_COM_FREQ),
                        Cmd::Int8(
                            if is_jtag {
                                1u8
                            } else {
                                0u8
                            },
                        ),
                        Cmd::Int8(0u8),
                        Cmd::Int32(closest(khz, decode_frequencies(self.databuf)).speed as u32),
                    ],
                )
            },
        }
    }

    /// The first command that sets the speed of `mode` to `khz`: that of
    /// SWIM, that of the third command set, or that of the second command
    /// set for SWD or for JTAG. An unknown mode has no speed.
    pub open spec fn set_speed(self, mode: DebugMode, khz: usize) -> (LinkView, StepView) {
        match mode {
            DebugMode::SWIM => self.speed_swim(khz),
            DebugMode::SWD => if self.version.jtag_api == 3 {
                self.speed_v3(false, khz)
            } else {
                self.speed_swd(khz)
            },
            DebugMode::JTAG => if self.version.jtag_api == 3 {
                self.speed_v3(true, khz)
            } else {
                self.speed_jtag(khz)
            },
            DebugMode::Unknown => self.refused(LinkError::UnsupportedFeature),
        }
    }
}

impl Link {
    /// Starts setting the speed of `mode` to the speed nearest to `khz`
    /// that the probe offers.
    pub fn set_speed(&mut self, mode: DebugMode, khz: usize) -> (step: Step)
        requires
            old(self)@.wf(),
            old(self)@.idle(),
        ensures
            (final(self)@, step@) == old(self)@.set_speed(mode, khz),
            final(self)@.wf(),
    {
        match mode {
            DebugMode::SWIM => self.speed_swim(khz),
            DebugMode::SWD => {
                if self.version.jtag_api == 3 {
                    self.speed_v3(false, khz)
                } else {
                    self.speed_swd(khz)
                }
            },
            DebugMode::JTAG => {
                if self.version.jtag_api == 3 {
                    self.speed_v3(true, khz)
                } else {
                    self.speed_jtag(khz)
                }
            },
            DebugMode::Unknown => Step::Finished(Err(LinkError::UnsupportedFeature)),
        }
    }

    /// Starts setting a speed of the third command set: the speed of the
    /// probe's table that is nearest to `khz`.
    pub fn speed_v3(&mut self, is_jtag: bool, khz: usize) -> (step: Step)
        requires
            old(self)@.wf(),
            old(self)@.idle(),
        ensures
            (final(self)@, step@) == old(self)@.speed_v3(is_jtag, khz),
            final(self)@.wf(),
    {
        if self.version.jtag_api != 3 {
            return Step::Finished(Err(LinkError::UnsupportedFeature));
        }
        let body = text3(
            DEBUG_COMMAND,
            apiv3::GET_COM_FREQ,
            if is_jtag {
                1
            } else {
                0
            },
        );
        self.issue(Task::SpeedV3 { is_jtag, khz, setting: false }, 52, &body, 52, true)
    }

    pub(crate) fn speed_next(
        &mut self,
        is_jtag: bool,
        khz: usize,
        setting: bool,
        outcome: Result<usize, LinkError>,
    ) -> (step: Step)
        requires
            old(self)@.shaped(),
            old(self)@.phase == Phase::Idle,
        ensures
            (final(self)@, step@) == old(self)@.speed_next(is_jtag, khz, setting, outcome),
            final(self)@.wf(),
    {
        match outcome {
            Err(e) => self.finish(Err(e)),
            Ok(_) => {
                if setting {
                    self.finish(Ok(Reply::Done))
                } else {
                    let map = self.frequencies();
                    let speed = closest_speed(khz, map.as_slice()).speed;
                    let cmds = tokens5(
                        DEBUG_COMMAND,
                        apiv3::SET_COM_FREQ,
                        if is_jtag {
                            1
                        } else {
                            0
                        },
                        0,
                        #[verifier::truncate] (speed as u32),
                    );
                    self.token(
                        Task::SpeedV3 { is_jtag, khz, setting: true },
                        8,
                        Direction::In,
                        &cmds,
                    )
                }
            },
        }
    }

    /// Starts setting the SWIM speed.
    pub fn speed_swim(&mut self, khz: usize) -> (step: Step)
        requires
            old(self)@.wf(),
            old(self)@.idle(),
        ensures
            (final(self)@, step@) == old(self)@.speed_swim(khz),
            final(self)@.wf(),
    {
        let body = text3(
            swim::SWIM_COMMAND,
            swim::SPEED,
            if khz == 0 {
                0
            } else {
                1
            },
        );
        self.ask(0, &body, 0, true, Parse::Ack)
    }

    /// Starts setting the JTAG speed to the entry of the JTAG table that
    /// is nearest to `khz`.
    pub fn speed_jtag(&mut self, khz: usize) -> (step: Step)
        requires
            old(self)@.wf(),
            old(self)@.idle(),
        ensures
            (final(self)@, step@) == old(self)@.speed_jtag(khz),
            final(self)@.wf(),
    {
        if self.version.flags & HAS_JTAG_SET_FREQ == 0 {
            return Step::Finished(Ok(Reply::Done));
        }
        let map = jtag_speed_map();
        let divisor = closest_speed(khz, map.as_slice()).divisor;
        let cmds = tokens3(
            Cmd::Int8(DEBUG_COMMAND),
            Cmd::Int8(apiv2::JTAG_SET_FREQ),
            Cmd::Int16(#[verifier::truncate] (divisor as u16)),
        );
        self.order(2, Direction::In, &cmds, Parse::Ack)
    }

    /// Starts setting the SWD speed to the entry of the SWD table that is
    /// nearest to `khz`.
    pub fn speed_swd(&mut self, khz: usize) -> (step: Step)
        requires
            old(self)@.wf(),
            old(self)@.idle(),
        ensures
            (final(self)@, step@) == old(self)@.speed_swd(khz),
            final(self)@.wf(),
    {
        if self.version.flags & HAS_SWD_SET_FREQ == 0 {
            return Step::Finished(Ok(Reply::Done));
        }
        let map = swd_speed_map();
        let divisor = closest_speed(khz, map.as_slice()).divisor;
        let cmds = tokens3(
            Cmd::Int8(DEBUG_COMMAND),
            Cmd::Int8(apiv2::SWD_SET_FREQ),
            Cmd::Int16(#[verifier::truncate] (divisor as u16)),
        );
        self.order(2, Direction::In, &cmds, Parse::Ack)
    }

    /// Starts reading the speed table of JTAG or of SWD; the operation
    /// ends with the table.
    pub fn get_com_freq(&mut self, is_jtag: bool) -> (step: Step)
        requires
            old(self)@.wf(),
            old(self)@.idle(),
        ensures
            (final(self)@, step@) == old(self)@.get_com_freq(is_jtag),
            final(self)@.wf(),
    {
        if self.version.jtag_api != 3 {
            return Step::Finished(Err(LinkError::UnsupportedFeature));
        }
        let body = text3(
            DEBUG_COMMAND,
            apiv3::GET_COM_FREQ,
            if is_jtag {
                1
            } else {
                0
            },
        );
        self.ask(52, &body, 52, true, Parse::Frequencies)
    }
}

} // verus!
