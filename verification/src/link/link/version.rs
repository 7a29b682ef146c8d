//! The version handshake: what the probe reports of its firmware, and the
//! command set and features that follow from it.

use vstd::prelude::*;
use crate::link::constants::commands::{GET_VERSION, GET_VERSION_EXT};
use crate::link::constants::flags::{
    HAS_GETLASTRWSTATUS2,
    HAS_JTAG_SET_FREQ,
    HAS_MEM_16BIT,
    HAS_SWD_SET_FREQ,
    HAS_TRACE,
};
use crate::link::structs::STLinkUSBVersion;
use crate::link::util::{buf_read_u16, spec_read_u16};
use super::engine::text1;
use super::step::{LinkError, Reply, ReplyView, Step, StepView};
use super::{packet_of, spec_packet_of, Link, LinkView, Task};

verus! {

/// The level of the command set of a probe of generation `stlink` with
/// JTAG revision `jtag`: 1 on generation 1 up to revision 10 and 2 above
/// it, 2 on generation 2, 3 on generation 3. Any other generation leaves
/// the level as it was, `before`.
pub open spec fn spec_api_level(stlink: usize, jtag: usize, before: usize) -> usize {
    if stlink == 1 {
        if jtag <= 10 {
            1
        } else {
            2
        }
    } else if stlink == 2 {
        2
    } else if stlink == 3 {
        3
    } else {
        before
    }
}

/// The features of a probe of generation `stlink` with JTAG revision
/// `jtag`. On generation 2 a feature is there from a revision on: trace
/// from 13, the long access status from 15, the SWD speed from 22, the JTAG
/// speed from 24, 16-bit memory access from 26. Generation 3 has trace,
/// the long access status and 16-bit access; its speeds are set through
/// its speed table. The other generations have none.
pub open spec fn spec_features(stlink: usize, jtag: usize) -> u32 {
    if stlink == 2 {
        (if jtag >= 13 {
            HAS_TRACE
        } else {
            0
        }) | (if jtag >= 15 {
            HAS_GETLASTRWSTATUS2
        } else {
            0
        }) | (if jtag >= 22 {
            HAS_SWD_SET_FREQ
        } else {
            0
        }) | (if jtag >= 24 {
            HAS_JTAG_SET_FREQ
        } else {
            0
        }) | (if jtag >= 26 {
            HAS_MEM_16BIT
        } else {
            0
        })
    } else if stlink == 3 {
        HAS_TRACE | HAS_GETLASTRWSTATUS2 | HAS_MEM_16BIT
    } else {
        0
    }
}

/// The version record of a probe of generation `stlink` with the
/// revisions `jtag` and `swim`.
pub open spec fn spec_version_record(
    stlink: usize,
    jtag: usize,
    swim: usize,
    before: usize,
) -> STLinkUSBVersion {
    STLinkUSBVersion {
        stlink,
        jtag,
        swim,
        jtag_api: spec_api_level(stlink, jtag, before),
        flags: spec_features(stlink, jtag),
    }
}

/// The level of the command set of a probe of generation `stlink` with
/// JTAG revision `jtag`, where `before` is the level so far.
pub fn api_level(stlink: usize, jtag: usize, before: usize) -> (level: usize)
    ensures
        level == spec_api_level(stlink, jtag, before),
        stlink == 1 && jtag <= 10 ==> level == 1,
        stlink == 1 && jtag > 10 ==> level == 2,
        stlink == 2 ==> level == 2,
        stlink == 3 ==> level == 3,
{
    if stlink == 1 {
        if jtag <= 10 {
            1
        } else {
            2
        }
    } else if stlink == 2 {
        2
    } else if stlink == 3 {
        3
    } else {
        before
    }
}

/// The features of a probe of generation `stlink` with JTAG revision
/// `jtag`.
pub fn features(stlink: usize, jtag: usize) -> (flags: u32)
    ensures
        flags == spec_features(stlink, jtag),
{
    if stlink == 2 {
        (if jtag >= 13 {
            HAS_TRACE
        } else {
            0
        }) | (if jtag >= 15 {
            HAS_GETLASTRWSTATUS2
        } else {
            0
        }) | (if jtag >= 22 {
            HAS_SWD_SET_FREQ
        } else {
            0
        }) | (if jtag >= 24 {
            HAS_JTAG_SET_FREQ
        } else {
            0
        }) | (if jtag >= 26 {
            HAS_MEM_16BIT
        } else {
            0
        })
    } else if stlink == 3 {
        HAS_TRACE | HAS_GETLASTRWSTATUS2 | HAS_MEM_16BIT
    } else {
        0
    }
}

/// The generation in a version word: its top four bits.
pub open spec fn word_generation(word: u16) -> usize {
    ((word >> 12) & 0x0f) as usize
}

/// The JTAG revision in a version word: the six bits under the generation.
pub open spec fn word_jtag(word: u16) -> usize {
    ((word >> 6) & 0x3f) as usize
}

/// The SWIM revision in a version word: its low six bits.
pub open spec fn word_swim(word: u16) -> usize {
    (word & 0x3f) as usize
}

impl LinkView {
    /// The version word of a version reply: big-endian, at the start.
    pub open spec fn version_word(self) -> u16 {
        spec_read_u16(self.databuf, 0, false)
    }

    /// Whether a version reply calls for the extended query: generation 3
    /// with both revisions zero.
    pub open spec fn wants_extended(self) -> bool {
        word_generation(self.version_word()) == 3 && word_jtag(self.version_word()) == 0
            && word_swim(self.version_word()) == 0
    }

    /// The session with the version query and its first transfer.
    pub open spec fn version(self) -> (LinkView, StepView) {
        self.issued(Task::Version { extended: false }, 6, seq![GET_VERSION], 6, true)
    }

    /// The session after the version record was derived from a generation
    /// and two revisions; the largest packet follows the generation.
    pub open spec fn versioned(self, stlink: usize, jtag: usize, swim: usize) -> LinkView {
        LinkView {
            version: spec_version_record(stlink, jtag, swim, self.version.jtag_api),
            max_packet: spec_packet_of(stlink),
            ..self
        }
    }

    /// What the version handshake does once a round trip is over.
    ///
    /// The first reply holds the version word and, least significant byte
    /// first, the vendor identifier at 2 and the product identifier at 4.
    /// A probe of generation 3 that reports no revisions is asked again
    /// with the extended query, whose reply of twelve bytes holds the
    /// generation at 0, the SWIM revision at 1, the JTAG revision at 2, the
    /// vendor identifier at 8 and the product identifier at 10. The
    /// handshake ends with the two identifiers, which the caller may hold
    /// against those of the USB enumeration.
    pub open spec fn version_next(self, extended: bool, outcome: Result<usize, LinkError>) -> (
        LinkView,
        StepView,
    ) {
        match outcome {
            Err(e) => self.finished(Err(e)),
            Ok(_) => if extended {
                self.versioned(
                    self.databuf[0] as usize,
                    self.databuf[2] as usize,
                    self.databuf[1] as usize,
                ).finished(
                    Ok(
                        ReplyView::Identity {
                            vid: spec_read_u16(self.databuf, 8, true),
                            pid: spec_read_u16(self.databuf, 10, true),
                        },
                    ),
                )
            } else if self.wants_extended() {
                self.issued(Task::Version { extended: true }, 16, seq![GET_VERSION_EXT], 12, true)
            } else {
                self.versioned(
                    word_generation(self.version_word()),
                    word_jtag(self.version_word()),
                    word_swim(self.version_word()),
                ).finished(
                    Ok(
                        ReplyView::Identity {
                            vid: spec_read_u16(self.databuf, 2, true),
                            pid: spec_read_u16(self.databuf, 4, true),
                        },
                    ),
                )
            },
        }
    }
}

impl Link {
    /// Starts the version handshake, which ends with the version record of
    /// the session brought up to date.
    pub fn version(&mut self) -> (step: Step)
        requires
            old(self)@.wf(),
            old(self)@.idle(),
        ensures
            (final(self)@, step@) == old(self)@.version(),
            final(self)@.wf(),
    {
        let body = text1(GET_VERSION);
        self.issue(Task::Version { extended: false }, 6, &body, 6, true)
    }

    fn record(&mut self, stlink: usize, jtag: usize, swim: usize)
        ensures
            final(self)@ == old(self)@.versioned(stlink, jtag, swim),
    {
        self.version = STLinkUSBVersion {
            stlink,
            jtag,
            swim,
            jtag_api: api_level(stlink, jtag, self.version.jtag_api),
            flags: features(stlink, jtag),
        };
        self.max_packet = packet_of(stlink);
    }

    pub(crate) fn version_next(&mut self, extended: bool, outcome: Result<usize, LinkError>) -> (step:
        Step)
        requires
            old(self)@.shaped(),
            old(self)@.phase == super::Phase::Idle,
        ensures
            (final(self)@, step@) == old(self)@.version_next(extended, outcome),
            final(self)@.wf(),
    {
        match outcome {
            Err(e) => self.finish(Err(e)),
            Ok(_) => {
                if extended {
                    let stlink = self.databuf[0] as usize;
                    let jtag = self.databuf[2] as usize;
                    let swim = self.databuf[1] as usize;
                    let vid = buf_read_u16(&self.databuf, 8, true);
                    let pid = buf_read_u16(&self.databuf, 10, true);
                    self.record(stlink, jtag, swim);
                    self.finish(Ok(Reply::Identity { vid, pid }))
                } else {
                    let word = buf_read_u16(&self.databuf, 0, false);
                    let stlink = ((word >> 12) & 0x0f) as usize;
                    let jtag = ((word >> 6) & 0x3f) as usize;
                    let swim = (word & 0x3f) as usize;
                    if stlink == 3 && jtag == 0 && swim == 0 {
                        let body = text1(GET_VERSION_EXT);
                        self.issue(Task::Version { extended: true }, 16, &body, 12, true)
                    } else {
                        let vid = buf_read_u16(&self.databuf, 2, true);
                        let pid = buf_read_u16(&self.databuf, 4, true);
                        self.record(stlink, jtag, swim);
                        self.finish(Ok(Reply::Identity { vid, pid }))
                    }
                }
            },
        }
    }
}

} // verus!
