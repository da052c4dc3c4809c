//! Decode counters, the negotiated picture shape, and the packed driver version.

use vstd::prelude::*;

verus! {

/// 4:2:0 chroma, as `chroma_format_idc`.
pub const CHROMA_IDC_420: u8 = 1;

/// 4:4:4 chroma, as `chroma_format_idc`.
pub const CHROMA_IDC_444: u8 = 3;

/// `a + b`, capped at `cap`.
pub open spec fn capped(a: int, b: int, cap: int) -> int {
    if a + b > cap {
        cap
    } else {
        a + b
    }
}

/// Session-cumulative decode integrity. Only a native rung fills one.
/// Counters are monotonic; the stats window diffs them.
#[derive(Debug, Clone, Copy, PartialEq, Eq, Structural)]
pub struct DecodeHealth {
    /// Access units whose plan needed concealment. Output was released unshown.
    pub damaged: u64,
    /// Frames the driver reported corrupt. Stays 0 where `status_queries` is false.
    pub failed: u64,
    /// Access units the decoder refused. No picture.
    pub refused: u64,
    /// Consecutive access units with no showable picture; 0 on the next clean one.
    pub run: u32,
    /// Longest `run` of the session.
    pub worst_run: u32,
    /// Correctly decoded frames discarded because the deliverable queue overflowed.
    pub dropped: u64,
    /// Whether the device answers per-operation decode-status queries.
    pub status_queries: bool,
}

impl Default for DecodeHealth {
    fn default() -> (h: DecodeHealth)
        ensures
            h == (DecodeHealth {
                damaged: 0,
                failed: 0,
                refused: 0,
                run: 0,
                worst_run: 0,
                dropped: 0,
                status_queries: false,
            }),
    {
        DecodeHealth {
            damaged: 0,
            failed: 0,
            refused: 0,
            run: 0,
            worst_run: 0,
            dropped: 0,
            status_queries: false,
        }
    }
}

impl DecodeHealth {
    /// The longest run is never behind the current one, and a device that cannot be asked
    /// reports no hardware failures.
    pub open spec fn wf(self) -> bool {
        &&& self.run <= self.worst_run
        &&& !self.status_queries ==> self.failed == 0
    }

    /// The counters after one access unit's verdict.
    pub open spec fn noted(self, damaged: bool, refused: bool, failed: u32) -> DecodeHealth {
        let run = if damaged || refused || failed > 0 {
            capped(self.run as int, 1, u32::MAX as int) as u32
        } else {
            0u32
        };
        DecodeHealth {
            failed: if self.status_queries {
                capped(self.failed as int, failed as int, u64::MAX as int) as u64
            } else {
                self.failed
            },
            damaged: if damaged {
                capped(self.damaged as int, 1, u64::MAX as int) as u64
            } else {
                self.damaged
            },
            refused: if refused {
                capped(self.refused as int, 1, u64::MAX as int) as u64
            } else {
                self.refused
            },
            run,
            worst_run: if run > self.worst_run {
                run
            } else {
                self.worst_run
            },
            ..self
        }
    }

    /// Fold one access unit's verdict. Damaged, refused and driver-failed all extend the run;
    /// a failure only counts where the device can be asked about it.
    pub fn note(&mut self, damaged: bool, refused: bool, failed: u32)
        ensures
            *final(self) == old(self).noted(damaged, refused, failed),
            damaged || refused || failed > 0 ==> final(self).run == (if old(self).run < u32::MAX {
                old(self).run + 1
            } else {
                old(self).run as int
            }),
            !damaged && !refused && failed == 0 ==> final(self).run == 0,
            final(self).worst_run >= old(self).worst_run && final(self).worst_run >= final(self).run,
            final(self).worst_run == old(self).worst_run || final(self).worst_run == final(self).run,
            damaged && old(self).damaged < u64::MAX ==> final(self).damaged == old(self).damaged + 1,
            !damaged || old(self).damaged == u64::MAX ==> final(self).damaged == old(self).damaged,
            refused && old(self).refused < u64::MAX ==> final(self).refused == old(self).refused + 1,
            !refused || old(self).refused == u64::MAX ==> final(self).refused == old(self).refused,
            old(self).status_queries && old(self).failed + failed <= u64::MAX ==> final(self).failed
                == old(self).failed + failed,
            !old(self).status_queries ==> final(self).failed == old(self).failed,
            final(self).dropped == old(self).dropped && final(self).status_queries == old(
                self,
            ).status_queries,
            old(self).wf() ==> final(self).wf(),
    {
        if self.status_queries {
            self.failed = self.failed.saturating_add(failed as u64);
        }
        if damaged {
            self.damaged = self.damaged.saturating_add(1);
        }
        if refused {
            self.refused = self.refused.saturating_add(1);
        }
        if damaged || refused || failed > 0 {
            self.run = self.run.saturating_add(1);
            if self.run > self.worst_run {
                self.worst_run = self.run;
            }
        } else {
            self.run = 0;
        }
    }

    /// One correctly decoded frame discarded unshown. Never touches the run.
    pub fn note_dropped(&mut self)
        ensures
            *final(self) == (DecodeHealth {
                dropped: capped(old(self).dropped as int, 1, u64::MAX as int) as u64,
                ..*old(self)
            }),
            old(self).dropped < u64::MAX ==> final(self).dropped == old(self).dropped + 1,
            final(self).run == old(self).run,
    {
        self.dropped = self.dropped.saturating_add(1);
    }
}

/// No verdict makes a counter go back, and the longest run keeps covering the current one:
/// the stats window may diff any two samples of a session.
pub proof fn counters_are_monotonic(h: DecodeHealth, damaged: bool, refused: bool, failed: u32)
    requires
        h.wf(),
    ensures
        ({
            let n = h.noted(damaged, refused, failed);
            &&& n.wf()
            &&& n.damaged >= h.damaged
            &&& n.refused >= h.refused
            &&& n.failed >= h.failed
            &&& n.worst_run >= h.worst_run
            &&& n.worst_run >= n.run
            &&& n.dropped == h.dropped
            &&& n.status_queries == h.status_queries
        }),
{
}

/// A clean access unit ends the run and counts nothing.
pub proof fn a_clean_unit_ends_the_run(h: DecodeHealth)
    requires
        h.wf(),
    ensures
        h.noted(false, false, 0) == (DecodeHealth { run: 0, ..h }),
{
}

/// Picture shape the host resolved before any access unit arrives. The in-band parameter
/// sets stay authoritative.
#[derive(Debug, Clone, Copy, PartialEq, Eq, Structural)]
pub struct StreamFormat {
    /// `CHROMA_IDC_420` or `CHROMA_IDC_444`. A host that omits it reads as 4:2:0, never 0.
    pub chroma_format_idc: u8,
    /// Bits per component: 8, or 10 for Main10/HDR. A host that omits it reads 8.
    pub bit_depth: u8,
}

impl StreamFormat {
    /// 8-bit 4:2:0: every H.264 session, and what an omitted shape decodes to.
    pub fn sdr_420_8() -> (r: StreamFormat)
        ensures
            r == (StreamFormat { chroma_format_idc: CHROMA_IDC_420, bit_depth: 8 }),
    {
        StreamFormat { chroma_format_idc: CHROMA_IDC_420, bit_depth: 8 }
    }

    /// `bit_depth` as H.265 `bit_depth_luma_minus8`. `None` outside 8/10 is a refusal, not a
    /// skipped probe.
    pub fn bit_depth_minus8(self) -> (r: Option<u8>)
        ensures
            r == (if self.bit_depth == 8 {
                Some(0u8)
            } else if self.bit_depth == 10 {
                Some(2u8)
            } else {
                None
            }),
    {
        match self.bit_depth {
            8 => Some(0),
            10 => Some(2),
            _ => None,
        }
    }
}

/// A 64-bit value's unsigned reading.
pub open spec fn unsigned_of(raw: i64) -> int {
    if raw >= 0 {
        raw as int
    } else {
        raw + 0x1_0000_0000_0000_0000
    }
}

/// DXGI's packed user-mode driver version as the four Device Manager fields:
/// `32.0.21025.10016` is `[32, 0, 21025, 10016]`.
pub fn umd_version_parts(raw: i64) -> (parts: [u16; 4])
    ensures
        parts@[0] * 0x1_0000_0000_0000 + parts@[1] * 0x1_0000_0000 + parts@[2] * 0x1_0000
            + parts@[3] == unsigned_of(raw),
        raw >= 0 ==> parts@[0] * 0x1_0000_0000_0000 + parts@[1] * 0x1_0000_0000 + parts@[2] * 0x1_0000
            + parts@[3] == raw,
        raw < 0 ==> parts@[0] * 0x1_0000_0000_0000 + parts@[1] * 0x1_0000_0000 + parts@[2] * 0x1_0000
            + parts@[3] == raw + 0x1_0000_0000_0000_0000,
{
    let v: u64 = raw as u64;
    let a: u16 = (v >> 48) as u16;
    let b: u16 = (v >> 32) as u16;
    let c: u16 = (v >> 16) as u16;
    let d: u16 = v as u16;
    assert(raw >= 0 ==> raw as u64 == raw) by (bit_vector);
    assert(raw < 0 ==> raw as u64 == raw + 0x1_0000_0000_0000_0000) by (bit_vector);
    assert(((v >> 48) as u16) * 0x1_0000_0000_0000 + ((v >> 32) as u16) * 0x1_0000_0000 + ((v
        >> 16) as u16) * 0x1_0000 + (v as u16) == v) by (bit_vector);
    [a, b, c, d]
}

} // verus!
