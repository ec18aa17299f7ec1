//! The resize controller: determines the terminal's dimensions and
//! republishes changes on a single-slot, latest-value broadcast.
//!
//! Detection is either an escape round trip — `tick` enters Probing and
//! hands back a size-query sequence for the caller to send through the
//! write multiplexer, and the response units arrive through the escape
//! subscription into `feed` — or a direct system query, whose result the
//! caller hands to `notify_resize`. A response is an introducer, a bracket,
//! a digit run ended by the separator, and a digit run ended by the
//! terminator; anything else observed while probing is discarded and
//! probing goes on awaiting the next introducer — noise is not a parse
//! failure, the next tick simply probes again. A dimension that would not
//! fit its field is treated as such noise.
//!
//! On a complete response the controller settles: a size equal to the last
//! published one publishes nothing (the steady state is idempotent); a new
//! size is stored in the slot and the slot's version advances. A size
//! subscriber polls the slot and immediately observes the most recently
//! published size, even if nothing changed since it subscribed.
use crate::text::digit_val;
use crate::text::is_ascii_digit_char;
use crate::text::is_esc;
use vstd::prelude::*;

verus! {

/// Where the controller stands. `Idle` has no probe in flight; the three
/// other states are the probing phases, named for what the parser awaits.
/// Settling is immediate: a complete response publishes and returns the
/// controller to `Idle`.
#[derive(Clone, Copy, Debug, PartialEq, Eq, Structural)]
pub enum ProbeState {
    Idle,
    AwaitIntroducer,
    AwaitBracket,
    ReadRows(u16),
    ReadCols(u16, u16),
}

/// One response unit while probing: the next probe state and, on the
/// terminator of a complete response, the parsed size as
/// `(width, height)` — columns first, rows second.
pub open spec fn probe_step(p: ProbeState, c: char) -> (ProbeState, Option<(u16, u16)>) {
    match p {
        ProbeState::Idle => (ProbeState::Idle, None::<(u16, u16)>),
        ProbeState::AwaitIntroducer => if is_esc(c) {
            (ProbeState::AwaitBracket, None::<(u16, u16)>)
        } else {
            (ProbeState::AwaitIntroducer, None::<(u16, u16)>)
        },
        ProbeState::AwaitBracket => if c == '[' {
            (ProbeState::ReadRows(0u16), None::<(u16, u16)>)
        } else {
            (ProbeState::AwaitIntroducer, None::<(u16, u16)>)
        },
        ProbeState::ReadRows(acc) => if is_ascii_digit_char(c) {
            if acc * 10 + digit_val(c) <= u16::MAX {
                (ProbeState::ReadRows((acc * 10 + digit_val(c)) as u16), None::<(u16, u16)>)
            } else {
                (ProbeState::AwaitIntroducer, None::<(u16, u16)>)
            }
        } else if c == ';' {
            (ProbeState::ReadCols(acc, 0u16), None::<(u16, u16)>)
        } else {
            (ProbeState::AwaitIntroducer, None::<(u16, u16)>)
        },
        ProbeState::ReadCols(rows, acc) => if is_ascii_digit_char(c) {
            if acc * 10 + digit_val(c) <= u16::MAX {
                (ProbeState::ReadCols(rows, (acc * 10 + digit_val(c)) as u16), None::<(u16, u16)>)
            } else {
                (ProbeState::AwaitIntroducer, None::<(u16, u16)>)
            }
        } else if c == 'R' {
            (ProbeState::Idle, Some((acc, rows)))
        } else {
            (ProbeState::AwaitIntroducer, None::<(u16, u16)>)
        },
    }
}

/// The size-query escape sequence a tick sends: introducer, bracket, `6`,
/// `n` — the cursor-position-report request of the escape convention.
pub open spec fn size_query_bytes() -> Seq<u8> {
    seq![27u8, 91u8, 54u8, 110u8]
}

/// The resize controller: probe state and the single-slot size broadcast.
pub struct ResizeController {
    /// Where the probe stands.
    pub probe: ProbeState,
    /// The slot: the most recently published `(width, height)`.
    pub size: (u16, u16),
    /// Advances once per publication; subscribers compare against it.
    pub version: u64,
}

/// A receive handle on the size broadcast: the slot version it has
/// observed. A fresh subscriber trails the slot by one, so its first poll
/// yields the current size immediately.
pub struct SizeSubscriber {
    pub seen: u64,
}

impl ResizeController {
    /// The slot has published at least its initial value.
    pub open spec fn wf(&self) -> bool {
        self.version >= 1
    }

    /// A fresh controller: idle, with the placeholder size published.
    pub fn new() -> (ctl: ResizeController)
        ensures
            ctl.wf(),
            ctl.probe == ProbeState::Idle,
            ctl.size == (0u16, 0u16),
            ctl.version == 1,
    {
        ResizeController { probe: ProbeState::Idle, size: (0, 0), version: 1 }
    }

    /// Whether a probe is in flight.
    pub open spec fn is_probing(&self) -> bool {
        !(self.probe is Idle)
    }

    /// Starts — or, when a response never came, restarts — a probe: the
    /// controller enters Probing and hands back the size-query sequence for
    /// the caller to send through the write multiplexer.
    pub fn tick(&mut self) -> (req: Vec<u8>)
        ensures
            final(self).probe == ProbeState::AwaitIntroducer,
            final(self).size == old(self).size,
            final(self).version == old(self).version,
            req@ == size_query_bytes(),
    {
        self.probe = ProbeState::AwaitIntroducer;
        let mut req: Vec<u8> = Vec::new();
        req.push(27);
        req.push(91);
        req.push(54);
        req.push(110);
        proof {
            assert(req@ =~= size_query_bytes());
        }
        req
    }

    /// Publishes `size` if it differs from the slot; the steady state is
    /// idempotent. Internal settling step shared by both detection paths.
    fn publish_if_changed(&mut self, size: (u16, u16))
        requires
            old(self).wf(),
            old(self).version < u64::MAX,
        ensures
            final(self).wf(),
            final(self).probe == old(self).probe,
            size == old(self).size ==> final(self).size == old(self).size && final(self).version
                == old(self).version,
            size != old(self).size ==> final(self).size == size && final(self).version == old(self).version + 1,
    {
        if size.0 != self.size.0 || size.1 != self.size.1 {
            self.size = size;
            self.version = self.version + 1;
        }
    }

    /// Feeds one unit from the escape subscription to the probe parser.
    /// A unit that completes a response settles the controller: it returns
    /// to Idle, and the parsed size is published only if it changed.
    pub fn feed(&mut self, c: char)
        requires
            old(self).wf(),
            old(self).version < u64::MAX,
        ensures
            final(self).wf(),
            final(self).probe == probe_step(old(self).probe, c).0,
            probe_step(old(self).probe, c).1 is None ==> final(self).size == old(self).size
                && final(self).version == old(self).version,
            probe_step(old(self).probe, c).1 matches Some(sz) ==> (sz == old(self).size ==> final(self).size == old(self).size && final(self).version == old(self).version) && (sz != old(self).size ==> final(self).size == sz && final(self).version == old(self).version + 1),
    {
        match self.probe {
            ProbeState::Idle => {},
            ProbeState::AwaitIntroducer => {
                if c as u32 == 27 {
                    self.probe = ProbeState::AwaitBracket;
                }
            },
            ProbeState::AwaitBracket => {
                if c == '[' {
                    self.probe = ProbeState::ReadRows(0);
                } else {
                    self.probe = ProbeState::AwaitIntroducer;
                }
            },
            ProbeState::ReadRows(acc) => {
                if 48 <= c as u32 && c as u32 <= 57 {
                    let d = (c as u32) - 48;
                    let next = acc as u32 * 10 + d;
                    if next <= u16::MAX as u32 {
                        self.probe = ProbeState::ReadRows(next as u16);
                    } else {
                        self.probe = ProbeState::AwaitIntroducer;
                    }
                } else if c == ';' {
                    self.probe = ProbeState::ReadCols(acc, 0);
                } else {
                    self.probe = ProbeState::AwaitIntroducer;
                }
            },
            ProbeState::ReadCols(rows, acc) => {
                if 48 <= c as u32 && c as u32 <= 57 {
                    let d = (c as u32) - 48;
                    let next = acc as u32 * 10 + d;
                    if next <= u16::MAX as u32 {
                        self.probe = ProbeState::ReadCols(rows, next as u16);
                    } else {
                        self.probe = ProbeState::AwaitIntroducer;
                    }
                } else if c == 'R' {
                    self.probe = ProbeState::Idle;
                    self.publish_if_changed((acc, rows));
                } else {
                    self.probe = ProbeState::AwaitIntroducer;
                }
            },
        }
    }

    /// The direct detection path: the caller queried the system for the
    /// size and hands it in. Settles immediately — back to Idle, publishing
    /// only a changed size.
    pub fn notify_resize(&mut self, size: (u16, u16))
        requires
            old(self).wf(),
            old(self).version < u64::MAX,
        ensures
            final(self).wf(),
            final(self).probe == ProbeState::Idle,
            size == old(self).size ==> final(self).size == old(self).size && final(self).version
                == old(self).version,
            size != old(self).size ==> final(self).size == size && final(self).version == old(self).version + 1,
    {
        self.probe = ProbeState::Idle;
        self.publish_if_changed(size);
    }

    /// A new, independent subscriber to the size broadcast. It immediately
    /// observes the most recently published size: its first poll yields the
    /// slot even if no resize happened since subscribing.
    pub fn subscribe(&self) -> (s: SizeSubscriber)
        requires
            self.wf(),
        ensures
            s.seen == self.version - 1,
            s.seen < self.version,
    {
        SizeSubscriber { seen: self.version - 1 }
    }

    /// Hands the subscriber the slot's size if it has not observed the
    /// current version yet; refused until the next publication otherwise.
    pub fn poll(&self, s: &mut SizeSubscriber) -> (r: Option<(u16, u16)>)
        requires
            old(s).seen <= self.version,
        ensures
            final(s).seen <= self.version,
            r is Some <==> old(s).seen < self.version,
            r is Some ==> r == Some(self.size) && final(s).seen == self.version,
            r is None ==> *final(s) == *old(s),
    {
        if s.seen < self.version {
            s.seen = self.version;
            Some(self.size)
        } else {
            None
        }
    }
}

} // verus!
