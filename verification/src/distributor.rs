//! The input distributor: owns the raw terminal input and republishes each
//! decoded unit on exactly one broadcast topic — escape-sequence units on
//! the escape topic, plain text units on the text topic.
//!
//! A topic keeps the full publication log; a subscription is a cursor into
//! that log, created at its current end, so a late subscriber only observes
//! units published after it subscribed (no replay), and a slow subscriber
//! never blocks publication or other subscribers. Publishing with no
//! subscriber is fine: the unit simply goes unobserved.
//!
//! Classification is a small scanner: an escape introducer opens a run that
//! goes to the escape topic; a bracket after the introducer extends the run
//! to the next final byte (the control-sequence convention); any other unit
//! is plain text. The byte-reading half of the loop lives outside this
//! crate and hands each chunk to `dispatch_bytes`; a chunk that is not
//! valid text is reported to that caller and changes nothing, and the next
//! chunk proceeds normally.
use crate::text::decode_text;
use crate::text::is_csi_final;
use crate::text::is_esc;
use vstd::prelude::*;
use vstd::string::StrSliceExecFns;
use vstd::utf8::decode_utf8;
use vstd::utf8::valid_utf8;

verus! {

/// A chunk of input that was not valid text; the distributor's state is
/// unchanged by it.
#[derive(Clone, Copy, Debug, PartialEq, Eq, Structural)]
pub struct DecodeError {}

/// A broadcast topic: every unit ever published on it, in order.
pub struct Topic {
    pub log: Vec<char>,
}

/// Which topic a subscription observes.
#[derive(Clone, Copy, Debug, PartialEq, Eq, Structural)]
pub enum TopicKind {
    Text,
    Escape,
}

/// An independent receive handle on one topic: a cursor into the topic's
/// log, starting at the publication count at subscription time. `seen`
/// records what the handle has observed.
pub struct Subscription {
    pub kind: TopicKind,
    pub start: usize,
    pub cursor: usize,
    pub seen: Ghost<Seq<char>>,
}

/// Where the scanner stands between units.
#[derive(Clone, Copy, Debug, PartialEq, Eq, Structural)]
pub enum ScanMode {
    /// Plain text.
    Plain,
    /// Just saw the escape introducer.
    Esc,
    /// Inside a bracketed control sequence, until its final byte.
    Csi,
}

/// One classification step: the scanner mode after `c`, and the topic `c`
/// is published to. An introducer opens an escape run; after it, a bracket
/// extends the run until a final byte, any other unit closes a two-unit
/// escape; everything else is text.
pub open spec fn dispatch_step(m: ScanMode, c: char) -> (ScanMode, TopicKind) {
    match m {
        ScanMode::Plain => if is_esc(c) {
            (ScanMode::Esc, TopicKind::Escape)
        } else {
            (ScanMode::Plain, TopicKind::Text)
        },
        ScanMode::Esc => if c == '[' {
            (ScanMode::Csi, TopicKind::Escape)
        } else {
            (ScanMode::Plain, TopicKind::Escape)
        },
        ScanMode::Csi => if is_csi_final(c) {
            (ScanMode::Plain, TopicKind::Escape)
        } else {
            (ScanMode::Csi, TopicKind::Escape)
        },
    }
}

/// The distributor state a dispatch acts on: scanner mode, text log,
/// escape log.
pub open spec fn dispatch_run(
    m: ScanMode,
    text: Seq<char>,
    escape: Seq<char>,
    units: Seq<char>,
) -> (ScanMode, Seq<char>, Seq<char>)
    decreases units.len(),
{
    if units.len() == 0 {
        (m, text, escape)
    } else {
        let prior = dispatch_run(m, text, escape, units.drop_last());
        let step = dispatch_step(prior.0, units.last());
        if step.1 == TopicKind::Text {
            (step.0, prior.1.push(units.last()), prior.2)
        } else {
            (step.0, prior.1, prior.2.push(units.last()))
        }
    }
}

/// Every decoded unit is published to exactly one topic exactly once:
/// dispatching `units` grows the two logs by exactly `units.len()` in
/// total, and only ever by appending.
pub proof fn lemma_each_unit_published_once(
    m: ScanMode,
    text: Seq<char>,
    escape: Seq<char>,
    units: Seq<char>,
)
    ensures
        dispatch_run(m, text, escape, units).1.len() + dispatch_run(m, text, escape, units).2.len()
            == text.len() + escape.len() + units.len(),
    decreases units.len(),
{
    if units.len() > 0 {
        lemma_each_unit_published_once(m, text, escape, units.drop_last());
    }
}

/// The distributor: one scanner and the two broadcast topics.
pub struct InputDistributor {
    pub mode: ScanMode,
    pub text: Topic,
    pub escape: Topic,
}

impl InputDistributor {
    /// The log of one topic.
    pub open spec fn topic_log(&self, kind: TopicKind) -> Seq<char> {
        match kind {
            TopicKind::Text => self.text.log@,
            TopicKind::Escape => self.escape.log@,
        }
    }

    /// A subscription is a well-placed cursor: it has observed exactly the
    /// units its topic published between its creation and its cursor.
    pub open spec fn sub_wf(&self, s: Subscription) -> bool {
        &&& s.start <= s.cursor <= self.topic_log(s.kind).len()
        &&& s.seen@ == self.topic_log(s.kind).subrange(s.start as int, s.cursor as int)
    }

    /// A fresh distributor: plain-text mode, nothing published.
    pub fn new() -> (d: InputDistributor)
        ensures
            d.mode == ScanMode::Plain,
            d.text.log@ == Seq::<char>::empty(),
            d.escape.log@ == Seq::<char>::empty(),
    {
        InputDistributor {
            mode: ScanMode::Plain,
            text: Topic { log: Vec::new() },
            escape: Topic { log: Vec::new() },
        }
    }

    /// Publishes one decoded unit to the topic the scanner assigns it.
    pub fn dispatch_unit(&mut self, c: char)
        ensures
            final(self).mode == dispatch_step(old(self).mode, c).0,
            dispatch_step(old(self).mode, c).1 == TopicKind::Text ==> final(self).text.log@ == old(self).text.log@.push(c) && final(self).escape.log@ == old(self).escape.log@,
            dispatch_step(old(self).mode, c).1 == TopicKind::Escape ==> final(self).escape.log@
                == old(self).escape.log@.push(c) && final(self).text.log@ == old(self).text.log@,
    {
        match self.mode {
            ScanMode::Plain => {
                if c as u32 == 27 {
                    self.mode = ScanMode::Esc;
                    self.escape.log.push(c);
                } else {
                    self.text.log.push(c);
                }
            },
            ScanMode::Esc => {
                if c == '[' {
                    self.mode = ScanMode::Csi;
                } else {
                    self.mode = ScanMode::Plain;
                }
                self.escape.log.push(c);
            },
            ScanMode::Csi => {
                if 0x40 <= c as u32 && c as u32 <= 0x7E {
                    self.mode = ScanMode::Plain;
                }
                self.escape.log.push(c);
            },
        }
    }

    /// Decodes one chunk read from the input source and publishes each of
    /// its units in order. A chunk that is not valid text is reported and
    /// changes nothing.
    pub fn dispatch_bytes(&mut self, bytes: &[u8]) -> (r: Result<(), DecodeError>)
        ensures
            r is Ok <==> valid_utf8(bytes@),
            !valid_utf8(bytes@) ==> *final(self) == *old(self),
            valid_utf8(bytes@) ==> ({
                let run = dispatch_run(
                    old(self).mode,
                    old(self).text.log@,
                    old(self).escape.log@,
                    decode_utf8(bytes@),
                );
                final(self).mode == run.0 && final(self).text.log@ == run.1 && final(self).escape.log@ == run.2
            }),
    {
        let s = match decode_text(bytes) {
            Some(s) => s,
            None => {
                return Err(DecodeError {});
            },
        };
        let ghost m0 = self.mode;
        let ghost t0 = self.text.log@;
        let ghost e0 = self.escape.log@;
        let n = s.as_str().unicode_len();
        let mut i: usize = 0;
        while i < n
            invariant
                n as nat == s@.len(),
                i <= n,
                s@ == decode_utf8(bytes@),
                ({
                    let run = dispatch_run(m0, t0, e0, s@.take(i as int));
                    self.mode == run.0 && self.text.log@ == run.1 && self.escape.log@ == run.2
                }),
            decreases n - i,
        {
            let c = s.as_str().get_char(i);
            self.dispatch_unit(c);
            proof {
                assert(s@.take(i + 1).drop_last() =~= s@.take(i as int));
            }
            i = i + 1;
        }
        proof {
            assert(s@.take(n as int) =~= s@);
        }
        Ok(())
    }

    /// A new, independent subscription to the text topic; it observes every
    /// unit published there from now on, and nothing earlier.
    pub fn subscribe(&self) -> (s: Subscription)
        ensures
            s.kind == TopicKind::Text,
            s.start == self.text.log@.len(),
            s.cursor == s.start,
            self.sub_wf(s),
    {
        let start = self.text.log.len();
        let s = Subscription { kind: TopicKind::Text, start, cursor: start, seen: Ghost(Seq::empty()) };
        proof {
            assert(s.seen@ =~= self.topic_log(s.kind).subrange(s.start as int, s.cursor as int));
        }
        s
    }

    /// A new, independent subscription to the escape topic; it observes
    /// every unit published there from now on, and nothing earlier.
    pub fn sub_escape(&self) -> (s: Subscription)
        ensures
            s.kind == TopicKind::Escape,
            s.start == self.escape.log@.len(),
            s.cursor == s.start,
            self.sub_wf(s),
    {
        let start = self.escape.log.len();
        let s = Subscription {
            kind: TopicKind::Escape,
            start,
            cursor: start,
            seen: Ghost(Seq::empty()),
        };
        proof {
            assert(s.seen@ =~= self.topic_log(s.kind).subrange(s.start as int, s.cursor as int));
        }
        s
    }

    /// Hands the subscription the next unit it has not observed, oldest
    /// first; refused once it has seen everything published so far, and the
    /// runtime retries after the next dispatch.
    pub fn recv(&self, s: &mut Subscription) -> (r: Option<char>)
        requires
            self.sub_wf(*old(s)),
        ensures
            self.sub_wf(*final(s)),
            final(s).kind == old(s).kind,
            final(s).start == old(s).start,
            r is Some <==> old(s).cursor < self.topic_log(old(s).kind).len(),
            r matches Some(c) ==> c == self.topic_log(old(s).kind)[old(s).cursor as int] && final(s).cursor == old(s).cursor + 1 && final(s).seen@ == old(s).seen@.push(c),
            r is None ==> *final(s) == *old(s),
    {
        let log = match s.kind {
            TopicKind::Text => &self.text.log,
            TopicKind::Escape => &self.escape.log,
        };
        if s.cursor < log.len() {
            let c = log[s.cursor];
            proof {
                s.seen@ = s.seen@.push(c);
            }
            s.cursor = s.cursor + 1;
            proof {
                assert(s.seen@ =~= self.topic_log(s.kind).subrange(
                    s.start as int,
                    s.cursor as int,
                ));
            }
            Some(c)
        } else {
            None
        }
    }
}

/// No replay: everything a subscription has observed is exactly what its
/// topic published after the subscription was created, in publication
/// order — a unit published before subscription is never seen.
pub proof fn lemma_subscription_never_replays(d: &InputDistributor, s: Subscription)
    requires
        d.sub_wf(s),
    ensures
        s.seen@ == d.topic_log(s.kind).subrange(s.start as int, s.cursor as int),
        s.seen@.len() == s.cursor - s.start,
{
}

} // verus!
