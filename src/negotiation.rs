use vstd::prelude::*;

use crate::error::BridgeError;
use crate::lifecycle::LogLevel;
use crate::graph::{consumer_linked, index_of, link_allowed, link_between, PipelineGraph};

verus! {

/// The negotiated format of a newly exposed source output: its media type and
/// its "media" attribute, when present.
#[derive(Debug)]
pub struct FormatDescriptor {
    pub media_type: String,
    pub media: Option<String>,
}

/// Whether the format is an RTP video stream (exact, case-sensitive match).
pub open spec fn accepts_format(f: FormatDescriptor) -> bool {
    f.media_type@ == "application/x-rtp"@ && (f.media matches Some(m) && m@ == "video"@)
}

/// What to do with a newly exposed source output.
#[derive(Debug, Clone, Copy, PartialEq, Eq, Structural)]
pub enum PadDecision {
    /// The consumer is fed already: do nothing.
    AlreadyLinked,
    /// The format is not wanted: do nothing, silently.
    Ignore,
    /// Try to link the new output to the consumer.
    Link,
}

/// The decision for a new source output, given whether the consumer is
/// already fed and the output's format.
pub open spec fn pad_decision(consumer_is_linked: bool, f: FormatDescriptor) -> PadDecision {
    if consumer_is_linked {
        PadDecision::AlreadyLinked
    } else if accepts_format(f) {
        PadDecision::Link
    } else {
        PadDecision::Ignore
    }
}

impl FormatDescriptor {
    /// Whether this is an RTP video stream.
    pub fn is_rtp_video(&self) -> (r: bool)
        ensures
            r == accepts_format(*self),
    {
        let rtp = "application/x-rtp".to_owned();
        if self.media_type != rtp {
            return false;
        }
        match &self.media {
            Some(m) => *m == "video".to_owned(),
            None => false,
        }
    }
}

/// Decides what to do when the source exposes a new output.
pub fn decide(consumer_is_linked: bool, format: &FormatDescriptor) -> (r: PadDecision)
    ensures
        r == pad_decision(consumer_is_linked, *format),
{
    if consumer_is_linked {
        PadDecision::AlreadyLinked
    } else if format.is_rtp_video() {
        PadDecision::Link
    } else {
        PadDecision::Ignore
    }
}

/// How a new source output was handled. A failed link is reported, not fatal.
#[derive(Debug, PartialEq, Eq)]
pub enum PadOutcome {
    AlreadyLinked,
    Ignored,
    Linked,
    LinkFailed(BridgeError),
}

impl PadOutcome {
    /// The level at which the outcome is logged: a failed link is an error,
    /// an ignored format is not logged at all.
    pub fn log_level(&self) -> (r: Option<LogLevel>)
        ensures
            r == (match *self {
                PadOutcome::AlreadyLinked => Some(LogLevel::Info),
                PadOutcome::Ignored => None,
                PadOutcome::Linked => Some(LogLevel::Info),
                PadOutcome::LinkFailed(_) => Some(LogLevel::Error),
            }),
    {
        match self {
            PadOutcome::AlreadyLinked => Some(LogLevel::Info),
            PadOutcome::Ignored => None,
            PadOutcome::Linked => Some(LogLevel::Info),
            PadOutcome::LinkFailed(_) => Some(LogLevel::Error),
        }
    }
}

/// The relation between a graph before and after a new output of the stage
/// named `source` is handled against the stage named `consumer`, and the outcome.
pub open spec fn pad_added_post(
    before: PipelineGraph,
    source: Seq<char>,
    consumer: Seq<char>,
    f: FormatDescriptor,
    after: PipelineGraph,
    r: PadOutcome,
) -> bool {
    let ci = index_of(before.stages@, consumer);
    let fed = ci >= 0 && consumer_linked(before.links@, ci);
    &&& after.wf()
    &&& match pad_decision(fed, f) {
        PadDecision::AlreadyLinked => r == PadOutcome::AlreadyLinked && after == before,
        PadDecision::Ignore => r == PadOutcome::Ignored && after == before,
        PadDecision::Link => if link_allowed(before.stages@, before.links@, source, consumer) {
            &&& r == PadOutcome::Linked
            &&& after.links@ == before.links@.push(link_between(before.stages@, source, consumer))
            &&& after.links@.last().consumer as int == index_of(before.stages@, consumer)
            &&& after.stages == before.stages
            &&& after.state == before.state
            &&& after.name == before.name
        } else {
            r is LinkFailed && after == before
        },
    }
}

/// Handles a new output of the stage named `source`: links it to the stage
/// named `consumer` when that one is still free and the format is RTP video.
pub fn handle_pad_added(
    graph: &mut PipelineGraph,
    source: &str,
    consumer: &str,
    format: &FormatDescriptor,
) -> (r: PadOutcome)
    requires
        old(graph).wf(),
    ensures
        pad_added_post(*old(graph), source@, consumer@, *format, *final(graph), r),
{
    let fed = match graph.find(consumer) {
        Some(ci) => graph.is_consumer_linked(ci),
        None => false,
    };
    match decide(fed, format) {
        PadDecision::AlreadyLinked => PadOutcome::AlreadyLinked,
        PadDecision::Ignore => PadOutcome::Ignored,
        PadDecision::Link => match graph.link(source, consumer) {
            Ok(()) => PadOutcome::Linked,
            Err(e) => PadOutcome::LinkFailed(e),
        },
    }
}

/// Handling two RTP video outputs in turn leaves exactly one link feeding the
/// consumer, and the second call changes nothing and reports it is linked already.
pub proof fn lemma_pad_added_twice(
    g0: PipelineGraph,
    g1: PipelineGraph,
    g2: PipelineGraph,
    source: Seq<char>,
    consumer: Seq<char>,
    f1: FormatDescriptor,
    f2: FormatDescriptor,
    r1: PadOutcome,
    r2: PadOutcome,
)
    requires
        g0.wf(),
        accepts_format(f1),
        accepts_format(f2),
        link_allowed(g0.stages@, g0.links@, source, consumer) || (index_of(g0.stages@, consumer) >= 0
            && consumer_linked(g0.links@, index_of(g0.stages@, consumer))),
        pad_added_post(g0, source, consumer, f1, g1, r1),
        pad_added_post(g1, source, consumer, f2, g2, r2),
    ensures
        r2 == PadOutcome::AlreadyLinked,
        g2 == g1,
        ({
            let ci = index_of(g2.stages@, consumer);
            exists|i: int|
                0 <= i < g2.links@.len() && g2.links@[i].consumer == ci && forall|j: int|
                    0 <= j < g2.links@.len() && #[trigger] g2.links@[j].consumer == ci ==> j == i
        }),
{
    let ci = index_of(g0.stages@, consumer);
    assert(g1.stages == g0.stages);
    let w: int = if consumer_linked(g0.links@, ci) {
        choose|i: int| 0 <= i < g0.links@.len() && #[trigger] g0.links@[i].consumer == ci
    } else {
        g0.links@.len() as int
    };
    assert(g1.links@[w].consumer == ci);
    assert(consumer_linked(g1.links@, ci));
    assert forall|j: int| 0 <= j < g2.links@.len() && #[trigger] g2.links@[j].consumer == ci implies j == w by {
        if j != w {
            assert(g1.links@[j].consumer != g1.links@[w].consumer);
        }
    }
}

} // verus!
