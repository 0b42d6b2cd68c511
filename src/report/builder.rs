//! Diagnostics are built in three stages, each a type of its own that offers only
//! the calls legal at that point: first the key, severity and confidence, then
//! the message and optional info, then one or more pointers. A report without a
//! message or without a pointer cannot be written down.
use vstd::prelude::*;

use crate::report::{opt_view, Confidence, ErrorKey, LogReport, PointedMessage, ReportView, Sink, Severity};
use crate::token::Loc;

verus! {

/// A report that has its key and severity, and confidence Reasonable.
pub open spec fn start(key: ErrorKey, severity: Severity) -> ReportView {
    ReportView {
        key,
        severity,
        confidence: Confidence::Reasonable,
        msg: Seq::empty(),
        info: None,
        pointers: Seq::empty(),
    }
}

/// `v` with the given confidence.
pub open spec fn with_confidence(v: ReportView, confidence: Confidence) -> ReportView {
    ReportView { confidence, ..v }
}

/// Whether `p` points at `loc` with length 1 and the note `msg`.
pub open spec fn pointer_is(p: PointedMessage, loc: Loc, msg: Option<Seq<char>>) -> bool {
    p.location == loc && p.length == 1 && opt_view(p.msg) == msg
}

/// `after` is `before` with its pointers extended by `extra`.
pub open spec fn with_pointers(before: ReportView, after: ReportView, extra: Seq<PointedMessage>) -> bool {
    after.key == before.key && after.severity == before.severity && after.confidence
        == before.confidence && after.msg == before.msg && after.info == before.info
        && after.pointers == before.pointers + extra
}

// Starting points.

pub fn tips(key: ErrorKey) -> (r: ReportBuilderStage1)
    ensures
        r@ == start(key, Severity::Tips),
{
    ReportBuilderStage1::new(key, Severity::Tips)
}

pub fn untidy(key: ErrorKey) -> (r: ReportBuilderStage1)
    ensures
        r@ == start(key, Severity::Untidy),
{
    ReportBuilderStage1::new(key, Severity::Untidy)
}

pub fn warn(key: ErrorKey) -> (r: ReportBuilderStage1)
    ensures
        r@ == start(key, Severity::Warning),
{
    ReportBuilderStage1::new(key, Severity::Warning)
}

pub fn err(key: ErrorKey) -> (r: ReportBuilderStage1)
    ensures
        r@ == start(key, Severity::Error),
{
    ReportBuilderStage1::new(key, Severity::Error)
}

pub fn fatal(key: ErrorKey) -> (r: ReportBuilderStage1)
    ensures
        r@ == start(key, Severity::Fatal),
{
    ReportBuilderStage1::new(key, Severity::Fatal)
}

pub fn report(key: ErrorKey, severity: Severity) -> (r: ReportBuilderStage1)
    ensures
        r@ == start(key, severity),
{
    ReportBuilderStage1::new(key, severity)
}

// Builder internals.

/// First stage: key, severity and confidence.
#[derive(Debug, Clone, Copy)]
#[must_use]
pub struct ReportBuilderStage1(ErrorKey, Severity, Confidence);

impl View for ReportBuilderStage1 {
    type V = ReportView;

    closed spec fn view(&self) -> ReportView {
        ReportView { confidence: self.2, ..start(self.0, self.1) }
    }
}

impl ReportBuilderStage1 {
    fn new(key: ErrorKey, severity: Severity) -> (r: Self)
        ensures
            r@ == start(key, severity),
    {
        Self(key, severity, Confidence::Reasonable)
    }

    /// Optional step. Confidence defaults to Reasonable but this overrides it to Weak.
    pub fn weak(self) -> (r: Self)
        ensures
            r@ == with_confidence(self@, Confidence::Weak),
    {
        let mut s = self;
        s.2 = Confidence::Weak;
        s
    }

    /// Optional step. Confidence defaults to Reasonable but this overrides it to Strong.
    pub fn strong(self) -> (r: Self)
        ensures
            r@ == with_confidence(self@, Confidence::Strong),
    {
        let mut s = self;
        s.2 = Confidence::Strong;
        s
    }

    /// Optional step for when confidence is not known at compile time.
    pub fn conf(self, conf: Confidence) -> (r: Self)
        ensures
            r@ == with_confidence(self@, conf),
    {
        let mut s = self;
        s.2 = conf;
        s
    }

    /// Sets the main report message.
    pub fn msg(self, msg: &str) -> (r: ReportBuilderStage2)
        ensures
            r@ == (ReportView { msg: msg@, ..self@ }),
    {
        ReportBuilderStage2 { stage1: self, msg: String::from_str(msg), info: None }
    }
}

/// Second stage: the message is set; info may be added.
#[derive(Debug)]
#[must_use]
pub struct ReportBuilderStage2 {
    stage1: ReportBuilderStage1,
    msg: String,
    info: Option<String>,
}

impl View for ReportBuilderStage2 {
    type V = ReportView;

    closed spec fn view(&self) -> ReportView {
        ReportView { msg: self.msg@, info: opt_view(self.info), ..self.stage1@ }
    }
}

impl ReportBuilderStage2 {
    /// Optional step. Adds an info section to the report; an empty one is none.
    pub fn info(self, info: &str) -> (r: Self)
        ensures
            r@ == (ReportView {
                info: if info@.len() == 0 {
                    None
                } else {
                    Some(info@)
                },
                ..self@
            }),
    {
        let mut s = self;
        s.info = if info.is_empty() {
            None
        } else {
            Some(String::from_str(info))
        };
        s
    }

    /// Points the report at `loc`.
    pub fn loc(self, loc: Loc) -> (r: ReportBuilderStage3)
        ensures
            r@.pointers.len() == 1,
            pointer_is(r@.pointers[0], loc, None),
            with_pointers(self@, r@, r@.pointers),
    {
        let pointers = vec![PointedMessage { location: loc, length: 1, msg: None }];
        ReportBuilderStage3 { stage1: self.stage1, msg: self.msg, info: self.info, pointers }
    }

    /// Points the report at `loc`, with a note there.
    pub fn loc_msg(self, loc: Loc, msg: &str) -> (r: ReportBuilderStage3)
        ensures
            r@.pointers.len() == 1,
            pointer_is(r@.pointers[0], loc, Some(msg@)),
            with_pointers(self@, r@, r@.pointers),
    {
        let pointers = vec![
            PointedMessage { location: loc, length: 1, msg: Some(String::from_str(msg)) },
        ];
        ReportBuilderStage3 { stage1: self.stage1, msg: self.msg, info: self.info, pointers }
    }

    /// Points the report at each of `pointers`, of which there must be one at least.
    pub fn pointers(self, pointers: Vec<PointedMessage>) -> (r: ReportBuilderStage3)
        requires
            pointers@.len() >= 1,
        ensures
            with_pointers(self@, r@, pointers@),
    {
        ReportBuilderStage3 { stage1: self.stage1, msg: self.msg, info: self.info, pointers }
    }
}

/// Third stage: the report has one pointer or more, and may get more.
#[derive(Debug)]
#[must_use]
pub struct ReportBuilderStage3 {
    stage1: ReportBuilderStage1,
    msg: String,
    info: Option<String>,
    pointers: Vec<PointedMessage>,
}

impl View for ReportBuilderStage3 {
    type V = ReportView;

    closed spec fn view(&self) -> ReportView {
        ReportView { pointers: self.pointers@, ..self.stage2_view() }
    }
}

impl ReportBuilderStage3 {
    closed spec fn stage2_view(&self) -> ReportView {
        ReportView { msg: self.msg@, info: opt_view(self.info), ..self.stage1@ }
    }

    #[verifier::type_invariant]
    closed spec fn has_pointer(&self) -> bool {
        self.pointers@.len() >= 1
    }

    /// Adds a pointer at `loc`, with a note there.
    pub fn loc(self, loc: Loc, msg: &str) -> (r: Self)
        ensures
            r@.pointers.len() == self@.pointers.len() + 1,
            pointer_is(r@.pointers.last(), loc, Some(msg@)),
            with_pointers(self@, r@, seq![r@.pointers.last()]),
    {
        proof {
            use_type_invariant(&self);
        }
        let ghost old_pointers = self.pointers@;
        let ReportBuilderStage3 { stage1, msg: text, info, mut pointers } = self;
        pointers.push(PointedMessage { location: loc, length: 1, msg: Some(String::from_str(msg)) });
        proof {
            assert(pointers@ =~= old_pointers + seq![pointers@.last()]);
        }
        ReportBuilderStage3 { stage1, msg: text, info, pointers }
    }

    /// Build the report and return it.
    pub fn build(self) -> (r: LogReport)
        ensures
            r@ == self@,
            r@.pointers.len() >= 1,
    {
        proof {
            use_type_invariant(&self);
        }
        LogReport {
            key: self.stage1.0,
            severity: self.stage1.1,
            confidence: self.stage1.2,
            msg: self.msg,
            info: self.info,
            pointers: self.pointers,
        }
    }

    /// Build the report and append it to `sink`.
    pub fn push(self, sink: &mut Sink)
        ensures
            final(sink)@.len() == old(sink)@.len() + 1,
            final(sink)@.drop_last() == old(sink)@,
            final(sink)@.last()@ == self@,
            final(sink)@.last()@.pointers.len() >= 1,
    {
        let r = self.build();
        sink.push(r);
    }
}

/// A report pointed at one place and then built has that one pointer, and the
/// severity and confidence it was started with.
pub proof fn law_single_pointer(s: ReportView, x: Loc, r: ReportView)
    requires
        r.pointers.len() == 1,
        pointer_is(r.pointers[0], x, None),
        with_pointers(s, r, r.pointers),
    ensures
        r.pointers.len() == 1,
        r.pointers[0].location == x,
        r.severity == s.severity,
        r.confidence == s.confidence,
        r.key == s.key,
{
}

} // verus!
