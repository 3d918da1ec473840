//! The execution-trace counter: classification of trace events and their
//! counts by kind.
use vstd::prelude::*;

verus! {

/// The runtime's code for a call event.
pub const TRACE_CALL: i32 = 0;

/// The runtime's code for an exception event.
pub const TRACE_EXCEPTION: i32 = 1;

/// The runtime's code for a line event.
pub const TRACE_LINE: i32 = 2;

/// The runtime's code for a return event.
pub const TRACE_RETURN: i32 = 3;

/// The runtime's code for a call into native code.
pub const TRACE_C_CALL: i32 = 4;

/// The runtime's code for an exception out of native code.
pub const TRACE_C_EXCEPTION: i32 = 5;

/// The runtime's code for a return from native code.
pub const TRACE_C_RETURN: i32 = 6;

/// The runtime's code for an opcode event.
pub const TRACE_OPCODE: i32 = 7;

/// The number of kinds, `Unknown` included.
pub const TRACE_KINDS: usize = 9;

/// The kind of a trace event; `Unknown` for a code outside the table.
#[derive(Clone, Copy, Debug, PartialEq, Eq, Structural)]
pub enum TraceEventKind {
    Call,
    Exception,
    Line,
    Return,
    CCall,
    CException,
    CReturn,
    Opcode,
    Unknown,
}

/// The kind of the event with code `code`.
pub open spec fn trace_kind_of(code: i32) -> TraceEventKind {
    if code == TRACE_CALL {
        TraceEventKind::Call
    } else if code == TRACE_EXCEPTION {
        TraceEventKind::Exception
    } else if code == TRACE_LINE {
        TraceEventKind::Line
    } else if code == TRACE_RETURN {
        TraceEventKind::Return
    } else if code == TRACE_C_CALL {
        TraceEventKind::CCall
    } else if code == TRACE_C_EXCEPTION {
        TraceEventKind::CException
    } else if code == TRACE_C_RETURN {
        TraceEventKind::CReturn
    } else if code == TRACE_OPCODE {
        TraceEventKind::Opcode
    } else {
        TraceEventKind::Unknown
    }
}

/// The code that the table gives a kind (`Unknown` has none).
pub open spec fn code_of_kind(k: TraceEventKind) -> Option<i32> {
    match k {
        TraceEventKind::Call => Some(TRACE_CALL),
        TraceEventKind::Exception => Some(TRACE_EXCEPTION),
        TraceEventKind::Line => Some(TRACE_LINE),
        TraceEventKind::Return => Some(TRACE_RETURN),
        TraceEventKind::CCall => Some(TRACE_C_CALL),
        TraceEventKind::CException => Some(TRACE_C_EXCEPTION),
        TraceEventKind::CReturn => Some(TRACE_C_RETURN),
        TraceEventKind::Opcode => Some(TRACE_OPCODE),
        TraceEventKind::Unknown => None,
    }
}

/// Whether the table defines `code`.
pub open spec fn is_defined_code(code: i32) -> bool {
    TRACE_CALL <= code <= TRACE_OPCODE
}

/// Classifies a trace event by its code.
pub fn classify_trace_event(code: i32) -> (k: TraceEventKind)
    ensures
        k == trace_kind_of(code),
{
    if code == TRACE_CALL {
        TraceEventKind::Call
    } else if code == TRACE_EXCEPTION {
        TraceEventKind::Exception
    } else if code == TRACE_LINE {
        TraceEventKind::Line
    } else if code == TRACE_RETURN {
        TraceEventKind::Return
    } else if code == TRACE_C_CALL {
        TraceEventKind::CCall
    } else if code == TRACE_C_EXCEPTION {
        TraceEventKind::CException
    } else if code == TRACE_C_RETURN {
        TraceEventKind::CReturn
    } else if code == TRACE_OPCODE {
        TraceEventKind::Opcode
    } else {
        TraceEventKind::Unknown
    }
}

/// Classification is total: each defined code maps to the one kind whose
/// code it is, never to `Unknown`, and every other code maps to `Unknown`.
pub proof fn lemma_trace_classification_total(code: i32)
    ensures
        is_defined_code(code) ==> trace_kind_of(code) != TraceEventKind::Unknown
            && code_of_kind(trace_kind_of(code)) == Some(code),
        is_defined_code(code) ==> forall|k: TraceEventKind|
            code_of_kind(k) == Some(code) ==> k == trace_kind_of(code),
        !is_defined_code(code) ==> trace_kind_of(code) == TraceEventKind::Unknown,
{
}

/// The position of a kind among the counters.
pub open spec fn kind_index(k: TraceEventKind) -> int {
    match k {
        TraceEventKind::Call => 0,
        TraceEventKind::Exception => 1,
        TraceEventKind::Line => 2,
        TraceEventKind::Return => 3,
        TraceEventKind::CCall => 4,
        TraceEventKind::CException => 5,
        TraceEventKind::CReturn => 6,
        TraceEventKind::Opcode => 7,
        TraceEventKind::Unknown => 8,
    }
}

/// The position of a kind among `TRACE_KINDS` counters; distinct kinds
/// have distinct positions.
pub fn trace_index(k: TraceEventKind) -> (r: usize)
    ensures
        r == kind_index(k),
        r < TRACE_KINDS,
        forall|k2: TraceEventKind| #[trigger] kind_index(k2) == r ==> k2 == k,
{
    match k {
        TraceEventKind::Call => 0,
        TraceEventKind::Exception => 1,
        TraceEventKind::Line => 2,
        TraceEventKind::Return => 3,
        TraceEventKind::CCall => 4,
        TraceEventKind::CException => 5,
        TraceEventKind::CReturn => 6,
        TraceEventKind::Opcode => 7,
        TraceEventKind::Unknown => 8,
    }
}

/// The label of a kind in reports.
pub open spec fn trace_label_of(k: TraceEventKind) -> Seq<char> {
    match k {
        TraceEventKind::Call => "CALL"@,
        TraceEventKind::Exception => "EXCEPTION"@,
        TraceEventKind::Line => "LINE"@,
        TraceEventKind::Return => "RETURN"@,
        TraceEventKind::CCall => "C_CALL"@,
        TraceEventKind::CException => "C_EXCEPTION"@,
        TraceEventKind::CReturn => "C_RETURN"@,
        TraceEventKind::Opcode => "OPCODE"@,
        TraceEventKind::Unknown => "UNKNOWN"@,
    }
}

/// The label of a kind in reports.
pub fn trace_label(k: TraceEventKind) -> (r: &'static str)
    ensures
        r@ == trace_label_of(k),
{
    match k {
        TraceEventKind::Call => "CALL",
        TraceEventKind::Exception => "EXCEPTION",
        TraceEventKind::Line => "LINE",
        TraceEventKind::Return => "RETURN",
        TraceEventKind::CCall => "C_CALL",
        TraceEventKind::CException => "C_EXCEPTION",
        TraceEventKind::CReturn => "C_RETURN",
        TraceEventKind::Opcode => "OPCODE",
        TraceEventKind::Unknown => "UNKNOWN",
    }
}

/// The number of trace events seen, by kind, at the positions of
/// `kind_index`.
#[derive(Clone, Copy, Debug, PartialEq, Eq)]
pub struct TraceCounter {
    pub counts: [u64; TRACE_KINDS],
}

impl TraceCounter {
    /// The count of a kind.
    pub open spec fn count_of(self, k: TraceEventKind) -> u64 {
        self.counts@[kind_index(k)]
    }

    /// All counts zero.
    pub fn new() -> (r: TraceCounter)
        ensures
            forall|k: TraceEventKind| #[trigger] r.count_of(k) == 0,
    {
        TraceCounter { counts: [0u64; TRACE_KINDS] }
    }

    /// The count of a kind.
    pub fn count(&self, k: TraceEventKind) -> (r: u64)
        ensures
            r == self.count_of(k),
    {
        self.counts[trace_index(k)]
    }

    /// Counts one event of kind `k`; no other count changes.
    pub fn record(&mut self, k: TraceEventKind)
        requires
            old(self).count_of(k) < u64::MAX,
        ensures
            final(self).count_of(k) == old(self).count_of(k) + 1,
            forall|k2: TraceEventKind|
                k2 != k ==> #[trigger] final(self).count_of(k2) == old(self).count_of(k2),
    {
        let i = trace_index(k);
        self.counts[i] = self.counts[i] + 1;
    }

    /// The trace hook's work: counts the event under its kind and returns 0,
    /// so that tracing always goes on.
    pub fn on_trace_event(&mut self, code: i32) -> (r: i32)
        requires
            old(self).count_of(trace_kind_of(code)) < u64::MAX,
        ensures
            r == 0,
            final(self).count_of(trace_kind_of(code)) == old(self).count_of(trace_kind_of(code))
                + 1,
            forall|k2: TraceEventKind|
                k2 != trace_kind_of(code) ==> #[trigger] final(self).count_of(k2) == old(
                    self,
                ).count_of(k2),
    {
        let k = classify_trace_event(code);
        self.record(k);
        0
    }
}

} // verus!
