//! The tracers of the kernel and the state of tracing, with the text that
//! stands for each in the control files.

use crate::error::{Error, ParseFailure};
use crate::text::{range_is, to_chars, trim, trim_bounds};
use crate::RifResult;
use vstd::prelude::*;
use vstd::string::StringExecFns;

verus! {

/// A tracer that the kernel may have been built with.
#[derive(Debug, Clone, Copy, PartialEq, Eq, Structural)]
pub enum Tracer {
    /// Function call tracer to trace all kernel functions.
    Function,
    /// Like the function tracer, but probes the functions on entry and on
    /// exit, so that a graph of function calls can be drawn.
    FunctionGraph,
    /// The block tracer, used by the blktrace user application.
    Block,
    /// The hardware latency tracer, which detects latency that the hardware
    /// produces.
    HardwareLatency,
    /// Traces the areas that disable interrupts and saves the trace with the
    /// longest latency.
    IRQsOff,
    /// Like irqsoff, but records the time for which preemption is disabled.
    PreemptOff,
    /// Like irqsoff and preemptoff, but records the largest time for which
    /// interrupts or preemption are disabled.
    PreemptIRQsOff,
    /// Records the longest latency that it takes for the task of highest
    /// priority to get scheduled after it has been woken up.
    Wakeup,
    /// Like wakeup, for real-time tasks only.
    WakeupRealtime,
    /// Like wakeup, for deadline tasks only.
    WakeupDeadline,
    /// Traces all the calls that a module makes to the hardware.
    MMIOTrace,
    /// Traces likely and unlikely branches in the kernel and whether the
    /// prediction was right.
    Branch,
    /// The tracer that traces nothing.
    Nop,
}

/// Whether trace events are written to the ring buffer.
#[derive(Debug, Clone, Copy, PartialEq, Eq, Structural)]
pub enum TracingStat {
    /// Nothing is written.
    Off,
    /// Events are written.
    On,
}

impl Tracer {
    /// The name of the tracer as the control files hold it.
    pub open spec fn wire(self) -> Seq<char> {
        match self {
            Tracer::Function => "function"@,
            Tracer::FunctionGraph => "function_graph"@,
            Tracer::Block => "blk"@,
            Tracer::HardwareLatency => "hwlat"@,
            Tracer::IRQsOff => "irqsoff"@,
            Tracer::PreemptOff => "preemptoff"@,
            Tracer::PreemptIRQsOff => "preemptirqsoff"@,
            Tracer::Wakeup => "wakeup"@,
            Tracer::WakeupRealtime => "wakeup_rt"@,
            Tracer::WakeupDeadline => "wakeup_dl"@,
            Tracer::MMIOTrace => "mmiotrace"@,
            Tracer::Branch => "branch"@,
            Tracer::Nop => "nop"@,
        }
    }

    /// The tracer whose name is `name`, if there is one.
    pub open spec fn named(name: Seq<char>) -> Option<Tracer> {
        if exists|t: Tracer| #[trigger] t.wire() == name {
            Some(choose|t: Tracer| #[trigger] t.wire() == name)
        } else {
            None
        }
    }

    /// What parsing `text` gives: the tracer named by `text` without the white
    /// space around it, or a parse failure where that names none.
    pub open spec fn parsed(text: Seq<char>) -> RifResult<Tracer> {
        match Tracer::named(trim(text)) {
            Some(t) => Ok(t),
            None => Err(Error::Parse(ParseFailure::UnknownTracer)),
        }
    }

    /// The names of the tracers hold no white space, and no two tracers share
    /// a name.
    pub proof fn lemma_wire_distinct(a: Tracer, b: Tracer)
        ensures
            a.wire().len() >= 3,
            trim(a.wire()) == a.wire(),
            a.wire() == b.wire() ==> a == b,
            Tracer::named(a.wire()) == Some(a),
    {
        reveal_strlit("function");
        reveal_strlit("function_graph");
        reveal_strlit("blk");
        reveal_strlit("hwlat");
        reveal_strlit("irqsoff");
        reveal_strlit("preemptoff");
        reveal_strlit("preemptirqsoff");
        reveal_strlit("wakeup");
        reveal_strlit("wakeup_rt");
        reveal_strlit("wakeup_dl");
        reveal_strlit("mmiotrace");
        reveal_strlit("branch");
        reveal_strlit("nop");
        let s = a.wire();
        assert(s.len() >= 3);
        assert(!crate::text::is_space(s.first()));
        assert(!crate::text::is_space(s.last()));
        if a.wire() == b.wire() {
            assert(a.wire().len() == b.wire().len());
            assert(a.wire()[0] == b.wire()[0]);
            assert(a.wire()[2] == b.wire()[2]);
            if a.wire().len() == 9 {
                assert(a.wire()[7] == b.wire()[7]);
            }
        }
    }

    /// Parses the name of a tracer; white space around the name is ignored.
    pub fn from_str(item: &str) -> (r: RifResult<Tracer>)
        ensures
            r == Tracer::parsed(item@),
    {
        let cs = to_chars(item);
        let (a, b) = trim_bounds(&cs);
        let ghost name = trim(item@);
        let found = if range_is(&cs, a, b, "function") {
            Some(Tracer::Function)
        } else if range_is(&cs, a, b, "function_graph") {
            Some(Tracer::FunctionGraph)
        } else if range_is(&cs, a, b, "blk") {
            Some(Tracer::Block)
        } else if range_is(&cs, a, b, "hwlat") {
            Some(Tracer::HardwareLatency)
        } else if range_is(&cs, a, b, "irqsoff") {
            Some(Tracer::IRQsOff)
        } else if range_is(&cs, a, b, "preemptoff") {
            Some(Tracer::PreemptOff)
        } else if range_is(&cs, a, b, "preemptirqsoff") {
            Some(Tracer::PreemptIRQsOff)
        } else if range_is(&cs, a, b, "wakeup") {
            Some(Tracer::Wakeup)
        } else if range_is(&cs, a, b, "wakeup_rt") {
            Some(Tracer::WakeupRealtime)
        } else if range_is(&cs, a, b, "wakeup_dl") {
            Some(Tracer::WakeupDeadline)
        } else if range_is(&cs, a, b, "mmiotrace") {
            Some(Tracer::MMIOTrace)
        } else if range_is(&cs, a, b, "branch") {
            Some(Tracer::Branch)
        } else if range_is(&cs, a, b, "nop") {
            Some(Tracer::Nop)
        } else {
            None
        };
        match found {
            Some(t) => {
                proof {
                    assert(t.wire() == name);
                    let chosen = choose|t: Tracer| #[trigger] t.wire() == name;
                    Tracer::lemma_wire_distinct(chosen, t);
                }
                Ok(t)
            },
            None => {
                assert forall|t: Tracer| #[trigger] t.wire() != name by {
                    match t {
                        Tracer::Function => {},
                        Tracer::FunctionGraph => {},
                        Tracer::Block => {},
                        Tracer::HardwareLatency => {},
                        Tracer::IRQsOff => {},
                        Tracer::PreemptOff => {},
                        Tracer::PreemptIRQsOff => {},
                        Tracer::Wakeup => {},
                        Tracer::WakeupRealtime => {},
                        Tracer::WakeupDeadline => {},
                        Tracer::MMIOTrace => {},
                        Tracer::Branch => {},
                        Tracer::Nop => {},
                    }
                }
                Err(Error::Parse(ParseFailure::UnknownTracer))
            },
        }
    }

    /// The name of the tracer as the control files hold it.
    pub fn to_string(&self) -> (name: String)
        ensures
            name@ == self.wire(),
    {
        match self {
            Tracer::Function => String::from_str("function"),
            Tracer::FunctionGraph => String::from_str("function_graph"),
            Tracer::Block => String::from_str("blk"),
            Tracer::HardwareLatency => String::from_str("hwlat"),
            Tracer::IRQsOff => String::from_str("irqsoff"),
            Tracer::PreemptOff => String::from_str("preemptoff"),
            Tracer::PreemptIRQsOff => String::from_str("preemptirqsoff"),
            Tracer::Wakeup => String::from_str("wakeup"),
            Tracer::WakeupRealtime => String::from_str("wakeup_rt"),
            Tracer::WakeupDeadline => String::from_str("wakeup_dl"),
            Tracer::MMIOTrace => String::from_str("mmiotrace"),
            Tracer::Branch => String::from_str("branch"),
            Tracer::Nop => String::from_str("nop"),
        }
    }
}

impl std::str::FromStr for Tracer {
    type Err = Error;

    /// Parses the name of a tracer; white space around the name is ignored.
    fn from_str(item: &str) -> (r: Result<Self, Self::Err>)
        ensures
            r == Tracer::parsed(item@),
    {
        Tracer::from_str(item)
    }
}

impl TracingStat {
    /// The text that stands for the state in the control file: `1` for on,
    /// `0` for off.
    pub open spec fn wire(self) -> Seq<char> {
        match self {
            TracingStat::On => seq!['1'],
            TracingStat::Off => seq!['0'],
        }
    }

    /// Whether a control file with the content `text` says that tracing is
    /// on: whether `text` is `1`, white space around it ignored.
    pub open spec fn is_on(text: Seq<char>) -> bool {
        trim(text) == seq!['1']
    }

    /// The text that stands for the state in the control file.
    pub fn to_string(&self) -> (text: String)
        ensures
            text@ == self.wire(),
    {
        proof {
            reveal_strlit("1");
            reveal_strlit("0");
        }
        let text = match self {
            TracingStat::On => String::from_str("1"),
            TracingStat::Off => String::from_str("0"),
        };
        assert(text@ =~= self.wire());
        text
    }

    /// Reads the state off the content of the control file.
    pub fn from_content(text: &str) -> (stat: TracingStat)
        ensures
            stat == if TracingStat::is_on(text@) {
                TracingStat::On
            } else {
                TracingStat::Off
            },
    {
        let cs = to_chars(text);
        let (a, b) = trim_bounds(&cs);
        if b - a == 1 && cs[a] == '1' {
            assert(cs@.subrange(a as int, b as int) =~= seq!['1']);
            TracingStat::On
        } else {
            assert(cs@.subrange(a as int, b as int) != seq!['1']) by {
                if cs@.subrange(a as int, b as int) == seq!['1'] {
                    assert(cs@.subrange(a as int, b as int).len() == 1);
                    assert(cs@.subrange(a as int, b as int)[0] == '1');
                }
            }
            TracingStat::Off
        }
    }
}

} // verus!
