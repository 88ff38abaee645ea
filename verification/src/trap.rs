//! Structured Wasm-level failures.
//!
//! A [`Trap`] carries a message, an optional trap kind with the Wasm source
//! location of the fault, and a backtrace of Wasm frames.  The user-visible
//! message format is stable: runtime faults render as
//! `wasm trap: <kind>, source location: @<hex>` and the backtrace section
//! lists each frame as `<module>!<name>` where `<name>` falls back to
//! `<wasm function N>` when no name is recorded.

use vstd::prelude::*;

use crate::frame_info::FrameInfo;

verus! {

/// The kind of a runtime fault raised from inside Wasm code.
#[derive(Debug, Clone, Copy, PartialEq, Eq, Structural)]
pub enum TrapCode {
    /// An `unreachable` instruction was executed.
    Unreachable,
    /// A load or store was outside the bounds of a linear memory.
    MemoryOutOfBounds,
    /// A misaligned memory access where alignment was required.
    HeapMisaligned,
    /// A table access was outside the bounds of the table.
    TableOutOfBounds,
    /// An indirect call found a callee with the wrong signature.
    IndirectCallTypeMismatch,
    /// The call stack grew past its limit.
    StackOverflow,
    /// An integer division by zero.
    IntegerDivideByZero,
    /// An integer operation overflowed.
    IntegerOverflow,
    /// A float could not be converted to an integer.
    BadConversionToInteger,
    /// Execution was interrupted through an interrupt handle.
    Interrupt,
    /// A fuel-metered store ran out of fuel.
    OutOfFuel,
}

impl TrapCode {
    /// The stable description of this trap kind.
    pub fn desc(&self) -> (r: &'static str)
        ensures
            r@ == spec_trap_desc(*self),
    {
        proof {
            reveal_strlit("unreachable");
            reveal_strlit("out of bounds memory access");
            reveal_strlit("misaligned memory access");
            reveal_strlit("out of bounds table access");
            reveal_strlit("indirect call type mismatch");
            reveal_strlit("call stack exhausted");
            reveal_strlit("integer divide by zero");
            reveal_strlit("integer overflow");
            reveal_strlit("invalid conversion to integer");
            reveal_strlit("interrupt");
            reveal_strlit("all fuel consumed by WebAssembly");
        }
        match self {
            TrapCode::Unreachable => "unreachable",
            TrapCode::MemoryOutOfBounds => "out of bounds memory access",
            TrapCode::HeapMisaligned => "misaligned memory access",
            TrapCode::TableOutOfBounds => "out of bounds table access",
            TrapCode::IndirectCallTypeMismatch => "indirect call type mismatch",
            TrapCode::StackOverflow => "call stack exhausted",
            TrapCode::IntegerDivideByZero => "integer divide by zero",
            TrapCode::IntegerOverflow => "integer overflow",
            TrapCode::BadConversionToInteger => "invalid conversion to integer",
            TrapCode::Interrupt => "interrupt",
            TrapCode::OutOfFuel => "all fuel consumed by WebAssembly",
        }
    }
}

/// The stable description of a trap kind, as a sequence of characters.
pub open spec fn spec_trap_desc(c: TrapCode) -> Seq<char> {
    match c {
        TrapCode::Unreachable => "unreachable"@,
        TrapCode::MemoryOutOfBounds => "out of bounds memory access"@,
        TrapCode::HeapMisaligned => "misaligned memory access"@,
        TrapCode::TableOutOfBounds => "out of bounds table access"@,
        TrapCode::IndirectCallTypeMismatch => "indirect call type mismatch"@,
        TrapCode::StackOverflow => "call stack exhausted"@,
        TrapCode::IntegerDivideByZero => "integer divide by zero"@,
        TrapCode::IntegerOverflow => "integer overflow"@,
        TrapCode::BadConversionToInteger => "invalid conversion to integer"@,
        TrapCode::Interrupt => "interrupt"@,
        TrapCode::OutOfFuel => "all fuel consumed by WebAssembly"@,
    }
}

/// The decimal digit character for `d`.
pub open spec fn spec_digit_char(d: int) -> char {
    if d == 0 { '0' }
    else if d == 1 { '1' }
    else if d == 2 { '2' }
    else if d == 3 { '3' }
    else if d == 4 { '4' }
    else if d == 5 { '5' }
    else if d == 6 { '6' }
    else if d == 7 { '7' }
    else if d == 8 { '8' }
    else { '9' }
}

/// The lowercase hexadecimal digit character for `d`.
pub open spec fn spec_hex_char(d: int) -> char {
    if d < 10 { spec_digit_char(d) }
    else if d == 10 { 'a' }
    else if d == 11 { 'b' }
    else if d == 12 { 'c' }
    else if d == 13 { 'd' }
    else if d == 14 { 'e' }
    else { 'f' }
}

/// The decimal rendering of `n`, most significant digit first.
pub open spec fn spec_dec_str(n: nat) -> Seq<char>
    decreases n,
{
    if n < 10 {
        seq![spec_digit_char(n as int)]
    } else {
        spec_dec_str(n / 10) + seq![spec_digit_char((n % 10) as int)]
    }
}

/// The hexadecimal rendering of `n` without padding.
pub open spec fn spec_hex_str(n: nat) -> Seq<char>
    decreases n,
{
    if n < 16 {
        seq![spec_hex_char(n as int)]
    } else {
        spec_hex_str(n / 16) + seq![spec_hex_char((n % 16) as int)]
    }
}

/// The hexadecimal rendering of `n`, zero-padded on the left to at least four
/// digits; the form used for source locations in trap messages.
pub open spec fn spec_hex4(n: nat) -> Seq<char> {
    spec_hex_pad(n) + spec_hex_str(n)
}

/// The zero padding that brings the hexadecimal rendering of `n` to four
/// digits.
pub open spec fn spec_hex_pad(n: nat) -> Seq<char> {
    if n < 0x10 { "000"@ }
    else if n < 0x100 { "00"@ }
    else if n < 0x1000 { "0"@ }
    else { ""@ }
}

/// Renders a single digit below ten.
fn digit_str(d: u64) -> (r: &'static str)
    requires
        d < 10,
    ensures
        r@ == seq![spec_digit_char(d as int)],
{
    proof {
        reveal_strlit("0");
        reveal_strlit("1");
        reveal_strlit("2");
        reveal_strlit("3");
        reveal_strlit("4");
        reveal_strlit("5");
        reveal_strlit("6");
        reveal_strlit("7");
        reveal_strlit("8");
        reveal_strlit("9");
    }
    let r: &'static str = if d == 0 { "0" }
    else if d == 1 { "1" }
    else if d == 2 { "2" }
    else if d == 3 { "3" }
    else if d == 4 { "4" }
    else if d == 5 { "5" }
    else if d == 6 { "6" }
    else if d == 7 { "7" }
    else if d == 8 { "8" }
    else { "9" };
    proof {
        assert(r@ =~= seq![spec_digit_char(d as int)]);
    }
    r
}

/// Renders a single hexadecimal digit below sixteen.
fn hex_digit_str(d: u64) -> (r: &'static str)
    requires
        d < 16,
    ensures
        r@ == seq![spec_hex_char(d as int)],
{
    proof {
        reveal_strlit("a");
        reveal_strlit("b");
        reveal_strlit("c");
        reveal_strlit("d");
        reveal_strlit("e");
        reveal_strlit("f");
    }
    if d < 10 {
        digit_str(d)
    } else {
        let r: &'static str = if d == 10 { "a" }
        else if d == 11 { "b" }
        else if d == 12 { "c" }
        else if d == 13 { "d" }
        else if d == 14 { "e" }
        else { "f" };
        proof {
            assert(r@ =~= seq![spec_hex_char(d as int)]);
        }
        r
    }
}

/// Renders `n` in decimal.
pub fn dec_str(n: u64) -> (s: String)
    ensures
        s@ == spec_dec_str(n as nat),
    decreases n,
{
    if n < 10 {
        String::from_str(digit_str(n))
    } else {
        let mut s = dec_str(n / 10);
        s.append(digit_str(n % 10));
        s
    }
}

/// Renders `n` in hexadecimal without padding.
pub fn hex_str(n: u64) -> (s: String)
    ensures
        s@ == spec_hex_str(n as nat),
    decreases n,
{
    if n < 16 {
        String::from_str(hex_digit_str(n))
    } else {
        let mut s = hex_str(n / 16);
        s.append(hex_digit_str(n % 16));
        s
    }
}

/// Renders `n` in hexadecimal, zero-padded to at least four digits.
pub fn hex4_str(n: u64) -> (s: String)
    ensures
        s@ == spec_hex4(n as nat),
{
    let pad: &'static str = if n < 0x10 { "000" }
    else if n < 0x100 { "00" }
    else if n < 0x1000 { "0" }
    else { "" };
    proof {
        assert(pad@ == spec_hex_pad(n as nat));
    }
    let mut s = String::from_str(pad);
    let digits = hex_str(n);
    s.append(digits.as_str());
    s
}

/// A synchronous Wasm-level failure.
///
/// Runtime faults carry the trap kind and the Wasm source location of the
/// faulting instruction; user traps raised from host functions carry only
/// their message.  Either form carries the backtrace of Wasm frames that
/// were live between the failure and the outermost host-to-Wasm entry.
#[derive(Debug)]
pub struct Trap {
    /// The trap message.  For runtime faults this is the stable
    /// `wasm trap: ...` rendering; for user traps it is the host's text.
    pub message: String,
    /// The trap kind for runtime faults; `None` for user traps.
    pub code: Option<TrapCode>,
    /// The Wasm source offset of the faulting instruction, when the trap
    /// table records one.
    pub source_loc: Option<u32>,
    /// The backtrace, innermost Wasm frame first.
    pub trace: Vec<FrameInfo>,
}

/// The message of a runtime fault: the kind's description, followed by the
/// source location when one is known.
pub open spec fn spec_wasm_trap_message(code: TrapCode, srcloc: Option<u32>) -> Seq<char> {
    match srcloc {
        Some(loc) => "wasm trap: "@ + spec_trap_desc(code) + ", source location: @"@
            + spec_hex4(loc as nat),
        None => "wasm trap: "@ + spec_trap_desc(code),
    }
}

impl Trap {
    /// Creates a user trap with the given message and no backtrace.
    pub fn new(message: String) -> (r: Trap)
        ensures
            r.message == message,
            r.code is None,
            r.source_loc is None,
            r.trace@.len() == 0,
    {
        Trap { message, code: None, source_loc: None, trace: Vec::new() }
    }

    /// Creates a trap for a runtime fault of the given kind, with the Wasm
    /// source location of the fault when known, and the given backtrace.
    pub fn new_wasm(code: TrapCode, srcloc: Option<u32>, trace: Vec<FrameInfo>) -> (r: Trap)
        ensures
            r.message@ == spec_wasm_trap_message(code, srcloc),
            r.code == Some(code),
            r.source_loc == srcloc,
            r.trace == trace,
    {
        proof {
            reveal_strlit("wasm trap: ");
            reveal_strlit(", source location: @");
        }
        let mut message = String::from_str("wasm trap: ");
        message.append(code.desc());
        match srcloc {
            Some(loc) => {
                message.append(", source location: @");
                let hex = hex4_str(loc as u64);
                message.append(hex.as_str());
            }
            None => {}
        }
        Trap { message, code: Some(code), source_loc: srcloc, trace }
    }

    /// Replaces the backtrace of this trap; used when a host trap crosses
    /// back over the Wasm frames it unwound.
    pub fn with_backtrace(self, trace: Vec<FrameInfo>) -> (r: Trap)
        ensures
            r.message == self.message,
            r.code == self.code,
            r.source_loc == self.source_loc,
            r.trace == trace,
    {
        Trap { message: self.message, code: self.code, source_loc: self.source_loc, trace }
    }

    /// Returns the trap message.
    pub fn message(&self) -> (r: String)
        ensures
            r == self.message,
    {
        self.message.clone()
    }

    /// Returns the backtrace of Wasm frames, innermost first.
    pub fn trace(&self) -> (r: &Vec<FrameInfo>)
        ensures
            r == &self.trace,
    {
        &self.trace
    }

    /// Renders the trap as the stable multi-line text: the message, then one
    /// line per backtrace frame.
    pub fn display_text(&self) -> (s: String)
        ensures
            s@ == spec_trap_display(self),
    {
        proof {
            reveal_strlit("\nwasm backtrace:\n");
        }
        let mut s = self.message.clone();
        if self.trace.len() == 0 {
            return s;
        }
        s.append("\nwasm backtrace:\n");
        let n = self.trace.len();
        let mut i: usize = 0;
        while i < n
            invariant
                n == self.trace.len(),
                i <= n,
                s@ == self.message@ + "\nwasm backtrace:\n"@ + spec_trace_lines(self.trace@, i as int),
            decreases n - i,
        {
            let line = frame_line(i, &self.trace[i]);
            s.append(line.as_str());
            proof {
                assert(spec_trace_lines(self.trace@, i + 1 as int) =~= spec_trace_lines(
                    self.trace@,
                    i as int,
                ) + spec_frame_line(i as nat, self.trace@[i as int]));
            }
            i += 1;
        }
        s
    }
}

/// The stable multi-line rendering of a trap.
pub open spec fn spec_trap_display(t: &Trap) -> Seq<char> {
    if t.trace@.len() == 0 {
        t.message@
    } else {
        t.message@ + "\nwasm backtrace:\n"@ + spec_trace_lines(t.trace@, t.trace@.len() as int)
    }
}

/// The first `n` backtrace lines.
pub open spec fn spec_trace_lines(trace: Seq<FrameInfo>, n: int) -> Seq<char>
    decreases n,
{
    if n <= 0 {
        Seq::empty()
    } else {
        spec_trace_lines(trace, n - 1) + spec_frame_line((n - 1) as nat, trace[n - 1])
    }
}

/// One backtrace line: `  <i>: <module>!<name>` and a newline, where the
/// module falls back to `<unknown>` and the name to `<wasm function N>`.
pub open spec fn spec_frame_line(i: nat, f: FrameInfo) -> Seq<char> {
    "  "@ + spec_dec_str(i) + ": "@ + spec_frame_module(f) + "!"@ + spec_frame_name(f) + "\n"@
}

/// The module part of a backtrace line.
pub open spec fn spec_frame_module(f: FrameInfo) -> Seq<char> {
    match f.module_name {
        Some(m) => m@,
        None => "<unknown>"@,
    }
}

/// The name part of a backtrace line.
pub open spec fn spec_frame_name(f: FrameInfo) -> Seq<char> {
    match f.func_name {
        Some(n) => n@,
        None => "<wasm function "@ + spec_dec_str(f.func_index as nat) + ">"@,
    }
}

/// Renders one backtrace line.
fn frame_line(i: usize, f: &FrameInfo) -> (s: String)
    ensures
        s@ == spec_frame_line(i as nat, *f),
{
    proof {
        reveal_strlit("  ");
        reveal_strlit(": ");
        reveal_strlit("<unknown>");
        reveal_strlit("!");
        reveal_strlit("<wasm function ");
        reveal_strlit(">");
        reveal_strlit("\n");
    }
    let mut s = String::from_str("  ");
    let idx = dec_str(i as u64);
    s.append(idx.as_str());
    s.append(": ");
    match &f.module_name {
        Some(m) => {
            s.append(m.as_str());
        }
        None => {
            s.append("<unknown>");
        }
    }
    s.append("!");
    match &f.func_name {
        Some(n) => {
            s.append(n.as_str());
        }
        None => {
            s.append("<wasm function ");
            let fi = dec_str(f.func_index as u64);
            s.append(fi.as_str());
            s.append(">");
        }
    }
    s.append("\n");
    s
}

} // verus!
