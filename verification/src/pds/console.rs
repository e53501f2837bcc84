//! Phoenix-Console: numbers and prints the console lines, and answers the
//! console-up signal of Phoenix-Init with the AXON shell prompt. Output is
//! the byte stream written to the serial line.
use vstd::prelude::*;
use vstd::string::StringSliceAdditionalSpecFns;
use crate::microkit::dbg::{decimal_u32, put_u32};

verus! {

/// The proof value the console-up signal must carry.
pub const SOVEREIGN_PROOF: u64 = 0x4153;
/// The label of the console-up signal.
pub const CONSOLE_EP_LABEL: u32 = 0x6000;

/// A lower-case hexadecimal digit.
pub open spec fn hex_digit(d: nat) -> u8 {
    if d < 10 { (48 + d) as u8 } else { (87 + d) as u8 }
}

/// The hexadecimal digits of `v`, most significant first; empty for 0.
pub open spec fn hex_digits(v: nat) -> Seq<u8>
    decreases v,
{
    if v == 0 {
        Seq::empty()
    } else {
        hex_digits(v / 16).push(hex_digit(v % 16))
    }
}

/// `v` written as `{:#x}` writes it: `0x`, then its hexadecimal digits.
pub open spec fn hex_text(v: u64) -> Seq<u8> {
    seq![48u8, 120u8] + if v == 0 { seq![48u8] } else { hex_digits(v as nat) }
}

/// `n` in decimal, padded on the left with zeros to four digits (`{:04}`).
pub open spec fn padded4(n: u32) -> Seq<u8> {
    let d = decimal_u32(n);
    if d.len() < 4 { Seq::new((4 - d.len()) as nat, |i: int| 48u8) + d } else { d }
}

/// The bytes of the console line numbered `n` with text `text`.
pub open spec fn console_line(n: u32, text: Seq<u8>) -> Seq<u8> {
    "[CONSOLE ".spec_bytes() + padded4(n) + "] ".spec_bytes() + text + seq![10u8]
}

/// The shell prompt.
pub open spec fn prompt_text() -> Seq<u8> {
    "phoenix@aieonyx:~$ ".spec_bytes()
}

/// Appends the bytes of `s` to `out`.
pub fn append_bytes(out: &mut Vec<u8>, s: &[u8])
    ensures
        final(out)@ == old(out)@ + s@,
{
    let mut i: usize = 0;
    while i < s.len()
        invariant
            0 <= i <= s@.len(),
            out@ == old(out)@ + s@.take(i as int),
        decreases s@.len() - i,
    {
        out.push(s[i]);
        assert(out@ =~= old(out)@ + s@.take(i + 1));
        i = i + 1;
    }
    assert(s@.take(i as int) =~= s@);
}

/// `v` as `{:#x}` writes it.
pub fn fmt_hex(v: u64) -> (r: Vec<u8>)
    ensures
        r@ == hex_text(v),
{
    let mut digits: Vec<u8> = Vec::new();
    if v == 0 {
        digits.push(48);
        assert(digits@ =~= seq![48u8]);
    } else {
        let mut val: u64 = v;
        assert(hex_digits(v as nat) =~= hex_digits(val as nat) + digits@);
        while val > 0
            invariant
                hex_digits(v as nat) == hex_digits(val as nat) + digits@,
            decreases val,
        {
            let d: u8 = (val % 16) as u8;
            let c: u8 = if d < 10 { 48 + d } else { 87 + d };
            assert(c == hex_digit((val % 16) as nat));
            assert(hex_digits(val as nat) == hex_digits((val / 16) as nat).push(c));
            let ghost before = digits@;
            digits.insert(0, c);
            assert(digits@ =~= seq![c] + before);
            assert(hex_digits((val / 16) as nat).push(c) + before
                =~= hex_digits((val / 16) as nat) + digits@);
            val = val / 16;
        }
    }
    let mut r: Vec<u8> = Vec::new();
    r.push(48);
    r.push(120);
    append_bytes(&mut r, digits.as_slice());
    assert(r@ =~= hex_text(v));
    r
}

/// `n` as `{:04}` writes it.
pub fn fmt_padded4(n: u32) -> (r: Vec<u8>)
    ensures
        r@ == padded4(n),
{
    let d = put_u32(n);
    let mut r: Vec<u8> = Vec::new();
    let len = d.len();
    if len < 4 {
        let mut k: usize = 0;
        while k < 4 - len
            invariant
                len == d@.len(),
                len < 4,
                0 <= k <= 4 - len,
                r@ == Seq::new(k as nat, |i: int| 48u8),
            decreases 4 - len - k,
        {
            r.push(48);
            assert(r@ =~= Seq::new((k + 1) as nat, |i: int| 48u8));
            k = k + 1;
        }
    }
    append_bytes(&mut r, d.as_slice());
    assert(r@ =~= padded4(n));
    r
}

/// The console: how many lines it has printed.
pub struct ConsolePD {
    pub line_count: u32,
}

impl ConsolePD {
    pub fn new() -> (c: Self)
        ensures
            c.line_count == 0,
    {
        ConsolePD { line_count: 0 }
    }

    /// Prints `line` as the next numbered console line.
    pub fn emit(&mut self, out: &mut Vec<u8>, line: &[u8])
        requires
            old(self).line_count < u32::MAX,
        ensures
            final(self).line_count == old(self).line_count + 1,
            final(out)@ == old(out)@ + console_line(final(self).line_count, line@),
    {
        self.line_count = self.line_count + 1;
        append_bytes(out, "[CONSOLE ".as_bytes());
        let num = fmt_padded4(self.line_count);
        append_bytes(out, num.as_slice());
        append_bytes(out, "] ".as_bytes());
        append_bytes(out, line);
        out.push(10);
        assert(out@ =~= old(out)@ + console_line(self.line_count, line@));
    }

    /// Prints the shell prompt.
    pub fn prompt(&mut self, out: &mut Vec<u8>)
        ensures
            *final(self) == *old(self),
            final(out)@ == old(out)@ + prompt_text(),
    {
        append_bytes(out, "phoenix@aieonyx:~$ ".as_bytes());
    }
}

/// An IPC message from Phoenix-Init.
#[derive(Clone, Copy, Debug)]
pub struct AslMsg {
    pub tag: u64,
    pub label: u32,
    pub payload: [u64; 4],
}

/// What the console prints for `msg` when its count was `n`.
pub open spec fn message_output(msg: AslMsg, n: u32) -> Seq<u8> {
    if msg.label == CONSOLE_EP_LABEL {
        console_line((n + 1) as u32, "Console PD activated by Phoenix-Init".spec_bytes())
            + console_line((n + 2) as u32, "Sovereign proof received: ".spec_bytes() + hex_text(msg.payload[0]))
            + console_line((n + 3) as u32, "AXON shell (stub) — M16 will wire AxonScript REPL".spec_bytes())
            + prompt_text()
    } else {
        console_line((n + 1) as u32, "Unknown label ".spec_bytes() + hex_text(msg.label as u64) + " — dropping".spec_bytes())
    }
}

/// How many lines the console prints for `msg`.
pub open spec fn message_lines(msg: AslMsg) -> int {
    if msg.label == CONSOLE_EP_LABEL { 3 } else { 1 }
}

/// Handles a message: the console-up signal is acknowledged, its proof
/// echoed and the shell prompt shown; any other label is reported and
/// dropped. A console-up signal must carry the sovereign proof.
pub fn handle_message(msg: &AslMsg, console: &mut ConsolePD, out: &mut Vec<u8>)
    requires
        old(console).line_count + message_lines(*msg) <= u32::MAX,
        msg.label == CONSOLE_EP_LABEL ==> msg.payload[0] == SOVEREIGN_PROOF,
    ensures
        final(console).line_count == old(console).line_count + message_lines(*msg),
        final(out)@ == old(out)@ + message_output(*msg, old(console).line_count),
{
    if msg.label == CONSOLE_EP_LABEL {
        console.emit(out, "Console PD activated by Phoenix-Init".as_bytes());
        let mut text: Vec<u8> = Vec::new();
        append_bytes(&mut text, "Sovereign proof received: ".as_bytes());
        let hex = fmt_hex(msg.payload[0]);
        append_bytes(&mut text, hex.as_slice());
        console.emit(out, text.as_slice());
        console.emit(out, "AXON shell (stub) — M16 will wire AxonScript REPL".as_bytes());
        console.prompt(out);
    } else {
        let mut text: Vec<u8> = Vec::new();
        append_bytes(&mut text, "Unknown label ".as_bytes());
        let hex = fmt_hex(msg.label as u64);
        append_bytes(&mut text, hex.as_slice());
        append_bytes(&mut text, " — dropping".as_bytes());
        console.emit(out, text.as_slice());
    }
    assert(out@ =~= old(out)@ + message_output(*msg, old(console).line_count));
}

/// The PD entry: handles the console-up signal of Phoenix-Init and returns
/// the sovereign proof.
pub fn phoenix_console_main(out: &mut Vec<u8>) -> (r: u64)
    ensures
        r == SOVEREIGN_PROOF,
        final(out)@ == old(out)@ + message_output(
            AslMsg { tag: 0xA15_0001, label: CONSOLE_EP_LABEL, payload: [SOVEREIGN_PROOF, 0, 0, 0] },
            0,
        ),
{
    let mut console = ConsolePD::new();
    let init_signal = AslMsg { tag: 0xA15_0001, label: CONSOLE_EP_LABEL, payload: [SOVEREIGN_PROOF, 0, 0, 0] };
    handle_message(&init_signal, &mut console, out);
    SOVEREIGN_PROOF
}

} // verus!
