//! The text of a state dump: a fixed table of the registers, the segments
//! with their decoded access rights, and the descriptor tables.

use vstd::prelude::*;
use vstd::string::*;
use crate::arch::APIC_DEFAULT_BASE;
use crate::snapshot::{SegmentState, Snapshot};
use crate::text::{decimal, hex, push_decimal, push_hex};

verus! {

/// One value of the table: in hexadecimal of at least `width` digits, or the
/// word `unavailable` where the value could not be read.
pub open spec fn cell(value: Option<u64>, width: nat) -> Seq<char> {
    match value {
        Some(v) => hex(v, width),
        None => "unavailable"@,
    }
}

/// The bits of `value` that `mask` selects after a shift to the right by
/// `shift`; unavailable where the value is.
pub open spec fn bits(value: Option<u64>, shift: u64, mask: u64) -> Option<u64> {
    match value {
        Some(v) => Some((v >> shift) & mask),
        None => None,
    }
}

/// A line of three labelled registers.
pub open spec fn register_row(
    first: Seq<char>,
    a: Option<u64>,
    second: Seq<char>,
    b: Option<u64>,
    third: Seq<char>,
    c: Option<u64>,
) -> Seq<char> {
    first + cell(a, 16) + second + cell(b, 16) + third + cell(c, 16) + "\n"@
}

/// The line of one segment register: selector, base, limit, and from the
/// access rights the type, present, privilege level, default size, segment
/// flag, long, granularity and available bits.
pub open spec fn segment_row(label: Seq<char>, state: SegmentState) -> Seq<char> {
    label + cell(state.selector, 4) + "      "@ + cell(state.base, 16) + "  "@ + cell(
        state.limit,
        8,
    ) + "  "@ + cell(bits(state.rights, 0, 0xf), 2) + "    "@ + cell(bits(state.rights, 7, 0x1), 1)
        + " "@ + cell(bits(state.rights, 5, 0x3), 1) + "   "@ + cell(
        bits(state.rights, 14, 0x1),
        1,
    ) + "  "@ + cell(bits(state.rights, 4, 0x1), 1) + " "@ + cell(bits(state.rights, 13, 0x1), 1)
        + " "@ + cell(bits(state.rights, 15, 0x1), 1) + " "@ + cell(
        bits(state.rights, 12, 0x1),
        1,
    ) + "\n"@
}

/// The line of one descriptor-table register: base and limit.
pub open spec fn table_row(label: Seq<char>, base: Option<u64>, limit: Option<u64>) -> Seq<char> {
    label + cell(base, 16) + "  "@ + cell(limit, 8) + "\n"@
}

/// The general registers, three to a line.
pub open spec fn general_rows(snapshot: Snapshot) -> Seq<char> {
    register_row("rip: "@, snapshot.rip, "   rsp: "@, snapshot.rsp, " flags: "@, snapshot.rflags)
        + register_row(
        "rax: "@,
        snapshot.rax,
        "   rbx: "@,
        snapshot.rbx,
        "   rcx: "@,
        snapshot.rcx,
    ) + register_row(
        "rdx: "@,
        snapshot.rdx,
        "   rsi: "@,
        snapshot.rsi,
        "   rdi: "@,
        snapshot.rdi,
    ) + register_row("rbp: "@, snapshot.rbp, "    r8: "@, snapshot.r8, "    r9: "@, snapshot.r9)
        + register_row(
        "r10: "@,
        snapshot.r10,
        "   r11: "@,
        snapshot.r11,
        "   r12: "@,
        snapshot.r12,
    ) + register_row(
        "r13: "@,
        snapshot.r13,
        "   r14: "@,
        snapshot.r14,
        "   r15: "@,
        snapshot.r15,
    )
}

/// The control registers.
pub open spec fn control_rows(snapshot: Snapshot) -> Seq<char> {
    register_row("cr0: "@, snapshot.cr0, "   cr2: "@, snapshot.cr2, "   cr3: "@, snapshot.cr3)
        + "cr4: "@ + cell(snapshot.cr4, 16) + "\n"@
}

/// The eight segment registers, one to a line.
pub open spec fn segment_rows(snapshot: Snapshot) -> Seq<char> {
    segment_row("cs        "@, snapshot.cs) + segment_row("ss        "@, snapshot.ss)
        + segment_row("ds        "@, snapshot.ds) + segment_row("es        "@, snapshot.es)
        + segment_row("fs        "@, snapshot.fs) + segment_row("gs        "@, snapshot.gs)
        + segment_row("tr        "@, snapshot.tr) + segment_row("ldt       "@, snapshot.ldtr)
}

/// The two descriptor-table registers.
pub open spec fn table_rows(snapshot: Snapshot) -> Seq<char> {
    table_row("gdt                 "@, snapshot.gdtr_base, snapshot.gdtr_limit) + table_row(
        "idt                 "@,
        snapshot.idtr_base,
        snapshot.idtr_limit,
    )
}

/// EFER, and the address at which initialization places the local APIC.
pub open spec fn apic_row(snapshot: Snapshot) -> Seq<char> {
    "efer: "@ + cell(snapshot.efer, 16) + "  apic base: "@ + hex(APIC_DEFAULT_BASE, 16) + "\n"@
}

/// The whole text of a state dump.
pub open spec fn rendered(snapshot: Snapshot) -> Seq<char> {
    "\nDump state of CPU "@ + decimal(snapshot.cpu) + "\n\nRegisters:\n----------\n"@
        + general_rows(snapshot) + control_rows(snapshot)
        + "\nSegment registers:\n------------------\n"@
        + "register  selector  base              limit     type  p dpl db s l g avl\n"@
        + segment_rows(snapshot) + table_rows(snapshot) + "\nAPIC:\n-----\n"@ + apic_row(snapshot)
}

fn push_cell(out: &mut String, value: Option<u64>, width: usize)
    ensures
        final(out)@ == old(out)@ + cell(value, width as nat),
{
    match value {
        Some(v) => push_hex(out, v, width),
        None => out.append("unavailable"),
    }
}

fn push_bits(out: &mut String, value: Option<u64>, shift: u64, mask: u64, width: usize)
    requires
        shift < 64,
    ensures
        final(out)@ == old(out)@ + cell(bits(value, shift, mask), width as nat),
{
    match value {
        Some(v) => push_hex(out, (v >> shift) & mask, width),
        None => out.append("unavailable"),
    }
}

fn register_row_text(
    first: &str,
    a: Option<u64>,
    second: &str,
    b: Option<u64>,
    third: &str,
    c: Option<u64>,
) -> (text: String)
    ensures
        text@ == register_row(first@, a, second@, b, third@, c),
{
    let mut text = String::from_str(first);
    push_cell(&mut text, a, 16);
    text.append(second);
    push_cell(&mut text, b, 16);
    text.append(third);
    push_cell(&mut text, c, 16);
    text.append("\n");
    text
}

fn segment_row_text(label: &str, state: SegmentState) -> (text: String)
    ensures
        text@ == segment_row(label@, state),
{
    let mut text = String::from_str(label);
    push_cell(&mut text, state.selector, 4);
    text.append("      ");
    push_cell(&mut text, state.base, 16);
    text.append("  ");
    push_cell(&mut text, state.limit, 8);
    text.append("  ");
    push_bits(&mut text, state.rights, 0, 0xf, 2);
    text.append("    ");
    push_bits(&mut text, state.rights, 7, 0x1, 1);
    text.append(" ");
    push_bits(&mut text, state.rights, 5, 0x3, 1);
    text.append("   ");
    push_bits(&mut text, state.rights, 14, 0x1, 1);
    text.append("  ");
    push_bits(&mut text, state.rights, 4, 0x1, 1);
    text.append(" ");
    push_bits(&mut text, state.rights, 13, 0x1, 1);
    text.append(" ");
    push_bits(&mut text, state.rights, 15, 0x1, 1);
    text.append(" ");
    push_bits(&mut text, state.rights, 12, 0x1, 1);
    text.append("\n");
    text
}

fn table_row_text(label: &str, base: Option<u64>, limit: Option<u64>) -> (text: String)
    ensures
        text@ == table_row(label@, base, limit),
{
    let mut text = String::from_str(label);
    push_cell(&mut text, base, 16);
    text.append("  ");
    push_cell(&mut text, limit, 8);
    text.append("\n");
    text
}

fn general_rows_text(snapshot: &Snapshot) -> (text: String)
    ensures
        text@ == general_rows(*snapshot),
{
    let mut text = register_row_text(
        "rip: ",
        snapshot.rip,
        "   rsp: ",
        snapshot.rsp,
        " flags: ",
        snapshot.rflags,
    );
    let row = register_row_text(
        "rax: ",
        snapshot.rax,
        "   rbx: ",
        snapshot.rbx,
        "   rcx: ",
        snapshot.rcx,
    );
    text.append(row.as_str());
    let row = register_row_text(
        "rdx: ",
        snapshot.rdx,
        "   rsi: ",
        snapshot.rsi,
        "   rdi: ",
        snapshot.rdi,
    );
    text.append(row.as_str());
    let row = register_row_text(
        "rbp: ",
        snapshot.rbp,
        "    r8: ",
        snapshot.r8,
        "    r9: ",
        snapshot.r9,
    );
    text.append(row.as_str());
    let row = register_row_text(
        "r10: ",
        snapshot.r10,
        "   r11: ",
        snapshot.r11,
        "   r12: ",
        snapshot.r12,
    );
    text.append(row.as_str());
    let row = register_row_text(
        "r13: ",
        snapshot.r13,
        "   r14: ",
        snapshot.r14,
        "   r15: ",
        snapshot.r15,
    );
    text.append(row.as_str());
    text
}

fn control_rows_text(snapshot: &Snapshot) -> (text: String)
    ensures
        text@ == control_rows(*snapshot),
{
    let mut text = register_row_text(
        "cr0: ",
        snapshot.cr0,
        "   cr2: ",
        snapshot.cr2,
        "   cr3: ",
        snapshot.cr3,
    );
    text.append("cr4: ");
    push_cell(&mut text, snapshot.cr4, 16);
    text.append("\n");
    text
}

fn segment_rows_text(snapshot: &Snapshot) -> (text: String)
    ensures
        text@ == segment_rows(*snapshot),
{
    let mut text = segment_row_text("cs        ", snapshot.cs);
    let row = segment_row_text("ss        ", snapshot.ss);
    text.append(row.as_str());
    let row = segment_row_text("ds        ", snapshot.ds);
    text.append(row.as_str());
    let row = segment_row_text("es        ", snapshot.es);
    text.append(row.as_str());
    let row = segment_row_text("fs        ", snapshot.fs);
    text.append(row.as_str());
    let row = segment_row_text("gs        ", snapshot.gs);
    text.append(row.as_str());
    let row = segment_row_text("tr        ", snapshot.tr);
    text.append(row.as_str());
    let row = segment_row_text("ldt       ", snapshot.ldtr);
    text.append(row.as_str());
    text
}

fn table_rows_text(snapshot: &Snapshot) -> (text: String)
    ensures
        text@ == table_rows(*snapshot),
{
    let mut text = table_row_text("gdt                 ", snapshot.gdtr_base, snapshot.gdtr_limit);
    let row = table_row_text("idt                 ", snapshot.idtr_base, snapshot.idtr_limit);
    text.append(row.as_str());
    text
}

fn apic_row_text(snapshot: &Snapshot) -> (text: String)
    ensures
        text@ == apic_row(*snapshot),
{
    let mut text = String::from_str("efer: ");
    push_cell(&mut text, snapshot.efer, 16);
    text.append("  apic base: ");
    push_hex(&mut text, APIC_DEFAULT_BASE, 16);
    text.append("\n");
    text
}

impl Snapshot {
    /// The text of the state dump.
    pub fn render(&self) -> (text: String)
        ensures
            text@ == rendered(*self),
    {
        let mut text = String::from_str("\nDump state of CPU ");
        push_decimal(&mut text, self.cpu);
        text.append("\n\nRegisters:\n----------\n");
        let part = general_rows_text(self);
        text.append(part.as_str());
        let part = control_rows_text(self);
        text.append(part.as_str());
        text.append("\nSegment registers:\n------------------\n");
        text.append("register  selector  base              limit     type  p dpl db s l g avl\n");
        let part = segment_rows_text(self);
        text.append(part.as_str());
        let part = table_rows_text(self);
        text.append(part.as_str());
        text.append("\nAPIC:\n-----\n");
        let part = apic_row_text(self);
        text.append(part.as_str());
        text
    }
}

} // verus!
