use ehyve::snapshot::snapshot_reads;
use ehyve::{Field, HostCall, Register, Segment, SegmentState, Snapshot};

fn segment(selector: u64, base: u64, limit: u64, rights: u64) -> SegmentState {
    SegmentState { selector: Some(selector), base: Some(base), limit: Some(limit), rights: Some(rights) }
}

fn sample() -> Snapshot {
    let mut snapshot = Snapshot::empty(1);
    snapshot.rip = Some(0x0020_0000);
    snapshot.rflags = Some(0x2);
    snapshot.rsp = Some(0x0000_7fff_ffff_f000);
    snapshot.rbp = Some(0x1);
    snapshot.rax = Some(0xdead_beef_0000_0001);
    snapshot.rbx = Some(0x2);
    snapshot.rcx = Some(0x3);
    snapshot.rdx = Some(0x4);
    snapshot.rsi = Some(0x5);
    snapshot.rdi = Some(0x6);
    snapshot.r8 = Some(0x8);
    snapshot.r9 = Some(0x9);
    snapshot.r10 = Some(0x10);
    snapshot.r11 = Some(0x11);
    snapshot.r12 = Some(0x12);
    snapshot.r13 = Some(0x13);
    snapshot.r14 = Some(0x14);
    snapshot.r15 = Some(u64::MAX);
    snapshot.cr0 = Some(0xe000_0011);
    snapshot.cr2 = Some(0);
    snapshot.cr3 = Some(0x10000);
    snapshot.cr4 = Some(0x20);
    snapshot.cs = segment(0x08, 0, 0x000f_ffff, 0xa09b);
    snapshot.ss = segment(0x10, 0, 0x000f_ffff, 0xc093);
    snapshot.ds = segment(0x10, 0, 0x000f_ffff, 0xc093);
    snapshot.es = segment(0x10, 0, 0x000f_ffff, 0xc093);
    snapshot.fs = segment(0x10, 0xffff_8000_0000_1000, 0x000f_ffff, 0xc093);
    snapshot.gs = segment(0x13, 0, 0x000f_ffff, 0xc0f3);
    snapshot.tr = segment(0, 0, 0xffff, 0x8b);
    snapshot.ldtr = segment(0, 0, 0xffff, 0x82);
    snapshot.gdtr_base = Some(0x1000);
    snapshot.gdtr_limit = Some(23);
    snapshot.idtr_base = Some(0);
    snapshot.idtr_limit = Some(0xffff);
    snapshot.efer = Some(0x500);
    snapshot
}

fn segment_line(name: &str, state: &SegmentState) -> String {
    let selector = state.selector.unwrap();
    let base = state.base.unwrap();
    let limit = state.limit.unwrap();
    let ar = state.rights.unwrap();
    format!(
        "{}{:04x}      {:016x}  {:08x}  {:02x}    {:x} {:x}   {:x}  {:x} {:x} {:x} {:x}\n",
        name,
        selector,
        base,
        limit,
        ar & 0xf,
        (ar >> 7) & 0x1,
        (ar >> 5) & 0x3,
        (ar >> 14) & 0x1,
        (ar >> 4) & 0x1,
        (ar >> 13) & 0x1,
        (ar >> 15) & 0x1,
        (ar >> 12) & 1
    )
}

fn expected(s: &Snapshot) -> String {
    let mut text = String::new();
    text += &format!("\nDump state of CPU {}\n", s.cpu);
    text += "\nRegisters:\n";
    text += "----------\n";
    text += &format!(
        "rip: {:016x}   rsp: {:016x} flags: {:016x}\n",
        s.rip.unwrap(),
        s.rsp.unwrap(),
        s.rflags.unwrap()
    );
    text += &format!(
        "rax: {:016x}   rbx: {:016x}   rcx: {:016x}\n",
        s.rax.unwrap(),
        s.rbx.unwrap(),
        s.rcx.unwrap()
    );
    text += &format!(
        "rdx: {:016x}   rsi: {:016x}   rdi: {:016x}\n",
        s.rdx.unwrap(),
        s.rsi.unwrap(),
        s.rdi.unwrap()
    );
    text += &format!(
        "rbp: {:016x}    r8: {:016x}    r9: {:016x}\n",
        s.rbp.unwrap(),
        s.r8.unwrap(),
        s.r9.unwrap()
    );
    text += &format!(
        "r10: {:016x}   r11: {:016x}   r12: {:016x}\n",
        s.r10.unwrap(),
        s.r11.unwrap(),
        s.r12.unwrap()
    );
    text += &format!(
        "r13: {:016x}   r14: {:016x}   r15: {:016x}\n",
        s.r13.unwrap(),
        s.r14.unwrap(),
        s.r15.unwrap()
    );
    text += &format!(
        "cr0: {:016x}   cr2: {:016x}   cr3: {:016x}\ncr4: {:016x}\n",
        s.cr0.unwrap(),
        s.cr2.unwrap(),
        s.cr3.unwrap(),
        s.cr4.unwrap()
    );
    text += "\nSegment registers:\n";
    text += "------------------\n";
    text += "register  selector  base              limit     type  p dpl db s l g avl\n";
    text += &segment_line("cs        ", &s.cs);
    text += &segment_line("ss        ", &s.ss);
    text += &segment_line("ds        ", &s.ds);
    text += &segment_line("es        ", &s.es);
    text += &segment_line("fs        ", &s.fs);
    text += &segment_line("gs        ", &s.gs);
    text += &segment_line("tr        ", &s.tr);
    text += &segment_line("ldt       ", &s.ldtr);
    text += &format!("gdt                 {:016x}  {:08x}\n", s.gdtr_base.unwrap(), s.gdtr_limit.unwrap());
    text += &format!("idt                 {:016x}  {:08x}\n", s.idtr_base.unwrap(), s.idtr_limit.unwrap());
    text += "\nAPIC:\n";
    text += "-----\n";
    text += &format!("efer: {:016x}  apic base: {:016x}\n", s.efer.unwrap(), 0xfee0_0000u64);
    text
}

#[test]
fn the_dump_has_the_fixed_layout() {
    let snapshot = sample();
    assert_eq!(snapshot.render(), expected(&snapshot));
}

#[test]
fn the_dump_in_full() {
    let text = sample().render();
    let lines: Vec<&str> = text.split('\n').collect();
    assert_eq!(lines[0], "");
    assert_eq!(lines[1], "Dump state of CPU 1");
    assert_eq!(lines[2], "");
    assert_eq!(lines[3], "Registers:");
    assert_eq!(lines[4], "----------");
    assert_eq!(lines[5], "rip: 0000000000200000   rsp: 00007ffffffff000 flags: 0000000000000002");
    assert_eq!(lines[6], "rax: deadbeef00000001   rbx: 0000000000000002   rcx: 0000000000000003");
    assert_eq!(lines[7], "rdx: 0000000000000004   rsi: 0000000000000005   rdi: 0000000000000006");
    assert_eq!(lines[8], "rbp: 0000000000000001    r8: 0000000000000008    r9: 0000000000000009");
    assert_eq!(lines[9], "r10: 0000000000000010   r11: 0000000000000011   r12: 0000000000000012");
    assert_eq!(lines[10], "r13: 0000000000000013   r14: 0000000000000014   r15: ffffffffffffffff");
    assert_eq!(lines[11], "cr0: 00000000e0000011   cr2: 0000000000000000   cr3: 0000000000010000");
    assert_eq!(lines[12], "cr4: 0000000000000020");
    assert_eq!(lines[13], "");
    assert_eq!(lines[14], "Segment registers:");
    assert_eq!(lines[15], "------------------");
    assert_eq!(lines[16], "register  selector  base              limit     type  p dpl db s l g avl");
    assert_eq!(lines[17], "cs        0008      0000000000000000  000fffff  0b    1 0   0  1 1 1 0");
    assert_eq!(lines[18], "ss        0010      0000000000000000  000fffff  03    1 0   1  1 0 1 0");
    assert_eq!(lines[21], "fs        0010      ffff800000001000  000fffff  03    1 0   1  1 0 1 0");
    assert_eq!(lines[22], "gs        0013      0000000000000000  000fffff  03    1 3   1  1 0 1 0");
    assert_eq!(lines[23], "tr        0000      0000000000000000  0000ffff  0b    1 0   0  0 0 0 0");
    assert_eq!(lines[24], "ldt       0000      0000000000000000  0000ffff  02    1 0   0  0 0 0 0");
    assert_eq!(lines[25], "gdt                 0000000000001000  00000017");
    assert_eq!(lines[26], "idt                 0000000000000000  0000ffff");
    assert_eq!(lines[27], "");
    assert_eq!(lines[28], "APIC:");
    assert_eq!(lines[29], "-----");
    assert_eq!(lines[30], "efer: 0000000000000500  apic base: 00000000fee00000");
    assert_eq!(lines[31], "");
    assert_eq!(lines.len(), 32);
}

#[test]
fn the_dump_names_the_cpu_in_decimal() {
    let mut snapshot = sample();
    snapshot.cpu = 4_000_000_000;
    assert!(snapshot.render().starts_with("\nDump state of CPU 4000000000\n\nRegisters:\n"));
}

#[test]
fn a_value_that_could_not_be_read_shows_as_unavailable() {
    let mut snapshot = sample();
    snapshot.rsp = None;
    snapshot.cs.base = None;
    snapshot.ss.rights = None;
    snapshot.efer = None;
    let text = snapshot.render();
    let lines: Vec<&str> = text.split('\n').collect();
    assert_eq!(lines[5], "rip: 0000000000200000   rsp: unavailable flags: 0000000000000002");
    assert_eq!(lines[17], "cs        0008      unavailable  000fffff  0b    1 0   0  1 1 1 0");
    assert_eq!(
        lines[18],
        "ss        0010      0000000000000000  000fffff  unavailable    unavailable unavailable   unavailable  unavailable unavailable unavailable unavailable"
    );
    assert_eq!(lines[30], "efer: unavailable  apic base: 00000000fee00000");
    assert_eq!(lines.len(), 32);
}

#[test]
fn an_empty_snapshot_renders_without_a_value() {
    let text = Snapshot::empty(0).render();
    assert!(text.starts_with("\nDump state of CPU 0\n"));
    assert_eq!(text.matches("unavailable").count(), 22 + 8 * 11 + 4 + 1);
    assert!(text.ends_with("efer: unavailable  apic base: 00000000fee00000\n"));
}

#[test]
fn a_wide_selector_is_written_in_full() {
    let mut snapshot = sample();
    snapshot.cs.selector = Some(0x12345);
    snapshot.cs.limit = Some(0x1_0000_0000);
    let text = snapshot.render();
    let lines: Vec<&str> = text.split('\n').collect();
    assert_eq!(lines[17], "cs        12345      0000000000000000  100000000  0b    1 0   0  1 1 1 0");
}

#[test]
fn each_read_is_recorded_in_its_own_place() {
    let reads = snapshot_reads();
    assert_eq!(reads.len(), 59);
    let mut snapshot = Snapshot::empty(9);
    for (number, call) in reads.iter().enumerate() {
        snapshot = snapshot.record(*call, Some(number as u64));
    }
    assert_eq!(snapshot.cpu, 9);
    assert_eq!(snapshot.rip, Some(0));
    assert_eq!(snapshot.rflags, Some(1));
    assert_eq!(snapshot.rsp, Some(2));
    assert_eq!(snapshot.rbp, Some(3));
    assert_eq!(snapshot.rax, Some(4));
    assert_eq!(snapshot.r15, Some(17));
    assert_eq!(snapshot.cr0, Some(18));
    assert_eq!(snapshot.cr4, Some(21));
    assert_eq!(snapshot.cs.selector, Some(22));
    assert_eq!(snapshot.ds.selector, Some(23));
    assert_eq!(snapshot.es.selector, Some(24));
    assert_eq!(snapshot.ss.selector, Some(25));
    assert_eq!(snapshot.fs.selector, Some(26));
    assert_eq!(snapshot.gs.selector, Some(27));
    assert_eq!(snapshot.tr.selector, Some(28));
    assert_eq!(snapshot.ldtr.selector, Some(29));
    assert_eq!(snapshot.cs, SegmentState { selector: Some(22), limit: Some(30), base: Some(31), rights: Some(32) });
    assert_eq!(snapshot.ss, SegmentState { selector: Some(25), limit: Some(33), base: Some(34), rights: Some(35) });
    assert_eq!(snapshot.ldtr, SegmentState { selector: Some(29), limit: Some(51), base: Some(52), rights: Some(53) });
    assert_eq!(snapshot.gdtr_base, Some(54));
    assert_eq!(snapshot.gdtr_limit, Some(55));
    assert_eq!(snapshot.idtr_base, Some(56));
    assert_eq!(snapshot.idtr_limit, Some(57));
    assert_eq!(snapshot.efer, Some(58));
}

#[test]
fn a_call_that_is_no_read_of_the_dump_is_not_recorded() {
    let snapshot = sample();
    assert_eq!(snapshot.record(HostCall::Run, Some(1)), snapshot);
    assert_eq!(snapshot.record(HostCall::ReadField { field: Field::ExitReason }, Some(1)), snapshot);
    assert_eq!(snapshot.record(HostCall::ReadField { field: Field::Rip }, Some(1)), snapshot);
    assert_eq!(snapshot.record(HostCall::WriteField { field: Field::Efer, value: 3 }, Some(1)), snapshot);
}

#[test]
fn segments_are_read_and_replaced_by_name() {
    let snapshot = sample();
    assert_eq!(snapshot.segment(Segment::Gs), snapshot.gs);
    assert_eq!(snapshot.segment(Segment::Ldtr), snapshot.ldtr);
    let changed = snapshot.set_segment(Segment::Tr, snapshot.cs);
    assert_eq!(changed.tr, snapshot.cs);
    assert_eq!(changed.cs, snapshot.cs);
    let recorded = snapshot.record(HostCall::ReadRegister { register: Register::Selector(Segment::Es) }, None);
    assert_eq!(recorded.es.selector, None);
    assert_eq!(recorded.es.base, snapshot.es.base);
}
