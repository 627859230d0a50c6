use mini_uart::{
    aux_baud, combine, is_set, kernel_entry, modify_word, write_word, BusAccess, Field,
    FieldValue, MiniUart, Mode, Reg, RegOp, RegisterBlock, AUX_BASE, REG_COUNT,
};

const CNTL_ENABLES: u32 = 0b11;

fn fsel14() -> Field {
    Field { mask: 0b111, shift: 12 }
}

fn fsel15() -> Field {
    Field { mask: 0b111, shift: 15 }
}

#[test]
fn baud_divisor_follows_formula_at_console_rate() {
    // 500_000_000 / (115_200 * 8) = 542 (rounded down), less one.
    assert_eq!(aux_baud(115_200), 541);
}

#[test]
fn baud_divisor_at_9600() {
    assert_eq!(aux_baud(9_600), 6_509);
}

#[test]
fn baud_divisor_at_slowest_and_fastest_rates() {
    assert_eq!(aux_baud(1), 62_499_999);
    assert_eq!(aux_baud(62_500_000), 0);
}

#[test]
fn field_val_shifts_and_cuts_the_value() {
    let fv = fsel15().val(0b1010);
    assert_eq!(fv.mask, 0b111 << 15);
    assert_eq!(fv.value, 0b010 << 15);
}

#[test]
fn modify_leaves_neighbouring_field_unchanged() {
    for old in [0u32, 0xFFFF_FFFF, 0x0003_8000, 0x1234_5678] {
        for v in 0u32..8 {
            let w = modify_word(old, fsel14().val(v));
            assert_eq!(w & (0b111 << 15), old & (0b111 << 15));
            assert_eq!(w & !(0b111 << 12), old & !(0b111 << 12));
            assert_eq!((w >> 12) & 0b111, v);
        }
    }
}

#[test]
fn write_sets_exactly_the_named_fields() {
    let fv = combine(fsel14().val(0b010), fsel15().val(0b011));
    assert_eq!(fv.mask, (0b111 << 12) | (0b111 << 15));
    let w = write_word(fv);
    assert_eq!(w, (0b010 << 12) | (0b011 << 15));
    assert_eq!(w & !fv.mask, 0);
}

#[test]
fn is_set_reads_the_field_bits() {
    let tx_empty = Field { mask: 1, shift: 5 };
    assert!(is_set(0x20, tx_empty));
    assert!(!is_set(0x1F, tx_empty));
    assert!(!is_set(0xFFFF_FFDF, tx_empty));
}

#[test]
fn modify_word_replaces_under_mask() {
    let fv = FieldValue { mask: 0xF0, value: 0x50 };
    assert_eq!(modify_word(0xFFFF_FFFF, fv), 0xFFFF_FF5F);
    assert_eq!(modify_word(0, fv), 0x50);
}

#[test]
fn puts_translates_line_feeds() {
    let uart = MiniUart::new();
    assert_eq!(uart.puts("Hello\n"), vec!['H', 'e', 'l', 'l', 'o', '\r', '\n']);
}

#[test]
fn puts_empty_and_plain_text() {
    let uart = MiniUart::new();
    assert_eq!(uart.puts(""), Vec::<char>::new());
    assert_eq!(uart.puts("ab"), vec!['a', 'b']);
    assert_eq!(uart.puts("\n\n"), vec!['\r', '\n', '\r', '\n']);
    assert_eq!(uart.puts("é\n"), vec!['é', '\r', '\n']);
}

#[test]
fn getc_turns_carriage_return_into_line_feed() {
    let uart = MiniUart::new();
    assert_eq!(uart.getc(0x0D), '\n');
    assert_eq!(uart.getc(0x0A), '\n');
    assert_eq!(uart.getc(0x41), 'A');
    assert_eq!(uart.getc(0xFF), '\u{FF}');
    assert_eq!(uart.getc(0x0000_010D), '\n');
    assert_eq!(uart.getc(0x0000_0142), 'B');
}

#[test]
fn every_other_byte_passes_through() {
    let uart = MiniUart::new();
    for b in 0u32..256 {
        if b != 0x0D {
            assert_eq!(uart.getc(b) as u32, b);
        }
    }
}

#[test]
fn send_stores_the_character_code() {
    let uart = MiniUart::new();
    assert_eq!(uart.send('A'), 0x41);
    assert_eq!(uart.send('\r'), 0x0D);
}

#[test]
fn status_bits() {
    let uart = MiniUart::new();
    assert!(uart.tx_ready(1 << 5));
    assert!(!uart.tx_ready(1));
    assert!(uart.rx_ready(1));
    assert!(!uart.rx_ready(1 << 5));
}

#[test]
fn init_keeps_enables_off_until_last_step() {
    let uart = MiniUart::new();
    let ops = uart.init();
    assert_eq!(ops.len(), 11);
    let mut regs = RegisterBlock::new();
    regs.set(Reg::MuCntl, 0b11);
    for (k, op) in ops.iter().enumerate() {
        regs.apply(*op);
        let cntl = regs.get(Reg::MuCntl) & CNTL_ENABLES;
        if k < 2 {
            assert_eq!(cntl, 0b11);
        } else if k < 10 {
            assert_eq!(cntl, 0, "after step {}", k + 1);
        } else {
            assert_eq!(cntl, 0b11);
        }
        let touches_io = matches!(op, RegOp::Write(Reg::MuIo, _) | RegOp::Modify(Reg::MuIo, _));
        assert!(!touches_io);
    }
}

#[test]
fn init_programs_the_console_configuration() {
    let uart = MiniUart::new();
    let ops = uart.init();
    let mut regs = RegisterBlock::new();
    regs.set(Reg::AuxEnables, 0b110);
    regs.set(Reg::MuIer, 0b11);
    regs.set(Reg::GpFsel1, 0xFFFF_FFFF);
    regs.set(Reg::GpPupPdn0, 0xFFFF_FFFF);
    regs.run(&ops);
    assert_eq!(regs.get(Reg::AuxEnables), 0b111);
    assert_eq!(regs.get(Reg::MuIer), 0);
    assert_eq!(regs.get(Reg::MuLcr), 0b11);
    assert_eq!(regs.get(Reg::MuMcr), 0);
    assert_eq!(regs.get(Reg::MuIir), 0b110);
    assert_eq!(regs.get(Reg::MuBaud), 541);
    assert_eq!(regs.get(Reg::MuCntl), 0b11);
    // Pins 14 and 15 get alternate function 5; every other pin is untouched.
    let fsel = regs.get(Reg::GpFsel1);
    assert_eq!((fsel >> 12) & 0b111, 0b010);
    assert_eq!((fsel >> 15) & 0b111, 0b010);
    assert_eq!(fsel | (0b111111 << 12), 0xFFFF_FFFF);
    // Pulls off on pins 14 and 15 only.
    assert_eq!(regs.get(Reg::GpPupPdn0), 0x0FFF_FFFF);
}

#[test]
fn init_order_of_operations() {
    let ops = MiniUart::new().init();
    let targets: Vec<Reg> = ops
        .iter()
        .map(|op| match op {
            RegOp::Write(r, _) => *r,
            RegOp::Modify(r, _) => *r,
        })
        .collect();
    assert_eq!(
        targets,
        vec![
            Reg::AuxEnables,
            Reg::MuIer,
            Reg::MuCntl,
            Reg::MuLcr,
            Reg::MuMcr,
            Reg::MuIer,
            Reg::MuIir,
            Reg::MuBaud,
            Reg::GpPupPdn0,
            Reg::GpFsel1,
            Reg::MuCntl,
        ]
    );
    assert_eq!(ops[2], RegOp::Write(Reg::MuCntl, 0));
    assert_eq!(ops[10], RegOp::Write(Reg::MuCntl, 0b11));
}

#[test]
fn send_waits_then_writes() {
    let uart = MiniUart::new();
    let reads = vec![0, 0x01, 0x40, 0x20, 0x20];
    let trace = uart.send_polled(&reads, 'x');
    assert_eq!(
        trace,
        vec![
            BusAccess::ReadStatus,
            BusAccess::ReadStatus,
            BusAccess::ReadStatus,
            BusAccess::ReadStatus,
            BusAccess::WriteData('x' as u32),
        ]
    );
}

#[test]
fn send_ready_at_once() {
    let uart = MiniUart::new();
    let trace = uart.send_polled(&vec![0x60], '\n');
    assert_eq!(trace, vec![BusAccess::ReadStatus, BusAccess::WriteData(0x0A)]);
}

#[test]
fn send_never_ready_never_writes() {
    let uart = MiniUart::new();
    let trace = uart.send_polled(&vec![0, 0x1F, 0x40], 'x');
    assert_eq!(trace, vec![BusAccess::ReadStatus; 3]);
}

#[test]
fn receive_waits_then_reads() {
    let uart = MiniUart::new();
    let reads = vec![0, 0x20, 0x01];
    let (trace, c) = uart.getc_polled(&reads, 0x0D);
    assert_eq!(
        trace,
        vec![
            BusAccess::ReadStatus,
            BusAccess::ReadStatus,
            BusAccess::ReadStatus,
            BusAccess::ReadData,
        ]
    );
    assert_eq!(c, Some('\n'));
}

#[test]
fn receive_never_ready_never_reads() {
    let uart = MiniUart::new();
    let (trace, c) = uart.getc_polled(&vec![0x20, 0x20], 0x41);
    assert_eq!(trace, vec![BusAccess::ReadStatus; 2]);
    assert_eq!(c, None);
    let (trace, c) = uart.getc_polled(&vec![], 0x41);
    assert!(trace.is_empty());
    assert_eq!(c, None);
}

#[test]
fn register_addresses() {
    assert_eq!(AUX_BASE, 0xFE21_5000);
    assert_eq!(Reg::AuxEnables.address(), 0xFE21_5004);
    assert_eq!(Reg::MuIo.address(), 0xFE21_5040);
    assert_eq!(Reg::MuLsr.address(), 0xFE21_5054);
    assert_eq!(Reg::MuCntl.address(), 0xFE21_5060);
    assert_eq!(Reg::MuBaud.address(), 0xFE21_5068);
    assert_eq!(Reg::GpFsel1.address(), 0xFE20_0004);
    assert_eq!(Reg::GpPupPdn0.address(), 0xFE20_00E4);
}

#[test]
fn register_access_modes() {
    assert_eq!(Reg::MuLsr.access(), Mode::ReadOnly);
    assert_eq!(Reg::MuBaud.access(), Mode::WriteOnly);
    assert_eq!(Reg::MuIo.access(), Mode::ReadWrite);
    assert_eq!(Reg::GpFsel1.access(), Mode::ReadWrite);
}

#[test]
fn register_indices_are_distinct() {
    let all = [
        Reg::AuxEnables,
        Reg::MuIo,
        Reg::MuIer,
        Reg::MuIir,
        Reg::MuLcr,
        Reg::MuMcr,
        Reg::MuLsr,
        Reg::MuMsr,
        Reg::MuScratch,
        Reg::MuCntl,
        Reg::MuStat,
        Reg::MuBaud,
        Reg::GpFsel1,
        Reg::GpPupPdn0,
    ];
    let mut seen = vec![false; REG_COUNT];
    for r in all {
        assert!(!seen[r.index()]);
        seen[r.index()] = true;
    }
}

#[test]
fn entry_brings_up_then_greets() {
    let (ops, text) = kernel_entry();
    assert_eq!(ops, MiniUart::new().init());
    let expected: Vec<char> = "Hello, Steven!\r\n".chars().collect();
    assert_eq!(text, expected);
}
