//! The Mini UART driver: the bring-up program, the transmit and receive
//! decisions, and the line-ending translation of the console.

use vstd::prelude::*;
use crate::field::{Field, FieldValue, combine, is_set, write_word};
use crate::regs::{Reg, RegOp, run_ops, REG_COUNT};

verus! {

/// Clock of the auxiliary peripherals, in Hz.
pub const AUX_UART_CLOCK: u32 = 500_000_000;

/// Line speed the console runs at.
pub const CONSOLE_BAUD: u32 = 115_200;

/// `AUX_ENABLES.MINI_UART_ENABLE`: bit 0.
pub const MINI_UART_ENABLE_SHIFT: u32 = 0;
/// `AUX_MU_IIR.FIFO_CLEAR`: bits 1 and 2.
pub const FIFO_CLEAR_SHIFT: u32 = 1;
/// `FIFO_CLEAR` value that clears both FIFOs.
pub const FIFO_CLEAR_ALL: u32 = 0b11;
/// `AUX_MU_LCR.DATA_SIZE`: bits 0 and 1.
pub const DATA_SIZE_SHIFT: u32 = 0;
/// `DATA_SIZE` value for 7-bit data.
pub const DATA_SIZE_SEVEN_BIT: u32 = 0b00;
/// `DATA_SIZE` value for 8-bit data.
pub const DATA_SIZE_EIGHT_BIT: u32 = 0b11;
/// `AUX_MU_LSR.TX_EMPTY`: bit 5.
pub const TX_EMPTY_SHIFT: u32 = 5;
/// `AUX_MU_LSR.DATA_READY`: bit 0.
pub const DATA_READY_SHIFT: u32 = 0;
/// `AUX_MU_CNTL.TX_EN`: bit 1.
pub const TX_EN_SHIFT: u32 = 1;
/// `AUX_MU_CNTL.RX_EN`: bit 0.
pub const RX_EN_SHIFT: u32 = 0;
/// `AUX_MU_BAUD.RATE`: bits 0 to 15.
pub const RATE_MASK: u32 = 0xFFFF;
/// `GPFSEL1.FSEL14`: bits 12 to 14.
pub const FSEL14_SHIFT: u32 = 12;
/// `GPFSEL1.FSEL15`: bits 15 to 17.
pub const FSEL15_SHIFT: u32 = 15;
/// Function-select value routing pin 14 to TXD1 and pin 15 to RXD1
/// (alternate function 5).
pub const FSEL_MINI_UART: u32 = 0b010;
/// `GPPUPPDN0.GPPCNTRL14`: bits 28 and 29.
pub const GPPCNTRL14_SHIFT: u32 = 28;
/// `GPPUPPDN0.GPPCNTRL15`: bits 30 and 31.
pub const GPPCNTRL15_SHIFT: u32 = 30;
/// Pull-control value for no pull resistor.
pub const PULL_NONE: u32 = 0b00;

pub open spec fn one_bit(shift: u32) -> Field {
    Field { mask: 1, shift }
}

pub open spec fn two_bits(shift: u32) -> Field {
    Field { mask: 0b11, shift }
}

pub open spec fn three_bits(shift: u32) -> Field {
    Field { mask: 0b111, shift }
}

/// The baud-rate divisor for `baud` at the auxiliary clock.
pub open spec fn spec_aux_baud(baud: u32) -> int {
    AUX_UART_CLOCK as int / (baud as int * 8) - 1
}

/// The baud-rate divisor for `baud`: the auxiliary clock divided by eight
/// times the rate, rounded down, less one.
pub fn aux_baud(baud: u32) -> (r: u32)
    requires
        0 < baud,
        baud as int * 8 <= AUX_UART_CLOCK,
    ensures
        r == spec_aux_baud(baud),
{
    let q = AUX_UART_CLOCK / (baud * 8);
    assert(q >= 1) by (nonlinear_arith)
        requires
            q == AUX_UART_CLOCK as int / (baud as int * 8),
            0 < baud as int * 8 <= AUX_UART_CLOCK,
    ;
    q - 1
}

/// The operations that bring the Mini UART from any state to 115200 baud,
/// 8 data bits, no parity, 1 stop bit, with pins 14 and 15 routed to it:
/// clock gate on; interrupts off; transmitter and receiver off; 8-bit data;
/// modem control cleared; interrupts off again; both FIFOs cleared; baud
/// divisor; pulls off and alternate function on the two pins; transmitter
/// and receiver on.
pub open spec fn init_program() -> Seq<RegOp> {
    seq![
        RegOp::Modify(Reg::AuxEnables, one_bit(MINI_UART_ENABLE_SHIFT).spec_val(1)),
        RegOp::Write(Reg::MuIer, 0),
        RegOp::Write(Reg::MuCntl, 0),
        RegOp::Write(Reg::MuLcr, two_bits(DATA_SIZE_SHIFT).spec_val(DATA_SIZE_EIGHT_BIT).value),
        RegOp::Write(Reg::MuMcr, 0),
        RegOp::Write(Reg::MuIer, 0),
        RegOp::Write(Reg::MuIir, two_bits(FIFO_CLEAR_SHIFT).spec_val(FIFO_CLEAR_ALL).value),
        RegOp::Write(
            Reg::MuBaud,
            Field { mask: RATE_MASK, shift: 0 }.spec_val(spec_aux_baud(CONSOLE_BAUD) as u32).value,
        ),
        RegOp::Modify(
            Reg::GpPupPdn0,
            two_bits(GPPCNTRL15_SHIFT).spec_val(PULL_NONE).plus(
                two_bits(GPPCNTRL14_SHIFT).spec_val(PULL_NONE),
            ),
        ),
        RegOp::Modify(
            Reg::GpFsel1,
            three_bits(FSEL14_SHIFT).spec_val(FSEL_MINI_UART).plus(
                three_bits(FSEL15_SHIFT).spec_val(FSEL_MINI_UART),
            ),
        ),
        RegOp::Write(
            Reg::MuCntl,
            one_bit(RX_EN_SHIFT).spec_val(1).plus(one_bit(TX_EN_SHIFT).spec_val(1)).value,
        ),
    ]
}

/// The line-ending translation of outgoing text: each line feed goes out
/// as a carriage return followed by the line feed.
pub open spec fn crlf(s: Seq<char>) -> Seq<char>
    decreases s.len(),
{
    if s.len() == 0 {
        seq![]
    } else if s.last() == '\n' {
        crlf(s.drop_last()) + seq!['\r', '\n']
    } else {
        crlf(s.drop_last()).push(s.last())
    }
}

/// The code of the character handed to the caller for a received data
/// word: its low byte, with a carriage return read as a line feed.
pub open spec fn received_byte(io: u32) -> u32 {
    if (io & 0xFF) == 0x0D {
        0x0A
    } else {
        io & 0xFF
    }
}

/// One access of a polling transfer, in the order the driver makes them.
#[derive(Clone, Copy, Debug, PartialEq, Eq, Structural)]
pub enum BusAccess {
    /// A read of the line-status register.
    ReadStatus,
    /// A read of the data register.
    ReadData,
    /// A store of the word to the data register.
    WriteData(u32),
}

/// The accesses of a transfer that waits for `mask` in the line-status
/// words `reads`, one read per word, and makes `access` right after the
/// first read that shows it; a transfer still waiting at the end of
/// `reads` has made only the status reads.
pub open spec fn polled(reads: Seq<u32>, mask: u32, access: BusAccess) -> Seq<BusAccess>
    decreases reads.len(),
{
    if reads.len() == 0 {
        seq![]
    } else if reads[0] & mask != 0 {
        seq![BusAccess::ReadStatus, access]
    } else {
        seq![BusAccess::ReadStatus] + polled(reads.drop_first(), mask, access)
    }
}

/// `n` status reads.
pub open spec fn status_reads(n: nat) -> Seq<BusAccess> {
    Seq::new(n, |i: int| BusAccess::ReadStatus)
}

/// The text the console greets with.
pub open spec fn greeting() -> Seq<char> {
    "Hello, Steven!\n"@
}

/// The fields used by the driver lie inside their words.
proof fn lemma_fields_wf()
    ensures
        one_bit(MINI_UART_ENABLE_SHIFT).wf(),
        one_bit(TX_EMPTY_SHIFT).wf(),
        one_bit(DATA_READY_SHIFT).wf(),
        one_bit(TX_EN_SHIFT).wf(),
        one_bit(RX_EN_SHIFT).wf(),
        two_bits(FIFO_CLEAR_SHIFT).wf(),
        two_bits(DATA_SIZE_SHIFT).wf(),
        two_bits(GPPCNTRL14_SHIFT).wf(),
        two_bits(GPPCNTRL15_SHIFT).wf(),
        three_bits(FSEL14_SHIFT).wf(),
        three_bits(FSEL15_SHIFT).wf(),
        (Field { mask: RATE_MASK, shift: 0 }).wf(),
{
    assert(((1u32 << 0u32) >> 0u32) == 1u32 && ((1u32 << 5u32) >> 5u32) == 1u32 && ((1u32
        << 1u32) >> 1u32) == 1u32 && ((3u32 << 1u32) >> 1u32) == 3u32 && ((3u32 << 0u32)
        >> 0u32) == 3u32 && ((3u32 << 28u32) >> 28u32) == 3u32 && ((3u32 << 30u32) >> 30u32)
        == 3u32 && ((7u32 << 12u32) >> 12u32) == 7u32 && ((7u32 << 15u32) >> 15u32) == 7u32
        && ((0xFFFFu32 << 0u32) >> 0u32) == 0xFFFFu32) by (bit_vector);
}

/// When the status bit first shows on the poll after `n` polls that did
/// not show it, a transfer makes exactly those `n + 1` status reads and
/// then its data access; while the bit never shows it makes status reads
/// only, and never the data access.
pub proof fn lemma_wait_then_access(reads: Seq<u32>, mask: u32, access: BusAccess, n: int)
    requires
        0 <= n <= reads.len(),
        forall|i: int| 0 <= i < n ==> #[trigger] reads[i] & mask == 0,
    ensures
        n < reads.len() && reads[n] & mask != 0 ==> polled(reads, mask, access) == status_reads(
            (n + 1) as nat,
        ).push(access),
        n == reads.len() ==> polled(reads, mask, access) == status_reads(n as nat),
    decreases n,
{
    if n > 0 {
        let rest = reads.drop_first();
        assert forall|i: int| 0 <= i < n - 1 implies #[trigger] rest[i] & mask == 0 by {
            assert(rest[i] == reads[i + 1]);
        }
        lemma_wait_then_access(rest, mask, access, n - 1);
        assert(reads[0] & mask == 0);
        assert(status_reads(n as nat) == seq![BusAccess::ReadStatus] + status_reads(
            (n - 1) as nat,
        ));
        assert(status_reads((n + 1) as nat).push(access) == seq![BusAccess::ReadStatus]
            + status_reads(n as nat).push(access));
    } else {
        assert(status_reads(1).push(access) == seq![BusAccess::ReadStatus, access]);
        assert(status_reads(0) == Seq::<BusAccess>::empty());
    }
}

/// Register contents keep their number of registers.
proof fn lemma_run_len(s: Seq<u32>, ops: Seq<RegOp>)
    requires
        s.len() == REG_COUNT,
    ensures
        run_ops(s, ops).len() == s.len(),
    decreases ops.len(),
{
    if ops.len() > 0 {
        lemma_run_len(s, ops.drop_last());
    }
}

/// Whatever the registers held before, the transmitter and receiver enable
/// bits keep their old values through the first two operations of the
/// bring-up program, are clear from the third (which zeroes the extra
/// control register) through the tenth, and are both set by the eleventh
/// and last. No operation of the program touches the data register.
pub proof fn lemma_init_enables_last(s: Seq<u32>, k: int)
    requires
        s.len() == REG_COUNT,
        0 <= k <= 10,
    ensures
        run_ops(s, init_program().take(k))[Reg::MuCntl.spec_index()] & 0b11 == if k < 3 {
            s[Reg::MuCntl.spec_index()] & 0b11
        } else {
            0
        },
        run_ops(s, init_program())[Reg::MuCntl.spec_index()] & 0b11 == 0b11,
        forall|i: int| 0 <= i < init_program().len() ==> #[trigger] init_program()[i].target()
            != Reg::MuIo,
    decreases k,
{
    let p = init_program();
    let c = Reg::MuCntl.spec_index();
    if k > 0 {
        lemma_init_enables_last(s, k - 1);
        assert(p.take(k).drop_last() == p.take(k - 1));
        lemma_run_len(s, p.take(k - 1));
        if k == 3 {
            assert(0u32 & 0b11 == 0) by (bit_vector);
        }
    } else {
        assert(p.take(0) == Seq::<RegOp>::empty());
    }
    lemma_run_len(s, p.take(10));
    assert(p.take(11).drop_last() == p.take(10));
    assert(p.take(11) == p);
    assert((((1u32 & 1u32) << 0u32) | ((1u32 & 1u32) << 1u32)) & 0b11 == 0b11) by (bit_vector);
}

/// A handle on the Mini UART. It holds no state: the hardware does.
pub struct MiniUart;

impl MiniUart {
    pub fn new() -> (r: MiniUart) {
        MiniUart
    }

    /// The register operations that set the Mini UART up, in the order in
    /// which they must be performed.
    pub fn init(&self) -> (r: Vec<RegOp>)
        ensures
            r@ == init_program(),
            forall|i: int| 0 <= i < r@.len() ==> (#[trigger] r@[i]).wf(),
    {
        proof {
            lemma_fields_wf();
        }
        let enable = Field { mask: 1, shift: MINI_UART_ENABLE_SHIFT }.val(1);
        let data_size = Field { mask: 0b11, shift: DATA_SIZE_SHIFT }.val(DATA_SIZE_EIGHT_BIT);
        let fifo = Field { mask: 0b11, shift: FIFO_CLEAR_SHIFT }.val(FIFO_CLEAR_ALL);
        let rate = Field { mask: RATE_MASK, shift: 0 }.val(aux_baud(CONSOLE_BAUD));
        let pulls = combine(
            Field { mask: 0b11, shift: GPPCNTRL15_SHIFT }.val(PULL_NONE),
            Field { mask: 0b11, shift: GPPCNTRL14_SHIFT }.val(PULL_NONE),
        );
        let pins = combine(
            Field { mask: 0b111, shift: FSEL14_SHIFT }.val(FSEL_MINI_UART),
            Field { mask: 0b111, shift: FSEL15_SHIFT }.val(FSEL_MINI_UART),
        );
        let on = combine(
            Field { mask: 1, shift: RX_EN_SHIFT }.val(1),
            Field { mask: 1, shift: TX_EN_SHIFT }.val(1),
        );
        let mut ops: Vec<RegOp> = Vec::new();
        ops.push(RegOp::Modify(Reg::AuxEnables, enable));
        ops.push(RegOp::Write(Reg::MuIer, 0));
        ops.push(RegOp::Write(Reg::MuCntl, 0));
        ops.push(RegOp::Write(Reg::MuLcr, write_word(data_size)));
        ops.push(RegOp::Write(Reg::MuMcr, 0));
        ops.push(RegOp::Write(Reg::MuIer, 0));
        ops.push(RegOp::Write(Reg::MuIir, write_word(fifo)));
        ops.push(RegOp::Write(Reg::MuBaud, write_word(rate)));
        ops.push(RegOp::Modify(Reg::GpPupPdn0, pulls));
        ops.push(RegOp::Modify(Reg::GpFsel1, pins));
        ops.push(RegOp::Write(Reg::MuCntl, write_word(on)));
        assert(ops@ == init_program());
        ops
    }

    /// Whether a line-status word says the transmitter can take a byte.
    pub fn tx_ready(&self, lsr: u32) -> (r: bool)
        ensures
            r == (lsr & (1u32 << TX_EMPTY_SHIFT) != 0),
    {
        proof {
            lemma_fields_wf();
        }
        is_set(lsr, Field { mask: 1, shift: TX_EMPTY_SHIFT })
    }

    /// Whether a line-status word says a received byte is waiting.
    pub fn rx_ready(&self, lsr: u32) -> (r: bool)
        ensures
            r == (lsr & (1u32 << DATA_READY_SHIFT) != 0),
    {
        proof {
            lemma_fields_wf();
        }
        is_set(lsr, Field { mask: 1, shift: DATA_READY_SHIFT })
    }

    /// The word to store in the data register to send `c`; to be stored
    /// only once [`MiniUart::tx_ready`] holds.
    pub fn send(&self, c: char) -> (r: u32)
        ensures
            r == c as u32,
    {
        c as u32
    }

    /// The character received, given the word read from the data register
    /// once [`MiniUart::rx_ready`] holds: its low byte, with a carriage
    /// return turned into a line feed.
    pub fn getc(&self, io: u32) -> (r: char)
        ensures
            r as u32 == received_byte(io),
    {
        assert(io & 0xFF < 256) by (bit_vector);
        let b = (io & 0xFF) as u8;
        if b == 0x0D {
            '\n'
        } else {
            b as char
        }
    }

    /// The accesses of a transfer that sends `c`, when the line-status
    /// register reads as `lsr_reads` one poll after another.
    pub fn send_polled(&self, lsr_reads: &Vec<u32>, c: char) -> (r: Vec<BusAccess>)
        ensures
            r@ == polled(lsr_reads@, 1u32 << TX_EMPTY_SHIFT, BusAccess::WriteData(c as u32)),
    {
        let mut out: Vec<BusAccess> = Vec::new();
        let mut i: usize = 0;
        let a = BusAccess::WriteData(self.send(c));
        assert(lsr_reads@.skip(0) == lsr_reads@);
        assert(out@ + polled(lsr_reads@, 1u32 << TX_EMPTY_SHIFT, a) == polled(lsr_reads@, 1u32 << TX_EMPTY_SHIFT, a));
        while i < lsr_reads.len()
            invariant
                i <= lsr_reads@.len(),
                a == BusAccess::WriteData(c as u32),
                polled(lsr_reads@, 1u32 << TX_EMPTY_SHIFT, a) == out@ + polled(
                    lsr_reads@.skip(i as int),
                    1u32 << TX_EMPTY_SHIFT,
                    a,
                ),
            decreases lsr_reads@.len() - i,
        {
            assert(lsr_reads@.skip(i as int).drop_first() == lsr_reads@.skip(i as int + 1));
            out.push(BusAccess::ReadStatus);
            if self.tx_ready(lsr_reads[i]) {
                out.push(a);
                return out;
            }
            i = i + 1;
        }
        out
    }

    /// The accesses of a transfer that receives a character, when the
    /// line-status register reads as `lsr_reads` one poll after another
    /// and the data register holds `io`, and the character received, if
    /// the transfer got that far.
    pub fn getc_polled(&self, lsr_reads: &Vec<u32>, io: u32) -> (r: (Vec<BusAccess>, Option<char>))
        ensures
            r.0@ == polled(lsr_reads@, 1u32 << DATA_READY_SHIFT, BusAccess::ReadData),
            r.1 is Some <==> exists|i: int|
                0 <= i < lsr_reads@.len() && #[trigger] lsr_reads@[i] & (1u32 << DATA_READY_SHIFT)
                    != 0,
            r.1 matches Some(ch) ==> ch as u32 == received_byte(io),
    {
        let mut out: Vec<BusAccess> = Vec::new();
        let mut i: usize = 0;
        let ghost m = 1u32 << DATA_READY_SHIFT;
        assert(lsr_reads@.skip(0) == lsr_reads@);
        assert(out@ + polled(lsr_reads@, m, BusAccess::ReadData) == polled(lsr_reads@, m, BusAccess::ReadData));
        while i < lsr_reads.len()
            invariant
                i <= lsr_reads@.len(),
                m == 1u32 << DATA_READY_SHIFT,
                polled(lsr_reads@, m, BusAccess::ReadData) == out@ + polled(
                    lsr_reads@.skip(i as int),
                    m,
                    BusAccess::ReadData,
                ),
                forall|j: int| 0 <= j < i ==> #[trigger] lsr_reads@[j] & m == 0,
            decreases lsr_reads@.len() - i,
        {
            assert(lsr_reads@.skip(i as int).drop_first() == lsr_reads@.skip(i as int + 1));
            out.push(BusAccess::ReadStatus);
            if self.rx_ready(lsr_reads[i]) {
                out.push(BusAccess::ReadData);
                let ch = self.getc(io);
                return (out, Some(ch));
            }
            i = i + 1;
        }
        assert(lsr_reads@.skip(i as int) == Seq::<u32>::empty());
        (out, None)
    }

    /// The characters to send, in order, to display `string`: its
    /// characters, with a carriage return before each line feed.
    pub fn puts(&self, string: &str) -> (r: Vec<char>)
        ensures
            r@ == crlf(string@),
    {
        let n = string.unicode_len();
        let mut out: Vec<char> = Vec::new();
        let mut i: usize = 0;
        while i < n
            invariant
                n == string@.len(),
                i <= n,
                out@ == crlf(string@.take(i as int)),
            decreases n - i,
        {
            let c = string.get_char(i);
            assert(string@.take(i as int + 1).drop_last() == string@.take(i as int));
            if c == '\n' {
                out.push('\r');
            }
            out.push(c);
            i = i + 1;
        }
        assert(string@.take(n as int) == string@);
        out
    }
}

/// What the console does before it starts echoing: the operations that
/// bring the Mini UART up, then the characters of its greeting. After
/// that each received character is sent back as it came.
pub fn kernel_entry() -> (r: (Vec<RegOp>, Vec<char>))
    ensures
        r.0@ == init_program(),
        forall|i: int| 0 <= i < r.0@.len() ==> (#[trigger] r.0@[i]).wf(),
        r.1@ == crlf(greeting()),
{
    let uart = MiniUart::new();
    let ops = uart.init();
    let text = uart.puts("Hello, Steven!\n");
    (ops, text)
}

} // verus!
