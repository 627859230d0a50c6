//! Driver logic for the BCM2711 auxiliary Mini UART: register field
//! arithmetic, the register map, the bring-up program and the polling
//! decisions of the transmit and receive paths.
//!
//! The library never touches memory itself. It computes the words and the
//! ordered register operations; a caller that owns the hardware performs
//! them with volatile accesses.

mod field;
mod regs;
mod uart;

pub use field::{Field, FieldValue, is_set, modify_word, write_word, combine};
pub use regs::{Mode, Reg, RegOp, RegisterBlock, run_ops, AUX_BASE, GPIO_BASE, PERIPHERAL_BASE, REG_COUNT};
pub use uart::{BusAccess, MiniUart, aux_baud, kernel_entry};
