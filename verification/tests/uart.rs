//! Virtual UART tests: FIFO ordering, status-flag transitions, underflow,
//! and the memory-mapped register window.

use riscv_vm::memory::{Memory, UART_FIFO_RX_ADDR, UART_FIFO_TX_ADDR, UART_FLAGS_ADDR};
use riscv_vm::vuart::{Uart, UartFlagsBm};

#[test]
fn tx_fifo_keeps_push_order() {
    let mut uart = Uart::new();
    uart.cpu_write_tx_fifo(0x41);
    uart.cpu_write_tx_fifo(0x42);
    uart.cpu_write_tx_fifo(0x43);
    assert_eq!(uart.ext_check_tx_fifo_len(), 3);
    assert_eq!(uart.ext_read_tx_fifo(), 0x41);
    assert_eq!(uart.ext_read_tx_fifo(), 0x42);
    assert_eq!(uart.ext_read_tx_fifo(), 0x43);
    assert_eq!(uart.ext_check_tx_fifo_len(), 0);
}

#[test]
fn rx_fifo_keeps_push_order() {
    let mut uart = Uart::new();
    uart.ext_write_rx_fifo(1);
    uart.ext_write_rx_fifo(2);
    uart.ext_write_rx_fifo(3);
    assert_eq!(uart.cpu_read_rx_fifo(), 1);
    assert_eq!(uart.cpu_read_rx_fifo(), 2);
    assert_eq!(uart.cpu_read_rx_fifo(), 3);
}

#[test]
fn flag_sets_on_first_byte_and_clears_on_last() {
    let mut uart = Uart::new();
    assert_eq!(uart.cpu_get_flags(), 0);
    uart.ext_write_rx_fifo(0x41);
    assert_eq!(uart.cpu_get_flags() & UartFlagsBm::RxDataAvail.mask(), 1);
    uart.ext_write_rx_fifo(0x42);
    assert_eq!(uart.cpu_get_flags(), 1);
    assert_eq!(uart.cpu_read_rx_fifo(), 0x41);
    // One byte still queued: the flag stays set.
    assert_eq!(uart.cpu_get_flags(), 1);
    assert_eq!(uart.cpu_read_rx_fifo(), 0x42);
    // The queue just became empty: the flag clears.
    assert_eq!(uart.cpu_get_flags(), 0);
}

#[test]
fn reading_an_empty_rx_fifo_is_recoverable() {
    let mut uart = Uart::new();
    assert_eq!(uart.cpu_read_rx_fifo(), 0);
    assert_eq!(uart.cpu_get_flags(), 0);
    // The state is still usable afterwards.
    uart.ext_write_rx_fifo(9);
    assert_eq!(uart.cpu_read_rx_fifo(), 9);
}

#[test]
fn reading_an_empty_tx_fifo_is_recoverable() {
    let mut uart = Uart::new();
    assert_eq!(uart.ext_read_tx_fifo(), 0);
    uart.cpu_write_tx_fifo(7);
    assert_eq!(uart.ext_read_tx_fifo(), 7);
}

#[test]
fn many_pushes_keep_every_byte() {
    // Serialized pushes lose nothing: n pushes leave a queue of length n.
    let mut uart = Uart::new();
    for i in 0..100u32 {
        uart.cpu_write_tx_fifo((i & 0xFF) as u8);
    }
    assert_eq!(uart.ext_check_tx_fifo_len(), 100);
    for i in 0..100u32 {
        assert_eq!(uart.ext_read_tx_fifo(), (i & 0xFF) as u8);
    }
}

#[test]
fn registers_through_the_bus() {
    let mut mem = Memory::new();
    // TX register: a CPU store lands in the transmit queue.
    assert_eq!(mem.write_8bit(UART_FIFO_TX_ADDR, 0x58), Ok(()));
    assert_eq!(mem.uart.ext_check_tx_fifo_len(), 1);
    assert_eq!(mem.uart.ext_read_tx_fifo(), 0x58);
    // RX register: a CPU load pops the receive queue; FLAGS tracks it.
    mem.uart.ext_write_rx_fifo(0x59);
    assert_eq!(mem.read_8bit(UART_FLAGS_ADDR), Ok(1));
    assert_eq!(mem.read_8bit(UART_FIFO_RX_ADDR), Ok(0x59));
    assert_eq!(mem.read_8bit(UART_FLAGS_ADDR), Ok(0));
    // Reading the empty RX register is the recoverable underflow.
    assert_eq!(mem.read_8bit(UART_FIFO_RX_ADDR), Ok(0));
}

#[test]
fn write_only_and_read_only_registers() {
    let mut mem = Memory::new();
    // Writes to the read-only RX and FLAGS registers are ignored.
    assert_eq!(mem.write_8bit(UART_FIFO_RX_ADDR, 0xAA), Ok(()));
    assert_eq!(mem.write_8bit(UART_FLAGS_ADDR, 0xAA), Ok(()));
    assert_eq!(mem.read_8bit(UART_FLAGS_ADDR), Ok(0));
    // Reads of the write-only TX register give zero.
    mem.uart.cpu_write_tx_fifo(0x41);
    assert_eq!(mem.read_8bit(UART_FIFO_TX_ADDR), Ok(0));
    assert_eq!(mem.uart.ext_check_tx_fifo_len(), 1);
}

#[test]
fn unused_window_addresses_read_zero_and_ignore_writes() {
    let mut mem = Memory::new();
    assert_eq!(mem.write_8bit(UART_FLAGS_ADDR + 1, 0x77), Ok(()));
    assert_eq!(mem.read_8bit(UART_FLAGS_ADDR + 1), Ok(0));
}
