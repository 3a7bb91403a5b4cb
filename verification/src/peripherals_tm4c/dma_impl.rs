//! The uDMA channel that moves bytes received on `UART0` into memory.
//!
//! The controller reads its channels' set-up from a control structure of 256
//! words; channel `c` owns the four words from `4 * c`: source end address,
//! destination end address, control word, unused. The receive channel of
//! `UART0` is channel 8.
use vstd::prelude::*;

verus! {

/// Words of the control structure that each channel owns.
pub const tm4c_dma_control_entries: usize = 4;

/// The channel that receives from `UART0`.
pub const tm4c_dma_uart0_rx_control_channel: usize = 8;

/// The channel that sends to `UART0`.
pub const tm4c_dma_uart0_tx_control_channel: usize = 9;

/// The first control word of the receive channel.
pub const tm4c_dma_uart0_rx_control_index: usize = tm4c_dma_uart0_rx_control_channel
    * tm4c_dma_control_entries;

/// The first control word of the send channel.
pub const tm4c_dma_uart0_tx_control_index: usize = tm4c_dma_uart0_tx_control_channel
    * tm4c_dma_control_entries;

/// The address of `UART0`'s data register, where received bytes are read.
pub const UART0_DATA_ADDRESS: u32 = 0x4000_c000;

/// The receive channel's control word: byte transfers from a fixed source
/// to an advancing destination, in basic mode.
pub const UART0_RX_CONTROL_WORD: u32 = 0x0c00_0000 | 0x0311;

/// Whether a transfer is complete (1) or in progress (0).
pub struct DMAStatus {
    pub status: u8,
}

impl DMAStatus {
    /// The transfer is complete.
    pub fn set_complete(&mut self)
        ensures
            final(self).status == 1,
    {
        self.status = 1;
    }

    /// A transfer is in progress.
    pub fn set_in_progress(&mut self)
        ensures
            final(self).status == 0,
    {
        self.status = 0;
    }

    /// The status.
    pub fn read_status(&self) -> (r: u8)
        ensures
            r == self.status,
    {
        self.status
    }
}

/// The controller's control structure.
pub struct dma_control_structure(pub [u32; 256]);

/// The uDMA controller set up for `UART0`: its hardware `devices`, the
/// control structure it reads, and the completion status of the transfer.
pub struct tm4c_uart_dma_ctrl<D> {
    pub devices: D,
    pub channel_control: dma_control_structure,
    pub indicator: DMAStatus,
}

impl<D> tm4c_uart_dma_ctrl<D> {
    /// The control words of the receive channel.
    pub open spec fn rx_words(&self) -> Seq<u32> {
        self.channel_control.0@.subrange(32, 36)
    }

    /// A controller over `devices` with an all-zero control structure and a
    /// transfer in progress.
    pub fn new(devices: D) -> (r: Self)
        ensures
            r.devices == devices,
            forall|i: int| 0 <= i < 256 ==> r.channel_control.0@[i] == 0,
            r.indicator.status == 0,
    {
        tm4c_uart_dma_ctrl {
            devices,
            channel_control: dma_control_structure([0; 256]),
            indicator: DMAStatus { status: 0 },
        }
    }

    /// Sets the receive channel up: bytes come from `UART0`'s data register
    /// under the receive control word. The rest of the structure is kept.
    pub fn dma_device_init(&mut self)
        ensures
            final(self).devices == old(self).devices,
            final(self).channel_control.0@ == old(self).channel_control.0@.update(
                32,
                UART0_DATA_ADDRESS,
            ).update(34, UART0_RX_CONTROL_WORD),
    {
        self.channel_control.0[tm4c_dma_uart0_rx_control_index] = UART0_DATA_ADDRESS;
        self.channel_control.0[tm4c_dma_uart0_rx_control_index + 2] = UART0_RX_CONTROL_WORD;
    }

    /// The received bytes go to `address`, cut to 32 bits.
    pub fn dma_set_destination_address(&mut self, address: usize)
        ensures
            final(self).devices == old(self).devices,
            final(self).channel_control.0@ == old(self).channel_control.0@.update(
                33,
                address as u32,
            ),
    {
        self.channel_control.0[tm4c_dma_uart0_rx_control_index + 1] = address as u32;
    }

    /// Moves the destination address to the last byte of a transfer of
    /// `len` bytes (`len` cut to 32 bits).
    pub fn dma_set_transfer_length(&mut self, len: usize)
        requires
            1 <= old(self).channel_control.0@[33] + (len as u32) <= u32::MAX,
        ensures
            final(self).devices == old(self).devices,
            final(self).channel_control.0@ == old(self).channel_control.0@.update(
                33,
                (old(self).channel_control.0@[33] + (len as u32) - 1) as u32,
            ),
    {
        let end: u32 = self.channel_control.0[tm4c_dma_uart0_rx_control_index + 1];
        let l: u32 = len as u32;
        self.channel_control.0[tm4c_dma_uart0_rx_control_index + 1] = end + l - 1;
    }

    /// Starts the transfer: it is in progress until its completion is
    /// recorded.
    pub fn dma_start(&mut self)
        ensures
            final(self).indicator.status == 0,
            final(self).devices == old(self).devices,
            final(self).channel_control == old(self).channel_control,
    {
        self.indicator.set_in_progress();
    }

    /// Records that the transfer has completed.
    pub fn dma_complete(&mut self)
        ensures
            final(self).indicator.status == 1,
            final(self).devices == old(self).devices,
            final(self).channel_control == old(self).channel_control,
    {
        self.indicator.set_complete();
    }

    /// Whether a transfer is in progress: its completion has not been
    /// recorded.
    pub fn dma_in_progress(&mut self) -> (r: bool)
        ensures
            r == (old(self).indicator.status != 1),
            *final(self) == *old(self),
    {
        self.indicator.read_status() != 1
    }
}

} // verus!
