//! DMA transfers to and from a serial port.
//!
//! The serial port is modelled by the bytes it has received and not yet
//! handed out, the bytes it has sent, and the registers of its DMA channel.
use vstd::prelude::*;

verus! {

/// A DMA channel associated with a peripheral, with exclusive access to the
/// channel's registers.
pub struct Dma1Channel<Peripheral> {
    pub peripheral: Peripheral,
}

/// The registers of a DMA channel.
#[derive(Clone, Copy, Debug, PartialEq, Eq, Structural)]
pub struct ChannelRegisters {
    /// The channel has been set up for the peripheral.
    pub initialized: bool,
    /// Data is read from this address.
    pub source: usize,
    /// The source address advances after every byte.
    pub source_inc: bool,
    /// Data is written to this address.
    pub destination: usize,
    /// The destination address advances after every byte.
    pub destination_inc: bool,
    /// Number of bytes to transfer.
    pub transfer_length: usize,
    /// A transfer has been started and not stopped.
    pub running: bool,
}

/// A DMA channel of a peripheral.
pub trait DmaChannel {
    /// The channel's registers.
    spec fn registers(&self) -> ChannelRegisters;

    /// Device-specific set-up that enables DMA.
    fn dma_device_init(&mut self)
        ensures
            final(self).registers() == (ChannelRegisters { initialized: true, ..old(self).registers() }),
    ;

    /// Data will be written to `address`; `inc` makes the address advance
    /// after every byte.
    fn dma_set_destination_address(&mut self, address: usize, inc: bool)
        ensures
            final(self).registers() == (ChannelRegisters {
                destination: address,
                destination_inc: inc,
                ..old(self).registers()
            }),
    ;

    /// Data will be read from `address`; `inc` makes the address advance
    /// after every byte.
    fn dma_set_source_address(&mut self, address: usize, inc: bool)
        ensures
            final(self).registers() == (ChannelRegisters {
                source: address,
                source_inc: inc,
                ..old(self).registers()
            }),
    ;

    /// Number of bytes to transfer.
    fn dma_set_transfer_length(&mut self, len: usize)
        ensures
            final(self).registers() == (ChannelRegisters { transfer_length: len, ..old(self).registers() }),
    ;

    /// Starts the transfer.
    fn dma_start(&mut self)
        ensures
            final(self).registers() == (ChannelRegisters { running: true, ..old(self).registers() }),
    ;

    /// Stops the transfer.
    fn dma_stop(&mut self)
        ensures
            final(self).registers() == (ChannelRegisters { running: false, ..old(self).registers() }),
    ;

    /// Whether a transfer is in progress.
    fn dma_in_progress(&self) -> (r: bool)
        ensures
            r == self.registers().running,
    ;
}

/// A serial port with a DMA channel.
pub struct Serial {
    /// Bytes received and not yet read, oldest first.
    pub received: Vec<u8>,
    /// Bytes sent, oldest first.
    pub sent: Vec<u8>,
    /// The registers of the port's DMA channel.
    pub channel: ChannelRegisters,
}

impl Serial {
    /// Reads out the oldest byte received. A byte must have arrived: the
    /// port is read only once one is available.
    pub fn read(&mut self) -> (r: Result<u8, ()>)
        requires
            old(self).received@.len() > 0,
        ensures
            final(self).sent@ == old(self).sent@,
            final(self).channel == old(self).channel,
            r == Ok::<u8, ()>(old(self).received@[0]),
            final(self).received@ == old(self).received@.drop_first(),
    {
        Ok(self.received.remove(0))
    }

    /// Sends out `byte`.
    pub fn write(&mut self, byte: u8) -> (r: Result<(), ()>)
        ensures
            r is Ok,
            final(self).sent@ == old(self).sent@.push(byte),
            final(self).received@ == old(self).received@,
            final(self).channel == old(self).channel,
    {
        self.sent.push(byte);
        Ok(())
    }
}

impl DmaChannel for Serial {
    open spec fn registers(&self) -> ChannelRegisters {
        self.channel
    }

    fn dma_device_init(&mut self)
        ensures
            final(self).received@ == old(self).received@,
            final(self).sent@ == old(self).sent@,
    {
        self.channel.initialized = true;
    }

    fn dma_set_destination_address(&mut self, address: usize, inc: bool)
        ensures
            final(self).received@ == old(self).received@,
            final(self).sent@ == old(self).sent@,
    {
        self.channel.destination = address;
        self.channel.destination_inc = inc;
    }

    fn dma_set_source_address(&mut self, address: usize, inc: bool)
        ensures
            final(self).received@ == old(self).received@,
            final(self).sent@ == old(self).sent@,
    {
        self.channel.source = address;
        self.channel.source_inc = inc;
    }

    fn dma_set_transfer_length(&mut self, len: usize)
        ensures
            final(self).received@ == old(self).received@,
            final(self).sent@ == old(self).sent@,
    {
        self.channel.transfer_length = len;
    }

    fn dma_start(&mut self)
        ensures
            final(self).received@ == old(self).received@,
            final(self).sent@ == old(self).sent@,
    {
        self.channel.running = true;
    }

    fn dma_stop(&mut self)
        ensures
            final(self).received@ == old(self).received@,
            final(self).sent@ == old(self).sent@,
    {
        self.channel.running = false;
    }

    fn dma_in_progress(&self) -> bool {
        self.channel.running
    }
}

/// A DMA transfer over `buffer`: the channel registers it was started with,
/// whether it has completed, and the bytes its port has sent once it has.
pub struct Transfer<B> {
    pub buffer: B,
    pub complete: bool,
    pub channel: ChannelRegisters,
    pub sent: Ghost<Seq<u8>>,
}

impl<B> Transfer<B> {
    /// Whether the transfer has completed.
    pub fn is_done(&self) -> (r: bool)
        ensures
            r == self.complete,
    {
        self.complete
    }

    /// Records that the DMA controller has finished the transfer.
    pub fn finish(&mut self)
        ensures
            final(self).complete,
            final(self).buffer == old(self).buffer,
            final(self).channel == old(self).channel,
            final(self).sent == old(self).sent,
    {
        self.complete = true;
    }

    /// Hands back the buffer of a completed transfer. Waiting for the
    /// completion is the caller's: the transfer is handed in once it is done.
    pub fn wait(self) -> (r: B)
        requires
            self.complete,
        ensures
            r == self.buffer,
    {
        self.buffer
    }
}

impl Serial {
    /// Sends out `buffer` by DMA: sets the channel up, sets the transfer length
    /// to the length of `buffer` and starts the transfer. Returns the transfer,
    /// not yet complete, with the registers it was started with. Once it
    /// completes, the port has sent `buffer` after what it had sent before.
    pub fn dma_write_all<'a>(self, buffer: &'a [u8]) -> (r: Transfer<&'a [u8]>)
        ensures
            r.buffer@ == buffer@,
            !r.complete,
            r.sent@ == self.sent@ + buffer@,
            r.channel == (ChannelRegisters {
                initialized: true,
                transfer_length: buffer@.len() as usize,
                running: true,
                ..self.channel
            }),
    {
        let mut port = self;
        port.dma_device_init();
        port.dma_set_transfer_length(buffer.len());
        port.dma_start();
        let started: ChannelRegisters = port.channel;
        Transfer {
            buffer,
            complete: false,
            channel: started,
            sent: Ghost(port.sent@ + buffer@),
        }
    }

    /// Fills `buffer` by DMA: sets the transfer length to the length of
    /// `buffer` and starts the transfer. Returns the transfer, not yet
    /// complete, with the registers it was started with.
    pub fn read_exact<'a>(&mut self, buffer: &'a mut [u8]) -> (r: Transfer<&'a mut [u8]>)
        ensures
            !r.complete,
            r.channel == final(self).channel,
            r.sent@ == old(self).sent@,
            final(self).channel == (ChannelRegisters {
                transfer_length: old(buffer)@.len() as usize,
                running: true,
                ..old(self).channel
            }),
            final(self).received@ == old(self).received@,
            final(self).sent@ == old(self).sent@,
    {
        self.dma_set_transfer_length(buffer.len());
        self.dma_start();
        let started: ChannelRegisters = self.channel;
        Transfer { buffer, complete: false, channel: started, sent: Ghost(self.sent@) }
    }
}

} // verus!
