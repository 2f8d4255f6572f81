//! The debug link as the session core sees it: what the probe and the chip
//! behind it answer, and the architecture interface opened over it.

use vstd::prelude::*;

use crate::config::ChipInfo;
use crate::error::Error;

verus! {

/// An access port of the chip, as one enumeration reports it.
#[derive(Clone, Copy, Debug, PartialEq, Eq, Structural)]
pub struct AccessPort {
    pub id: u8,
    pub base_address: u32,
}

/// A memory interface handle.
#[derive(Clone, Copy, Debug, PartialEq, Eq, Structural)]
pub enum Memory {
    /// The memory view that the architecture offers by itself.
    Dedicated,
    /// Memory reached through the access port of this identifier.
    Port(u8),
}

/// The words that the chip answers reads with: `words[i]` stands at the
/// address `base + 4 * i`. Every other address faults.
#[derive(Clone, Debug, PartialEq, Eq)]
pub struct MemoryImage {
    pub base: u32,
    pub words: Vec<u32>,
}

/// Mathematical value of a [`MemoryImage`].
pub struct MemoryImageView {
    pub base: u32,
    pub words: Seq<u32>,
}

impl MemoryImageView {
    /// Whether a word stands at `address`.
    pub open spec fn maps(self, address: u32) -> bool {
        self.base <= address && (address - self.base) % 4 == 0 && (address - self.base) / 4
            < self.words.len()
    }

    /// Position in `words` of the word at `address`.
    pub open spec fn slot(self, address: u32) -> int {
        (address - self.base) / 4
    }

    /// The word read at `address`, or `None` where the read faults.
    pub open spec fn word_at(self, address: u32) -> Option<u32> {
        if self.maps(address) {
            Some(self.words[self.slot(address)])
        } else {
            None
        }
    }

    /// The image after `value` was written to the mapped `address`.
    pub open spec fn with_word(self, address: u32, value: u32) -> MemoryImageView {
        MemoryImageView { base: self.base, words: self.words.update(self.slot(address), value) }
    }
}

impl View for MemoryImage {
    type V = MemoryImageView;

    open spec fn view(&self) -> MemoryImageView {
        MemoryImageView { base: self.base, words: self.words@ }
    }
}

impl MemoryImage {
    /// Reads the word at `address`.
    pub fn read_word(&self, address: u32) -> (out: Option<u32>)
        ensures
            out == self@.word_at(address),
    {
        if address < self.base {
            return None;
        }
        let offset: u32 = address - self.base;
        if offset % 4 != 0 {
            return None;
        }
        let slot: usize = (offset / 4) as usize;
        if slot < self.words.len() {
            Some(self.words[slot])
        } else {
            None
        }
    }

    /// Writes `value` to `address`. Says whether the address is mapped; an
    /// unmapped one leaves the image as it was.
    pub fn write_word(&mut self, address: u32, value: u32) -> (done: bool)
        ensures
            done == old(self)@.maps(address),
            done ==> final(self)@ == old(self)@.with_word(address, value),
            !done ==> final(self)@ == old(self)@,
    {
        if address < self.base {
            return false;
        }
        let offset: u32 = address - self.base;
        if offset % 4 != 0 {
            return false;
        }
        let slot: usize = (offset / 4) as usize;
        if slot < self.words.len() {
            self.words.set(slot, value);
            true
        } else {
            false
        }
    }
}

/// A debug probe with a chip behind it: the answers that the session core
/// gets over the transport.
#[derive(Clone, Debug, PartialEq, Eq)]
pub struct Probe {
    /// What the identification registers give, `None` where they give nothing.
    pub chip: Option<ChipInfo>,
    /// Whether the architecture offers a memory view of its own.
    pub dedicated_memory: bool,
    /// What an enumeration of the access ports yields now, `None` where the
    /// query fails.
    pub access_ports: Option<Vec<AccessPort>>,
    /// The memory of the chip.
    pub memory: MemoryImage,
    /// The bytes waiting in the trace capture buffer, `None` where the buffer
    /// is out of reach.
    pub trace: Option<Vec<u8>>,
}

/// Mathematical value of a [`Probe`] and of the interface opened over it.
pub struct ProbeView {
    pub chip: Option<ChipInfo>,
    pub dedicated_memory: bool,
    pub access_ports: Option<Seq<AccessPort>>,
    pub memory: MemoryImageView,
    pub trace: Option<Seq<u8>>,
}

impl View for Probe {
    type V = ProbeView;

    open spec fn view(&self) -> ProbeView {
        ProbeView {
            chip: self.chip,
            dedicated_memory: self.dedicated_memory,
            access_ports: match self.access_ports {
                Some(ports) => Some(ports@),
                None => None,
            },
            memory: self.memory@,
            trace: match self.trace {
                Some(bytes) => Some(bytes@),
                None => None,
            },
        }
    }
}

/// The communication interface of the ARM debug architecture over a probe.
#[derive(Clone, Debug, PartialEq, Eq)]
pub struct ArmCommunicationInterface {
    probe: Probe,
}

impl View for ArmCommunicationInterface {
    type V = ProbeView;

    closed spec fn view(&self) -> ProbeView {
        self.probe@
    }
}

impl ArmCommunicationInterface {
    /// Opens the interface over `probe`.
    pub fn new(probe: Probe) -> (out: ArmCommunicationInterface)
        ensures
            out@ == probe@,
    {
        ArmCommunicationInterface { probe }
    }

    /// Takes `probe` as what the link answers from now on.
    pub fn refresh(&mut self, probe: Probe)
        ensures
            final(self)@ == probe@,
    {
        self.probe = probe;
    }

    /// Reads the identification registers of the chip.
    pub fn read_chip_info(&self) -> (out: Option<ChipInfo>)
        ensures
            out == self@.chip,
    {
        self.probe.chip
    }

    /// The memory view that the architecture offers by itself, if it has one.
    pub fn dedicated_memory_interface(&self) -> (out: Option<Memory>)
        ensures
            out == if self@.dedicated_memory {
                Some(Memory::Dedicated)
            } else {
                None::<Memory>
            },
    {
        if self.probe.dedicated_memory {
            Some(Memory::Dedicated)
        } else {
            None
        }
    }

    /// Enumerates the access ports.
    pub fn memory_access_ports(&self) -> (out: Result<Vec<AccessPort>, Error>)
        ensures
            match self@.access_ports {
                Some(ports) => out.is_ok() && out.unwrap()@ == ports,
                None => out == Err::<Vec<AccessPort>, Error>(Error::AccessPortEnumerationFailed),
            },
    {
        match &self.probe.access_ports {
            None => Err(Error::AccessPortEnumerationFailed),
            Some(ports) => {
                let mut out: Vec<AccessPort> = Vec::new();
                let mut i: usize = 0;
                while i < ports.len()
                    invariant
                        i <= ports.len(),
                        out@ == ports@.subrange(0, i as int),
                    decreases ports.len() - i,
                {
                    out.push(ports[i]);
                    i += 1;
                    assert(out@ =~= ports@.subrange(0, i as int));
                }
                assert(out@ =~= ports@);
                Ok(out)
            },
        }
    }

    /// Drains the trace capture buffer.
    pub fn read_swv(&mut self) -> (out: Result<Vec<u8>, Error>)
        ensures
            match old(self)@.trace {
                Some(bytes) => out.is_ok() && out.unwrap()@ == bytes && final(self)@ == (ProbeView {
                    trace: Some(Seq::<u8>::empty()),
                    ..old(self)@
                }),
                None => out == Err::<Vec<u8>, Error>(Error::CommunicationError) && final(self)@
                    == old(self)@,
            },
    {
        match self.probe.trace.take() {
            None => Err(Error::CommunicationError),
            Some(bytes) => {
                self.probe.trace = Some(Vec::new());
                Ok(bytes)
            },
        }
    }

    /// Reads the word at `address` of the chip's memory.
    pub fn read_word(&self, address: u32) -> (out: Option<u32>)
        ensures
            out == self@.memory.word_at(address),
    {
        self.probe.memory.read_word(address)
    }

    /// Writes `value` to `address` of the chip's memory. Says whether the
    /// address is mapped; an unmapped one leaves the link as it was.
    pub fn write_word(&mut self, address: u32, value: u32) -> (done: bool)
        ensures
            done == old(self)@.memory.maps(address),
            done ==> final(self)@ == (ProbeView {
                memory: old(self)@.memory.with_word(address, value),
                ..old(self)@
            }),
            !done ==> final(self)@ == old(self)@,
    {
        self.probe.memory.write_word(address, value)
    }
}

/// The open interface of the debug architecture that a session talks to.
#[derive(Clone, Debug, PartialEq, Eq)]
pub enum ArchitectureSession {
    Arm(ArmCommunicationInterface),
}

impl ArchitectureSession {
    /// Reads the word at `address` of the chip's memory, `None` where the
    /// read faults.
    pub fn read_word(&self, address: u32) -> (out: Option<u32>)
        ensures
            out == self@.memory.word_at(address),
    {
        match self {
            ArchitectureSession::Arm(interface) => interface.read_word(address),
        }
    }
}

impl View for ArchitectureSession {
    type V = ProbeView;

    open spec fn view(&self) -> ProbeView {
        match self {
            ArchitectureSession::Arm(interface) => interface@,
        }
    }
}

} // verus!
