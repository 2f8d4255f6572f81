//! The component directory of a chip: a table in the chip's memory that
//! lists the debug components, and the walk that reads it.
//!
//! A table at the address `base` is a run of 32-bit words, entry `i` at
//! `base + 4 * i`. A zero word ends the table. Bit 0 of an entry says that
//! the component is present, bit 1 that the entry has the 32-bit format, and
//! the upper twenty bits are the offset of the component from `base`. The
//! component says what it is in its identification registers. A component
//! of the table class is a directory of its own, and its components take its
//! place in the result. All address arithmetic wraps at 32 bits.

use vstd::prelude::*;

use crate::error::Error;
use crate::link::{ArmCommunicationInterface, MemoryImageView};

verus! {

/// The number of entries that a table has room for.
pub const MAX_ENTRIES: usize = 960;

/// How deep tables may be nested below the one the walk starts at.
pub const MAX_DEPTH: u8 = 8;

/// The component class of a directory table.
pub const TABLE_CLASS: u8 = 1;

/// Offset of the register of a component that holds its class.
pub const CLASS_REGISTER: u32 = 0xFF4;

/// Offset of the register that holds the low eight bits of the part number.
pub const PART_LOW_REGISTER: u32 = 0xFE0;

/// Offset of the register that holds the high four bits of the part number.
pub const PART_HIGH_REGISTER: u32 = 0xFE4;

/// What a component says it is.
#[derive(Clone, Copy, Debug, PartialEq, Eq, Structural)]
pub struct ComponentId {
    pub class: u8,
    pub part: u16,
}

/// One component of the directory: what it is and where it stands.
#[derive(Clone, Copy, Debug, PartialEq, Eq, Structural)]
pub struct ComponentEntry {
    pub id: ComponentId,
    pub address: u32,
}

/// The address `offset` bytes after `base`, wrapping at 32 bits.
pub open spec fn offset_address(base: u32, offset: u32) -> u32 {
    ((base + offset) % 0x1_0000_0000) as u32
}

/// Whether the entry word says that its component is present.
pub open spec fn entry_present(word: u32) -> bool {
    word & 1 == 1
}

/// Whether the entry word has the 32-bit format.
pub open spec fn entry_wide(word: u32) -> bool {
    word & 2 == 2
}

/// The offset of the component that the entry word points to.
pub open spec fn entry_offset(word: u32) -> u32 {
    word & 0xFFFF_F000
}

/// The class that a class register holds.
pub open spec fn class_of(register: u32) -> u8 {
    ((register >> 4) & 0xF) as u8
}

/// The part number that the two part registers hold.
pub open spec fn part_of(low: u32, high: u32) -> u16 {
    ((low & 0xFF) | ((high & 0xF) << 8)) as u16
}

/// What the component at `address` says it is, or `None` where one of its
/// identification registers cannot be read.
pub open spec fn component_id(image: MemoryImageView, address: u32) -> Option<ComponentId> {
    match (
        image.word_at(offset_address(address, CLASS_REGISTER)),
        image.word_at(offset_address(address, PART_LOW_REGISTER)),
        image.word_at(offset_address(address, PART_HIGH_REGISTER)),
    ) {
        (Some(class), Some(low), Some(high)) => Some(
            ComponentId { class: class_of(class), part: part_of(low, high) },
        ),
        _ => None,
    }
}

/// `first` followed by `rest`, or `None` where either is missing.
pub open spec fn joined(first: Option<Seq<ComponentEntry>>, rest: Option<Seq<ComponentEntry>>)
    -> Option<Seq<ComponentEntry>> {
    match (first, rest) {
        (Some(a), Some(b)) => Some(a + b),
        _ => None,
    }
}

/// The components that the table at `base` lists from its entry `from` on,
/// in the order of the table, tables nested at most `depth` deep put in
/// place. `None` where the directory is malformed: a word cannot be read, a
/// present entry has not the 32-bit format, the table does not end within
/// its room, or tables are nested deeper than `depth`.
pub open spec fn walk(image: MemoryImageView, base: u32, depth: nat, from: int) -> Option<
    Seq<ComponentEntry>,
>
    decreases depth, MAX_ENTRIES - from,
{
    if from < 0 || from >= MAX_ENTRIES {
        None
    } else {
        match entry_word(image, base, from) {
            None => None,
            Some(word) => {
                if word == 0 {
                    Some(Seq::empty())
                } else if !entry_present(word) {
                    walk(image, base, depth, from + 1)
                } else if !entry_wide(word) {
                    None
                } else {
                    let address = offset_address(base, entry_offset(word));
                    match component_id(image, address) {
                        None => None,
                        Some(id) => {
                            let here = if id.class != TABLE_CLASS {
                                Some(seq![ComponentEntry { id, address }])
                            } else if depth == 0 {
                                None
                            } else {
                                walk(image, address, (depth - 1) as nat, 0)
                            };
                            joined(here, walk(image, base, depth, from + 1))
                        },
                    }
                }
            },
        }
    }
}

/// The word of entry `index` of the table at `base`.
pub open spec fn entry_word(image: MemoryImageView, base: u32, index: int) -> Option<u32> {
    image.word_at(offset_address(base, (4 * index) as u32))
}

/// A walk that succeeds past an entry has read the rest of the table too: a
/// fault further on is never answered with the components found so far.
/// Where the entry is a present component that is no table, it comes first,
/// and the components of the later entries follow in their order.
pub proof fn walk_keeps_table_order(image: MemoryImageView, base: u32, depth: nat, from: int)
    requires
        0 <= from < MAX_ENTRIES,
        walk(image, base, depth, from).is_some(),
        entry_word(image, base, from) != Some(0u32),
    ensures
        entry_word(image, base, from).is_some(),
        walk(image, base, depth, from + 1).is_some(),
        ({
            let word = entry_word(image, base, from).unwrap();
            let address = offset_address(base, entry_offset(word));
            let rest = walk(image, base, depth, from + 1).unwrap();
            let found = walk(image, base, depth, from).unwrap();
            &&& !entry_present(word) ==> found == rest
            &&& entry_present(word) ==> entry_wide(word) && component_id(image, address).is_some()
            &&& entry_present(word) && component_id(image, address).unwrap().class != TABLE_CLASS
                ==> found == seq![
                ComponentEntry { id: component_id(image, address).unwrap(), address },
            ] + rest
        }),
{
}

/// The address `offset` bytes after `base`, wrapping at 32 bits.
pub fn add_offset(base: u32, offset: u32) -> (out: u32)
    ensures
        out == offset_address(base, offset),
{
    let sum: u64 = base as u64 + offset as u64;
    (sum % 0x1_0000_0000) as u32
}

/// Reads what the component at `address` says it is.
pub fn read_component_id(interface: &ArmCommunicationInterface, address: u32) -> (out: Option<
    ComponentId,
>)
    ensures
        out == component_id(interface@.memory, address),
{
    let class = match interface.read_word(add_offset(address, CLASS_REGISTER)) {
        Some(word) => word,
        None => {
            return None;
        },
    };
    let low = match interface.read_word(add_offset(address, PART_LOW_REGISTER)) {
        Some(word) => word,
        None => {
            return None;
        },
    };
    let high = match interface.read_word(add_offset(address, PART_HIGH_REGISTER)) {
        Some(word) => word,
        None => {
            return None;
        },
    };
    Some(
        ComponentId {
            class: ((class >> 4) & 0xF) as u8,
            part: ((low & 0xFF) | ((high & 0xF) << 8)) as u16,
        },
    )
}

/// Walks the table at `base`, tables nested at most `depth` deep.
pub fn walk_table(interface: &ArmCommunicationInterface, base: u32, depth: u8) -> (out: Option<
    Vec<ComponentEntry>,
>)
    ensures
        match walk(interface@.memory, base, depth as nat, 0) {
            Some(entries) => out.is_some() && out.unwrap()@ == entries,
            None => out.is_none(),
        },
    decreases depth,
{
    let ghost image = interface@.memory;
    let mut found: Vec<ComponentEntry> = Vec::new();
    let mut i: usize = 0;
    while i < MAX_ENTRIES
        invariant
            i <= MAX_ENTRIES,
            image == interface@.memory,
            walk(image, base, depth as nat, 0) == joined(
                Some(found@),
                walk(image, base, depth as nat, i as int),
            ),
        decreases MAX_ENTRIES - i,
    {
        let ghost before = found@;
        let ghost rest = walk(image, base, depth as nat, i as int + 1);
        let word = match interface.read_word(add_offset(base, (4 * i) as u32)) {
            Some(word) => word,
            None => {
                return None;
            },
        };
        if word == 0 {
            assert(found@ + Seq::<ComponentEntry>::empty() =~= found@);
            return Some(found);
        }
        if word & 1 == 1 {
            if word & 2 != 2 {
                return None;
            }
            let address = add_offset(base, word & 0xFFFF_F000);
            let id = match read_component_id(interface, address) {
                Some(id) => id,
                None => {
                    return None;
                },
            };
            if id.class != TABLE_CLASS {
                found.push(ComponentEntry { id, address });
                proof {
                    let here = seq![ComponentEntry { id, address }];
                    assert(found@ =~= before + here);
                    if rest.is_some() {
                        assert(before + (here + rest.unwrap()) =~= found@ + rest.unwrap());
                    }
                }
            } else {
                if depth == 0 {
                    return None;
                }
                let mut nested = match walk_table(interface, address, depth - 1) {
                    Some(nested) => nested,
                    None => {
                        return None;
                    },
                };
                let ghost here = nested@;
                found.append(&mut nested);
                proof {
                    assert(found@ =~= before + here);
                    if rest.is_some() {
                        assert(before + (here + rest.unwrap()) =~= found@ + rest.unwrap());
                    }
                }
            }
        }
        i += 1;
    }
    None
}

/// The component directory of a chip.
#[derive(Clone, Debug, PartialEq, Eq)]
pub struct RomTable {
    entries: Vec<ComponentEntry>,
}

impl View for RomTable {
    type V = Seq<ComponentEntry>;

    closed spec fn view(&self) -> Seq<ComponentEntry> {
        self.entries@
    }
}

impl RomTable {
    /// Reads the directory whose outermost table stands at `base`. The
    /// components come in the order of the table. A malformed directory
    /// gives an error and no part of a result.
    pub fn try_parse(interface: &ArmCommunicationInterface, base: u32) -> (out: Result<
        RomTable,
        Error,
    >)
        ensures
            match walk(interface@.memory, base, MAX_DEPTH as nat, 0) {
                Some(entries) => out.is_ok() && out.unwrap()@ == entries,
                None => out.is_err() && out.unwrap_err() == Error::ComponentDirectoryParseError,
            },
    {
        match walk_table(interface, base, MAX_DEPTH) {
            Some(entries) => Ok(RomTable { entries }),
            None => Err(Error::ComponentDirectoryParseError),
        }
    }

    /// The components of the directory, in the order of the table.
    pub fn entries(&self) -> (out: &Vec<ComponentEntry>)
        ensures
            out@ == self@,
    {
        &self.entries
    }
}

} // verus!
