//! Target descriptors, the ways to select one, and the registry of known
//! targets.

use vstd::prelude::*;

use crate::error::Error;

verus! {

/// The CPU variant of a core.
#[derive(Clone, Copy, Debug, PartialEq, Eq, Structural)]
pub enum CoreType {
    M0,
    M3,
    M33,
    M4,
}

/// What a memory region is backed by.
#[derive(Clone, Copy, Debug, PartialEq, Eq, Structural)]
pub enum MemoryKind {
    Ram,
    Flash,
    Generic,
}

/// One region of the target's memory map: the addresses `start..end`.
#[derive(Clone, Copy, Debug, PartialEq, Eq, Structural)]
pub struct MemoryRegion {
    pub kind: MemoryKind,
    pub start: u32,
    pub end: u32,
}

/// Identity of a chip as read from its identification registers.
#[derive(Clone, Copy, Debug, PartialEq, Eq, Structural)]
pub struct ChipInfo {
    pub manufacturer: u16,
    pub part: u16,
}

/// A flash algorithm as the target description carries it.
#[derive(Clone, Debug, PartialEq, Eq)]
pub struct RawFlashAlgorithm {
    pub load_address: u32,
    pub instructions: Vec<u32>,
    pub pc_init: u32,
    pub pc_program_page: u32,
    pub pc_erase_sector: u32,
}

/// Mathematical value of a [`RawFlashAlgorithm`].
pub struct RawFlashAlgorithmView {
    pub load_address: u32,
    pub instructions: Seq<u32>,
    pub pc_init: u32,
    pub pc_program_page: u32,
    pub pc_erase_sector: u32,
}

impl View for RawFlashAlgorithm {
    type V = RawFlashAlgorithmView;

    open spec fn view(&self) -> RawFlashAlgorithmView {
        RawFlashAlgorithmView {
            load_address: self.load_address,
            instructions: self.instructions@,
            pc_init: self.pc_init,
            pc_program_page: self.pc_program_page,
            pc_erase_sector: self.pc_erase_sector,
        }
    }
}

/// Copies a list of words.
pub fn copy_words(words: &Vec<u32>) -> (out: Vec<u32>)
    ensures
        out@ == words@,
{
    let mut out: Vec<u32> = Vec::new();
    let mut i: usize = 0;
    while i < words.len()
        invariant
            i <= words.len(),
            out@ == words@.subrange(0, i as int),
        decreases words.len() - i,
    {
        out.push(words[i]);
        i += 1;
        assert(out@ =~= words@.subrange(0, i as int));
    }
    assert(out@ =~= words@);
    out
}

impl RawFlashAlgorithm {
    /// A second algorithm of the same value.
    pub fn duplicate(&self) -> (out: RawFlashAlgorithm)
        ensures
            out@ == self@,
    {
        RawFlashAlgorithm {
            load_address: self.load_address,
            instructions: copy_words(&self.instructions),
            pc_init: self.pc_init,
            pc_program_page: self.pc_program_page,
            pc_erase_sector: self.pc_erase_sector,
        }
    }
}

/// The views of a list of flash algorithms, in order.
pub open spec fn algorithm_views(algorithms: Seq<RawFlashAlgorithm>) -> Seq<RawFlashAlgorithmView> {
    Seq::new(algorithms.len(), |i: int| algorithms[i]@)
}

/// Copies a memory map.
pub fn copy_regions(regions: &Vec<MemoryRegion>) -> (out: Vec<MemoryRegion>)
    ensures
        out@ == regions@,
{
    let mut out: Vec<MemoryRegion> = Vec::new();
    let mut i: usize = 0;
    while i < regions.len()
        invariant
            i <= regions.len(),
            out@ == regions@.subrange(0, i as int),
        decreases regions.len() - i,
    {
        out.push(regions[i]);
        i += 1;
        assert(out@ =~= regions@.subrange(0, i as int));
    }
    assert(out@ =~= regions@);
    out
}

/// Copies a list of flash algorithms.
pub fn copy_algorithms(algorithms: &Vec<RawFlashAlgorithm>) -> (out: Vec<RawFlashAlgorithm>)
    ensures
        algorithm_views(out@) == algorithm_views(algorithms@),
{
    let mut out: Vec<RawFlashAlgorithm> = Vec::new();
    let mut i: usize = 0;
    while i < algorithms.len()
        invariant
            i <= algorithms.len(),
            out@.len() == i,
            forall|k: int| 0 <= k < i ==> (#[trigger] out@[k])@ == algorithms@[k]@,
        decreases algorithms.len() - i,
    {
        out.push(algorithms[i].duplicate());
        i += 1;
    }
    assert(algorithm_views(out@) =~= algorithm_views(algorithms@));
    out
}

/// Static description of a chip.
#[derive(Clone, Debug, PartialEq, Eq)]
pub struct Target {
    pub core_type: CoreType,
    pub memory_map: Vec<MemoryRegion>,
    pub flash_algorithms: Vec<RawFlashAlgorithm>,
}

/// Mathematical value of a [`Target`].
pub struct TargetView {
    pub core_type: CoreType,
    pub memory_map: Seq<MemoryRegion>,
    pub flash_algorithms: Seq<RawFlashAlgorithmView>,
}

impl View for Target {
    type V = TargetView;

    open spec fn view(&self) -> TargetView {
        TargetView {
            core_type: self.core_type,
            memory_map: self.memory_map@,
            flash_algorithms: algorithm_views(self.flash_algorithms@),
        }
    }
}

impl Target {
    /// A second descriptor of the same value.
    pub fn duplicate(&self) -> (out: Target)
        ensures
            out@ == self@,
    {
        Target {
            core_type: self.core_type,
            memory_map: copy_regions(&self.memory_map),
            flash_algorithms: copy_algorithms(&self.flash_algorithms),
        }
    }
}

/// How the target of a session is chosen.
#[derive(Clone, Debug, PartialEq, Eq)]
pub enum TargetSelector {
    /// Look the target up in the registry by this name.
    Unspecified(String),
    /// Use this target as it is.
    Specified(Target),
    /// Identify the chip on the link and look it up by its identity.
    Auto,
}

impl From<Target> for TargetSelector {
    /// Selects `target` itself.
    fn from(target: Target) -> (out: TargetSelector) {
        TargetSelector::Specified(target)
    }
}

impl vstd::std_specs::convert::FromSpecImpl<Target> for TargetSelector {
    open spec fn obeys_from_spec() -> bool {
        true
    }

    open spec fn from_spec(target: Target) -> TargetSelector {
        TargetSelector::Specified(target)
    }
}

impl From<String> for TargetSelector {
    /// Selects the target that the registry holds under `name`.
    fn from(name: String) -> (out: TargetSelector) {
        TargetSelector::Unspecified(name)
    }
}

impl vstd::std_specs::convert::FromSpecImpl<String> for TargetSelector {
    open spec fn obeys_from_spec() -> bool {
        true
    }

    open spec fn from_spec(name: String) -> TargetSelector {
        TargetSelector::Unspecified(name)
    }
}

/// One known target with the name and the chip identity it is found by.
#[derive(Clone, Debug, PartialEq, Eq)]
pub struct RegistryEntry {
    pub name: String,
    pub chip: ChipInfo,
    pub target: Target,
}

/// The known targets, in the order in which they are searched.
#[derive(Clone, Debug, PartialEq, Eq)]
pub struct Registry {
    pub entries: Vec<RegistryEntry>,
}

/// Position of the first of `entries[from..]` that is named `name`, or the
/// length of `entries` where none is.
pub open spec fn first_named(entries: Seq<RegistryEntry>, name: Seq<char>, from: int) -> int
    decreases entries.len() - from,
{
    if from < 0 || from >= entries.len() {
        entries.len() as int
    } else if entries[from].name@ == name {
        from
    } else {
        first_named(entries, name, from + 1)
    }
}

/// Position of the first of `entries[from..]` that describes `chip`, or the
/// length of `entries` where none does.
pub open spec fn first_with_chip(entries: Seq<RegistryEntry>, chip: ChipInfo, from: int) -> int
    decreases entries.len() - from,
{
    if from < 0 || from >= entries.len() {
        entries.len() as int
    } else if entries[from].chip == chip {
        from
    } else {
        first_with_chip(entries, chip, from + 1)
    }
}

/// `first_named` gives the position of an entry of that name, and no entry
/// from `from` on before it has the name.
pub proof fn first_named_is_first(entries: Seq<RegistryEntry>, name: Seq<char>, from: int)
    requires
        0 <= from <= entries.len(),
    ensures
        from <= first_named(entries, name, from) <= entries.len(),
        first_named(entries, name, from) < entries.len() ==> entries[first_named(
            entries,
            name,
            from,
        )].name@ == name,
        forall|k: int| from <= k < first_named(entries, name, from) ==> entries[k].name@ != name,
    decreases entries.len() - from,
{
    if from < entries.len() && entries[from].name@ != name {
        first_named_is_first(entries, name, from + 1);
    }
}

/// `first_with_chip` gives the position of an entry for that chip, and no
/// entry from `from` on before it is for the chip.
pub proof fn first_with_chip_is_first(entries: Seq<RegistryEntry>, chip: ChipInfo, from: int)
    requires
        0 <= from <= entries.len(),
    ensures
        from <= first_with_chip(entries, chip, from) <= entries.len(),
        first_with_chip(entries, chip, from) < entries.len() ==> entries[first_with_chip(
            entries,
            chip,
            from,
        )].chip == chip,
        forall|k: int| from <= k < first_with_chip(entries, chip, from) ==> entries[k].chip != chip,
    decreases entries.len() - from,
{
    if from < entries.len() && entries[from].chip != chip {
        first_with_chip_is_first(entries, chip, from + 1);
    }
}

impl Registry {
    /// The target that a lookup by `name` yields, if any.
    pub open spec fn named(&self, name: Seq<char>) -> Option<TargetView> {
        let at = first_named(self.entries@, name, 0);
        if 0 <= at < self.entries@.len() {
            Some(self.entries@[at].target@)
        } else {
            None
        }
    }

    /// The target that a lookup by `chip` yields, if any.
    pub open spec fn with_chip(&self, chip: ChipInfo) -> Option<TargetView> {
        let at = first_with_chip(self.entries@, chip, 0);
        if 0 <= at < self.entries@.len() {
            Some(self.entries@[at].target@)
        } else {
            None
        }
    }

    /// Finds the first target registered under `name`.
    pub fn get_target_by_name(&self, name: &String) -> (out: Result<Target, Error>)
        ensures
            match self.named(name@) {
                Some(target) => out.is_ok() && out.unwrap()@ == target,
                None => out == Err::<Target, Error>(Error::TargetNotFound),
            },
    {
        let mut i: usize = 0;
        while i < self.entries.len()
            invariant
                i <= self.entries.len(),
                first_named(self.entries@, name@, 0) == first_named(self.entries@, name@, i as int),
            decreases self.entries.len() - i,
        {
            if self.entries[i].name == *name {
                return Ok(self.entries[i].target.duplicate());
            }
            i += 1;
        }
        Err(Error::TargetNotFound)
    }

    /// Finds the first target registered for `chip`.
    pub fn get_target_by_chip_info(&self, chip: ChipInfo) -> (out: Result<Target, Error>)
        ensures
            match self.with_chip(chip) {
                Some(target) => out.is_ok() && out.unwrap()@ == target,
                None => out == Err::<Target, Error>(Error::TargetNotFound),
            },
    {
        let mut i: usize = 0;
        while i < self.entries.len()
            invariant
                i <= self.entries.len(),
                first_with_chip(self.entries@, chip, 0) == first_with_chip(
                    self.entries@,
                    chip,
                    i as int,
                ),
            decreases self.entries.len() - i,
        {
            if self.entries[i].chip == chip {
                return Ok(self.entries[i].target.duplicate());
            }
            i += 1;
        }
        Err(Error::TargetNotFound)
    }
}

} // verus!
