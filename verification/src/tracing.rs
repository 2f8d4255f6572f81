//! Setting up the trace path: finding the trace components in the
//! component directory and writing the registers that route trace data to
//! the capture buffer.

use vstd::prelude::*;

use crate::error::Error;
use crate::link::{ArmCommunicationInterface, MemoryImageView, ProbeView};
use crate::romtable::{add_offset, offset_address, ComponentEntry, RomTable};

verus! {

/// Part number of the instrumentation trace unit.
pub const ITM_PART: u16 = 0x001;

/// Part number of the watchpoint and trace unit.
pub const DWT_PART: u16 = 0x002;

/// Part number of the trace port interface.
pub const TPIU_PART: u16 = 0x9A1;

/// Offset of the lock access register of the instrumentation trace unit.
pub const ITM_LOCK_ACCESS: u32 = 0xFB0;

/// Offset of the trace control register of the instrumentation trace unit.
pub const ITM_TRACE_CONTROL: u32 = 0xE80;

/// Offset of the trace enable register of the instrumentation trace unit.
pub const ITM_TRACE_ENABLE: u32 = 0xE00;

/// Offset of the control register of the watchpoint and trace unit.
pub const DWT_CONTROL: u32 = 0x000;

/// Offset of the pin protocol register of the trace port interface.
pub const TPIU_PIN_PROTOCOL: u32 = 0x0F0;

/// Offset of the formatter control register of the trace port interface.
pub const TPIU_FORMATTER_CONTROL: u32 = 0x304;

/// The key that unlocks the instrumentation trace unit.
pub const UNLOCK_KEY: u32 = 0xC5AC_CE55;

/// Trace control: unit enabled, synchronisation packets, forwarding from the
/// watchpoint unit, trace bus identifier 1.
pub const ITM_TRACE_CONTROL_VALUE: u32 = 0x0001_000D;

/// Trace enable: stimulus port 0.
pub const ITM_TRACE_ENABLE_VALUE: u32 = 0x0000_0001;

/// Watchpoint unit control: cycle counter and exception trace enabled.
pub const DWT_CONTROL_VALUE: u32 = 0x0001_0001;

/// Pin protocol: asynchronous, non-return-to-zero.
pub const TPIU_PIN_PROTOCOL_VALUE: u32 = 0x0000_0002;

/// Formatter control: trigger input enabled, formatter bypassed.
pub const TPIU_FORMATTER_CONTROL_VALUE: u32 = 0x0000_0100;

/// One write of a register.
#[derive(Clone, Copy, Debug, PartialEq, Eq, Structural)]
pub struct RegisterWrite {
    pub address: u32,
    pub value: u32,
}

/// Where the three trace components stand.
#[derive(Clone, Copy, Debug, PartialEq, Eq, Structural)]
pub struct TraceRoute {
    pub itm: u32,
    pub dwt: u32,
    pub tpiu: u32,
}

/// The address of the first of `entries[from..]` that has the part number
/// `part`, or `None` where none has it.
pub open spec fn first_of_part(entries: Seq<ComponentEntry>, part: u16, from: int) -> Option<u32>
    decreases entries.len() - from,
{
    if from < 0 || from >= entries.len() {
        None
    } else if entries[from].id.part == part {
        Some(entries[from].address)
    } else {
        first_of_part(entries, part, from + 1)
    }
}

/// `first_of_part` finds a component exactly where one of `entries[from..]`
/// has the part number, and then gives the address of the first that has.
pub proof fn first_of_part_is_first(entries: Seq<ComponentEntry>, part: u16, from: int)
    requires
        0 <= from <= entries.len(),
    ensures
        first_of_part(entries, part, from).is_none() <==> forall|k: int|
            from <= k < entries.len() ==> entries[k].id.part != part,
        first_of_part(entries, part, from).is_some() ==> exists|at: int|
            from <= at < entries.len() && entries[at].id.part == part && first_of_part(
                entries,
                part,
                from,
            ) == Some(entries[at].address) && forall|k: int|
                from <= k < at ==> entries[k].id.part != part,
    decreases entries.len() - from,
{
    if from < entries.len() {
        if entries[from].id.part == part {
            assert(forall|k: int| from <= k < from ==> entries[k].id.part != part);
        } else {
            first_of_part_is_first(entries, part, from + 1);
            if first_of_part(entries, part, from).is_some() {
                let at = choose|at: int|
                    from + 1 <= at < entries.len() && entries[at].id.part == part && first_of_part(
                        entries,
                        part,
                        from + 1,
                    ) == Some(entries[at].address) && forall|k: int|
                        from + 1 <= k < at ==> entries[k].id.part != part;
                assert(forall|k: int| from <= k < at ==> entries[k].id.part != part);
            }
        }
    }
}

/// The trace components of a directory, or `None` where one is missing.
pub open spec fn trace_route(entries: Seq<ComponentEntry>) -> Option<TraceRoute> {
    match (
        first_of_part(entries, ITM_PART, 0),
        first_of_part(entries, DWT_PART, 0),
        first_of_part(entries, TPIU_PART, 0),
    ) {
        (Some(itm), Some(dwt), Some(tpiu)) => Some(TraceRoute { itm, dwt, tpiu }),
        _ => None,
    }
}

/// The register writes that route trace data to the capture buffer, in the
/// order in which they are issued.
pub open spec fn trace_writes(route: TraceRoute) -> Seq<RegisterWrite> {
    seq![
        RegisterWrite { address: offset_address(route.itm, ITM_LOCK_ACCESS), value: UNLOCK_KEY },
        RegisterWrite {
            address: offset_address(route.itm, ITM_TRACE_CONTROL),
            value: ITM_TRACE_CONTROL_VALUE,
        },
        RegisterWrite {
            address: offset_address(route.itm, ITM_TRACE_ENABLE),
            value: ITM_TRACE_ENABLE_VALUE,
        },
        RegisterWrite { address: offset_address(route.dwt, DWT_CONTROL), value: DWT_CONTROL_VALUE },
        RegisterWrite {
            address: offset_address(route.tpiu, TPIU_PIN_PROTOCOL),
            value: TPIU_PIN_PROTOCOL_VALUE,
        },
        RegisterWrite {
            address: offset_address(route.tpiu, TPIU_FORMATTER_CONTROL),
            value: TPIU_FORMATTER_CONTROL_VALUE,
        },
    ]
}

/// The memory after the writes `writes[from..]` were issued in order, up to
/// the first one to an unmapped address, and whether all of them went
/// through.
pub open spec fn written(image: MemoryImageView, writes: Seq<RegisterWrite>, from: int) -> (
    MemoryImageView,
    bool,
)
    decreases writes.len() - from,
{
    if from < 0 || from >= writes.len() {
        (image, true)
    } else if !image.maps(writes[from].address) {
        (image, false)
    } else {
        written(image.with_word(writes[from].address, writes[from].value), writes, from + 1)
    }
}

/// What setting up the trace path over `entries` does to the link, and how
/// it ends.
pub open spec fn trace_setup(link: ProbeView, entries: Seq<ComponentEntry>) -> (
    ProbeView,
    Result<(), Error>,
) {
    match trace_route(entries) {
        None => (link, Err(Error::TraceSetupFailed)),
        Some(route) => {
            let (memory, done) = written(link.memory, trace_writes(route), 0);
            (
                ProbeView { memory, ..link },
                if done {
                    Ok(())
                } else {
                    Err(Error::TraceSetupFailed)
                },
            )
        },
    }
}

/// Finds the first component with the part number `part`.
pub fn find_component(entries: &Vec<ComponentEntry>, part: u16) -> (out: Option<u32>)
    ensures
        out == first_of_part(entries@, part, 0),
{
    let mut i: usize = 0;
    while i < entries.len()
        invariant
            i <= entries.len(),
            first_of_part(entries@, part, 0) == first_of_part(entries@, part, i as int),
        decreases entries.len() - i,
    {
        if entries[i].id.part == part {
            return Some(entries[i].address);
        }
        i += 1;
    }
    None
}

/// Finds the three trace components.
pub fn find_trace_route(entries: &Vec<ComponentEntry>) -> (out: Option<TraceRoute>)
    ensures
        out == trace_route(entries@),
{
    let itm = find_component(entries, ITM_PART);
    let dwt = find_component(entries, DWT_PART);
    let tpiu = find_component(entries, TPIU_PART);
    match (itm, dwt, tpiu) {
        (Some(itm), Some(dwt), Some(tpiu)) => Some(TraceRoute { itm, dwt, tpiu }),
        _ => None,
    }
}

/// Lists the register writes that route trace data to the capture buffer.
pub fn plan_trace_writes(route: TraceRoute) -> (out: Vec<RegisterWrite>)
    ensures
        out@ == trace_writes(route),
{
    let mut out: Vec<RegisterWrite> = Vec::new();
    out.push(RegisterWrite { address: add_offset(route.itm, ITM_LOCK_ACCESS), value: UNLOCK_KEY });
    out.push(
        RegisterWrite {
            address: add_offset(route.itm, ITM_TRACE_CONTROL),
            value: ITM_TRACE_CONTROL_VALUE,
        },
    );
    out.push(
        RegisterWrite {
            address: add_offset(route.itm, ITM_TRACE_ENABLE),
            value: ITM_TRACE_ENABLE_VALUE,
        },
    );
    out.push(
        RegisterWrite { address: add_offset(route.dwt, DWT_CONTROL), value: DWT_CONTROL_VALUE },
    );
    out.push(
        RegisterWrite {
            address: add_offset(route.tpiu, TPIU_PIN_PROTOCOL),
            value: TPIU_PIN_PROTOCOL_VALUE,
        },
    );
    out.push(
        RegisterWrite {
            address: add_offset(route.tpiu, TPIU_FORMATTER_CONTROL),
            value: TPIU_FORMATTER_CONTROL_VALUE,
        },
    );
    assert(out@ =~= trace_writes(route));
    out
}

/// Issues `writes` in order and stops at the first one that fails. Says
/// whether all of them went through.
pub fn apply_writes(interface: &mut ArmCommunicationInterface, writes: &Vec<RegisterWrite>) -> (done:
    bool)
    ensures
        final(interface)@ == (ProbeView {
            memory: written(old(interface)@.memory, writes@, 0).0,
            ..old(interface)@
        }),
        done == written(old(interface)@.memory, writes@, 0).1,
{
    let ghost start = interface@;
    let mut i: usize = 0;
    while i < writes.len()
        invariant
            i <= writes.len(),
            start == old(interface)@,
            interface@ == (ProbeView { memory: interface@.memory, ..start }),
            written(start.memory, writes@, 0) == written(interface@.memory, writes@, i as int),
        decreases writes.len() - i,
    {
        if !interface.write_word(writes[i].address, writes[i].value) {
            return false;
        }
        i += 1;
    }
    true
}

/// Sets up the trace path over the components of `table`. Fails where a
/// trace component is missing, the link then being as it was, or where a
/// register write fails, the writes before it then having been made.
pub fn setup_tracing(interface: &mut ArmCommunicationInterface, table: &RomTable) -> (out: Result<
    (),
    Error,
>)
    ensures
        (final(interface)@, out) == trace_setup(old(interface)@, table@),
{
    let route = match find_trace_route(table.entries()) {
        Some(route) => route,
        None => {
            return Err(Error::TraceSetupFailed);
        },
    };
    let writes = plan_trace_writes(route);
    if apply_writes(interface, &writes) {
        Ok(())
    } else {
        Err(Error::TraceSetupFailed)
    }
}

/// Whether one of `writes[from..]` goes to the word `slot` of an image
/// that starts at `base`.
pub open spec fn reaches(writes: Seq<RegisterWrite>, base: u32, from: int, slot: int) -> bool
    decreases writes.len() - from,
{
    if from < 0 || from >= writes.len() {
        false
    } else {
        (writes[from].address - base) / 4 == slot || reaches(writes, base, from + 1, slot)
    }
}

/// Writes keep the base and the size of the memory, and change no word but
/// those they go to.
pub proof fn writes_change_only_their_words(
    image: MemoryImageView,
    writes: Seq<RegisterWrite>,
    from: int,
)
    requires
        0 <= from,
    ensures
        written(image, writes, from).0.base == image.base,
        written(image, writes, from).0.words.len() == image.words.len(),
        forall|slot: int|
            0 <= slot < image.words.len() && written(image, writes, from).0.words[slot]
                != image.words[slot] ==> reaches(writes, image.base, from, slot),
    decreases writes.len() - from,
{
    if from < writes.len() && image.maps(writes[from].address) {
        let next = image.with_word(writes[from].address, writes[from].value);
        writes_change_only_their_words(next, writes, from + 1);
        let last = written(image, writes, from).0;
        assert(last == written(next, writes, from + 1).0);
        assert forall|slot: int|
            0 <= slot < image.words.len() && last.words[slot] != image.words[slot] implies reaches(
            writes,
            image.base,
            from,
            slot,
        ) by {
            if last.words[slot] != next.words[slot] {
                assert(reaches(writes, next.base, from + 1, slot));
            } else {
                assert(slot == image.slot(writes[from].address));
            }
        }
    }
}

/// Two memories of one shape that differ only in words that the writes go
/// to are the same memory after writes that all went through.
pub proof fn writes_settle_their_words(
    first: MemoryImageView,
    second: MemoryImageView,
    writes: Seq<RegisterWrite>,
    from: int,
)
    requires
        0 <= from,
        first.base == second.base,
        first.words.len() == second.words.len(),
        forall|slot: int|
            0 <= slot < first.words.len() && first.words[slot] != second.words[slot] ==> reaches(
                writes,
                first.base,
                from,
                slot,
            ),
        written(first, writes, from).1,
    ensures
        written(second, writes, from) == written(first, writes, from),
    decreases writes.len() - from,
{
    if from < writes.len() {
        let write = writes[from];
        assert(first.maps(write.address));
        assert(second.maps(write.address));
        let first_next = first.with_word(write.address, write.value);
        let second_next = second.with_word(write.address, write.value);
        assert forall|slot: int|
            0 <= slot < first_next.words.len() && first_next.words[slot]
                != second_next.words[slot] implies reaches(writes, first.base, from + 1, slot) by {
            assert(slot != first.slot(write.address));
            assert(first.words[slot] != second.words[slot]);
            assert(reaches(writes, first.base, from, slot));
        }
        writes_settle_their_words(first_next, second_next, writes, from + 1);
    } else {
        assert(first.words =~= second.words);
    }
}

/// Register writes that all went through may be issued again: the memory
/// is then as it was after the first time.
pub proof fn repeated_writes_change_nothing(image: MemoryImageView, writes: Seq<RegisterWrite>)
    requires
        written(image, writes, 0).1,
    ensures
        written(written(image, writes, 0).0, writes, 0) == written(image, writes, 0),
{
    writes_change_only_their_words(image, writes, 0);
    writes_settle_their_words(image, written(image, writes, 0).0, writes, 0);
}

/// A trace setup that went through may be run again over the same
/// components: it goes through again and leaves the link as the first run
/// left it.
pub proof fn repeated_trace_setup_changes_nothing(link: ProbeView, entries: Seq<ComponentEntry>)
    requires
        trace_setup(link, entries).1.is_ok(),
    ensures
        trace_setup(trace_setup(link, entries).0, entries) == trace_setup(link, entries),
{
    let route = trace_route(entries).unwrap();
    repeated_writes_change_nothing(link.memory, trace_writes(route));
}

} // verus!
