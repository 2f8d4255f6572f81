use probe_session::config::{
    ChipInfo, CoreType, MemoryKind, MemoryRegion, RawFlashAlgorithm, Registry, RegistryEntry,
    Target, TargetSelector,
};
use probe_session::error::Error;
use probe_session::link::{AccessPort, Memory, MemoryImage, Probe};
use probe_session::session::{Core, Session, TracingState};

fn ram() -> MemoryRegion {
    MemoryRegion { kind: MemoryKind::Ram, start: 0x2000_0000, end: 0x2001_0000 }
}

fn algorithm() -> RawFlashAlgorithm {
    RawFlashAlgorithm {
        load_address: 0x2000_0000,
        instructions: vec![0xE00A_BE00, 0x062D_780D, 0x2408_4068],
        pc_init: 0x21,
        pc_program_page: 0x71,
        pc_erase_sector: 0x4D,
    }
}

fn target(core_type: CoreType) -> Target {
    Target { core_type, memory_map: vec![ram()], flash_algorithms: vec![algorithm()] }
}

fn registry() -> Registry {
    Registry {
        entries: vec![
            RegistryEntry {
                name: String::from("nrf51822"),
                chip: ChipInfo { manufacturer: 0x244, part: 0x001 },
                target: target(CoreType::M0),
            },
            RegistryEntry {
                name: String::from("stm32f407"),
                chip: ChipInfo { manufacturer: 0x020, part: 0x413 },
                target: target(CoreType::M4),
            },
            RegistryEntry {
                name: String::from("stm32f407"),
                chip: ChipInfo { manufacturer: 0x020, part: 0x413 },
                target: target(CoreType::M3),
            },
        ],
    }
}

fn probe(dedicated: bool, ports: Option<Vec<AccessPort>>) -> Probe {
    Probe {
        chip: None,
        dedicated_memory: dedicated,
        access_ports: ports,
        memory: MemoryImage { base: 0, words: vec![] },
        trace: Some(vec![1, 2, 3]),
    }
}

fn two_ports() -> Vec<AccessPort> {
    vec![
        AccessPort { id: 3, base_address: 0xE00F_F000 },
        AccessPort { id: 7, base_address: 0xE00F_E000 },
    ]
}

fn session(dedicated: bool, ports: Option<Vec<AccessPort>>) -> Session {
    Session::new(probe(dedicated, ports), TargetSelector::Specified(target(CoreType::M4)), &registry())
        .unwrap()
}

#[test]
fn memory_map_returns_the_specified_region() {
    let s = session(false, Some(two_ports()));
    assert_eq!(
        s.memory_map(),
        vec![MemoryRegion { kind: MemoryKind::Ram, start: 0x2000_0000, end: 0x2001_0000 }]
    );
}

#[test]
fn flash_algorithms_are_those_of_the_target() {
    let s = session(false, Some(two_ports()));
    assert_eq!(s.flash_algorithms(), vec![algorithm()]);
}

#[test]
fn new_session_is_idle_and_unconfigured() {
    let s = session(false, Some(two_ports()));
    assert!(!s.is_busy());
    assert_eq!(s.tracing_state(), TracingState::Unconfigured);
    assert_eq!(s.architecture_session().read_word(0), None);
}

#[test]
fn new_by_name_takes_the_first_registered() {
    let s = Session::new(
        probe(false, None),
        TargetSelector::Unspecified(String::from("stm32f407")),
        &registry(),
    )
    .unwrap();
    assert_eq!(s.list_cores(), vec![CoreType::M4]);
}

#[test]
fn new_by_unknown_name_fails() {
    let r = Session::new(
        probe(false, None),
        TargetSelector::Unspecified(String::from("nothing")),
        &registry(),
    );
    assert_eq!(r.err(), Some(Error::TargetNotFound));
}

#[test]
fn registry_lookups() {
    let r = registry();
    assert_eq!(r.get_target_by_name(&String::from("nrf51822")), Ok(target(CoreType::M0)));
    assert_eq!(r.get_target_by_name(&String::from("NRF51822")), Err(Error::TargetNotFound));
    assert_eq!(
        r.get_target_by_chip_info(ChipInfo { manufacturer: 0x020, part: 0x413 }),
        Ok(target(CoreType::M4))
    );
    assert_eq!(
        r.get_target_by_chip_info(ChipInfo { manufacturer: 0x020, part: 0x414 }),
        Err(Error::TargetNotFound)
    );
}

#[test]
fn auto_with_unidentifiable_chip_fails_autodetect() {
    let r = Session::new(probe(false, Some(two_ports())), TargetSelector::Auto, &registry());
    assert_eq!(r.err(), Some(Error::ChipAutodetectFailed));
    let empty = Registry { entries: vec![] };
    let r = Session::new(probe(true, None), TargetSelector::Auto, &empty);
    assert_eq!(r.err(), Some(Error::ChipAutodetectFailed));
}

#[test]
fn auto_with_identified_chip_asks_the_registry() {
    let mut p = probe(false, None);
    p.chip = Some(ChipInfo { manufacturer: 0x244, part: 0x001 });
    let s = Session::new(p, TargetSelector::Auto, &registry()).unwrap();
    assert_eq!(s.list_cores(), vec![CoreType::M0]);
    let mut p = probe(false, None);
    p.chip = Some(ChipInfo { manufacturer: 0x244, part: 0x002 });
    let r = Session::new(p, TargetSelector::Auto, &registry());
    assert_eq!(r.err(), Some(Error::TargetNotFound));
}

#[test]
fn list_cores_has_the_one_core_of_the_target() {
    let s = session(false, None);
    assert_eq!(s.list_cores(), vec![CoreType::M4]);
    assert_eq!(s.list_memories(), vec![]);
}

#[test]
fn attach_to_core_out_of_range_is_core_not_found() {
    let mut s = session(false, Some(two_ports()));
    assert_eq!(s.attach_to_core(1), Err(Error::CoreNotFound(1)));
    assert_eq!(s.attach_to_core(usize::MAX), Err(Error::CoreNotFound(usize::MAX)));
    assert_eq!(s.attach_to_core_with_specific_memory(2, None), Err(Error::CoreNotFound(2)));
    s.begin_exclusive_access().unwrap();
    assert_eq!(s.attach_to_core(1), Err(Error::CoreNotFound(1)));
    s.end_exclusive_access();
    assert_eq!(
        s.attach_to_core(0),
        Ok(Core { core_type: CoreType::M4, memory: Memory::Port(3), index: 0 })
    );
    assert_eq!(s.memory_map(), vec![ram()]);
}

#[test]
fn attach_to_core_uses_the_memory_of_its_index() {
    let s = session(false, Some(two_ports()));
    let core = s.attach_to_core(0).unwrap();
    assert_eq!(core.id(), 0);
    assert_eq!(core.memory, Memory::Port(3));
    assert_eq!(core.core_type, CoreType::M4);
    let s = session(false, None);
    assert_eq!(s.attach_to_core(0), Err(Error::AccessPortEnumerationFailed));
}

#[test]
fn dedicated_memory_is_taken_for_every_index() {
    let s = session(true, Some(two_ports()));
    assert_eq!(s.attach_to_memory(0), Ok(Memory::Dedicated));
    assert_eq!(s.attach_to_memory(1), Ok(Memory::Dedicated));
    assert_eq!(s.attach_to_memory(500), Ok(Memory::Dedicated));
    let s = session(true, None);
    assert_eq!(s.attach_to_memory(0), Ok(Memory::Dedicated));
    assert_eq!(s.attach_to_best_memory(), Ok(Memory::Dedicated));
}

#[test]
fn port_memory_is_bound_by_position_in_the_enumeration() {
    let mut s = session(false, Some(two_ports()));
    assert_eq!(s.attach_to_memory(0), Ok(Memory::Port(3)));
    assert_eq!(s.attach_to_memory(1), Ok(Memory::Port(7)));
    assert_eq!(s.attach_to_memory(2), Err(Error::AccessPortNotFound(2)));
    let mut swapped = two_ports();
    swapped.reverse();
    s.refresh_link(probe(false, Some(swapped))).unwrap();
    assert_eq!(s.attach_to_memory(0), Ok(Memory::Port(7)));
    assert_eq!(s.attach_to_memory(1), Ok(Memory::Port(3)));
}

#[test]
fn failed_enumeration_is_reported() {
    let s = session(false, None);
    assert_eq!(s.attach_to_memory(0), Err(Error::AccessPortEnumerationFailed));
    assert_eq!(s.attach_to_specific_core(CoreType::M3), Err(Error::AccessPortEnumerationFailed));
}

#[test]
fn best_memory_without_dedicated_is_port_zero() {
    let s = session(false, Some(two_ports()));
    assert_eq!(s.attach_to_best_memory(), Ok(Memory::Port(0)));
    let s = session(false, None);
    assert_eq!(s.attach_to_best_memory(), Ok(Memory::Port(0)));
    let s = session(false, Some(vec![]));
    assert_eq!(s.attach_to_best_memory(), Ok(Memory::Port(0)));
}

#[test]
fn specific_core_attaches_with_index_zero() {
    let s = session(false, Some(two_ports()));
    assert_eq!(
        s.attach_to_specific_core(CoreType::M33),
        Ok(Core { core_type: CoreType::M33, memory: Memory::Port(3), index: 0 })
    );
    assert_eq!(CoreType::M0.attach(Memory::Dedicated, 4).id(), 4);
}

#[test]
fn specific_memory_is_reused_or_defaults_to_best() {
    let s = session(false, None);
    assert_eq!(
        s.attach_to_core_with_specific_memory(0, Some(Memory::Port(9))),
        Ok(Core { core_type: CoreType::M4, memory: Memory::Port(9), index: 0 })
    );
    assert_eq!(
        s.attach_to_core_with_specific_memory(0, None),
        Ok(Core { core_type: CoreType::M4, memory: Memory::Port(0), index: 0 })
    );
    let s = session(true, None);
    assert_eq!(
        s.attach_to_core_with_specific_memory(0, None),
        Ok(Core { core_type: CoreType::M4, memory: Memory::Dedicated, index: 0 })
    );
}

#[test]
fn read_swv_drains_the_buffer() {
    let mut s = session(false, None);
    assert_eq!(s.read_swv(), Ok(vec![1, 2, 3]));
    assert_eq!(s.read_swv(), Ok(vec![]));
    let mut p = probe(false, None);
    p.trace = None;
    s.refresh_link(p).unwrap();
    assert_eq!(s.read_swv(), Err(Error::CommunicationError));
    assert_eq!(s.read_swv(), Err(Error::CommunicationError));
}

#[test]
fn second_exclusive_operation_fails_fast() {
    let mut s = session(false, Some(two_ports()));
    assert_eq!(s.begin_exclusive_access(), Ok(()));
    assert!(s.is_busy());
    assert_eq!(s.begin_exclusive_access(), Err(Error::AccessConflict));
    assert_eq!(s.read_swv(), Err(Error::AccessConflict));
    assert_eq!(s.attach_to_core(0), Err(Error::AccessConflict));
    assert_eq!(s.attach_to_memory(0), Err(Error::AccessConflict));
    assert_eq!(s.attach_to_best_memory(), Err(Error::AccessConflict));
    assert_eq!(s.attach_to_specific_core(CoreType::M4), Err(Error::AccessConflict));
    assert_eq!(
        s.attach_to_core_with_specific_memory(0, Some(Memory::Dedicated)),
        Err(Error::AccessConflict)
    );
    assert_eq!(s.refresh_link(probe(true, None)), Err(Error::AccessConflict));
    let core = Core { core_type: CoreType::M4, memory: Memory::Port(3), index: 0 };
    assert_eq!(s.setup_tracing(&core), Err(Error::AccessConflict));
    assert_eq!(s.list_cores(), vec![CoreType::M4]);
    s.end_exclusive_access();
    assert!(!s.is_busy());
    assert_eq!(s.read_swv(), Ok(vec![1, 2, 3]));
    assert_eq!(s.attach_to_memory(1), Ok(Memory::Port(7)));
}

#[test]
fn selectors_are_made_from_targets_and_names() {
    assert_eq!(
        TargetSelector::from(target(CoreType::M3)),
        TargetSelector::Specified(target(CoreType::M3))
    );
    let by_name: TargetSelector = String::from("nrf51822").into();
    assert_eq!(by_name, TargetSelector::Unspecified(String::from("nrf51822")));
    let s = Session::new(probe(false, None), by_name, &registry()).unwrap();
    assert_eq!(s.list_cores(), vec![CoreType::M0]);
    assert_eq!(target(CoreType::M3).duplicate(), target(CoreType::M3));
    assert_eq!(algorithm().duplicate(), algorithm());
}
