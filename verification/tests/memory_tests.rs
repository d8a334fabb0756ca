use frame_renderer::error::RenderError;
use frame_renderer::memory::{get_memory_type_index, MemoryProperties, MemoryType};

const DEVICE_LOCAL: u32 = 0b0001;
const HOST_VISIBLE: u32 = 0b0010;
const HOST_COHERENT: u32 = 0b0100;
const HOST_CACHED: u32 = 0b1000;

fn props(flags: &[u32]) -> MemoryProperties {
    MemoryProperties {
        memory_types: flags
            .iter()
            .map(|f| MemoryType { property_flags: *f, heap_index: 0 })
            .collect(),
    }
}

#[test]
fn resolver_returns_lowest_matching_index() {
    let p = props(&[
        DEVICE_LOCAL,
        HOST_VISIBLE | HOST_COHERENT,
        DEVICE_LOCAL | HOST_VISIBLE | HOST_COHERENT,
        HOST_VISIBLE | HOST_COHERENT | HOST_CACHED,
    ]);
    assert_eq!(get_memory_type_index(&p, 0b1111, HOST_VISIBLE | HOST_COHERENT), Ok(1));
    assert_eq!(get_memory_type_index(&p, 0b1100, HOST_VISIBLE | HOST_COHERENT), Ok(2));
    assert_eq!(get_memory_type_index(&p, 0b1000, HOST_VISIBLE | HOST_COHERENT), Ok(3));
    assert_eq!(get_memory_type_index(&p, 0b1111, DEVICE_LOCAL), Ok(0));
    assert_eq!(get_memory_type_index(&p, 0b1110, DEVICE_LOCAL), Ok(2));
}

#[test]
fn resolver_needs_every_required_property() {
    let p = props(&[HOST_VISIBLE, HOST_COHERENT, HOST_VISIBLE | HOST_COHERENT]);
    assert_eq!(get_memory_type_index(&p, 0b111, HOST_VISIBLE | HOST_COHERENT), Ok(2));
    assert_eq!(
        get_memory_type_index(&p, 0b011, HOST_VISIBLE | HOST_COHERENT),
        Err(RenderError::NoSuitableMemoryType)
    );
}

#[test]
fn resolver_with_no_requirement_takes_first_allowed_type() {
    let p = props(&[DEVICE_LOCAL, 0, HOST_CACHED]);
    assert_eq!(get_memory_type_index(&p, 0b110, 0), Ok(1));
    assert_eq!(get_memory_type_index(&p, 0b100, 0), Ok(2));
}

#[test]
fn resolver_fails_on_empty_mask() {
    let p = props(&[DEVICE_LOCAL, HOST_VISIBLE | HOST_COHERENT, 0b1_1111]);
    assert_eq!(get_memory_type_index(&p, 0, 0), Err(RenderError::NoSuitableMemoryType));
    assert_eq!(get_memory_type_index(&p, 0, DEVICE_LOCAL), Err(RenderError::NoSuitableMemoryType));
    assert_eq!(
        get_memory_type_index(&p, 0, HOST_VISIBLE | HOST_COHERENT),
        Err(RenderError::NoSuitableMemoryType)
    );
}

#[test]
fn resolver_ignores_bits_without_a_type() {
    let p = props(&[HOST_VISIBLE]);
    assert_eq!(
        get_memory_type_index(&p, 0b1110, HOST_VISIBLE),
        Err(RenderError::NoSuitableMemoryType)
    );
    let none = props(&[]);
    assert_eq!(
        get_memory_type_index(&none, 0xffff_ffff, 0),
        Err(RenderError::NoSuitableMemoryType)
    );
}

#[test]
fn resolver_reaches_the_last_of_thirty_two_types() {
    let mut flags = vec![HOST_VISIBLE; 31];
    flags.push(DEVICE_LOCAL);
    flags.push(DEVICE_LOCAL);
    let p = props(&flags);
    assert_eq!(get_memory_type_index(&p, 0xffff_ffff, DEVICE_LOCAL), Ok(31));
    assert_eq!(
        get_memory_type_index(&p, 0x7fff_ffff, DEVICE_LOCAL),
        Err(RenderError::NoSuitableMemoryType)
    );
}

#[test]
fn resolver_gives_the_same_answer_twice() {
    let p = props(&[DEVICE_LOCAL, HOST_VISIBLE | HOST_COHERENT]);
    let first = get_memory_type_index(&p, 0b10, HOST_VISIBLE);
    let second = get_memory_type_index(&p, 0b10, HOST_VISIBLE);
    assert_eq!(first, Ok(1));
    assert_eq!(first, second);
}
