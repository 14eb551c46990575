use user_host::errors::MemoryBoundsError;
use user_host::memory::GuestMemory;
use user_host::program::{EvmData, Program};

fn one_page_instance() -> Program {
    Program::new(
        vec![1, 2, 3],
        EvmData::new(vec![0xaa; 20], vec![0xbb; 20]),
        1,
        0,
        GuestMemory::new(1),
    )
}

#[test]
fn fresh_memory_is_zeroed_and_sized_in_pages() {
    let m = GuestMemory::new(2);
    assert_eq!(m.size_in_pages(), 2);
    assert_eq!(m.read_slice(131072 - 4, 4), Ok(vec![0, 0, 0, 0]));
}

#[test]
fn read_within_one_page_succeeds() {
    let p = one_page_instance();
    assert_eq!(p.read_slice(0, 3), Ok(vec![0, 0, 0]));
    assert_eq!(p.memory_size(), 1);
}

#[test]
fn read_spanning_into_second_page_fails() {
    let p = one_page_instance();
    assert_eq!(p.read_slice(65534, 10), Err(MemoryBoundsError));
}

#[test]
fn write_then_read_round_trips() {
    let mut p = one_page_instance();
    assert_eq!(p.write_slice(5, &[9, 8, 7]), Ok(()));
    assert_eq!(p.read_slice(5, 3), Ok(vec![9, 8, 7]));
    // neighbours untouched
    assert_eq!(p.read_slice(4, 5), Ok(vec![0, 9, 8, 7, 0]));
}

#[test]
fn write_u32_is_little_endian() {
    let mut p = one_page_instance();
    assert_eq!(p.write_u32(8, 0x04030201), Ok(()));
    assert_eq!(p.read_slice(8, 4), Ok(vec![1, 2, 3, 4]));
    assert_eq!(p.write_u32(65534, 7), Err(MemoryBoundsError));
}

#[test]
fn failed_write_leaves_memory_untouched() {
    let mut p = one_page_instance();
    assert_eq!(p.write_slice(65534, &[1, 2, 3, 4]), Err(MemoryBoundsError));
    assert_eq!(p.read_slice(65534, 2), Ok(vec![0, 0]));
}

#[test]
fn fixed_width_reads_and_writes_are_checked_too() {
    let mut p = one_page_instance();
    let addr = [0x11u8; 20];
    assert_eq!(p.write_bytes20(0, &addr), Ok(()));
    assert_eq!(p.read_bytes20(0), Ok(addr.to_vec()));
    let word = [0x22u8; 32];
    assert_eq!(p.write_bytes32(100, &word), Ok(()));
    assert_eq!(p.read_bytes32(100), Ok(word.to_vec()));
    assert_eq!(p.read_bytes20(65520), Err(MemoryBoundsError));
    assert_eq!(p.read_bytes32(65530), Err(MemoryBoundsError));
    assert_eq!(p.write_bytes20(65520, &addr), Err(MemoryBoundsError));
    assert_eq!(p.write_bytes32(65530, &word), Err(MemoryBoundsError));
    // landing exactly on the boundary is fine
    assert_eq!(p.read_bytes20(65516), Ok(vec![0; 20]));
}

#[test]
fn check_memory_access_uses_the_instance_page_count() {
    let p = one_page_instance();
    assert_eq!(p.check_memory_access(0, 65536), Ok(()));
    assert_eq!(p.check_memory_access(1, 65536), Err(MemoryBoundsError));
}

#[test]
fn instance_accessors_reflect_creation_values() {
    let mut p = one_page_instance();
    assert_eq!(p.args(), &[1, 2, 3]);
    assert_eq!(p.evm_data().contract_address, vec![0xaa; 20]);
    assert_eq!(p.evm_data().caller_address, vec![0xbb; 20]);
    assert_eq!(p.evm_data().return_data_len, 0);
    *p.evm_return_data_len() = 77;
    assert_eq!(p.evm_data().return_data_len, 77);
    p.outs().extend_from_slice(&[5, 6]);
    p.outs().push(7);
    assert_eq!(p.outs, vec![5, 6, 7]);
}
