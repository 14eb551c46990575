use user_host::errors::FatalError;
use user_host::memory::GuestMemory;
use user_host::program::{EvmData, Program};
use user_host::registry::ProgramRegistry;

fn instance(tag: u8) -> Program {
    Program::new(
        vec![tag],
        EvmData::new(vec![tag; 20], vec![0; 20]),
        tag as u32,
        tag as u64,
        GuestMemory::new(1),
    )
}

#[test]
fn pop_on_empty_registry_is_the_fatal_empty_stack_condition() {
    let mut reg = ProgramRegistry::new();
    assert_eq!(reg.pop(), Err(FatalError::EmptyStack));
}

#[test]
fn current_on_empty_registry_is_the_fatal_empty_stack_condition() {
    let reg = ProgramRegistry::new();
    assert!(matches!(reg.current(), Err(FatalError::EmptyStack)));
}

#[test]
fn popping_everything_leaves_the_registry_empty_again() {
    let mut reg = ProgramRegistry::new();
    reg.push(instance(1));
    reg.push(instance(2));
    assert_eq!(reg.pop(), Ok(()));
    assert_eq!(reg.pop(), Ok(()));
    assert_eq!(reg.pop(), Err(FatalError::EmptyStack));
    assert!(matches!(reg.current(), Err(FatalError::EmptyStack)));
}

#[test]
fn current_is_the_last_pushed_instance() {
    let mut reg = ProgramRegistry::new();
    reg.push(instance(1));
    assert_eq!(reg.current().unwrap().args(), &[1]);
    reg.push(instance(2));
    assert_eq!(reg.current().unwrap().args(), &[2]);
}

#[test]
fn after_k_pushes_and_j_pops_the_k_minus_j_th_pushed_is_current() {
    let mut reg = ProgramRegistry::new();
    for tag in 1..=5u8 {
        reg.push(instance(tag));
    }
    for _ in 0..2 {
        reg.pop().unwrap();
    }
    // k = 5 pushes, j = 2 pops: the 3rd pushed instance is current,
    // exactly as it was pushed
    let cur = reg.current().unwrap();
    assert_eq!(cur.args(), &[3]);
    assert_eq!(cur.module, 3);
    assert_eq!(cur.config, 3);
    assert_eq!(cur.evm_data().contract_address, vec![3; 20]);
}

#[test]
fn nested_call_leaves_the_outer_instance_untouched() {
    let mut reg = ProgramRegistry::new();
    reg.push_new(
        vec![0xa1, 0xa2],
        EvmData::new(vec![1; 20], vec![2; 20]),
        10,
        0,
        GuestMemory::new(1),
    );
    // a nested call pushes a fresh instance and scribbles over its own
    // state: memory, output, context
    reg.push_new(vec![0xb1], EvmData::new(vec![3; 20], vec![4; 20]), 11, 0, GuestMemory::new(1));
    {
        let b = reg.current_mut();
        b.write_slice(0, &[0xff; 16]).unwrap();
        b.outs().push(0xbb);
        *b.evm_return_data_len() = 99;
    }
    // the nested call returns
    reg.pop().unwrap();
    let a = reg.current().unwrap();
    assert_eq!(a.args(), &[0xa1, 0xa2]);
    assert_eq!(a.module, 10);
    assert_eq!(a.outs, Vec::<u8>::new());
    assert_eq!(a.evm_data().return_data_len, 0);
    assert_eq!(a.read_slice(0, 16), Ok(vec![0; 16]));
}

#[test]
fn push_new_starts_with_empty_output_and_the_given_arguments() {
    let mut reg = ProgramRegistry::new();
    reg.push_new(vec![7, 8], EvmData::new(vec![], vec![]), 5, 6, GuestMemory::new(1));
    let p = reg.current().unwrap();
    assert_eq!(p.args(), &[7, 8]);
    assert_eq!(p.outs, Vec::<u8>::new());
    assert_eq!(p.module, 5);
    assert_eq!(p.config, 6);
    assert_eq!(p.memory_size(), 1);
}
