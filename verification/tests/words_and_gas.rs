use zkos_hooks::gas::Gas;
use zkos_hooks::outcome::{charge, oog_error, returned, revert, CallStatus};
use zkos_hooks::words::{
    all_zero, b160_to_b256, push_slice, push_zeros, read_address, read_word, same_address,
    small_word_exec,
};

#[test]
fn byte_helpers() {
    let data: Vec<u8> = (0u8..64).collect();
    let w = read_word(&data, 4);
    assert_eq!(w[0], 4);
    assert_eq!(w[31], 35);
    let a = read_address(&data, 10);
    assert_eq!(a[0], 10);
    assert_eq!(a[19], 29);
    assert!(all_zero(&[0, 0, 1, 0], 0, 2));
    assert!(!all_zero(&[0, 0, 1, 0], 0, 3));
    let b = b160_to_b256(&a);
    assert_eq!(&b[..12], &[0u8; 12]);
    assert_eq!(&b[12..], &a[..]);
    assert!(same_address(&a, &a));
    assert!(!same_address(&a, &[0u8; 20]));
}

#[test]
fn gas_records_costs() {
    let mut g = Gas::new(100);
    assert!(g.record_cost(40));
    assert_eq!(g.remaining, 60);
    assert!(!g.record_cost(61));
    assert_eq!(g.remaining, 60);
    assert!(g.record_cost(60));
    assert_eq!(g.remaining, 0);
    assert_eq!(g.limit, 100);
}

#[test]
fn outcomes_and_charges() {
    let g = charge(Gas::new(10), 4).ok().unwrap();
    assert_eq!(g.remaining, 6);
    let o = charge(g, 7).err().unwrap();
    assert_eq!(o.status, CallStatus::OutOfGas);
    assert_eq!(o.gas.limit, 0);
    let o = revert(g);
    assert_eq!(o.status, CallStatus::Revert);
    assert_eq!(o.gas, g);
    assert!(o.output.is_empty());
    let o = oog_error();
    assert_eq!(o.gas.remaining, 0);
    let o = returned(vec![1, 2], g);
    assert_eq!(o.status, CallStatus::Return);
    assert_eq!(o.output, vec![1, 2]);
}

#[test]
fn byte_builders() {
    let mut v = vec![9u8];
    push_slice(&mut v, &[1, 2]);
    push_zeros(&mut v, 3);
    assert_eq!(v, vec![9, 1, 2, 0, 0, 0]);
    let w = small_word_exec(5);
    assert_eq!(&w[..31], &[0u8; 31]);
    assert_eq!(w[31], 5);
}
