use blockchain::generate_chain;

#[test]
fn sample_chain_has_the_numerals_of_1_to_99() {
    let ch = generate_chain();
    assert_eq!(ch.len(), 99);
    let mut i: usize = 0;
    while i < 99 {
        let block = ch.get(i).unwrap();
        assert_eq!(block.index(), i as u64);
        assert_eq!(block.payload(), (i + 1).to_string());
        i += 1;
    }
    assert_eq!(ch.get(0).unwrap().back_reference(), 0);
    assert!(ch.get(99).is_none());
}

#[test]
fn sample_chain_validates() {
    let ch = generate_chain();
    assert!(ch.validate_chain());
    assert_eq!(true, ch.validate_chain());
}

#[test]
fn sample_chain_is_the_same_each_time() {
    let first = generate_chain();
    let second = generate_chain();
    assert_eq!(first.render(), second.render());
    assert_eq!(first.render().lines().count(), 3 * 99);
}
