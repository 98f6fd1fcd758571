use rocksalt::Instance;

#[test]
fn an_instance_holds_its_values_in_order() {
    let instance = Instance::new(vec![vec![1u8], vec![], vec![2, 3]]);
    assert_eq!(instance.len(), 3);
    assert_eq!(instance.value(0), Some(&vec![1]));
    assert_eq!(instance.value(1), Some(&vec![]));
    assert_eq!(instance.value(2), Some(&vec![2, 3]));
    assert_eq!(instance.value(3), None);
    assert_eq!(instance.into_values(), vec![vec![1], vec![], vec![2, 3]]);
}

#[test]
fn replace_puts_a_value_in_the_place_of_another() {
    let mut instance = Instance::new(vec![vec![1u8], vec![2]]);
    assert_eq!(instance.replace(1, vec![9, 9]), Ok(vec![2]));
    assert_eq!(instance.len(), 2);
    assert_eq!(instance.value(0), Some(&vec![1]));
    assert_eq!(instance.value(1), Some(&vec![9, 9]));
}

#[test]
fn replace_outside_the_instance_changes_nothing() {
    let mut instance = Instance::new(vec![vec![1u8], vec![2]]);
    assert_eq!(instance.replace(2, vec![9]), Err(vec![9]));
    assert_eq!(instance.into_values(), vec![vec![1], vec![2]]);
}
