use std::collections::HashMap;

use rec_partial::HasPartial;

#[test]
fn scalar_instances_are_identity() {
    let a: <i32 as HasPartial>::Partial = 5i32;
    let b: <bool as HasPartial>::Partial = true;
    let c: <String as HasPartial>::Partial = String::from("x");
    let d: <() as HasPartial>::Partial = ();
    let e: <char as HasPartial>::Partial = 'c';
    let f: <u128 as HasPartial>::Partial = 7u128;
    let g: <usize as HasPartial>::Partial = 9usize;
    assert_eq!(a, 5);
    assert!(b);
    assert_eq!(c, "x");
    assert_eq!(d, ());
    assert_eq!(e, 'c');
    assert_eq!(f, 7);
    assert_eq!(g, 9);
}

#[test]
fn optional_instance_flattens() {
    // Partial of Option<u8> is u8 itself, not an Option of it.
    let x: <Option<u8> as HasPartial>::Partial = 3u8;
    assert_eq!(x, 3);
    // Even nested: partial of Option<Option<u8>> flattens twice.
    let y: <Option<Option<u8>> as HasPartial>::Partial = 4u8;
    assert_eq!(y, 4);
}

#[test]
fn container_instances_soften_values() {
    let v: <Vec<u8> as HasPartial>::Partial = vec![1u8, 2];
    assert_eq!(v, vec![1, 2]);
    // A sequence of optionals softens its elements: the element partials
    // flatten away the optional layer.
    let w: <Vec<Option<u16>> as HasPartial>::Partial = vec![5u16];
    assert_eq!(w, vec![5]);
    // A mapping keeps its key type and softens only the value type.
    let mut m: <HashMap<String, Option<i64>> as HasPartial>::Partial = HashMap::new();
    m.insert("k".to_string(), 7i64);
    assert_eq!(m.get("k"), Some(&7i64));
}
