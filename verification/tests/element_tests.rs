use monolith_core::element::{ElementId, ParamKey, TypeId};

#[test]
fn fresh_element_ids_differ() {
    let a = ElementId::fresh();
    let b = ElementId::fresh();
    assert_ne!(a, b);
}

#[test]
fn fresh_type_ids_differ() {
    let a = TypeId::fresh();
    let b = TypeId::fresh();
    assert_ne!(a, b);
}

#[test]
fn param_keys_compare_by_value() {
    assert_eq!(ParamKey(3), ParamKey(3));
    assert_ne!(ParamKey(3), ParamKey(4));
}
