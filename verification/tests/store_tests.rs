use sarus_bridge::errors::BoundaryError;
use sarus_bridge::store::ObjectStore;

#[test]
fn round_trip_single_value() {
    let mut store = ObjectStore::new();
    let h = store.create().unwrap();
    store.push(h, 3.0f64.to_bits()).unwrap();
    let bits = store.get(h, 0).unwrap();
    assert_eq!(f64::from_bits(bits), 3.0);
}

#[test]
fn round_trip_two_values() {
    let mut store = ObjectStore::new();
    let h = store.create().unwrap();
    store.push(h, 3.0f64.to_bits()).unwrap();
    store.push(h, 7.0f64.to_bits()).unwrap();
    let bits = store.get(h, 1).unwrap();
    assert_eq!(f64::from_bits(bits), 7.0);
    let bits0 = store.get(h, 0).unwrap();
    assert_eq!(f64::from_bits(bits0), 3.0);
}

#[test]
fn get_past_length_is_bounds_error() {
    let mut store = ObjectStore::new();
    let h = store.create().unwrap();
    store.push(h, 1.5f64.to_bits()).unwrap();
    assert_eq!(store.get(h, 1), Err(BoundaryError::BoundsError));
    assert_eq!(store.get(h, 100), Err(BoundaryError::BoundsError));
}

#[test]
fn get_on_empty_container_is_bounds_error() {
    let mut store = ObjectStore::new();
    let h = store.create().unwrap();
    assert_eq!(store.get(h, 0), Err(BoundaryError::BoundsError));
}

#[test]
fn double_drop_is_precondition_violation() {
    let mut store = ObjectStore::new();
    let h = store.create().unwrap();
    store.drop_object(h).unwrap();
    assert_eq!(store.drop_object(h), Err(BoundaryError::PreconditionViolation));
}

#[test]
fn use_after_drop_is_precondition_violation() {
    let mut store = ObjectStore::new();
    let h = store.create().unwrap();
    store.push(h, 2.0f64.to_bits()).unwrap();
    store.drop_object(h).unwrap();
    assert_eq!(store.push(h, 4.0f64.to_bits()), Err(BoundaryError::PreconditionViolation));
    assert_eq!(store.get(h, 0), Err(BoundaryError::PreconditionViolation));
}

#[test]
fn never_issued_handle_is_precondition_violation() {
    let mut store = ObjectStore::new();
    assert_eq!(store.push(77, 1.0f64.to_bits()), Err(BoundaryError::PreconditionViolation));
    assert_eq!(store.get(77, 0), Err(BoundaryError::PreconditionViolation));
    assert_eq!(store.drop_object(77), Err(BoundaryError::PreconditionViolation));
}

#[test]
fn stale_handle_stays_dead_after_slot_reuse() {
    let mut store = ObjectStore::new();
    let h1 = store.create().unwrap();
    store.push(h1, 9.0f64.to_bits()).unwrap();
    store.drop_object(h1).unwrap();
    let h2 = store.create().unwrap();
    assert_ne!(h1, h2);
    // the released handle is still rejected, and never reads the new container
    assert_eq!(store.get(h1, 0), Err(BoundaryError::PreconditionViolation));
    assert_eq!(store.push(h1, 1.0f64.to_bits()), Err(BoundaryError::PreconditionViolation));
    // the new container starts empty
    assert_eq!(store.get(h2, 0), Err(BoundaryError::BoundsError));
}

#[test]
fn containers_do_not_alias() {
    let mut store = ObjectStore::new();
    let a = store.create().unwrap();
    let b = store.create().unwrap();
    store.push(a, 1.0f64.to_bits()).unwrap();
    store.push(b, 2.0f64.to_bits()).unwrap();
    store.push(a, 3.0f64.to_bits()).unwrap();
    assert_eq!(f64::from_bits(store.get(a, 0).unwrap()), 1.0);
    assert_eq!(f64::from_bits(store.get(a, 1).unwrap()), 3.0);
    assert_eq!(f64::from_bits(store.get(b, 0).unwrap()), 2.0);
    assert_eq!(store.get(b, 1), Err(BoundaryError::BoundsError));
}
