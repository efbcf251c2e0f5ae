use sandbox_ipc::context::{ContextGuard, Current};
use sandbox_ipc::error::{Error, Fault};

#[test]
fn context_lasts_as_long_as_it_is_set() {
    let mut place: Current<u32> = Current { context: None };
    assert!(!place.has_current());
    let inner = |p: &mut Current<u32>| {
        assert!(p.has_current());
        assert_eq!(p.context, Some(5));
        let nested = |q: &mut Current<u32>| {
            assert_eq!(q.context, Some(6));
            q.context = Some(99);
            "nested"
        };
        let result = p.set(6, nested);
        assert_eq!(p.context, Some(5));
        result
    };
    assert_eq!(place.set(5, inner), "nested");
    assert!(!place.has_current());
}

#[test]
fn guard_gives_back_what_was_there() {
    let mut place = Current { context: Some('a') };
    let guard = place.enter('b');
    assert_eq!(guard.previous, Some('a'));
    assert_eq!(place.context, Some('b'));
    place.leave(guard);
    assert_eq!(place.context, Some('a'));
    place.leave(ContextGuard { previous: None });
    assert_eq!(place.context, None);
}

#[test]
fn resources_need_a_context() {
    let empty: Current<u32> = Current { context: None };
    let double = |c: &u32| Ok::<u32, Error>(*c * 2);
    assert_eq!(empty.serialize_with(double), Err(Error::Fault(Fault::SerializeOutsideContext)));
    assert_eq!(empty.deserialize_with(double), Err(Error::Fault(Fault::DeserializeOutsideContext)));

    let place = Current { context: Some(21) };
    assert_eq!(place.serialize_with(double), Ok(42));
    assert_eq!(place.deserialize_with(double), Ok(42));
    let refuse = |_c: &u32| Err::<u32, Error>(Error::Os(5));
    assert_eq!(place.serialize_with(refuse), Err(Error::Os(5)));
    assert_eq!(place.serialize_with_current(double), Ok(42));
    assert_eq!(empty.serialize_with_current(double), Err(Error::Fault(Fault::SerializeInInvalidContext)));
}
