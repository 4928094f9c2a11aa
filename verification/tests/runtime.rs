use std::cell::Cell;
use std::sync::atomic::{AtomicUsize, Ordering};

use cpython_api_core::buffer::{releases, BufferReply};
use cpython_api_core::conversion::{
    callback_output, extract_i64, extract_option, none_ptr, owned_or_raised, FromPyObject,
    IntoPyCallbackOutput, IntoPyObject,
};
use cpython_api_core::entry::RustEntryGuard;
use cpython_api_core::err::{
    error_on_minus_one, raise_with_type, PyBufferError, PyEOFError, PyException, PyMemoryError,
    PyNotImplementedError, PyOverflowError, PyRuntimeError, PySystemError, PyTypeError,
    PyValueError,
};
use cpython_api_core::instance::drop_ref;
use cpython_api_core::sys_calls::{unicode_eq_ascii, SysCall, SysQuery};
use cpython_api_core::text::{
    begins_with, contains_text, cut_at_nul, decimal_text, join_text, same_text, text_in_order,
};
use cpython_api_core::threadstate::ExcType;
use cpython_api_core::{
    const_cstr, Borrowed, Bound, CStr, Py, PyAny, PyBuffer, PyBytes, PyErrRaised, PyModule,
    PyResult, PyType, ThreadState,
};

fn token() -> ThreadState<'static> {
    ThreadState::from_raw(8, 16, 1)
}

fn raised(ts: &mut ThreadState<'_>) -> (ExcType, String) {
    ts.hand_over_exception().unwrap()
}

#[test]
fn thread_state_addresses() {
    let ts = ThreadState::current_unchecked(8, 16, 1);
    assert_eq!(ts.as_ptr(), 8);
    assert_eq!(none_ptr(&ts), 16);
    assert!(!ts.exception_set());
}

#[test]
fn exceptions_are_handed_over_once() {
    let mut ts = token();
    let _ = PyValueError::raise(&mut ts, "bad");
    assert!(ts.exception_set());
    assert_eq!(ts.hand_over_exception(), Some((ExcType::ValueError, "bad".to_string())));
    assert!(ts.exception_set());
    assert_eq!(ts.hand_over_exception(), None);
    ts.observe_exception(0);
    assert!(!ts.exception_set());
    ts.observe_exception(24);
    assert!(ts.exception_set());
}

#[test]
fn messages_are_cut_at_a_nul() {
    let mut ts = token();
    let _ = raise_with_type(&mut ts, ExcType::Object(40), "ab\0cd");
    assert_eq!(raised(&mut ts), (ExcType::Object(40), "ab".to_string()));
    assert_eq!(cut_at_nul("\0x"), "");
    assert_eq!(cut_at_nul("x"), "x");
}

#[test]
fn each_exception_type() {
    let mut ts = token();
    let _ = PyException::raise(&mut ts, "a");
    assert_eq!(raised(&mut ts).0, ExcType::Exception);
    let _ = PyTypeError::raise(&mut ts, "a");
    assert_eq!(raised(&mut ts).0, ExcType::TypeError);
    let _ = PyOverflowError::raise(&mut ts, "a");
    assert_eq!(raised(&mut ts).0, ExcType::OverflowError);
    let _ = PyBufferError::raise(&mut ts, "a");
    assert_eq!(raised(&mut ts).0, ExcType::BufferError);
    let _ = PyEOFError::raise(&mut ts, "a");
    assert_eq!(raised(&mut ts).0, ExcType::EOFError);
    let _ = PyNotImplementedError::raise(&mut ts, "a");
    assert_eq!(raised(&mut ts).0, ExcType::NotImplementedError);
    let _ = PyMemoryError::raise(&mut ts, "a");
    assert_eq!(raised(&mut ts).0, ExcType::MemoryError);
    let _ = PyRuntimeError::raise(&mut ts, "a");
    assert_eq!(raised(&mut ts).0, ExcType::RuntimeError);
    let _ = PySystemError::raise(&mut ts, "a");
    assert_eq!(raised(&mut ts).0, ExcType::SystemError);
    let ty: Bound<'_, PyType> = Bound::from_owned_ptr(&ts, 56);
    let _ = ty.raise(&mut ts, "own");
    assert_eq!(raised(&mut ts), (ExcType::Object(56), "own".to_string()));
    let ty: Py<PyType> = ty.unbind();
    let _ = ty.raise(&mut ts, "kept");
    assert_eq!(raised(&mut ts), (ExcType::Object(56), "kept".to_string()));
}

#[test]
fn minus_one_means_an_error() {
    let mut ts = token();
    assert!(error_on_minus_one(&ts, 0).is_ok());
    assert!(error_on_minus_one(&ts, -2).is_ok());
    ts.observe_exception(1);
    assert!(error_on_minus_one(&ts, -1).is_err());
}

#[test]
fn detaching_attaches_the_same_state_again() {
    let log = Cell::new(0usize);
    let mut ts = token();
    let out = ts.detach(|| 8, || 5, |saved| log.set(saved)).unwrap();
    assert_eq!(out, 5);
    assert!(!ts.exception_set());
    assert_eq!(log.get(), 8);
    assert_eq!(ts.as_ptr(), 8);
}

#[test]
fn detaching_goes_in_order() {
    // Each step finds what the one before it left.
    let step = AtomicUsize::new(0);
    let next = |from: usize| step.compare_exchange(from, from + 1, Ordering::SeqCst, Ordering::SeqCst);
    let mut ts = token();
    let out = ts.detach(
        || {
            next(0).unwrap();
            8
        },
        || next(1).is_ok(),
        |_| {
            next(2).unwrap();
        },
    );
    assert!(out.unwrap());
    assert_eq!(step.load(Ordering::SeqCst), 3);
    assert_eq!(ts.as_ptr(), 8);
}

#[test]
fn reentrant_callbacks_cannot_detach() {
    for depth in [0, 2, 3, usize::MAX] {
        let mut ts = ThreadState::from_raw(8, 16, depth);
        assert!(!ts.may_detach());
        let out: PyResult<()> = ts.detach(
            || panic!("stays attached"),
            || panic!("not called"),
            |_| panic!("nothing to attach"),
        );
        assert!(out.is_err());
        assert_eq!(
            raised(&mut ts),
            (ExcType::RuntimeError, "cannot detach in a reentrant callback".to_string())
        );
        assert_eq!(ts.as_ptr(), 8);
    }
}

#[test]
fn entries_are_counted() {
    let mut stored = 0usize;
    let outer = RustEntryGuard::enter(stored).unwrap();
    stored = outer.depth();
    assert!(outer.is_outermost());
    assert!(ThreadState::from_raw(8, 16, stored).may_detach());
    let inner = RustEntryGuard::enter(stored).unwrap();
    stored = inner.depth();
    assert_eq!(stored, 2);
    assert!(!inner.is_outermost());
    assert!(!ThreadState::current_unchecked(8, 16, stored).may_detach());
    // Leaving puts the previous depth back.
    stored = inner.leave();
    assert_eq!(stored, 1);
    assert!(ThreadState::from_raw(8, 16, stored).may_detach());
    stored = outer.leave();
    assert_eq!(stored, 0);
    assert!(RustEntryGuard::enter(usize::MAX).is_none());
}

#[test]
fn references_are_counted() {
    let mut ts = token();
    let a: Bound<'_, PyAny> = Bound::from_owned_ptr(&ts, 32);
    let b = a.clone_ref(&mut ts);
    assert_eq!(b.as_ptr(), 32);
    b.drop_with(&mut ts);
    assert_eq!(ts.take_calls(), vec![SysCall::IncRef(32), SysCall::DecRef(32)]);
    // Moving a reference does not touch the count.
    let py = a.unbind();
    assert_eq!(py.as_ptr(), 32);
    assert_eq!(py.bind(&ts).as_ptr(), 32);
    let back = py.into_bound(&ts).into_any();
    assert_eq!(back.as_any().as_ptr(), 32);
    let cast: Bound<'_, PyBytes> = back.cast_unchecked();
    assert_eq!(cast.into_ptr(), 32);
    assert!(ts.take_calls().is_empty());
    let held: Py<PyAny> = Bound::<PyAny>::from_owned_ptr(&ts, 40).unbind();
    let copy = held.clone_ref(&mut ts);
    copy.drop_with(&mut ts);
    held.drop_with(&mut ts);
    assert_eq!(
        ts.take_calls(),
        vec![SysCall::IncRef(40), SysCall::DecRef(40), SysCall::DecRef(40)]
    );
    let addr = 48usize;
    let lent: Borrowed<'_, '_, PyAny> = Bound::ref_from_ptr(&addr);
    assert_eq!(lent.to_owned(&mut ts).as_ptr(), 48);
    assert_eq!(ts.take_calls(), vec![SysCall::IncRef(48)]);
}

#[test]
fn dropping_without_a_token() {
    assert_eq!(drop_ref(32, 8), Some(SysCall::DecRef(32)));
    assert_eq!(drop_ref(32, 0), None);
    assert!(releases(8));
    assert!(!releases(0));
}

fn object() -> usize {
    64
}

#[test]
fn numbers_are_extracted() {
    let mut ts = token();
    let addr = object();
    let obj: Borrowed<'_, 'static, PyAny> = Bound::ref_from_ptr(&addr);
    assert!(matches!(<i32 as FromPyObject>::query(&ts, &obj), Some(SysQuery::LongAsLongLong(64))));
    assert_eq!(<i32 as FromPyObject>::extract(&mut ts, &obj, -7).unwrap(), -7);
    assert_eq!(<i32 as FromPyObject>::extract(&mut ts, &obj, -1).unwrap(), -1);
    assert_eq!(<i32 as FromPyObject>::extract(&mut ts, &obj, i32::MAX as i64).unwrap(), i32::MAX);
    assert!(<i32 as FromPyObject>::extract(&mut ts, &obj, i32::MAX as i64 + 1).is_err());
    assert_eq!(
        raised(&mut ts),
        (ExcType::OverflowError, "Python int out of range for C int".to_string())
    );
    assert!(<i32 as FromPyObject>::extract(&mut ts, &obj, -1).is_err());
    ts.observe_exception(0);
    assert!(<i32 as FromPyObject>::extract(&mut ts, &obj, i32::MIN as i64 - 1).is_err());
    ts.observe_exception(0);
    assert_eq!(<u32 as FromPyObject>::extract(&mut ts, &obj, u32::MAX as i64).unwrap(), u32::MAX);
    assert!(<u32 as FromPyObject>::extract(&mut ts, &obj, -1).is_err());
    assert_eq!(
        raised(&mut ts),
        (ExcType::OverflowError, "Python int out of range for C unsigned int".to_string())
    );
    ts.observe_exception(0);
    assert_eq!(<i64 as FromPyObject>::extract(&mut ts, &obj, -1).unwrap(), -1);
    assert_eq!(<u64 as FromPyObject>::extract(&mut ts, &obj, u64::MAX).unwrap(), u64::MAX);
    assert_eq!(<isize as FromPyObject>::extract(&mut ts, &obj, -1).unwrap(), -1);
    assert_eq!(<usize as FromPyObject>::extract(&mut ts, &obj, usize::MAX).unwrap(), usize::MAX);
    assert!(<bool as FromPyObject>::extract(&mut ts, &obj, 2).unwrap());
    assert!(!<bool as FromPyObject>::extract(&mut ts, &obj, 0).unwrap());
    ts.observe_exception(1);
    assert!(<i64 as FromPyObject>::extract(&mut ts, &obj, -1).is_err());
    assert!(<u64 as FromPyObject>::extract(&mut ts, &obj, u64::MAX).is_err());
    assert!(<isize as FromPyObject>::extract(&mut ts, &obj, -1).is_err());
    assert!(<usize as FromPyObject>::extract(&mut ts, &obj, usize::MAX).is_err());
    assert!(<bool as FromPyObject>::extract(&mut ts, &obj, -1).is_err());
    assert_eq!(extract_i64(&ts, 3).unwrap(), 3);
    assert!(matches!(<u64 as FromPyObject>::query(&ts, &obj), Some(SysQuery::LongAsUnsignedLongLong(64))));
    assert!(matches!(<isize as FromPyObject>::query(&ts, &obj), Some(SysQuery::LongAsSsize(64))));
    assert!(matches!(<usize as FromPyObject>::query(&ts, &obj), Some(SysQuery::LongAsSize(64))));
    assert!(matches!(<bool as FromPyObject>::query(&ts, &obj), Some(SysQuery::ObjectIsTrue(64))));
}

#[test]
fn none_is_an_absent_value() {
    let mut ts = token();
    let none = 16usize;
    let obj: Borrowed<'_, 'static, PyAny> = Bound::ref_from_ptr(&none);
    assert!(<Option<i32> as FromPyObject>::query(&ts, &obj).is_none());
    assert_eq!(<Option<i32> as FromPyObject>::extract(&mut ts, &obj, None).unwrap(), None);
    let addr = object();
    let obj: Borrowed<'_, 'static, PyAny> = Bound::ref_from_ptr(&addr);
    assert!(<Option<i32> as FromPyObject>::query(&ts, &obj).is_some());
    assert_eq!(<Option<i32> as FromPyObject>::extract(&mut ts, &obj, Some(4)).unwrap(), Some(4));
    assert_eq!(extract_option::<u32>(&mut ts, &obj, Some(9)).unwrap(), Some(9));
    assert!(extract_option::<u32>(&mut ts, &obj, Some(-9)).is_err());
    assert_eq!(raised(&mut ts).0, ExcType::OverflowError);
    let any = <Bound<'_, PyAny> as FromPyObject>::extract(&mut ts, &obj, ()).unwrap();
    assert_eq!(any.as_ptr(), 64);
    assert_eq!(ts.take_calls(), vec![SysCall::IncRef(64)]);
}

#[test]
fn values_become_objects() {
    let mut ts = token();
    assert!(matches!(IntoPyObject::query(&-3i8), Some(SysQuery::LongFromLongLong(-3))));
    assert!(matches!(IntoPyObject::query(&-3i16), Some(SysQuery::LongFromLongLong(-3))));
    assert!(matches!(IntoPyObject::query(&-3i32), Some(SysQuery::LongFromLongLong(-3))));
    assert!(matches!(IntoPyObject::query(&i64::MIN), Some(SysQuery::LongFromLongLong(i64::MIN))));
    assert!(matches!(IntoPyObject::query(&3u8), Some(SysQuery::LongFromUnsignedLongLong(3))));
    assert!(matches!(IntoPyObject::query(&3u16), Some(SysQuery::LongFromUnsignedLongLong(3))));
    assert!(matches!(IntoPyObject::query(&3u32), Some(SysQuery::LongFromUnsignedLongLong(3))));
    assert!(matches!(IntoPyObject::query(&u64::MAX), Some(SysQuery::LongFromUnsignedLongLong(u64::MAX))));
    assert!(matches!(IntoPyObject::query(&3usize), Some(SysQuery::LongFromUnsignedLongLong(3))));
    assert!(matches!(IntoPyObject::query(&-3isize), Some(SysQuery::LongFromSsize(-3))));
    assert!(matches!(IntoPyObject::query(&true), Some(SysQuery::BoolFromLong(1))));
    assert!(matches!(IntoPyObject::query(&false), Some(SysQuery::BoolFromLong(0))));
    assert!(matches!(IntoPyObject::query(&"text"), Some(SysQuery::UnicodeFromStringAndSize("text"))));
    assert!(matches!(IntoPyObject::query(&"own".to_string()), Some(SysQuery::UnicodeFromStringAndSize("own"))));
    assert!(IntoPyObject::query(&()).is_none());
    assert_eq!(5i32.into_pyobject(&mut ts, 72).unwrap().as_ptr(), 72);
    assert_eq!("x".into_pyobject(&mut ts, 80).unwrap().as_ptr(), 80);
    assert_eq!(Some(5u8).into_pyobject(&mut ts, 88).unwrap().as_ptr(), 88);
    assert!(ts.take_calls().is_empty());
    assert_eq!(().into_pyobject(&mut ts, 0).unwrap().as_ptr(), 16);
    assert_eq!(None::<u8>.into_pyobject(&mut ts, 0).unwrap().as_ptr(), 16);
    assert_eq!(ts.take_calls(), vec![SysCall::IncRef(16), SysCall::IncRef(16)]);
    let b: Bound<'_, PyBytes> = Bound::from_owned_ptr(&ts, 96);
    assert_eq!(b.into_pyobject(&mut ts, 0).unwrap().as_ptr(), 96);
    let p: Py<PyBytes> = Bound::<PyBytes>::from_owned_ptr(&ts, 96).unbind();
    assert_eq!(p.into_pyobject(&mut ts, 0).unwrap().as_ptr(), 96);
    assert!(ts.take_calls().is_empty());
    ts.observe_exception(1);
    assert!(5i32.into_pyobject(&mut ts, 0).is_err());
    assert!(owned_or_raised(&ts, 0).is_err());
    assert_eq!(owned_or_raised(&ts, 24).unwrap().as_ptr(), 24);
}

#[test]
fn results_of_callbacks() {
    let mut ts = token();
    assert_eq!(5u8.convert(&mut ts, 72).unwrap(), 72);
    let ok: PyResult<u8> = Ok(5);
    assert!(ok.output_query().is_some());
    assert_eq!(ok.convert(&mut ts, 72).unwrap(), 72);
    assert_eq!(callback_output(&mut ts, Ok(72)), 72);
    assert!(!ts.exception_set());

    // An error without an exception raises one.
    ts.observe_exception(1);
    let stale = PyErrRaised::assume_set(&ts);
    ts.observe_exception(0);
    assert_eq!(callback_output(&mut ts, Err(stale)), 0);
    assert_eq!(raised(&mut ts).0, ExcType::SystemError);

    // An object together with an exception is given back.
    assert_eq!(callback_output(&mut ts, Ok(72)), 0);
    assert_eq!(ts.take_calls(), vec![SysCall::DecRef(72)]);
    let err: PyResult<u8> = Err(PyErrRaised::assume_set(&ts));
    assert!(err.output_query().is_none());
    let converted = err.convert(&mut ts, 0);
    assert_eq!(callback_output(&mut ts, converted), 0);
    assert!(ts.exception_set());
}

#[test]
fn buffers() {
    let mut ts = token();
    const DATA: &[u8] = &[1, 2, 3];
    let b = PyBuffer::get(&ts, BufferReply { ret: 0, len: 3, bytes: Some(DATA) }).unwrap();
    assert_eq!(b.as_bytes(), &[1, 2, 3]);
    assert_eq!(b.len(), 3);
    assert!(!b.is_empty());
    // An empty buffer may have no memory.
    let b = PyBuffer::get(&ts, BufferReply { ret: 0, len: 0, bytes: None }).unwrap();
    assert_eq!(b.as_bytes(), &[] as &[u8]);
    assert!(b.is_empty());
    let addr = object();
    let obj: Borrowed<'_, 'static, PyAny> = Bound::ref_from_ptr(&addr);
    assert!(matches!(PyBuffer::get_query(&obj), SysQuery::GetSimpleBuffer(64)));
    ts.observe_exception(1);
    let failed = BufferReply { ret: -1, len: 0, bytes: None };
    assert!(<PyBuffer<'_> as FromPyObject>::extract(&mut ts, &obj, failed).is_err());
}

#[test]
fn bytes_objects() {
    let mut ts = token();
    match PyBytes::new_query(b"abc") {
        SysQuery::BytesFromStringAndSize { data: Some(data), len: 3 } => assert_eq!(data, b"abc"),
        other => panic!("{other:?}"),
    }
    assert_eq!(PyBytes::new(&ts, 72).unwrap().as_ptr(), 72);
    let mut payload = [9u8; 3];
    let made = PyBytes::new_with(&mut ts, 72, &mut payload, |_ts: &mut ThreadState<'static>, p: &mut [u8]| {
        assert_eq!(p, &[0, 0, 0]);
        p[1] = 5;
        Ok(())
    });
    assert_eq!(made.unwrap().as_ptr(), 72);
    assert_eq!(payload, [0, 5, 0]);
    // Where filling fails, the object is given back.
    let failed = PyBytes::new_with(&mut ts, 72, &mut payload, |ts: &mut ThreadState<'static>, _p: &mut [u8]| {
        Err(PyValueError::raise(ts, "no"))
    });
    assert!(failed.is_err());
    assert_eq!(ts.take_calls(), vec![SysCall::DecRef(72)]);
    assert!(ts.exception_set());
    // Without an object nothing is filled.
    let none = PyBytes::new_with(&mut ts, 0, &mut payload, |_ts: &mut ThreadState<'static>, _p: &mut [u8]| {
        panic!("not called")
    });
    assert!(none.is_err());
    assert!(PyBytes::new(&ts, 0).is_err());
}

#[test]
fn modules_and_types() {
    let mut ts = token();
    let m: Bound<'_, PyModule> = Bound::from_owned_ptr(&ts, 104);
    let value = 5u8.into_pyobject(&mut ts, 72).unwrap();
    let name = const_cstr(b"MAX\0");
    match m.add_query(&name, &value) {
        SysQuery::ModuleAddObjectRef { module: 104, name, value: 72 } => {
            assert_eq!(name.to_bytes(), b"MAX")
        }
        other => panic!("{other:?}"),
    }
    assert!(m.add(&mut ts, value, 0).is_ok());
    assert_eq!(ts.take_calls(), vec![SysCall::DecRef(72)]);
    let ty = PyType::new_exception(&ts, 112).unwrap();
    assert!(matches!(m.add_type_query(&ty), SysQuery::ModuleAddType { module: 104, ty: 112 }));
    assert!(m.add_type(&ts, 0).is_ok());
    let qualname = const_cstr(b"zlib.error\0");
    match PyType::new_exception_query(&qualname, None) {
        SysQuery::ErrNewException { qualname, base: 0 } => assert_eq!(qualname.to_bytes(), b"zlib.error"),
        other => panic!("{other:?}"),
    }
    assert!(matches!(
        PyType::new_exception_query(&qualname, Some(&ty)),
        SysQuery::ErrNewException { base: 112, .. }
    ));
    ts.observe_exception(1);
    let value = 5u8.into_pyobject(&mut ts, 72).unwrap();
    assert!(m.add(&mut ts, value, -1).is_err());
    assert!(m.add_type(&ts, -1).is_err());
    assert!(PyType::new_exception(&ts, 0).is_err());
}

#[test]
fn lent_modules_and_types() {
    let mut ts = token();
    let (module, class) = (104usize, 112usize);
    let m: Borrowed<'_, 'static, PyModule> = Bound::ref_from_ptr(&module);
    // A lent reference can be copied.
    let again = m;
    let value = 5u8.into_pyobject(&mut ts, 72).unwrap();
    let name = const_cstr(b"MAX\0");
    assert!(matches!(
        again.add_query(&name, &value),
        SysQuery::ModuleAddObjectRef { module: 104, value: 72, .. }
    ));
    assert!(m.add(&mut ts, value, 0).is_ok());
    assert_eq!(ts.take_calls(), vec![SysCall::DecRef(72)]);
    let ty = PyType::new_exception(&ts, 112).unwrap();
    assert!(matches!(m.add_type_query(&ty), SysQuery::ModuleAddType { module: 104, ty: 112 }));
    assert!(m.add_type(&ts, 0).is_ok());
    let lent: Borrowed<'_, 'static, PyType> = Bound::ref_from_ptr(&class);
    let _ = lent.raise(&mut ts, "lent");
    assert!(m.add_type(&ts, -1).is_err());
    assert_eq!(raised(&mut ts), (ExcType::Object(112), "lent".to_string()));
}

#[test]
fn c_strings() {
    assert_eq!(const_cstr(b"ab\0").to_bytes(), b"ab");
    assert!(CStr::from_bytes_with_nul(b"").is_none());
    assert!(CStr::from_bytes_with_nul(b"ab").is_none());
    assert!(CStr::from_bytes_with_nul(b"a\0b\0").is_none());
    assert_eq!(CStr::from_bytes_with_nul(b"\0").unwrap().to_str(), Some(String::new()));
    assert_eq!(const_cstr(b"\xc3\xa9\0").to_str(), Some("\u{e9}".to_string()));
    assert_eq!(const_cstr(b"\xff\0").to_str(), None);
    assert!(unicode_eq_ascii("ab", &const_cstr(b"ab\0")));
    assert!(!unicode_eq_ascii("ab", &const_cstr(b"ac\0")));
    assert!(!unicode_eq_ascii("abc", &const_cstr(b"ab\0")));
    assert!(!unicode_eq_ascii("\u{e9}", &const_cstr(b"\xc3\xa9\0")));
}

#[test]
fn text_helpers() {
    assert_eq!(decimal_text(0), "0");
    assert_eq!(decimal_text(907), "907");
    assert_eq!(decimal_text(usize::MAX), usize::MAX.to_string());
    let items = vec!["a".to_string(), "b".to_string(), "c".to_string()];
    assert_eq!(join_text(&items, ", "), "a, b, c");
    assert_eq!(join_text(&items[..1], ", "), "a");
    assert_eq!(join_text(&[], ", "), "");
    assert!(same_text("a", "a") && !same_text("a", "b"));
    assert!(begins_with("abc", "ab") && begins_with("abc", "") && !begins_with("a", "ab"));
    assert!(contains_text("xaby", "ab") && contains_text("", "") && !contains_text("aab", "aba"));
    assert!(text_in_order("a", "b") && text_in_order("a", "a") && text_in_order("a", "ab"));
    assert!(!text_in_order("b", "a") && !text_in_order("ab", "a"));
}
