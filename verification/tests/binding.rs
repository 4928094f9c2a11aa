use cpython_api_core::args::{
    arg_bound, check_required, parse_fastcall, parse_tuple_dict, BindStep, DictLookup,
    KwargsReplies, Param, ParamSpec, TupleDictBinder,
};
use cpython_api_core::sys_calls::SysCall;
use cpython_api_core::threadstate::ExcType;
use cpython_api_core::{CStr, PyAny, ThreadState};

fn cstr(bytes: &[u8]) -> CStr {
    let mut v = bytes.to_vec();
    v.push(0);
    CStr::from_bytes_with_nul(&v).unwrap()
}

/// `f(a, b, /, c, d = ..)` with `pos_only` positional-only parameters.
fn spec(params: &[(&str, bool)], pos_only: usize) -> ParamSpec {
    ParamSpec {
        fn_name: "f".to_string(),
        params: params
            .iter()
            .map(|(name, required)| Param { name: cstr(name.as_bytes()), required: *required })
            .collect(),
        pos_only,
    }
}

fn names(list: &[&str]) -> Vec<String> {
    list.iter().map(|s| s.to_string()).collect()
}

fn token() -> ThreadState<'static> {
    ThreadState::from_raw(8, 16, 1)
}

fn type_error(ts: &mut ThreadState<'_>) -> String {
    match ts.hand_over_exception() {
        Some((ExcType::TypeError, msg)) => msg,
        other => panic!("{other:?}"),
    }
}

fn fast(spec: &ParamSpec, args: &[usize], nargs: usize, kw: &[&str]) -> Result<Vec<Option<usize>>, String> {
    let mut ts = token();
    match parse_fastcall(&mut ts, spec, args, nargs, &names(kw)) {
        Ok(slots) => {
            assert!(!ts.exception_set());
            Ok(slots)
        }
        Err(_) => Err(type_error(&mut ts)),
    }
}

#[test]
fn fastcall_binds_in_order_and_by_name() {
    let s = spec(&[("a", true), ("b", true), ("c", false), ("d", false)], 1);
    assert_eq!(fast(&s, &[1, 2], 2, &[]), Ok(vec![Some(1), Some(2), None, None]));
    assert_eq!(fast(&s, &[1, 2, 4], 2, &["d"]), Ok(vec![Some(1), Some(2), None, Some(4)]));
    assert_eq!(fast(&s, &[1, 3, 2], 1, &["c", "b"]), Ok(vec![Some(1), Some(2), Some(3), None]));
    // The order of the keywords does not matter.
    assert_eq!(fast(&s, &[1, 2, 3], 1, &["b", "c"]), fast(&s, &[1, 3, 2], 1, &["c", "b"]));
    assert_eq!(fast(&spec(&[], 0), &[], 0, &[]), Ok(vec![]));
}

#[test]
fn fastcall_refusals() {
    let s = spec(&[("a", true), ("b", true)], 1);
    assert_eq!(fast(&s, &[1, 2, 3], 3, &[]), Err("f() takes at most 2 arguments (3 given)".to_string()));
    assert_eq!(
        fast(&spec(&[("a", true)], 0), &[1, 2], 2, &[]),
        Err("f() takes at most 1 argument (2 given)".to_string())
    );
    assert_eq!(
        fast(&spec(&[], 0), &[1], 1, &[]),
        Err("f() takes at most 0 arguments (1 given)".to_string())
    );
    assert_eq!(
        fast(&s, &[1, 2, 3], 2, &["b"]),
        Err("argument for f() given by name ('b') and position (2)".to_string())
    );
    assert_eq!(
        fast(&s, &[1, 2, 3], 1, &["b", "b"]),
        Err("argument for f() given by name ('b') and position (2)".to_string())
    );
    assert_eq!(fast(&s, &[1, 2], 1, &["x"]), Err("f() got an unexpected keyword argument".to_string()));
    // A positional-only parameter cannot be named.
    assert_eq!(fast(&s, &[2, 1], 1, &["a"]), Err("f() got an unexpected keyword argument".to_string()));
    assert_eq!(fast(&s, &[1], 1, &[]), Err("f() missing required argument 'b' (pos 2)".to_string()));
    assert_eq!(fast(&s, &[], 0, &[]), Err("f() missing required argument 'a' (pos 1)".to_string()));
}

#[test]
fn keywords_that_are_not_ascii_name_nothing() {
    let s = spec(&[("\u{e9}", false)], 0);
    assert_eq!(fast(&s, &[1], 0, &["\u{e9}"]), Err("f() got an unexpected keyword argument".to_string()));
}

#[test]
fn names_that_are_not_utf8_are_shown_as_a_question_mark() {
    let s = ParamSpec {
        fn_name: "g".to_string(),
        params: vec![Param { name: cstr(&[0xff]), required: true }],
        pos_only: 0,
    };
    assert_eq!(fast(&s, &[], 0, &[]), Err("g() missing required argument '?' (pos 1)".to_string()));
}

#[test]
fn required_parameters_are_checked_in_order() {
    let s = spec(&[("a", false), ("b", true), ("c", true)], 0);
    let mut ts = token();
    assert!(check_required(&mut ts, &s, &vec![None, Some(1), Some(2)]).is_ok());
    assert!(check_required(&mut ts, &s, &vec![None, Some(1), None]).is_err());
    assert_eq!(type_error(&mut ts), "f() missing required argument 'c' (pos 3)");
}

#[test]
fn slots_are_borrowed() {
    let slots = vec![Some(24usize), None];
    assert_eq!(arg_bound(&slots, 0).map(|b| b.as_ptr()), Some(24));
    assert!(arg_bound(&slots, 1).is_none());
    assert_eq!(PyAny::at(24).as_ptr(), 24);
}

fn tuple_dict(
    spec: &ParamSpec,
    items: &[usize],
    kwargs: Option<(isize, &[DictLookup])>,
) -> (Result<Vec<Option<usize>>, String>, Vec<SysCall>) {
    let mut ts = token();
    let kwargs = kwargs.map(|(size, lookups)| KwargsReplies { size, lookups });
    let r = match parse_tuple_dict(&mut ts, spec, items, kwargs) {
        Ok(slots) => Ok(slots),
        Err(_) => Err(type_error(&mut ts)),
    };
    (r, ts.take_calls())
}

#[test]
fn tuple_and_dict_bind_like_a_vectorcall() {
    let s = spec(&[("a", true), ("b", false), ("c", false)], 1);
    let found = [DictLookup::Missing, DictLookup::Found(3)];
    let (r, calls) = tuple_dict(&s, &[1], Some((1, &found)));
    assert_eq!(r, fast(&s, &[1, 3], 1, &["c"]));
    // The strong reference of the lookup is given back.
    assert_eq!(calls, vec![SysCall::DecRef(3)]);
    let (r, calls) = tuple_dict(&s, &[1, 2], None);
    assert_eq!(r, Ok(vec![Some(1), Some(2), None]));
    assert!(calls.is_empty());
}

#[test]
fn tuple_and_dict_refusals() {
    let s = spec(&[("a", true), ("b", false)], 0);
    assert_eq!(
        tuple_dict(&s, &[1, 2, 3], None).0,
        Err("f() takes at most 2 arguments (3 given)".to_string())
    );
    let (r, calls) = tuple_dict(&s, &[1], Some((1, &[DictLookup::Found(2), DictLookup::Missing])));
    assert_eq!(r, Err("argument for f() given by name ('a') and position (1)".to_string()));
    assert_eq!(calls, vec![SysCall::DecRef(2)]);
    let (r, _) = tuple_dict(&s, &[1], Some((2, &[DictLookup::Missing, DictLookup::Found(2)])));
    assert_eq!(r, Err("f() got an unexpected keyword argument".to_string()));
    let (r, _) = tuple_dict(&s, &[], Some((0, &[DictLookup::Missing, DictLookup::Missing])));
    assert_eq!(r, Err("f() missing required argument 'a' (pos 1)".to_string()));
}

#[test]
fn failures_of_the_interpreter_are_passed_on() {
    let s = spec(&[("a", true)], 0);
    let mut ts = token();
    ts.observe_exception(1);
    assert!(parse_tuple_dict(&mut ts, &s, &[0], None).is_err());
    assert!(ts.hand_over_exception().is_none());
    let lookups = [DictLookup::Raised];
    let kwargs = Some(KwargsReplies { size: 1, lookups: &lookups });
    assert!(parse_tuple_dict(&mut ts, &s, &[], kwargs).is_err());
    assert!(ts.exception_set());
    assert!(ts.take_calls().is_empty());
}

#[test]
fn binder_asks_step_by_step() {
    let s = spec(&[("a", true), ("b", false)], 1);
    let mut ts = token();
    let mut binder = TupleDictBinder::start(&mut ts, &s, 1, true).unwrap();
    assert_eq!(binder.next_step(), BindStep::GetItem(0));
    binder.item(&ts, 40).unwrap();
    assert_eq!(binder.next_step(), BindStep::DictSize);
    binder.dict_size(1);
    assert_eq!(binder.next_step(), BindStep::Lookup(1));
    binder.lookup(&mut ts, DictLookup::Found(48)).unwrap();
    assert_eq!(binder.next_step(), BindStep::Done);
    assert_eq!(binder.finish(&mut ts).unwrap(), vec![Some(40), Some(48)]);
    assert_eq!(ts.take_calls(), vec![SysCall::DecRef(48)]);
}
