use urt::erroroption::ErrorOption;
use urt::erroroption::ErrorOption::{Empty, Error, Value};

type Eo = ErrorOption<i32, &'static str>;

#[test]
fn error_option_variant_predicates() {
    let v: Eo = Value(1);
    assert!(v.is_value() && !v.is_empty() && !v.is_error());
    let e: Eo = Empty;
    assert!(!e.is_value() && e.is_empty() && !e.is_error());
    let r: Eo = Error("e");
    assert!(!r.is_value() && !r.is_empty() && r.is_error());
}

#[test]
fn predicate_gated_value_and_error() {
    let v: Eo = Value(4);
    assert!(v.is_value_and(|x| x % 2 == 0));
    assert!(!v.is_value_and(|x| x > 10));
    assert!(!v.is_error_and(|_| true));
    let r: Eo = Error("bad");
    assert!(r.is_error_and(|s| s == "bad"));
    assert!(!r.is_value_and(|_| panic!("not called")));
    let e: Eo = Empty;
    assert!(!e.is_value_and(|_| true) && !e.is_error_and(|_| true));
}

#[test]
fn as_option_keeps_only_value() {
    assert_eq!(Eo::Value(42).as_option(), Some(42));
    assert_eq!(Eo::Empty.as_option(), None);
    assert_eq!(Eo::Error("e").as_option(), None);
}

#[test]
fn as_result_defaults_empty() {
    assert_eq!(Eo::Value(42).as_result(), Ok(42));
    assert_eq!(Eo::Empty.as_result(), Ok(0));
    assert_eq!(Eo::Error("e").as_result(), Err("e"));
}

#[test]
fn error_keeps_only_error() {
    assert_eq!(Eo::Value(1).error(), None);
    assert_eq!(Eo::Empty.error(), None);
    assert_eq!(Eo::Error("e").error(), Some("e"));
}

#[test]
fn value_or_overwrites_any_error() {
    assert_eq!(Eo::Value(1).value_or(7u8), Ok(1));
    assert_eq!(Eo::Empty.value_or(7u8), Err(7));
    assert_eq!(Eo::Error("e").value_or(7u8), Err(7));
}

#[test]
fn value_or_default_keeps_original_error() {
    assert_eq!(Eo::Value(1).value_or_default("supplied"), Ok(1));
    assert_eq!(Eo::Empty.value_or_default("supplied"), Err("supplied"));
    assert_eq!(Eo::Error("original").value_or_default("supplied"), Err("original"));
}

#[test]
fn value_or_else_is_lazy() {
    assert_eq!(Eo::Value(1).value_or_else(|| -> u8 { panic!("not called") }), Ok(1));
    assert_eq!(Eo::Empty.value_or_else(|| 3u8), Err(3));
    assert_eq!(Eo::Error("e").value_or_else(|| 4u8), Err(4));
}

#[test]
fn result_separates_empty_from_error() {
    assert_eq!(Eo::Value(1).result(), Ok(Some(1)));
    assert_eq!(Eo::Empty.result(), Ok(None));
    assert_eq!(Eo::Error("e").result(), Err("e"));
}

#[test]
fn result_round_trip_rebuilds_original() {
    for x in [Eo::Value(3), Eo::Empty, Eo::Error("e")] {
        let back = match x.result() {
            Ok(Some(t)) => Value(t),
            Ok(None) => Empty,
            Err(e) => Error(e),
        };
        assert_eq!(back, x);
    }
}

#[test]
fn switch_swaps_value_and_error() {
    assert_eq!(Eo::Value(1).switch(), ErrorOption::<&str, i32>::Error(1));
    assert_eq!(Eo::Empty.switch(), ErrorOption::<&str, i32>::Empty);
    assert_eq!(Eo::Error("e").switch(), ErrorOption::<&str, i32>::Value("e"));
    assert_eq!(Eo::Error("e").switch().switch(), Eo::Error("e"));
}

#[test]
fn error_option_reference_views() {
    let v: ErrorOption<i32, String> = Value(1);
    assert_eq!(v.as_ref(), Value(&1));
    let mut r: ErrorOption<i32, String> = Error(String::from("a"));
    if let Error(s) = r.as_mut() {
        s.push('b');
    }
    assert_eq!(r, Error(String::from("ab")));
    let mut w: ErrorOption<i32, String> = Value(1);
    if let Value(x) = w.as_mut() {
        *x = 2;
    }
    assert_eq!(w, Value(2));
}

#[test]
fn unwraps_on_matching_variant() {
    assert_eq!(Eo::Value(3).unwrap(), 3);
    assert_eq!(Eo::Value(3).expect("has a value"), 3);
    assert_eq!(Eo::Error("e").unwrap_error(), "e");
    assert_eq!(Eo::Error("e").expect_error("has an error"), "e");
    assert_eq!(Eo::Value(3).unwrap_unchecked(), 3);
}

#[test]
fn unwrap_or_family() {
    assert_eq!(Eo::Value(3).unwrap_or(9), 3);
    assert_eq!(Eo::Empty.unwrap_or(9), 9);
    assert_eq!(Eo::Error("e").unwrap_or(9), 9);
    assert_eq!(Eo::Value(3).unwrap_or_else(|| panic!("not called")), 3);
    assert_eq!(Eo::Error("e").unwrap_or_else(|| 8), 8);
    assert_eq!(Eo::Value(3).unwrap_or_default(), 3);
    assert_eq!(Eo::Empty.unwrap_or_default(), 0);
    assert_eq!(Eo::Error("e").unwrap_or_default(), 0);
}

#[test]
fn map_family() {
    assert_eq!(Eo::Value(3).map(|x| x * 2), Value(6));
    assert_eq!(Eo::Empty.map(|x| x * 2), Empty);
    assert_eq!(Eo::Error("e").map(|x| x * 2), Error("e"));
    assert_eq!(Eo::Value(3).map_or(0, |x| x + 1), 4);
    assert_eq!(Eo::Error("e").map_or(0, |x| x + 1), 0);
    assert_eq!(Eo::Value(3).map_or_else(|| -1, |x| x + 1), 4);
    assert_eq!(Eo::Empty.map_or_else(|| -1, |x| x + 1), -1);
    assert_eq!(Eo::Value(3).map_or_error(|_| 0usize, || 1, |_| 2), 2);
    assert_eq!(Eo::Empty.map_or_error(|_| 0usize, || 1, |_| 2), 1);
    assert_eq!(Eo::Error("abc").map_or_error(|s| s.len(), || 1, |_| 2), 3);
    assert_eq!(Eo::Error("abc").map_error(|s| s.len()), Error(3));
    assert_eq!(Eo::Value(1).map_error(|s| s.len()), Value(1));
    assert_eq!(Eo::Empty.map_error(|s| s.len()), Empty);
}

#[test]
fn inspect_observes_without_changing() {
    let mut seen = 0;
    let v = Eo::Value(5).inspect(|x| seen = *x);
    assert_eq!(v, Value(5));
    assert_eq!(seen, 5);
    let mut seen_err = "";
    let r = Eo::Error("bad").inspect_err(|e| seen_err = *e);
    assert_eq!(r, Error("bad"));
    assert_eq!(seen_err, "bad");
    let e = Eo::Empty.inspect(|_| panic!("not called")).inspect_err(|_| panic!("not called"));
    assert_eq!(e, Empty);
}

#[test]
fn deref_views() {
    let v: ErrorOption<String, i32> = Value(String::from("hi"));
    assert_eq!(v.as_deref(), Value("hi"));
    let r: ErrorOption<String, i32> = Error(4);
    assert_eq!(r.as_deref(), Error(&4));
    let mut b: ErrorOption<Box<i32>, i32> = Value(Box::new(1));
    if let Value(x) = b.as_deref_mut() {
        *x = 7;
    }
    assert_eq!(b, Value(Box::new(7)));
}

#[test]
fn iterator_yields_value_once() {
    let v = Eo::Value(1);
    let mut it = v.iter();
    assert_eq!(it.size_hint(), (1, Some(1)));
    assert_eq!(it.next(), Some(&1));
    assert_eq!(it.next(), None);
    assert_eq!(it.next(), None);
    assert_eq!(it.size_hint(), (0, Some(0)));
    let mut owned = v.into_iter();
    assert_eq!(owned.next(), Some(1));
    assert_eq!(owned.next(), None);
    assert_eq!(owned.next_back(), None);
}

#[test]
fn iterator_over_empty_or_error_yields_nothing() {
    for x in [Eo::Empty, Eo::Error("e")] {
        let mut it = x.iter();
        assert_eq!(it.size_hint(), (0, Some(0)));
        assert_eq!(it.next(), None);
        let mut owned = x.into_iter();
        assert_eq!(owned.next(), None);
    }
}

#[test]
fn reverse_iteration_yields_same_element() {
    let v = Eo::Value(1);
    let mut it = v.iter();
    assert_eq!(it.next_back(), Some(&1));
    assert_eq!(it.next(), None);
    let mut owned = v.into_iter();
    assert_eq!(owned.next_back(), Some(1));
    assert_eq!(owned.next_back(), None);
}

#[test]
fn cloned_iterator_is_independent() {
    let v = Eo::Value(1);
    let mut it = v.iter();
    let mut copy = it.clone();
    assert_eq!(it.next(), Some(&1));
    assert_eq!(copy.next(), Some(&1));
    let mut owned = v.into_iter();
    let mut owned_copy = owned.clone();
    assert_eq!(owned.next(), Some(1));
    assert_eq!(owned_copy.next(), Some(1));
}

#[test]
fn iter_mut_writes_through() {
    let mut v = Eo::Value(1);
    {
        let mut it = v.iter_mut();
        assert_eq!(it.size_hint(), (1, Some(1)));
        if let Some(x) = it.next() {
            *x = 10;
        }
        assert!(it.next().is_none());
        assert!(it.next_back().is_none());
    }
    assert_eq!(v, Value(10));
    let mut e = Eo::Error("e");
    let mut it = e.iter_mut();
    assert!(it.next().is_none());
}

#[test]
fn and_sequences_only_on_value() {
    let next: ErrorOption<u8, &str> = Value(2);
    assert_eq!(Eo::Value(1).and(next), Value(2));
    assert_eq!(Eo::Empty.and(next), Empty);
    assert_eq!(Eo::Error("e").and(next), Error("e"));
    assert_eq!(Eo::Value(1).and_then(|x| ErrorOption::<i64, &str>::Value(x as i64 * 10)), Value(10));
    assert_eq!(Eo::Value(1).and_then(|_| ErrorOption::<i64, &str>::Error("late")), Error("late"));
    assert_eq!(Eo::Error("e").and_then(|_| -> ErrorOption<i64, &str> { panic!("not called") }), Error("e"));
    assert_eq!(Eo::Empty.and_then(|x| ErrorOption::<i64, &str>::Value(x as i64)), Empty);
}

#[test]
fn filter_family() {
    assert_eq!(Eo::Value(4).filter(|x| *x > 3), Value(4));
    assert_eq!(Eo::Value(2).filter(|x| *x > 3), Empty);
    assert_eq!(Eo::Error("e").filter(|_| true), Empty);
    assert_eq!(Eo::Value(2).filter_or(|x| *x > 3, Error("small")), Error("small"));
    assert_eq!(Eo::Value(4).filter_or(|x| *x > 3, Error("small")), Value(4));
    assert_eq!(Eo::Empty.filter_or(|_| true, Value(0)), Value(0));
    assert_eq!(Eo::Value(2).filter_or_else(|x| *x > 3, || Value(-1)), Value(-1));
    assert_eq!(Eo::Value(5).filter_or_else(|x| *x > 3, || panic!("not called")), Value(5));
    assert_eq!(Eo::Error("e").filter_predicate(|x| x.is_error()), Error("e"));
    assert_eq!(Eo::Error("e").filter_predicate(|x| x.is_value()), Empty);
    assert_eq!(Eo::Empty.filter_predicate_or(|x| x.is_value(), Value(1)), Value(1));
    assert_eq!(Eo::Value(3).filter_predicate_or(|x| x.is_value(), Empty), Value(3));
    assert_eq!(
        Eo::Error("e").filter_predicate_or_else(|x| x.is_value(), |x| x.switch().map_error(|_| 0).switch().map(|_| 0).or(Value(7))),
        Value(7)
    );
    assert_eq!(Eo::Value(3).filter_predicate_or_else(|x| x.is_value(), |_| Empty), Value(3));
}

#[test]
fn or_and_xor() {
    assert_eq!(Eo::Value(1).or(Value(2)), Value(1));
    assert_eq!(Eo::Empty.or(Value(2)), Value(2));
    assert_eq!(Eo::Error("e").or(Empty), Empty);
    assert_eq!(Eo::Error("e").or_else(|| Value(3)), Value(3));
    assert_eq!(Eo::Value(1).or_else(|| panic!("not called")), Value(1));
    assert_eq!(Eo::Value(1).xor(Empty), Value(1));
    assert_eq!(Eo::Error("e").xor(Value(2)), Value(2));
    assert_eq!(Eo::Value(1).xor(Value(2)), Empty);
    assert_eq!(Eo::Error("a").xor(Error("b")), Empty);
    assert_eq!(Eo::Empty.xor(Empty), Empty);
}

#[test]
fn insert_and_get_or_insert() {
    let mut x = Eo::Error("e");
    {
        let r = x.insert(5);
        assert_eq!(*r, 5);
        *r += 1;
    }
    assert_eq!(x, Value(6));
    let mut y = Eo::Value(1);
    assert_eq!(*y.get_or_insert(9), 1);
    let mut z = Eo::Empty;
    *z.get_or_insert(9) += 1;
    assert_eq!(z, Value(10));
    let mut w = Eo::Error("e");
    assert_eq!(*w.get_or_insert_default(), 0);
    assert_eq!(w, Value(0));
    let mut u = Eo::Empty;
    assert_eq!(*u.get_or_insert_with(|| 4), 4);
    let mut t = Eo::Value(2);
    assert_eq!(*t.get_or_insert_with(|| panic!("not called")), 2);
}

#[test]
fn option_round_trip_through_get_or_insert() {
    let original = Eo::Value(7);
    let payload = original.as_option().unwrap();
    for mut other in [Eo::Empty, Eo::Error("e")] {
        other.get_or_insert(payload);
        assert_eq!(other, original);
    }
}

#[test]
fn take_and_replace() {
    let mut x = Eo::Error("e");
    assert_eq!(x.take(), Error("e"));
    assert_eq!(x, Empty);
    let mut y = Eo::Error("e");
    assert_eq!(y.replace(3), Error("e"));
    assert_eq!(y, Value(3));
    assert_eq!(Eo::default(), Empty);
}

#[test]
fn zip_pairs_values_only() {
    let one = Eo::Value(1);
    let two: ErrorOption<i32, &str> = Value(2);
    assert_eq!(one.zip(two), Value((1, 2)));
    assert_eq!(one.zip(ErrorOption::<i32, &str>::Empty), Empty);
    assert_eq!(Eo::Empty.zip(two), Empty);
    assert_eq!(Eo::Error("e").zip(two), Empty);
    assert_eq!(one.zip(ErrorOption::<i32, &str>::Error("e")), Empty);
    assert_eq!(one.zip_to_option(two), Some((1, 2)));
    assert_eq!(Eo::Empty.zip_to_option(two), None);
    assert_eq!(one.zip_with_option(Some("x")), Some((1, "x")));
    assert_eq!(one.zip_with_option(None::<u8>), None);
    assert_eq!(Eo::Error("e").zip_with_option(Some(1)), None);
}

#[test]
fn zip_with_combines_values() {
    let a: ErrorOption<i32, u8> = Value(3);
    let b: ErrorOption<i32, i32> = Value(4);
    assert_eq!(a.zip_with(b, |x, y| x * y), Value(12));
    let c: ErrorOption<i32, i32> = Empty;
    assert_eq!(a.zip_with(c, |x, y| x * y), Empty);
    assert_eq!(a.zip_to_option_with(b, |x, y| x + y), Some(7));
    let d: ErrorOption<i32, u8> = Error(1);
    assert_eq!(d.zip_to_option_with(b, |x, y| x + y), None);
}

#[test]
fn unzip_splits_pairs() {
    let p: ErrorOption<(i32, char), &str> = Value((1, 'a'));
    assert_eq!(p.unzip(), (Value(1), Value('a')));
    let q: ErrorOption<(i32, char), &str> = Error("e");
    assert_eq!(q.unzip(), (Empty, Empty));
    let r: ErrorOption<(i32, char), &str> = Empty;
    assert_eq!(r.unzip(), (Empty, Empty));
}

#[test]
fn copied_and_cloned() {
    let n = 5;
    let by_ref: ErrorOption<&i32, &str> = Value(&n);
    assert_eq!(by_ref.copied(), Value(5));
    let s = String::from("s");
    let by_ref_s: ErrorOption<&String, &str> = Value(&s);
    assert_eq!(by_ref_s.cloned(), Value(String::from("s")));
    let err: ErrorOption<&i32, &str> = Error("e");
    assert_eq!(err.copied(), Error("e"));
    let mut m = 6;
    let by_mut: ErrorOption<&mut i32, &str> = Value(&mut m);
    assert_eq!(by_mut.copied(), Value(6));
    let mut t = String::from("t");
    let by_mut_s: ErrorOption<&mut String, &str> = Value(&mut t);
    assert_eq!(by_mut_s.cloned(), Value(String::from("t")));
    let empty_mut: ErrorOption<&mut String, &str> = Empty;
    assert_eq!(empty_mut.cloned(), Empty);
}

#[test]
fn error_option_clone_and_clone_from() {
    let x: ErrorOption<String, String> = Error(String::from("e"));
    assert_eq!(x.clone(), x);
    let mut d: ErrorOption<String, String> = Error(String::from("long old error"));
    d.clone_from(&x);
    assert_eq!(d, x);
    let v: ErrorOption<String, String> = Value(String::from("v"));
    d.clone_from(&v);
    assert_eq!(d, v);
    d.clone_from(&Empty);
    assert_eq!(d, Empty);
}
