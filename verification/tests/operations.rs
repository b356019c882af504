use arrayops::arith::{scale, sum};
use arrayops::errors::OpError;
use arrayops::transform::{filter, map_inplace, reduce};

#[test]
fn test_sum_int32() {
    let v: Vec<i32> = vec![1, 2, 3, 4, 5];
    let result: i32 = sum(&v);
    assert_eq!(result, 15);
}

#[test]
fn test_sum_empty() {
    let v: Vec<i32> = Vec::new();
    let result: i32 = sum(&v);
    assert_eq!(result, 0);
}

#[test]
fn test_sum_identity_every_integer_type() {
    assert_eq!(sum(&Vec::<i8>::new()), 0i8);
    assert_eq!(sum(&Vec::<i16>::new()), 0i16);
    assert_eq!(sum(&Vec::<i32>::new()), 0i32);
    assert_eq!(sum(&Vec::<i64>::new()), 0i64);
    assert_eq!(sum(&Vec::<u8>::new()), 0u8);
    assert_eq!(sum(&Vec::<u16>::new()), 0u16);
    assert_eq!(sum(&Vec::<u32>::new()), 0u32);
    assert_eq!(sum(&Vec::<u64>::new()), 0u64);
}

#[test]
fn test_sum_wraps_on_overflow() {
    let v: Vec<u8> = vec![200, 100];
    assert_eq!(sum(&v), 44u8);
    let w: Vec<i8> = vec![100, 100];
    assert_eq!(sum(&w), -56i8);
}

#[test]
fn test_scale_int32() {
    let mut v: Vec<i32> = vec![1, 2, 3, 4, 5];
    scale(&mut v, 2);
    assert_eq!(v, vec![2, 4, 6, 8, 10]);
}

#[test]
fn test_scale_empty_is_noop() {
    let mut v: Vec<u16> = Vec::new();
    scale(&mut v, 3);
    assert!(v.is_empty());
}

#[test]
fn test_scale_wraps_on_overflow() {
    let mut v: Vec<i8> = vec![64, -64, 1];
    scale(&mut v, 2);
    assert_eq!(v, vec![-128, -128, 2]);
}

#[test]
fn test_map_preserves_length() {
    let v: Vec<i32> = vec![1, 2, 3, 4, 5];
    let f = |x: &i32| -> Result<i32, OpError> { Ok(x + 1) };
    let out = arrayops::transform::map(&v, &f).unwrap();
    assert_eq!(out.len(), v.len());
    assert_eq!(out, vec![2, 3, 4, 5, 6]);
}

#[test]
fn test_map_empty_returns_empty() {
    let v: Vec<i64> = Vec::new();
    let f = |x: &i64| -> Result<i64, OpError> { Ok(x * 2) };
    let out = arrayops::transform::map(&v, &f).unwrap();
    assert!(out.is_empty());
}

#[test]
fn test_map_propagates_callable_error() {
    let v: Vec<i32> = vec![1, 2, 3];
    let f = |x: &i32| -> Result<i32, OpError> {
        if *x == 2 {
            Err(OpError::CallableFailed)
        } else {
            Ok(*x)
        }
    };
    assert_eq!(arrayops::transform::map(&v, &f), Err(OpError::CallableFailed));
}

#[test]
fn test_map_inplace_basic() {
    let mut v: Vec<i32> = vec![1, 2, 3];
    let f = |x: &i32| -> Result<i32, OpError> { Ok(x * 10) };
    map_inplace(&mut v, &f).unwrap();
    assert_eq!(v, vec![10, 20, 30]);
}

#[test]
fn test_map_inplace_error_keeps_prefix() {
    let mut v: Vec<i32> = vec![1, 2, 3];
    let f = |x: &i32| -> Result<i32, OpError> {
        if *x == 2 {
            Err(OpError::CallableReturnMismatch)
        } else {
            Ok(x * 10)
        }
    };
    assert_eq!(map_inplace(&mut v, &f), Err(OpError::CallableReturnMismatch));
    assert_eq!(v, vec![10, 2, 3]);
}

#[test]
fn test_filter_order_preserving_subset() {
    let v: Vec<i32> = vec![1, 2, 3, 4, 5, 6];
    let p = |x: &i32| -> Result<bool, OpError> { Ok(x % 2 == 0) };
    let out = filter(v, &p).unwrap();
    assert_eq!(out, vec![2, 4, 6]);
}

#[test]
fn test_filter_empty_and_full() {
    let none = |_x: &u8| -> Result<bool, OpError> { Ok(false) };
    let all = |_x: &u8| -> Result<bool, OpError> { Ok(true) };
    assert_eq!(filter(vec![1u8, 2, 3], &none).unwrap(), Vec::<u8>::new());
    assert_eq!(filter(vec![1u8, 2, 3], &all).unwrap(), vec![1u8, 2, 3]);
}

#[test]
fn test_filter_propagates_callable_error() {
    let p = |x: &i32| -> Result<bool, OpError> {
        if *x == 3 {
            Err(OpError::CallableFailed)
        } else {
            Ok(true)
        }
    };
    assert_eq!(filter(vec![1, 2, 3, 4], &p), Err(OpError::CallableFailed));
}

#[test]
fn test_reduce_sum_no_initial() {
    let f = |a: i64, b: i64| -> Result<i64, OpError> { Ok(a + b) };
    assert_eq!(reduce(vec![1i64, 2, 3, 4], &f, None), Ok(10));
}

#[test]
fn test_reduce_sum_with_initial() {
    let f = |a: i64, b: i64| -> Result<i64, OpError> { Ok(a + b) };
    assert_eq!(reduce(vec![1i64, 2, 3, 4], &f, Some(10)), Ok(20));
}

#[test]
fn test_reduce_empty_with_initial_returns_seed() {
    let f = |_a: i32, _b: i32| -> Result<i32, OpError> { Err(OpError::CallableFailed) };
    assert_eq!(reduce(Vec::<i32>::new(), &f, Some(42)), Ok(42));
}

#[test]
fn test_reduce_empty_no_initial_fails() {
    let f = |a: i32, b: i32| -> Result<i32, OpError> { Ok(a + b) };
    assert_eq!(reduce(Vec::<i32>::new(), &f, None), Err(OpError::EmptyReduceNoInitial));
}

#[test]
fn test_reduce_single_no_initial_skips_callable() {
    // The callable always fails, so a single-element reduce with no
    // seed can only return the element if the callable is never run.
    let f = |_a: i32, _b: i32| -> Result<i32, OpError> { Err(OpError::CallableFailed) };
    assert_eq!(reduce(vec![7i32], &f, None), Ok(7));
}

#[test]
fn test_reduce_propagates_callable_error() {
    let f = |a: i32, b: i32| -> Result<i32, OpError> {
        if b == 3 {
            Err(OpError::CallableFailed)
        } else {
            Ok(a + b)
        }
    };
    assert_eq!(reduce(vec![1, 2, 3, 4], &f, None), Err(OpError::CallableFailed));
}

#[test]
fn test_reduce_non_commutative_left_fold() {
    // Left fold order: ((10 - 1) - 2) - 3 == 4, not some other order.
    let f = |a: i32, b: i32| -> Result<i32, OpError> { Ok(a - b) };
    assert_eq!(reduce(vec![1, 2, 3], &f, Some(10)), Ok(4));
}
