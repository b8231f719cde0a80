use brik::BrikResult;
use brik::ResultExt;
use brik::err;
use brik::ok;

#[test]
fn test_result_ext_map_ok() {
    let result: BrikResult<i32, &str> = Ok(5);
    let mapped = result.map_ok(|x| x * 2);
    assert_eq!(mapped, Ok(10));
}

#[test]
fn test_result_ext_map_err() {
    let result: BrikResult<i32, &str> = Err("error");
    let mapped = result.map_err_to(|e| format!("Mapped: {}", e));
    assert_eq!(mapped, Err("Mapped: error".to_string()));
}

#[test]
fn test_ok_err_helpers() {
    let success: BrikResult<i32, String> = ok(42);
    let failure: BrikResult<i32, String> = err("failed".to_string());

    assert_eq!(success, Ok(42));
    assert_eq!(failure, Err("failed".to_string()));
}

#[test]
fn test_result_ext_unwrap_or_else() {
    let success: BrikResult<i32, String> = Ok(3);
    assert_eq!(ResultExt::unwrap_or_else(success, |_| 0), 3);
    let failure: BrikResult<i32, String> = Err("e".to_string());
    assert_eq!(ResultExt::unwrap_or_else(failure, |e| e.len() as i32), 1);
}

#[test]
fn test_result_ext_and_then_combine() {
    let a: BrikResult<i32, String> = Ok(1);
    let b: BrikResult<u8, String> = Ok(2);
    assert_eq!(a.and_then_combine(b, || Ok((0, 0))), Ok((1, 2)));

    let a: BrikResult<i32, String> = Err("first".to_string());
    let b: BrikResult<u8, String> = Err("second".to_string());
    assert_eq!(a.and_then_combine(b, || Ok((0, 0))), Err("first".to_string()));

    let a: BrikResult<i32, String> = Ok(1);
    let b: BrikResult<u8, String> = Err("second".to_string());
    assert_eq!(a.and_then_combine(b, || Ok((0, 0))), Err("second".to_string()));
}
