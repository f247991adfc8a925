use gptsh::runner::{
    append_captured_line, builtin_result_payload, capture_lines, execution_result_payload,
    i32_to_decimal, u64_to_decimal, ExecutionResult,
};

#[test]
fn payload_with_status_zero() {
    let r = ExecutionResult {
        status_code: Some(0),
        stdout: String::from("hello\n"),
        stderr: String::new(),
    };
    assert_eq!(
        execution_result_payload(&r),
        "{\"status_code\":0,\"stdout\":\"hello\\n\",\"stderr\":\"\"}"
    );
}

#[test]
fn payload_with_absent_status_is_null() {
    let r = ExecutionResult { status_code: None, stdout: String::new(), stderr: String::new() };
    assert_eq!(
        execution_result_payload(&r),
        "{\"status_code\":null,\"stdout\":\"\",\"stderr\":\"\"}"
    );
}

#[test]
fn payload_with_negative_status() {
    let r = ExecutionResult {
        status_code: Some(-7),
        stdout: String::new(),
        stderr: String::from("boom"),
    };
    assert_eq!(
        execution_result_payload(&r),
        "{\"status_code\":-7,\"stdout\":\"\",\"stderr\":\"boom\"}"
    );
}

#[test]
fn payload_escapes_special_characters() {
    let r = ExecutionResult {
        status_code: Some(2),
        stdout: String::from("say \"hi\"\\\n"),
        stderr: String::from("tab\there"),
    };
    let payload = execution_result_payload(&r);
    let v: serde_json::Value = serde_json::from_str(&payload).unwrap();
    assert_eq!(v["status_code"], 2);
    assert_eq!(v["stdout"], "say \"hi\"\\\n");
    assert_eq!(v["stderr"], "tab\there");
}

#[test]
fn builtin_payload_success() {
    let payload = builtin_result_payload(&Ok(()));
    assert_eq!(payload, "{\"status_code\":0,\"stdout\":\"\",\"stderr\":\"\"}");
}

#[test]
fn builtin_payload_error_lands_in_stderr() {
    let payload = builtin_result_payload(&Err(String::from("cd: missing argument")));
    assert_eq!(
        payload,
        "{\"status_code\":1,\"stdout\":\"\",\"stderr\":\"cd: missing argument\"}"
    );
}

#[test]
fn capture_keeps_lines_in_order_newline_terminated() {
    let lines = vec![String::from("first"), String::from("second"), String::from("third")];
    assert_eq!(capture_lines(&lines), "first\nsecond\nthird\n");
}

#[test]
fn capture_of_each_stream_ignores_the_other() {
    // interleaved but attributable lines: each capture holds exactly its
    // own stream's lines, in order, however the streams raced
    let out_lines = vec![String::from("o1"), String::from("o2")];
    let err_lines = vec![String::from("e1")];
    assert_eq!(capture_lines(&out_lines), "o1\no2\n");
    assert_eq!(capture_lines(&err_lines), "e1\n");
}

#[test]
fn capture_appends_incrementally() {
    let mut acc = String::new();
    append_captured_line(&mut acc, "alpha");
    append_captured_line(&mut acc, "beta");
    assert_eq!(acc, "alpha\nbeta\n");
}

#[test]
fn capture_of_no_lines_is_empty() {
    let none: Vec<String> = Vec::new();
    assert_eq!(capture_lines(&none), "");
}

#[test]
fn decimal_rendering() {
    assert_eq!(u64_to_decimal(0), "0");
    assert_eq!(u64_to_decimal(9), "9");
    assert_eq!(u64_to_decimal(10), "10");
    assert_eq!(u64_to_decimal(123456789), "123456789");
    assert_eq!(i32_to_decimal(0), "0");
    assert_eq!(i32_to_decimal(-1), "-1");
    assert_eq!(i32_to_decimal(i32::MAX), "2147483647");
    assert_eq!(i32_to_decimal(i32::MIN), "-2147483648");
}
