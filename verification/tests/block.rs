use yolo_block::{
    make_abort_message, option_step, render_step, run_yolo_block, yolo_step, yolo_try, YoloError,
};

/// Pulls the diagnostic message out of a failed evaluation.
fn message_of<T>(out: Result<T, YoloError>) -> String {
    match out {
        Ok(_) => panic!("expected the evaluation to abort"),
        Err(YoloError::Aborted { message }) => message,
    }
}

#[test]
fn message_is_prefix_then_payload() {
    assert_eq!(make_abort_message("x"), "YOLO'd an error: x");
    assert_eq!(make_abort_message(""), "YOLO'd an error: ");
}

#[test]
fn render_step_uses_debug_text() {
    match render_step("foo".parse::<u64>()) {
        Ok(_) => panic!("parsing foo as a number should fail"),
        Err(payload) => {
            assert_eq!(payload, format!("{:?}", "foo".parse::<u64>().unwrap_err()));
        }
    }
}

#[test]
fn step_passes_success_through() {
    assert_eq!(yolo_step(Ok::<u32, String>(7)), Ok(7));
    assert_eq!(option_step(Some(9u32)), Ok(9));
}

#[test]
fn sums_three_parses() {
    let steps = vec![
        render_step("1".parse::<u64>()),
        render_step("2".parse::<u64>()),
        render_step("3".parse::<u64>()),
    ];
    match run_yolo_block(steps) {
        Ok(values) => assert_eq!(values.iter().sum::<u64>(), 6),
        Err(_) => panic!("every step succeeds, so the block must too"),
    }
}

#[test]
fn block_of_successes_is_the_unwrapped_values() {
    let steps: Vec<Result<u64, String>> = vec![Ok(4), Ok(5), Ok(6)];
    match run_yolo_block(steps) {
        Ok(values) => assert_eq!(values, vec![4, 5, 6]),
        Err(_) => panic!("every step succeeds, so the block must too"),
    }
}

#[test]
fn aborts_on_first_bad_parse() {
    let steps = vec![
        render_step("1".parse::<u64>()),
        render_step("foo".parse::<u64>()),
        render_step("3".parse::<u64>()),
    ];
    let expected = format!("YOLO'd an error: {:?}", "foo".parse::<u64>().unwrap_err());
    assert_eq!(message_of(run_yolo_block(steps)), expected);
}

#[test]
fn narrowing_conversion_aborts() {
    let expected = format!("YOLO'd an error: {:?}", u8::try_from(1000i32).unwrap_err());
    assert_eq!(message_of(yolo_try(u8::try_from(1000i32))), expected);
}

#[test]
fn absent_search_aborts_with_position() {
    let message = message_of(yolo_try([10, 20, 30].binary_search(&25)));
    assert_eq!(message, "YOLO'd an error: 2");
}

#[test]
fn absent_option_aborts() {
    let message = message_of(yolo_step(option_step(None::<u32>)));
    assert_eq!(message, "YOLO'd an error: NoneError");
}

#[test]
fn mixed_payload_types_in_one_block() {
    let steps: Vec<Result<u64, String>> = vec![
        render_step("1".parse::<u64>()),
        render_step(u64::try_from(-1i64)),
        render_step("oops".parse::<u64>()),
    ];
    let expected = format!("YOLO'd an error: {:?}", u64::try_from(-1i64).unwrap_err());
    assert_eq!(message_of(run_yolo_block(steps)), expected);
}
