use backlight::brightness::Direction;
use backlight::error::{exit_status, ErrorKind, EXIT_FAILURE, EXIT_SUCCESS};
use backlight::request::{resolve, Args, Request};

fn nothing() -> Args {
    Args { increment: None, decrement: None, set: None, list_devs: false, get: false, device: None }
}

fn on(device: &str) -> Args {
    Args { device: Some(device.to_string()), ..nothing() }
}

#[test]
fn no_option_asks_for_nothing() {
    assert_eq!(resolve(&nothing()), Ok(None));
}

#[test]
fn a_device_alone_asks_for_nothing() {
    assert_eq!(resolve(&on("intel_backlight")), Ok(None));
}

#[test]
fn listing_needs_no_device() {
    assert_eq!(resolve(&Args { list_devs: true, ..nothing() }), Ok(Some(Request::ListDevices)));
    assert_eq!(resolve(&Args { list_devs: true, ..on("x") }), Ok(Some(Request::ListDevices)));
}

#[test]
fn listing_comes_before_every_other_option() {
    let args = Args {
        increment: Some(1),
        decrement: Some(2),
        set: Some(3),
        list_devs: true,
        get: true,
        device: None,
    };
    assert_eq!(resolve(&args), Ok(Some(Request::ListDevices)));
}

#[test]
fn get_without_a_device_is_a_usage_error() {
    assert_eq!(resolve(&Args { get: true, ..nothing() }), Err(ErrorKind::UsageError));
}

#[test]
fn set_without_a_device_is_a_usage_error() {
    assert_eq!(resolve(&Args { set: Some(10), ..nothing() }), Err(ErrorKind::UsageError));
    assert_eq!(resolve(&Args { set: Some(0), ..nothing() }), Err(ErrorKind::UsageError));
}

#[test]
fn increment_without_a_device_is_a_usage_error() {
    assert_eq!(resolve(&Args { increment: Some(10), ..nothing() }), Err(ErrorKind::UsageError));
}

#[test]
fn decrement_without_a_device_is_a_usage_error() {
    assert_eq!(resolve(&Args { decrement: Some(10), ..nothing() }), Err(ErrorKind::UsageError));
}

#[test]
fn a_usage_error_fails_the_invocation() {
    let args = Args { get: true, ..nothing() };
    let resolution = resolve(&args);
    assert_eq!(resolution, Err(ErrorKind::UsageError));
    assert_ne!(exit_status(args.list_devs, resolution.is_err()), 0);
}

#[test]
fn get_reports_the_named_device() {
    assert_eq!(
        resolve(&Args { get: true, ..on("intel_backlight") }),
        Ok(Some(Request::Get { device: "intel_backlight".to_string() }))
    );
}

#[test]
fn set_takes_the_level_as_given() {
    assert_eq!(
        resolve(&Args { set: Some(128), ..on("acpi_video0") }),
        Ok(Some(Request::SetAbsolute { device: "acpi_video0".to_string(), value: 128 }))
    );
    assert_eq!(
        resolve(&Args { set: Some(0), ..on("acpi_video0") }),
        Ok(Some(Request::SetAbsolute { device: "acpi_video0".to_string(), value: 0 }))
    );
}

#[test]
fn increment_adjusts_upwards() {
    assert_eq!(
        resolve(&Args { increment: Some(25), ..on("d") }),
        Ok(Some(Request::Adjust { device: "d".to_string(), delta: 25, direction: Direction::Up }))
    );
}

#[test]
fn decrement_adjusts_downwards() {
    assert_eq!(
        resolve(&Args { decrement: Some(25), ..on("d") }),
        Ok(Some(Request::Adjust { device: "d".to_string(), delta: 25, direction: Direction::Down }))
    );
}

#[test]
fn the_first_operation_given_is_the_one_taken() {
    let all = Args { increment: Some(1), decrement: Some(2), set: Some(3), get: true, ..on("d") };
    assert_eq!(resolve(&all), Ok(Some(Request::Get { device: "d".to_string() })));
    let changes = Args { get: false, ..all.clone() };
    assert_eq!(
        resolve(&changes),
        Ok(Some(Request::Adjust { device: "d".to_string(), delta: 1, direction: Direction::Up }))
    );
    let lower_or_set = Args { increment: None, ..changes.clone() };
    assert_eq!(
        resolve(&lower_or_set),
        Ok(Some(Request::Adjust { device: "d".to_string(), delta: 2, direction: Direction::Down }))
    );
    let set = Args { decrement: None, ..lower_or_set.clone() };
    assert_eq!(
        resolve(&set),
        Ok(Some(Request::SetAbsolute { device: "d".to_string(), value: 3 }))
    );
}

#[test]
fn only_a_failure_outside_listing_fails_the_invocation() {
    assert_eq!(exit_status(false, false), 0);
    assert_eq!(exit_status(false, true), 1);
    assert_eq!(exit_status(true, false), 0);
    assert_eq!(exit_status(true, true), 0);
    assert_eq!(EXIT_SUCCESS, 0);
    assert_eq!(EXIT_FAILURE, 1);
}

#[test]
fn a_copy_of_a_request_equals_it() {
    let requests = [
        Request::ListDevices,
        Request::Get { device: "d".to_string() },
        Request::SetAbsolute { device: "d".to_string(), value: 9 },
        Request::Adjust { device: "d".to_string(), delta: 4, direction: Direction::Down },
    ];
    for request in &requests {
        assert_eq!(&request.clone(), request);
    }
    let args = Args { increment: Some(1), get: true, ..on("d") };
    assert_eq!(args.clone(), args);
    assert_eq!(nothing().clone(), nothing());
}
