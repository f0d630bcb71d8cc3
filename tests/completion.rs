use asyncwrap::{complete_plain, complete_result, AsyncWrapError, AsyncWrapResult};
use tokio::task::JoinError;

fn join<T: Send + 'static>(f: impl FnOnce() -> T + Send + 'static) -> Result<T, JoinError> {
    let rt = tokio::runtime::Runtime::new().unwrap();
    let handle = {
        let _context = rt.enter();
        tokio::task::spawn_blocking(f)
    };
    rt.block_on(handle)
}

#[derive(Debug, PartialEq)]
enum MyError {
    Failed,
}

fn might_fail(succeed: bool) -> Result<String, MyError> {
    if succeed {
        Ok("success".to_string())
    } else {
        Err(MyError::Failed)
    }
}

fn might_panic(should_panic: bool) -> Result<i32, MyError> {
    if should_panic {
        panic!("intentional panic for testing");
    }
    Ok(42)
}

#[test]
fn plain_value_completes_ok() {
    assert_eq!(complete_plain(join(|| 7)).unwrap(), 7);
}

#[test]
fn plain_values_pass_through_join() {
    let value = 42;
    assert_eq!(complete_plain(join(move || value)).unwrap(), 42);
    assert_eq!(complete_plain(join(move || value + 8)).unwrap(), 50);
}

#[test]
fn panicking_plain_task_gives_join_error() {
    let result = complete_plain(join(|| -> i32 { panic!("intentional panic for testing") }));
    assert!(result.is_err());
    let err = result.unwrap_err();
    assert!(err.is_panic());
}

#[test]
fn panicking_result_task_gives_task_failed() {
    let result = complete_result(join(|| might_panic(true)));
    assert!(result.is_err());
    assert!(matches!(result.unwrap_err(), AsyncWrapError::TaskFailed(_)));
}

#[test]
fn successful_result_task_gives_value() {
    let result: AsyncWrapResult<Result<i32, MyError>> = complete_result(join(|| might_panic(false)));
    assert!(result.is_ok());
    assert_eq!(result.unwrap(), 42);
}

#[test]
fn result_task_ok_and_err() {
    assert!(complete_result(join(|| might_fail(true))).is_ok());
    assert!(complete_result(join(|| might_fail(false))).is_err());
}

#[test]
fn inner_error_is_remapped() {
    match complete_result(join(|| might_fail(false))) {
        Err(AsyncWrapError::Inner(e)) => assert_eq!(e, MyError::Failed),
        other => panic!("unexpected outcome: {:?}", other),
    }
    assert_eq!(complete_result(join(|| might_fail(true))).unwrap(), "success");
}

#[test]
fn join_error_converts_to_task_failed() {
    let err = join(|| -> i32 { panic!("boom") }).unwrap_err();
    let wrapped: AsyncWrapError<MyError> = AsyncWrapError::from(err);
    assert!(matches!(wrapped, AsyncWrapError::TaskFailed(_)));
}

#[test]
fn unit_task_completes() {
    assert!(complete_plain(join(|| ())).is_ok());
}
