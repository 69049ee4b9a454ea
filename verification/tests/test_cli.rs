use ic_updater::{parse_date, validate_args, Args, Timestamp, UsageError};

fn request(users: &[&str], length: u8, start: &str, end: &str) -> Args {
    Args {
        name: String::from("team-ic"),
        description: String::new(),
        users: users.iter().map(|user| String::from(*user)).collect(),
        length,
        start_date: parse_date(start).unwrap(),
        end_date: parse_date(end).unwrap(),
    }
}

#[test]
fn validation_accepts_a_request_in_order() {
    let args = request(&["a", "b"], 7, "2022-01-01 00:00", "2022-01-15 00:00");
    assert_eq!(validate_args(&args), Ok(()));
}

#[test]
fn validation_refuses_an_empty_user_list() {
    let args = request(&[], 7, "2022-01-01 00:00", "2022-01-15 00:00");
    assert_eq!(validate_args(&args), Err(UsageError::NoUsers));
}

#[test]
fn validation_refuses_an_end_before_the_start() {
    let args = request(&["a"], 7, "2022-01-15 00:00", "2022-01-01 00:00");
    assert_eq!(validate_args(&args), Err(UsageError::EndBeforeStart));
    let args = request(&["a"], 0, "2022-01-01 00:01", "2022-01-01 00:00");
    assert_eq!(validate_args(&args), Err(UsageError::EndBeforeStart));
}

#[test]
fn validation_refuses_an_end_before_the_first_turn_ends() {
    let args = request(&["a"], 7, "2022-07-28 07:00", "2022-08-01 00:00");
    assert_eq!(validate_args(&args), Err(UsageError::EndBeforeFirstTurn));
    let args = request(&["a"], 7, "2022-07-28 07:00", "2022-08-04 06:59");
    assert_eq!(validate_args(&args), Err(UsageError::EndBeforeFirstTurn));
    let args = request(&["a"], 1, "2022-07-28 07:00", "2022-07-28 07:00");
    assert_eq!(validate_args(&args), Err(UsageError::EndBeforeFirstTurn));
}

#[test]
fn validation_accepts_an_end_with_the_first_turn() {
    let args = request(&["a"], 7, "2022-07-28 07:00", "2022-08-04 07:00");
    assert_eq!(validate_args(&args), Ok(()));
    let args = request(&["a"], 255, "2022-01-01 00:00", "2022-09-13 00:00");
    assert_eq!(validate_args(&args), Ok(()));
    let args = request(&["a"], 255, "2022-01-01 00:00", "2022-09-12 23:59");
    assert_eq!(validate_args(&args), Err(UsageError::EndBeforeFirstTurn));
}

#[test]
fn validation_names_the_first_reason() {
    let args = request(&[], 7, "2022-01-15 00:00", "2022-01-01 00:00");
    assert_eq!(validate_args(&args), Err(UsageError::NoUsers));
    let args = request(&[], 7, "2022-01-01 00:00", "2022-01-02 00:00");
    assert_eq!(validate_args(&args), Err(UsageError::NoUsers));
}

#[test]
fn validation_counts_a_first_turn_past_the_calendar_as_too_long() {
    let start = Timestamp::from_seconds(ic_updater::constants::MAX_SECONDS - 10).unwrap();
    let end = Timestamp::from_seconds(ic_updater::constants::MAX_SECONDS).unwrap();
    let mut args = request(&["a"], 1, "2022-01-01 00:00", "2022-01-02 00:00");
    args.start_date = start;
    args.end_date = end;
    assert_eq!(validate_args(&args), Err(UsageError::EndBeforeFirstTurn));
}
