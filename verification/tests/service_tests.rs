use dimigomeal::api::{date_guard, delete_reply, index_reply, meal_not_found_reply, token_guard, ReplyStatus};
use dimigomeal::command::{
    cron_command_action, cron_job_command_action, debug_command_action, run_command_action,
    CronAction, CronJobAction, DebugAction, RunAction,
};
use dimigomeal::ios::{
    activity_payload, check_device_token_format, check_new_device_token, device_token_from_rows,
    new_device_token, IosActivityDeviceToken, IosActivityKey, TokenError,
};

fn token(date: &str, text: &str) -> IosActivityDeviceToken {
    IosActivityDeviceToken { created_date: date.to_string(), device_token: text.to_string() }
}

#[test]
fn device_tokens_are_hexadecimal() {
    assert!(check_device_token_format("0123456789abcdefABCDEF"));
    assert!(check_device_token_format(""));
    assert!(!check_device_token_format("abcg"));
    assert!(!check_device_token_format("١٢"));
}

#[test]
fn lookup_keeps_the_last_row() {
    let found = device_token_from_rows(vec![token("d1", "aa"), token("d2", "bb")]);
    assert_eq!(found.device_token, "bb");
    assert_eq!(found.created_date, "d2");
    let none = device_token_from_rows(vec![]);
    assert_eq!(none.device_token, "");
    assert_eq!(none.created_date, "");
}

#[test]
fn adding_a_stored_token_is_refused() {
    assert_eq!(check_new_device_token(&token("d", "aa")), Err(TokenError::AlreadyExists));
    assert_eq!(check_new_device_token(&token("", "")), Ok(()));
}

#[test]
fn new_tokens_carry_their_text_and_a_date() {
    let t = new_device_token("ab12".to_string());
    assert_eq!(t.device_token, "ab12");
    assert!(!t.created_date.is_empty());
}

#[test]
fn activity_payload_carries_the_meal() {
    let p = activity_payload("lunch", "면", "2024-03-15");
    assert_eq!(p.event, "update");
    assert_eq!(p.meal_type, "lunch");
    assert_eq!(p.menu, "면");
    assert_eq!(p.date, "2024-03-15");
    assert!(p.timestamp > 1_600_000_000);
}

#[test]
fn activity_key_holds_its_fields() {
    let k = IosActivityKey { last_date: "2024-03-15".to_string(), activity_key: "k".to_string() };
    assert_eq!(k.clone().activity_key, "k");
}

#[test]
fn replies() {
    assert_eq!(index_reply().body, "dimigomeal server");
    assert!(token_guard("abc").is_none());
    let bad = token_guard("xyz").unwrap();
    assert_eq!(bad.status, ReplyStatus::BadRequest);
    assert_eq!(bad.body, "Invalid token format");
    assert_eq!(delete_reply(true).body, "Token deleted");
    assert_eq!(delete_reply(false).status, ReplyStatus::BadRequest);
    assert!(date_guard("2024-03-15").unwrap().is_none());
    assert_eq!(date_guard("2024-3-15").unwrap().unwrap().body, "Invalid date format");
    assert_eq!(meal_not_found_reply().status, ReplyStatus::NotFound);
}

#[test]
fn command_actions() {
    assert_eq!(run_command_action("run"), RunAction::RunServer);
    assert_eq!(run_command_action("cron-job"), RunAction::CronJob);
    assert_eq!(run_command_action("--help"), RunAction::Help);
    assert_eq!(run_command_action(""), RunAction::Invalid);
    assert_eq!(cron_command_action("meal", ""), CronAction::Meal);
    assert_eq!(cron_command_action("ios-activity", ""), CronAction::MissingKey);
    assert_eq!(cron_command_action("ios-activity", "k"), CronAction::IosActivity);
    assert_eq!(cron_command_action("x", "k"), CronAction::Invalid);
    assert_eq!(cron_job_command_action("ios-activity", "t"), CronJobAction::IosActivity);
    assert_eq!(cron_job_command_action("ios-activity", ""), CronJobAction::MissingToken);
    assert_eq!(cron_job_command_action("meal", "t"), CronJobAction::Invalid);
    assert_eq!(debug_command_action("ios-activity", "k", "d", "lunch", "m", "2024-01-01"), DebugAction::SendActivity);
    assert_eq!(debug_command_action("ios-activity", "k", "d", "", "m", "2024-01-01"), DebugAction::MissingArguments);
    assert_eq!(debug_command_action("--help", "", "", "", "", ""), DebugAction::Help);
}

#[test]
fn push_address_ends_with_the_device() {
    assert_eq!(
        dimigomeal::ios::push_url("ab12"),
        "https://api.development.push.apple.com:443/3/device/ab12"
    );
}

#[test]
fn new_token_date_starts_with_a_date() {
    let t = new_device_token("ab".to_string());
    let head: String = t.created_date.chars().take(11).collect();
    assert!(head.ends_with(' '));
    assert_eq!(dimigomeal::pattern::check_date_format(head.trim_end()), Some(true));
}
