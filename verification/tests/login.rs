use filen_menubar::login::{
    ended_outcome, login_refusal, missing_login_fields, missing_two_factor_code, reports_login_completed, step_for,
    waited_outcome, DriverStep, LoginSecret, LoginSlot, ReplyText,
    DriverAction, ExitGuard, LoginOutcome, LoginPromptDriver, LoginResponse, OUTPUT_BUFFER_LIMIT,
};

fn driver() -> LoginPromptDriver {
    LoginPromptDriver::new()
}

#[test]
fn login_window_close_prevents_exactly_one_implicit_exit() {
    let mut guard = ExitGuard::new();

    assert!(!guard.should_prevent_exit(None));

    guard.mark_window_closing();
    assert!(guard.should_prevent_exit(None));
    assert!(!guard.should_prevent_exit(None));
}

#[test]
fn explicit_exit_is_not_prevented_after_login_window_close() {
    let mut guard = ExitGuard::new();

    guard.mark_window_closing();
    assert!(!guard.should_prevent_exit(Some(0)));
    assert!(!guard.should_prevent_exit(None));
}

#[test]
fn failed_window_close_does_not_arm_the_guard() {
    let mut guard = ExitGuard::new();
    guard.mark_window_closing();
    guard.clear_window_closing();
    assert!(!guard.should_prevent_exit(None));
}

#[test]
fn legacy_login_prompt_sequence_is_recognized_across_chunks() {
    let mut driver = driver();

    assert_eq!(
        driver.push("Please enter your Filen credentials:\r\nEma"),
        Vec::<DriverAction>::new()
    );
    assert_eq!(driver.push("il: "), vec![DriverAction::SendEmail]);
    assert_eq!(driver.push("Password: "), vec![DriverAction::SendPassword]);
    assert_eq!(driver.push("Keep me logged in? (y/N) "), vec![DriverAction::SendRemember]);
    assert_eq!(
        driver.push("You can delete these credentials using `filen logout`"),
        vec![DriverAction::Success]
    );
}

#[test]
fn legacy_two_factor_flow_is_recognized() {
    let mut driver = driver();
    let _ = driver.push("Email: ");
    let _ = driver.push("Password: ");

    assert_eq!(
        driver.push("Please enter your 2FA code or recovery key: "),
        vec![DriverAction::NeedsTwoFactor]
    );
    assert_eq!(
        driver.push("Invalid Two Factor Authentication code!"),
        vec![DriverAction::InvalidTwoFactor]
    );
}

#[test]
fn rust_cli_prompt_sequence_is_recognized() {
    let mut driver = driver();

    assert_eq!(driver.push("Email: "), vec![DriverAction::SendEmail]);
    assert_eq!(driver.push("Password: "), vec![DriverAction::SendPassword]);
    assert_eq!(
        driver.push("Two-factor authentication code: "),
        vec![DriverAction::NeedsTwoFactor]
    );
    assert_eq!(driver.push("Keep me logged in? [Y/n] "), vec![DriverAction::SendRemember]);
    assert_eq!(driver.push("Saved credentials"), vec![DriverAction::Success]);
}

#[test]
fn invalid_credentials_are_terminal() {
    let mut driver = driver();
    let _ = driver.push("Email: ");
    let _ = driver.push("Password: ");

    assert_eq!(driver.push("Invalid credentials!"), vec![DriverAction::InvalidCredentials]);
    assert!(driver.push("Email: ").is_empty());
}

#[test]
fn keychain_failure_does_not_continue_to_plaintext_fallback() {
    let mut driver = driver();
    let _ = driver.push("Keep me logged in?");

    assert_eq!(
        driver.push("Failed to save credentials in keyring"),
        vec![DriverAction::KeychainUnavailable]
    );
}

#[test]
fn output_buffer_truncation_preserves_utf8_boundaries() {
    let mut driver = driver();
    let unicode_output = "é".repeat(OUTPUT_BUFFER_LIMIT);

    assert!(driver.push(&unicode_output).is_empty());
    assert!(driver.retained_bytes() <= OUTPUT_BUFFER_LIMIT);
    assert_eq!(driver.retained_bytes(), OUTPUT_BUFFER_LIMIT);
}

// Each prompt is answered once even if it is printed again; a prompt split
// over the output limit is still found.
#[test]
fn prompts_are_answered_once() {
    let mut driver = driver();
    assert_eq!(
        driver.push("Email: Password: "),
        vec![DriverAction::SendEmail, DriverAction::SendPassword]
    );
    assert!(driver.push("Email: Password: ").is_empty());
    assert_eq!(driver.push("Saved credentials"), vec![DriverAction::Success]);
    assert!(driver.push("Saved credentials").is_empty());
}

#[test]
fn outcomes_and_their_status_strings() {
    assert_eq!(LoginOutcome::NeedsTwoFactor.status(), "needsTwoFactor");
    assert_eq!(LoginOutcome::KeychainUnavailable.status(), "keychainUnavailable");
    assert_eq!(LoginOutcome::NoActiveLogin.status(), "noActiveLogin");
    assert!(!LoginOutcome::NeedsTwoFactor.is_terminal());
    assert!(LoginOutcome::Cancelled.is_terminal());
    assert_eq!(LoginResponse::from_outcome(LoginOutcome::Timeout).status, "timeout");
}

#[test]
fn login_requests_need_an_email_and_a_password() {
    assert!(missing_login_fields("  ", "secret"));
    assert!(missing_login_fields("person@example.com", ""));
    assert!(!missing_login_fields(" person@example.com ", " "));
    assert!(missing_two_factor_code(" \t"));
    assert!(!missing_two_factor_code("123456"));
}

#[test]
fn driver_actions_become_terminal_steps() {
    assert_eq!(step_for(DriverAction::SendEmail), DriverStep::SendSecret(LoginSecret::Email));
    assert_eq!(step_for(DriverAction::SendPassword), DriverStep::SendSecret(LoginSecret::Password));
    assert_eq!(step_for(DriverAction::NeedsTwoFactor), DriverStep::AwaitTwoFactor);
    assert_eq!(step_for(DriverAction::SendRemember), DriverStep::SendText(ReplyText::Yes));
    assert_eq!(
        step_for(DriverAction::KeychainUnavailable),
        DriverStep::Finish { last_input: Some(ReplyText::No), outcome: LoginOutcome::KeychainUnavailable }
    );
    assert_eq!(
        step_for(DriverAction::Success),
        DriverStep::Finish { last_input: Some(ReplyText::Exit), outcome: LoginOutcome::Success }
    );
    assert_eq!(ReplyText::Yes.text(), "y");
    assert_eq!(ReplyText::Exit.text(), "exit");
}

#[test]
fn waiting_and_ending_outcomes() {
    assert_eq!(ended_outcome(true), LoginOutcome::Cancelled);
    assert_eq!(ended_outcome(false), LoginOutcome::Failed);
    assert_eq!(waited_outcome(None), (LoginOutcome::Timeout, true));
    assert_eq!(waited_outcome(Some(None)), (LoginOutcome::Failed, false));
    assert_eq!(
        waited_outcome(Some(Some(LoginOutcome::NeedsTwoFactor))),
        (LoginOutcome::NeedsTwoFactor, false)
    );
    assert!(reports_login_completed(LoginOutcome::Success));
    assert!(!reports_login_completed(LoginOutcome::Busy));
}

#[test]
fn only_one_login_at_a_time() {
    let mut slot = LoginSlot::new();
    let first = slot.begin().unwrap();
    assert_eq!(slot.begin(), Err(LoginOutcome::Busy));
    slot.clear_if_current(first);
    let second = slot.begin().unwrap();
    assert_ne!(first, second);
    slot.clear_if_current(first);
    assert_eq!(slot.active(), Some(second));
    assert_eq!(slot.take(), Some(second));
    assert_eq!(slot.active(), None);
}

#[test]
fn a_verdict_is_the_last_action_of_its_batch() {
    let mut d = driver();
    let actions = d.push("Email: Password: Invalid credentials!\nKeep me logged in?");
    assert_eq!(
        actions,
        vec![DriverAction::SendEmail, DriverAction::SendPassword, DriverAction::InvalidCredentials]
    );
    assert!(d.push("Email: Keep me logged in?").is_empty());
}

#[test]
fn login_sessions_get_distinct_numbers() {
    let mut slot = LoginSlot::new();
    let first = slot.begin().unwrap();
    slot.clear_if_current(first);
    let second = slot.begin().unwrap();
    assert_ne!(first, second);
    assert_eq!(slot.take(), Some(second));
    assert_eq!(slot.active(), None);
}

#[test]
fn missing_fields_are_reported_before_busy() {
    assert_eq!(login_refusal("  ", "pw", true), Some(LoginOutcome::MissingFields));
    assert_eq!(login_refusal("a@b.c", "", false), Some(LoginOutcome::MissingFields));
    assert_eq!(login_refusal("a@b.c", "pw", true), Some(LoginOutcome::Busy));
    assert_eq!(login_refusal("a@b.c", "pw", false), None);
}
