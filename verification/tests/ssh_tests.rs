use dirwatch::ssh::{
    auth_result_code, call_of_step, failure_message, has_available_bytes, libssh_error_to_message,
    outcome_message, port_number, setup_steps, to_int, AuthStatus, PollStatus, ReadResult, SetupStep, SshCall,
    SshError, ACCEPTED_SSH_TYPES, AUTH_FAILED, AUTH_UNAVAILABLE,
};

#[test]
fn each_answer_has_its_number() {
    assert_eq!(to_int(AuthStatus::Success), 1);
    assert_eq!(to_int(AuthStatus::Denied), 2);
    assert_eq!(to_int(AuthStatus::Partial), 3);
    assert_eq!(to_int(AuthStatus::Info), 4);
    assert_eq!(to_int(AuthStatus::Again), 5);
}

#[test]
fn failed_authentication_is_minus_two() {
    assert_eq!(AUTH_UNAVAILABLE, -1);
    assert_eq!(AUTH_FAILED, -2);
    assert_eq!(auth_result_code(&Err(SshError::Fatal("gone".to_string()))), -2);
    assert_eq!(auth_result_code(&Err(SshError::TryAgain)), -2);
    assert_eq!(auth_result_code(&Ok(AuthStatus::Denied)), 2);
    assert_eq!(auth_result_code(&Ok(AuthStatus::Success)), 1);
}

#[test]
fn each_transport_error_has_its_text() {
    assert_eq!(libssh_error_to_message(&SshError::RequestDenied("no".to_string())), "no");
    assert_eq!(libssh_error_to_message(&SshError::Fatal("broken pipe".to_string())), "broken pipe");
    assert_eq!(
        libssh_error_to_message(&SshError::TryAgain),
        "Something went wrong, please try again"
    );
    assert_eq!(libssh_error_to_message(&SshError::Sftp), "Sftp not supported");
}

#[test]
fn each_failed_call_has_its_message() {
    let err = SshError::Fatal("timeout".to_string());
    assert_eq!(failure_message(SshCall::SetHostname, &err), "SSH Hostname option failed: timeout");
    assert_eq!(failure_message(SshCall::SetUser, &err), "SSH User option failed: timeout");
    assert_eq!(failure_message(SshCall::SetPort, &err), "SSH Port option failed: timeout");
    assert_eq!(
        failure_message(SshCall::SetPublicKeyTypes, &err),
        "SSH Public keys option failed: timeout"
    );
    assert_eq!(
        failure_message(SshCall::ParseConfig, &err),
        "SSH Configuration parsing failed: timeout"
    );
    assert_eq!(failure_message(SshCall::Connect, &err), "Server connection failed: timeout");
    assert_eq!(
        failure_message(SshCall::OpenSession, &err),
        "Channel open session failed: timeout"
    );
    assert_eq!(failure_message(SshCall::CloseChannel, &err), "Channel closing failed: timeout");
    assert_eq!(
        failure_message(SshCall::RequestExec, &SshError::TryAgain),
        "Channel request exec failed: Something went wrong, please try again"
    );
}

#[test]
fn setup_with_user_and_port_makes_six_steps() {
    let steps = setup_steps("example.org".to_string(), "git".to_string(), Some(2222));
    assert_eq!(
        steps,
        vec![
            SetupStep::Hostname("example.org".to_string()),
            SetupStep::User("git".to_string()),
            SetupStep::Port(2222),
            SetupStep::PublicKeyAcceptedTypes(ACCEPTED_SSH_TYPES.to_string()),
            SetupStep::ParseConfig,
            SetupStep::Connect,
        ]
    );
}

#[test]
fn setup_without_user_and_port_makes_four_steps() {
    let steps = setup_steps("example.org".to_string(), String::new(), None);
    assert_eq!(
        steps,
        vec![
            SetupStep::Hostname("example.org".to_string()),
            SetupStep::PublicKeyAcceptedTypes(
                "ssh-ed25519,ecdsa-sha2-nistp256,ecdsa-sha2-nistp384,ecdsa-sha2-nistp521,ssh-rsa,rsa-sha2-512,rsa-sha2-256,ssh-dss"
                    .to_string()
            ),
            SetupStep::ParseConfig,
            SetupStep::Connect,
        ]
    );
}

#[test]
fn setup_with_only_a_port_or_only_a_user() {
    let with_port = setup_steps("h".to_string(), String::new(), Some(22));
    assert_eq!(with_port.len(), 5);
    assert_eq!(with_port[1], SetupStep::Port(22));
    let with_user = setup_steps("h".to_string(), "u".to_string(), None);
    assert_eq!(with_user.len(), 5);
    assert_eq!(with_user[1], SetupStep::User("u".to_string()));
}

#[test]
fn port_is_cut_to_sixteen_bits() {
    assert_eq!(port_number(0), 0);
    assert_eq!(port_number(22), 22);
    assert_eq!(port_number(65_535), 65_535);
    assert_eq!(port_number(65_536), 0);
    assert_eq!(port_number(70_000), 4_464);
    assert_eq!(port_number(-1), 65_535);
    assert_eq!(port_number(i32::MIN), 0);
    assert_eq!(setup_steps("h".to_string(), String::new(), Some(70_000))[1], SetupStep::Port(4_464));
}

#[test]
fn each_step_names_its_call() {
    assert_eq!(call_of_step(&SetupStep::Hostname("h".to_string())), SshCall::SetHostname);
    assert_eq!(call_of_step(&SetupStep::User("u".to_string())), SshCall::SetUser);
    assert_eq!(call_of_step(&SetupStep::Port(22)), SshCall::SetPort);
    assert_eq!(
        call_of_step(&SetupStep::PublicKeyAcceptedTypes("ssh-rsa".to_string())),
        SshCall::SetPublicKeyTypes
    );
    assert_eq!(call_of_step(&SetupStep::ParseConfig), SshCall::ParseConfig);
    assert_eq!(call_of_step(&SetupStep::Connect), SshCall::Connect);
}

#[test]
fn poll_finds_bytes_only_when_some_are_available() {
    assert!(has_available_bytes(PollStatus::AvailableBytes(1)));
    assert!(has_available_bytes(PollStatus::AvailableBytes(u32::MAX)));
    assert!(!has_available_bytes(PollStatus::AvailableBytes(0)));
    assert!(!has_available_bytes(PollStatus::EndOfFile));
}

#[test]
fn read_buffer_is_zeroed() {
    assert_eq!(ReadResult::buffer(0), Vec::<u8>::new());
    assert_eq!(ReadResult::buffer(4), vec![0u8, 0, 0, 0]);
}

#[test]
fn read_result_keeps_the_buffer_and_the_count() {
    let mut data = ReadResult::buffer(4);
    data[0] = 104;
    data[1] = 105;
    let result = ReadResult::new(data, 2);
    assert_eq!(result.read_count, 2);
    assert_eq!(result.data, vec![104u8, 105, 0, 0]);
}

#[test]
fn success_is_told_by_the_empty_message() {
    assert_eq!(outcome_message(SshCall::Connect, &Ok(())), "");
    assert_eq!(outcome_message(SshCall::OpenSession, &Ok(())), "");
}

#[test]
fn failure_is_told_by_its_message() {
    assert_eq!(
        outcome_message(SshCall::Connect, &Err(SshError::Fatal("refused".to_string()))),
        "Server connection failed: refused"
    );
    assert_eq!(
        outcome_message(SshCall::CloseChannel, &Err(SshError::Sftp)),
        "Channel closing failed: Sftp not supported"
    );
}
