use modality_barectf_plugin::session::{
    connect_attempt, fallback_attempt, session_config, session_verdict, verdict, Attempt, Handshake, HandshakeStep,
    Outcome, ProbeConfig, RttConfig, SessionConfig, SessionOptions, SessionStatus, Target,
    TargetConfig, Verdict, CONNECT_SLICES,
};

// A stand-in for the parser of the remote's answer: `S<id>;` or `E<message>;`.
fn session_toy_parse(bytes: &[u8]) -> Option<SessionStatus> {
    let text = std::str::from_utf8(bytes).ok()?;
    let body = text.strip_suffix(';')?;
    if let Some(id) = body.strip_prefix('S') {
        Some(SessionStatus::Started(id.to_string()))
    } else {
        body.strip_prefix('E').map(|m| SessionStatus::Error(m.to_string()))
    }
}

fn session_run(answer: &[u8]) -> (HandshakeStep, usize) {
    let mut handshake = Handshake::new();
    let mut read = 0;
    for byte in answer {
        handshake.push(*byte);
        read += 1;
        let step = Handshake::resolve(session_toy_parse(handshake.bytes()));
        if step != HandshakeStep::ReadMore {
            return (step, read);
        }
    }
    (HandshakeStep::ReadMore, read)
}

#[test]
fn direct_connect_without_budget_is_one_unbounded_attempt() {
    assert_eq!(connect_attempt(None, 0), Attempt::Unbounded);
    assert_eq!(connect_attempt(Some(0), 0), Attempt::Unbounded);
    assert_eq!(connect_attempt(None, 5_000), Attempt::Unbounded);
}

#[test]
fn direct_connect_slices_are_a_quarter_of_the_budget() {
    assert_eq!(CONNECT_SLICES, 4);
    assert_eq!(connect_attempt(Some(1_000), 0), Attempt::Bounded { limit: 250 });
    assert_eq!(connect_attempt(Some(1_000), 999), Attempt::Bounded { limit: 250 });
    assert_eq!(connect_attempt(Some(1_000), 1_000), Attempt::Bounded { limit: 250 });
    assert_eq!(connect_attempt(Some(1_003), 0), Attempt::Bounded { limit: 250 });
    assert_eq!(connect_attempt(Some(3), 0), Attempt::Bounded { limit: 0 });
    assert_eq!(
        connect_attempt(Some(u128::MAX), u128::MAX),
        Attempt::Bounded { limit: u128::MAX / 4 }
    );
}

#[test]
fn direct_connect_past_budget_is_unbounded() {
    assert_eq!(connect_attempt(Some(1_000), 1_001), Attempt::Unbounded);
    assert_eq!(connect_attempt(Some(1), 2), Attempt::Unbounded);
}

#[test]
fn fallback_is_one_bounded_then_unbounded() {
    assert_eq!(fallback_attempt(Some(7_000), 0), Attempt::Bounded { limit: 7_000 });
    assert_eq!(fallback_attempt(Some(7_000), 1), Attempt::Unbounded);
    assert_eq!(fallback_attempt(Some(7_000), 2), Attempt::Unbounded);
    assert_eq!(fallback_attempt(Some(0), 0), Attempt::Unbounded);
    assert_eq!(fallback_attempt(None, 0), Attempt::Unbounded);
}

#[test]
fn verdict_of_each_outcome() {
    let bounded = Attempt::Bounded { limit: 10 };
    assert_eq!(verdict(bounded, Outcome::Succeeded), Verdict::Done);
    assert_eq!(verdict(bounded, Outcome::Failed), Verdict::Retry);
    assert_eq!(verdict(bounded, Outcome::TimedOut), Verdict::Retry);
    assert_eq!(verdict(Attempt::Unbounded, Outcome::Succeeded), Verdict::Done);
    assert_eq!(verdict(Attempt::Unbounded, Outcome::Failed), Verdict::GiveUp);
    assert_eq!(verdict(Attempt::Unbounded, Outcome::TimedOut), Verdict::GiveUp);
}

#[test]
fn direct_connect_loop_ends_with_unbounded_attempt() {
    // Every bounded attempt times out after its slice of 250.
    let budget = Some(1_000u128);
    let mut elapsed = 0u128;
    let mut bounded_attempts = 0;
    loop {
        match connect_attempt(budget, elapsed) {
            Attempt::Bounded { limit } => {
                assert_eq!(verdict(Attempt::Bounded { limit }, Outcome::TimedOut), Verdict::Retry);
                elapsed += limit + 1;
                bounded_attempts += 1;
            }
            Attempt::Unbounded => {
                assert_eq!(verdict(Attempt::Unbounded, Outcome::Failed), Verdict::GiveUp);
                break;
            }
        }
    }
    assert_eq!(bounded_attempts, 4);
}

#[test]
fn handshake_collects_bytes() {
    let mut handshake = Handshake::new();
    assert!(handshake.bytes().is_empty());
    handshake.push(b'{');
    handshake.push(b'"');
    assert_eq!(handshake.bytes(), &vec![b'{', b'"']);
}

#[test]
fn resolve_each_status() {
    assert_eq!(Handshake::resolve(None), HandshakeStep::ReadMore);
    assert_eq!(
        Handshake::resolve(Some(SessionStatus::Started("abc".to_string()))),
        HandshakeStep::Established { session_id: "abc".to_string() }
    );
    assert_eq!(
        Handshake::resolve(Some(SessionStatus::Error("no probe".to_string()))),
        HandshakeStep::Rejected { message: "no probe".to_string() }
    );
}

#[test]
fn handshake_stops_at_first_parse() {
    let (step, read) = session_run(b"S42;trace bytes follow;");
    assert_eq!(step, HandshakeStep::Established { session_id: "42".to_string() });
    assert_eq!(read, 4);
}

#[test]
fn handshake_surfaces_error_message_verbatim() {
    let (step, read) = session_run(b"Eprobe not found: 1366:0101;");
    assert_eq!(step, HandshakeStep::Rejected { message: "probe not found: 1366:0101".to_string() });
    assert_eq!(read, 28);
}

#[test]
fn handshake_reads_on_while_nothing_parses() {
    let (step, read) = session_run(b"S42");
    assert_eq!(step, HandshakeStep::ReadMore);
    assert_eq!(read, 3);
}

#[test]
fn session_config_defaults() {
    assert_eq!(
        session_config(SessionOptions::default()),
        SessionConfig {
            probe: ProbeConfig {
                probe_selector: None,
                protocol: "SWD".to_string(),
                speed_khz: 4000,
                target: Target::Auto,
                attach_under_reset: false,
                force_exclusive: false,
            },
            target: TargetConfig {
                auto_recover: false,
                core: 0,
                reset: false,
                bootloader: false,
                bootloader_companion_application: false,
            },
            rtt: RttConfig {
                attach_timeout_ms: None,
                setup_on_breakpoint_address: None,
                stop_on_breakpoint_address: None,
                no_data_stop_timeout_ms: None,
                control_block_address: None,
                up_channel: 2,
                down_channel: 2,
                disable_control_plane: true,
                restart: false,
                rtt_read_buffer_size: 1024,
                rtt_poll_interval_ms: 1,
                rtt_idle_poll_interval_ms: 100,
            },
        }
    );
}

#[test]
fn session_config_keeps_what_is_chosen() {
    let cfg = session_config(SessionOptions {
        probe_selector: Some("1366:0101".to_string()),
        protocol: Some("JTAG".to_string()),
        speed: Some(1000),
        chip: Some("S32K344".to_string()),
        attach_under_reset: Some(true),
        force_exclusive: Some(true),
        auto_recover: Some(true),
        core: Some(1),
        reset: Some(true),
        bootloader: Some(true),
        bootloader_companion_application: Some(false),
        attach_timeout_ms: Some(5000),
        setup_on_breakpoint_address: Some(0x2000),
        stop_on_breakpoint_address: Some(0x3000),
        no_data_stop_timeout_ms: Some(9),
        control_block_address: Some(0x1000),
        up_channel: Some(3),
        rtt_read_buffer_size: Some(4096),
        rtt_poll_interval_ms: Some(10),
        rtt_idle_poll_interval_ms: Some(200),
    });
    assert_eq!(
        cfg,
        SessionConfig {
            probe: ProbeConfig {
                probe_selector: Some("1366:0101".to_string()),
                protocol: "JTAG".to_string(),
                speed_khz: 1000,
                target: Target::Specific("S32K344".to_string()),
                attach_under_reset: true,
                force_exclusive: true,
            },
            target: TargetConfig {
                auto_recover: true,
                core: 1,
                reset: true,
                bootloader: true,
                bootloader_companion_application: false,
            },
            rtt: RttConfig {
                attach_timeout_ms: Some(5000),
                setup_on_breakpoint_address: Some(0x2000),
                stop_on_breakpoint_address: Some(0x3000),
                no_data_stop_timeout_ms: Some(9),
                control_block_address: Some(0x1000),
                up_channel: 3,
                down_channel: 2,
                disable_control_plane: true,
                restart: false,
                rtt_read_buffer_size: 4096,
                rtt_poll_interval_ms: 10,
                rtt_idle_poll_interval_ms: 200,
            },
        }
    );
}

#[test]
fn session_error_within_the_attach_timeout_is_final() {
    let first = fallback_attempt(Some(5_000), 0);
    assert_eq!(first, Attempt::Bounded { limit: 5_000 });
    assert_eq!(session_verdict(first, Outcome::Failed), Verdict::GiveUp);
    assert_eq!(session_verdict(first, Outcome::Succeeded), Verdict::Done);
}

#[test]
fn session_timeout_leads_to_one_unbounded_attempt() {
    let first = fallback_attempt(Some(5_000), 0);
    assert_eq!(session_verdict(first, Outcome::TimedOut), Verdict::Retry);
    let second = fallback_attempt(Some(5_000), 1);
    assert_eq!(second, Attempt::Unbounded);
    assert_eq!(session_verdict(second, Outcome::Succeeded), Verdict::Done);
    assert_eq!(session_verdict(second, Outcome::Failed), Verdict::GiveUp);
    assert_eq!(session_verdict(second, Outcome::TimedOut), Verdict::GiveUp);
}

#[test]
fn session_without_attach_timeout_is_one_attempt() {
    for timeout in [None, Some(0u128)] {
        let only = fallback_attempt(timeout, 0);
        assert_eq!(only, Attempt::Unbounded);
        assert_eq!(session_verdict(only, Outcome::Failed), Verdict::GiveUp);
        assert_eq!(session_verdict(only, Outcome::Succeeded), Verdict::Done);
    }
}

#[test]
fn connection_error_under_a_connect_timeout_is_retried() {
    let first = fallback_attempt(Some(5_000), 0);
    assert_eq!(verdict(first, Outcome::Failed), Verdict::Retry);
    assert_eq!(verdict(first, Outcome::TimedOut), Verdict::Retry);
}
