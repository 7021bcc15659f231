use beam_file::config::{Config, Mode};
use beam_file::error::{FileError, TunnelReject};
use beam_file::ident::{compose_destination, parse_beam_id};
use beam_file::metadata::{
    decode_header_form, decode_stream, encode_header_form, encode_stream, file_meta_new, FileMeta,
};
use beam_file::naming::resolve;
use beam_file::receiver::{
    plan_dispatch, DispatchPlan, LoopAction, PollOutcome, ReceiveLoop, ReceiveMode, SocketTask,
};
use beam_file::sender::{prepare_send, SendArgs, SendPlan};
use beam_file::text::{u64_to_string, validate_filename};
use beam_file::tunnel::plan_tunnel;

#[test]
fn filename_validation_accepts_the_charset() {
    assert_eq!(validate_filename("report.pdf"), Ok("report.pdf"));
    assert_eq!(validate_filename("A-b_c.9"), Ok("A-b_c.9"));
    assert_eq!(validate_filename(""), Ok(""));
    assert_eq!(validate_filename(".."), Ok(".."));
}

#[test]
fn filename_validation_rejects_everything_else() {
    assert_eq!(validate_filename("../evil"), Err(FileError::InvalidFilename));
    assert_eq!(validate_filename("a b"), Err(FileError::InvalidFilename));
    assert_eq!(validate_filename("a/b"), Err(FileError::InvalidFilename));
    assert_eq!(validate_filename("n\u{e4}me"), Err(FileError::InvalidFilename));
    assert_eq!(validate_filename("quote\""), Err(FileError::InvalidFilename));
}

#[test]
fn resolve_default_template() {
    let r = resolve("%f_%t", "app1.proxy2.broker", 1700000000, None);
    assert_eq!(r, "app1.proxy2_1700000000");
}

#[test]
fn resolve_with_suggested_name() {
    let r = resolve("%f_%t_%n", "app1.proxy2.broker", 1700000000, Some("report.pdf"));
    assert_eq!(r, "app1.proxy2_1700000000_report.pdf");
}

#[test]
fn resolve_short_origin_and_fixed_text() {
    assert_eq!(resolve("%f", "lonely", 1, None), "lonely");
    assert_eq!(resolve("%f", "a.b", 1, None), "a.b");
    assert_eq!(resolve("fixed", "a.b.c", 1, None), "fixed");
    assert_eq!(resolve("%n", "a.b.c", 1, None), "");
}

#[test]
fn resolve_does_not_rescan_substituted_text() {
    // The name lands after %f and %t were handled, so placeholders
    // inside it stay literal.
    let r = resolve("%n", "a.b.c", 7, Some("x%fy%tz"));
    assert_eq!(r, "x%fy%tz");
}

#[test]
fn timestamp_renders_in_decimal() {
    assert_eq!(u64_to_string(0), "0");
    assert_eq!(u64_to_string(1700000000), "1700000000");
    assert_eq!(u64_to_string(u64::MAX), "18446744073709551615");
}

#[test]
fn stream_encoding_is_the_fixed_object() {
    let m = FileMeta {
        suggested_name: Some("report.pdf".to_string()),
        meta: None,
    };
    assert_eq!(
        encode_stream(&m),
        "{\"suggested_name\":\"report.pdf\",\"meta\":null}"
    );
    let m2 = FileMeta {
        suggested_name: None,
        meta: Some("{\"k\":1}".to_string()),
    };
    assert_eq!(
        encode_stream(&m2),
        "{\"suggested_name\":null,\"meta\":{\"k\":1}}"
    );
}

#[test]
fn stream_round_trip_returns_an_equal_record() {
    let cases = vec![
        FileMeta { suggested_name: None, meta: None },
        FileMeta { suggested_name: Some("report.pdf".to_string()), meta: None },
        FileMeta { suggested_name: None, meta: Some("[1,2,3]".to_string()) },
        FileMeta {
            suggested_name: Some("a-b_c.9".to_string()),
            meta: Some("{\"deep\":{\"x\":\"}\"}}".to_string()),
        },
    ];
    for m in cases {
        let decoded = decode_stream(&encode_stream(&m)).unwrap();
        assert_eq!(decoded, m);
    }
}

#[test]
fn stream_decode_rejects_foreign_text() {
    assert_eq!(decode_stream(""), Err(FileError::InvalidMetadata));
    assert_eq!(decode_stream("{}"), Err(FileError::InvalidMetadata));
    assert_eq!(
        decode_stream("{\"suggested_name\":\"../evil\",\"meta\":null}"),
        Err(FileError::InvalidMetadata)
    );
    assert_eq!(
        decode_stream("{\"suggested_name\":null,\"meta\":}"),
        Err(FileError::InvalidMetadata)
    );
    assert_eq!(
        decode_stream("{\"suggested_name\":\"unclosed"),
        Err(FileError::InvalidMetadata)
    );
}

#[test]
fn header_round_trip_keeps_a_wellformed_record() {
    let m = FileMeta {
        suggested_name: Some("report.pdf".to_string()),
        meta: Some("{\"k\":[true,null]}".to_string()),
    };
    let (filename, metadata) = encode_header_form(&m);
    assert_eq!(filename.as_deref(), Some("report.pdf"));
    assert_eq!(metadata.as_deref(), Some("{\"k\":[true,null]}"));
    let back = decode_header_form(filename.as_deref(), metadata.as_deref());
    assert_eq!(back, m);
}

#[test]
fn header_decode_degrades_bad_metadata_to_none() {
    let m = decode_header_form(Some("report.pdf"), Some("not json"));
    assert_eq!(m.suggested_name.as_deref(), Some("report.pdf"));
    assert_eq!(m.meta, None);
    let m = decode_header_form(Some("report.pdf"), None);
    assert_eq!(m.meta, None);
    let m = decode_header_form(None, Some("null"));
    assert_eq!(m.suggested_name, None);
    assert_eq!(m.meta, None);
}

#[test]
fn metadata_constructor_normalizes() {
    let m = file_meta_new(Some("../evil"), Some("null"));
    assert_eq!(m.suggested_name, None);
    assert_eq!(m.meta, None);
    let m = file_meta_new(Some("fine.txt"), Some("42"));
    assert_eq!(m.suggested_name.as_deref(), Some("fine.txt"));
    assert_eq!(m.meta.as_deref(), Some("42"));
    let m = file_meta_new(None, Some(""));
    assert_eq!(m.meta, None);
}

#[test]
fn beam_id_parses_and_renders() {
    let id = parse_beam_id("app1.proxy1.broker.example.com").unwrap();
    assert_eq!(id.app, "app1");
    assert_eq!(id.proxy, "proxy1");
    assert_eq!(id.broker, "broker.example.com");
    assert_eq!(id.render(), "app1.proxy1.broker.example.com");
}

#[test]
fn beam_id_rejects_malformed_identifiers() {
    for bad in ["", "a", "a.b", ".b.c", "a..c", "a.b.", ".."] {
        match parse_beam_id(bad) {
            Err(FileError::InvalidBeamId) => {}
            other => panic!("{bad:?} gave {other:?}"),
        }
    }
    // The broker part is the raw remainder: it may begin with a dot.
    let id = parse_beam_id("a.b..c").unwrap();
    assert_eq!(id.broker, ".c");
}

#[test]
fn destination_combines_with_own_broker() {
    let own = parse_beam_id("a.proxy1.brokerX").unwrap();
    let d = compose_destination("b.proxy2", &own).unwrap();
    assert_eq!(d.render(), "b.proxy2.brokerX");
    let d = compose_destination("proxy9", &own).unwrap();
    assert_eq!(d.render(), "a.proxy9.brokerX");
    assert_eq!(
        compose_destination("", &own).unwrap_err(),
        FileError::InvalidDestination
    );
    assert_eq!(
        compose_destination("x.y.z", &own).unwrap_err(),
        FileError::InvalidDestination
    );
    assert_eq!(
        compose_destination(".y", &own).unwrap_err(),
        FileError::InvalidDestination
    );
}

#[test]
fn send_scenario_builds_destination_and_metadata() {
    let own = parse_beam_id("a.proxy1.brokerX").unwrap();
    let args = SendArgs {
        to: "b.proxy2".to_string(),
        file: "report.pdf".to_string(),
        name: None,
        meta: None,
    };
    let SendPlan { dest, metadata_text } = prepare_send(&args, &own).unwrap();
    assert_eq!(dest.render(), "b.proxy2.brokerX");
    assert_eq!(
        metadata_text,
        "{\"suggested_name\":\"report.pdf\",\"meta\":null}"
    );
}

#[test]
fn send_takes_the_base_name_and_skips_stdin() {
    let own = parse_beam_id("a.p.b").unwrap();
    let args = SendArgs {
        to: "q".to_string(),
        file: "/tmp/dir/data.bin".to_string(),
        name: None,
        meta: None,
    };
    let plan = prepare_send(&args, &own).unwrap();
    assert_eq!(
        plan.metadata_text,
        "{\"suggested_name\":\"data.bin\",\"meta\":null}"
    );
    let stdin_args = SendArgs {
        to: "q".to_string(),
        file: "-".to_string(),
        name: None,
        meta: Some("7".to_string()),
    };
    let plan = prepare_send(&stdin_args, &own).unwrap();
    assert_eq!(plan.metadata_text, "{\"suggested_name\":null,\"meta\":7}");
}

#[test]
fn send_name_override_wins_and_invalid_names_drop() {
    let args = SendArgs {
        to: "q".to_string(),
        file: "/tmp/a.txt".to_string(),
        name: Some("given.txt".to_string()),
        meta: None,
    };
    let m = args.to_file_meta();
    assert_eq!(m.suggested_name.as_deref(), Some("given.txt"));
    let args = SendArgs {
        to: "q".to_string(),
        file: "/tmp/has space.txt".to_string(),
        name: None,
        meta: None,
    };
    assert_eq!(args.to_file_meta().suggested_name, None);
}

#[test]
fn dispatch_print_never_reads_metadata() {
    let task = SocketTask {
        id: "t1".to_string(),
        from: "app1.proxy2.broker".to_string(),
        metadata: "garbage".to_string(),
    };
    match plan_dispatch(&ReceiveMode::Print, &task, 5).unwrap() {
        DispatchPlan::Print => {}
        other => panic!("expected a print plan, got {other:?}"),
    }
}

#[test]
fn dispatch_save_resolves_the_path() {
    let m = FileMeta {
        suggested_name: Some("report.pdf".to_string()),
        meta: None,
    };
    let task = SocketTask {
        id: "t1".to_string(),
        from: "app1.proxy2.broker".to_string(),
        metadata: encode_stream(&m),
    };
    let mode = ReceiveMode::Save {
        outdir: "/var/files".to_string(),
        naming: "%f_%t_%n".to_string(),
    };
    match plan_dispatch(&mode, &task, 1700000000).unwrap() {
        DispatchPlan::Save { path } => {
            assert_eq!(path, "/var/files/app1.proxy2_1700000000_report.pdf");
        }
        other => panic!("expected a save plan, got {other:?}"),
    }
}

#[test]
fn dispatch_save_rejects_bad_metadata_per_file() {
    let task = SocketTask {
        id: "t1".to_string(),
        from: "a.b.c".to_string(),
        metadata: "not an encoding".to_string(),
    };
    let mode = ReceiveMode::Save {
        outdir: "/var/files".to_string(),
        naming: "%f_%t".to_string(),
    };
    assert_eq!(
        plan_dispatch(&mode, &task, 1).unwrap_err(),
        FileError::InvalidMetadata
    );
}

#[test]
fn dispatch_callback_rebuilds_the_headers() {
    let m = FileMeta {
        suggested_name: Some("report.pdf".to_string()),
        meta: Some("{\"k\":1}".to_string()),
    };
    let task = SocketTask {
        id: "t1".to_string(),
        from: "a.b.c".to_string(),
        metadata: encode_stream(&m),
    };
    let mode = ReceiveMode::Callback { url: "http://cb.local/in".to_string() };
    match plan_dispatch(&mode, &task, 1).unwrap() {
        DispatchPlan::Forward { url, filename, metadata } => {
            assert_eq!(url, "http://cb.local/in");
            assert_eq!(filename.as_deref(), Some("report.pdf"));
            assert_eq!(metadata.as_deref(), Some("{\"k\":1}"));
        }
        other => panic!("expected a forward plan, got {other:?}"),
    }
}

#[test]
fn bounded_loop_counts_every_attempt_and_stops() {
    let outcomes = [
        PollOutcome::Delivered,
        PollOutcome::Empty,
        PollOutcome::Failed,
        PollOutcome::Empty,
        PollOutcome::Delivered,
        // Anything further must never be polled.
        PollOutcome::Delivered,
        PollOutcome::Failed,
    ];
    let mut lp = ReceiveLoop::new(3);
    let mut polls = 0usize;
    let mut attempts = 0usize;
    let mut it = outcomes.iter();
    while lp.wants_more() {
        let o = it.next().expect("loop polled beyond the offered events").clone();
        polls += 1;
        match lp.note(o) {
            LoopAction::Dispatch | LoopAction::Report => attempts += 1,
            LoopAction::Idle => {}
        }
    }
    assert_eq!(attempts, 3);
    assert_eq!(polls, 5);
    assert!(!lp.wants_more());
}

#[test]
fn bounded_loop_with_zero_never_polls() {
    let lp = ReceiveLoop::new(0);
    assert!(!lp.wants_more());
}

#[test]
fn tunnel_rejects_a_wrong_password_with_no_plan() {
    let own = parse_beam_id("a.proxy1.brokerX").unwrap();
    let r = plan_tunnel("secret", "wrong", "b.proxy2", None, None, &own);
    assert_eq!(r.unwrap_err(), TunnelReject::Unauthorized);
}

#[test]
fn tunnel_accepts_and_plans_the_outbound_stream() {
    let own = parse_beam_id("a.proxy1.brokerX").unwrap();
    let plan = plan_tunnel(
        "secret",
        "secret",
        "b.proxy2",
        Some("report.pdf"),
        Some("{\"k\":1}"),
        &own,
    )
    .unwrap();
    assert_eq!(plan.dest.render(), "b.proxy2.brokerX");
    assert_eq!(
        plan.metadata_text,
        "{\"suggested_name\":\"report.pdf\",\"meta\":{\"k\":1}}"
    );
}

#[test]
fn tunnel_degrades_bad_header_metadata_and_keeps_going() {
    let own = parse_beam_id("a.proxy1.brokerX").unwrap();
    let plan = plan_tunnel(
        "secret",
        "secret",
        "proxy2",
        None,
        Some("{broken"),
        &own,
    )
    .unwrap();
    assert_eq!(plan.dest.render(), "a.proxy2.brokerX");
    assert_eq!(plan.metadata_text, "{\"suggested_name\":null,\"meta\":null}");
}

#[test]
fn tunnel_rejects_a_fragment_that_does_not_combine() {
    let own = parse_beam_id("a.proxy1.brokerX").unwrap();
    let r = plan_tunnel("secret", "secret", "x.y.z", None, None, &own);
    assert_eq!(r.unwrap_err(), TunnelReject::BadDestination);
}

#[test]
fn origin_prefix_handles_odd_shapes() {
    assert_eq!(resolve("%f", "a..c", 1, None), "a.");
    assert_eq!(resolve("%f", ".x.y", 1, None), ".x");
    assert_eq!(resolve("%f", "", 1, None), "");
}

#[test]
fn replacement_is_left_to_right_and_non_overlapping() {
    assert_eq!(resolve("%t%t", "a.b.c", 7, None), "77");
    assert_eq!(resolve("%%t", "a.b.c", 7, None), "%7");
    assert_eq!(resolve("%", "a.b.c", 7, None), "%");
}

#[test]
fn stream_meta_null_text_normalizes_to_absent() {
    // A metadata value of `null` on the wire means no metadata.
    let d = decode_stream("{\"suggested_name\":null,\"meta\":null}").unwrap();
    assert_eq!(d, FileMeta { suggested_name: None, meta: None });
}

#[test]
fn config_carries_one_mode_with_its_own_fields() {
    let own = parse_beam_id("a.proxy1.brokerX").unwrap();
    let config = Config {
        beam_url: "http://beam-proxy:8081".to_string(),
        beam_secret: "SECRET-REDACTED".to_string(),
        beam_id: own,
        mode: Mode::Receive {
            mode: ReceiveMode::Save {
                outdir: "/var/files".to_string(),
                naming: "%f_%t".to_string(),
            },
            count: 4,
        },
    };
    match &config.mode {
        Mode::Receive { count, .. } => assert_eq!(*count, 4),
        other => panic!("expected the receive mode, got {other:?}"),
    }
    assert_eq!(config.beam_id.render(), "a.proxy1.brokerX");
}
