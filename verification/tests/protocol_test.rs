use sa818::error::Sa818Error;
use sa818::filter_config::FilterConfig;
use sa818::filter_config::FilterState;

#[test]
fn request_lines_are_the_wire_literals() {
    assert_eq!(sa818::handshake_request(), "AT+DMOCONNECT\r\n");
    assert_eq!(sa818::version_request(), "AT+VERSION\r\n");
    assert_eq!(sa818::rssi_request(), "RSSI?\r\n");
}

#[test]
fn handshake_trims_the_reply_before_matching() {
    assert!(sa818::handshake("  +DMOCONNECT:0 \r\n").is_ok());
    assert!(sa818::handshake("+DMOCONNECT:0").is_ok());
    let reply = sa818::handshake("+DMOCONNECT:0 extra\r\n");
    match reply {
        Err(Sa818Error::UnexpectedReply(raw)) => assert_eq!(raw, "+DMOCONNECT:0 extra\r\n"),
        other => panic!("expected UnexpectedReply, got {:?}", other),
    }
}

#[test]
fn version_reply_without_a_colon_is_rejected() {
    assert!(matches!(
        sa818::get_version("+VERSION\r\n"),
        Err(Sa818Error::UnexpectedReply(_))
    ));
}

#[test]
fn version_reply_keeps_only_the_second_token() {
    assert_eq!(sa818::get_version("+VERSION:SA818:rest\r\n").unwrap(), "SA818");
    assert_eq!(sa818::get_version("+VERSION:\r\n").unwrap(), "");
}

#[test]
fn rssi_values_at_the_byte_edges_parse() {
    assert_eq!(sa818::get_rssi("RSSI=0\r\n").unwrap(), 0);
    assert_eq!(sa818::get_rssi("RSSI=255\r\n").unwrap(), 255);
    assert_eq!(sa818::get_rssi("RSSI=007\r\n").unwrap(), 7);
}

#[test]
fn rssi_values_beyond_a_byte_are_malformed() {
    assert!(matches!(sa818::get_rssi("RSSI=256\r\n"), Err(Sa818Error::MalformedNumber)));
    assert!(matches!(sa818::get_rssi("RSSI=4294967295\r\n"), Err(Sa818Error::MalformedNumber)));
    assert!(matches!(sa818::get_rssi("RSSI=99999999999\r\n"), Err(Sa818Error::MalformedNumber)));
    assert!(matches!(sa818::get_rssi("RSSI=\r\n"), Err(Sa818Error::MalformedNumber)));
    assert!(matches!(sa818::get_rssi("RSSI=-1\r\n"), Err(Sa818Error::MalformedNumber)));
}

#[test]
fn rssi_prefix_matching_is_case_sensitive() {
    assert!(matches!(sa818::get_rssi("rssi=128\r\n"), Err(Sa818Error::UnexpectedReply(_))));
    assert!(matches!(sa818::get_rssi("128\r\n"), Err(Sa818Error::UnexpectedReply(_))));
}

#[test]
fn error_acknowledgement_is_rejected_by_every_exchange() {
    let reply = "+DMOSETGROUP=1\r\n";
    assert!(matches!(
        sa818::check_reply("+DMOSETGROUP=0", reply),
        Err(Sa818Error::UnexpectedReply(_))
    ));
    assert!(matches!(sa818::handshake(reply), Err(Sa818Error::UnexpectedReply(_))));
    assert!(matches!(sa818::get_version(reply), Err(Sa818Error::UnexpectedReply(_))));
    assert!(matches!(sa818::get_rssi(reply), Err(Sa818Error::UnexpectedReply(_))));
}

#[test]
fn filter_command_renders_every_stage() {
    let cmd = FilterConfig::default().generate_command().unwrap();
    assert_eq!(cmd.command, "AT+SETFILTER=0,0,0");
    assert_eq!(cmd.expected_response, "+DMOSETFILTER: 0");

    let cmd = FilterConfig::default()
        .preemphasis(FilterState::Bypass)
        .low_pass(FilterState::Bypass)
        .generate_command()
        .unwrap();
    assert_eq!(cmd.command, "AT+SETFILTER=1,0,1");

    let cmd = FilterConfig::default()
        .high_pass(FilterState::Bypass)
        .generate_command()
        .unwrap();
    assert_eq!(cmd.command, "AT+SETFILTER=0,1,0");
}

#[test]
fn rssi_numerals_may_carry_a_leading_plus() {
    assert_eq!(sa818::get_rssi("RSSI=+128\r\n").unwrap(), 128);
    assert!(matches!(sa818::get_rssi("RSSI=+\r\n"), Err(Sa818Error::MalformedNumber)));
}
