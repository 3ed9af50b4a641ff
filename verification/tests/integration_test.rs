use sa818::channel::Channel;
use sa818::channel::FreqConf;
use sa818::group_call::DcsSuffix;
use sa818::group_call::GroupSel;

#[test]
fn test_handshake() {
    //Handshake success
    let val = sa818::handshake("+DMOCONNECT:0\r\n");
    assert!(val.is_ok());
    //Handshake failure
    let val = sa818::handshake("+DMOCONNECT:1\r\n");
    assert!(val.is_err());
}

#[test]
fn write_channel_conf() {
    //Test default configuration
    let channel = Channel::default()
        .tx(FreqConf::new(4_339_250).unwrap())
        .rx(FreqConf::new(4_339_500).unwrap());
    let cmd = channel.generate_command().unwrap();
    //Default configuration is NBFM and no group selective.
    assert_eq!(cmd.command, "AT+DMOSETGROUP=1,433.9250,433.9500,0000,4,0000\r\n");
    let response = sa818::check_reply(&cmd.expected_response, "+DMOSETGROUP=0\r\n");
    assert!(response.is_ok());

    //Test ctcss setting
    let channel = Channel::default()
        .tx(FreqConf::with_group_sel(4_339_250, GroupSel::new_ctcss(15).unwrap()).unwrap())
        .rx(FreqConf::with_group_sel(4_339_500, GroupSel::new_ctcss(8).unwrap()).unwrap());
    let cmd = channel.generate_command().unwrap();
    assert_eq!(cmd.command, "AT+DMOSETGROUP=1,433.9250,433.9500,15,4,8\r\n");
    let response = sa818::check_reply(&cmd.expected_response, "+DMOSETGROUP=0\r\n");
    assert!(response.is_ok());

    //Test dcs setting
    let channel = Channel::default()
        .tx(
            FreqConf::with_group_sel(
                4_339_250,
                GroupSel::new_dcs(26, DcsSuffix::Normal).unwrap(),
            )
            .unwrap(),
        )
        .rx(
            FreqConf::with_group_sel(
                4_339_500,
                GroupSel::new_dcs(90, DcsSuffix::Inverted).unwrap(),
            )
            .unwrap(),
        );
    let cmd = channel.generate_command().unwrap();
    assert_eq!(cmd.command, "AT+DMOSETGROUP=1,433.9250,433.9500,26N,4,90I\r\n");
    let response = sa818::check_reply(&cmd.expected_response, "+DMOSETGROUP=0\r\n");
    assert!(response.is_ok());

    //failure
    let response = sa818::check_reply(&cmd.expected_response, "+DMOSETGROUP=1\r\n");
    assert!(response.is_err())
}

#[test]
fn test_get_version() {
    //Test success
    let version = sa818::get_version("+VERSION:SA818_V4.0\r\n");
    assert!(version.is_ok());
    assert_eq!(version.unwrap(), "SA818_V4.0");
    //Test failure
    let version = sa818::get_version("+INVALID:SA818_V4.0\r\n");
    assert!(version.is_err());
}

#[test]
fn test_get_rssi() {
    //Test success
    assert_eq!(sa818::rssi_request(), "RSSI?\r\n");
    let rssi = sa818::get_rssi("RSSI=128\r\n");
    assert!(rssi.is_ok());
    assert_eq!(rssi.unwrap(), 128);

    //Test failure
    let rssi = sa818::get_rssi("INVALID=128\r\n");
    assert!(rssi.is_err());

    //Test parsing failure
    let rssi = sa818::get_rssi("RSSI=abc\r\n");
    assert!(rssi.is_err());
}
