use sa818::channel::Channel;
use sa818::channel::FmBandwidth;
use sa818::channel::FreqConf;
use sa818::error::Sa818Error;
use sa818::group_call::GroupSel;

#[test]
fn frequencies_inside_the_two_sub_bands_are_accepted() {
    // Band edges, in 0.0001 MHz steps: 134.0, 174.0, 400.0, 480.0 MHz.
    for f in [1_340_000, 1_500_000, 1_740_000, 4_000_000, 4_339_250, 4_800_000] {
        let conf = FreqConf::new(f).unwrap();
        assert_eq!(conf.frequency, f);
        assert!(conf.group_sel.is_none());
    }
}

#[test]
fn frequencies_outside_both_sub_bands_are_rejected() {
    for f in [0, 1_339_999, 1_740_001, 3_999_999, 4_800_001, u32::MAX] {
        assert!(matches!(FreqConf::new(f), Err(Sa818Error::InvalidFrequency)));
    }
}

#[test]
fn with_group_sel_attaches_the_selector() {
    let sel = GroupSel::new_ctcss(8).unwrap();
    let conf = FreqConf::with_group_sel(4_339_500, sel).unwrap();
    assert_eq!(conf.frequency, 4_339_500);
    assert_eq!(conf.group_sel, Some(sel));
    assert!(matches!(
        FreqConf::with_group_sel(1_000, sel),
        Err(Sa818Error::InvalidFrequency)
    ));
}

#[test]
fn with_ctcss_checks_the_frequency_before_the_tone() {
    let conf = FreqConf::with_ctcss(1_340_000, 38).unwrap();
    assert_eq!(conf.group_sel, Some(GroupSel::Ctcss(38)));
    assert!(matches!(FreqConf::with_ctcss(1_000, 38), Err(Sa818Error::InvalidFrequency)));
    assert!(matches!(FreqConf::with_ctcss(1_000, 39), Err(Sa818Error::InvalidFrequency)));
    assert!(matches!(FreqConf::with_ctcss(1_340_000, 39), Err(Sa818Error::OutOfRange)));
    assert!(matches!(FreqConf::with_ctcss(1_340_000, 0), Err(Sa818Error::OutOfRange)));
}

#[test]
fn default_channel_is_narrow_with_squelch_four() {
    let chan = Channel::default();
    assert_eq!(chan.bandwidth, FmBandwidth::Narrow);
    assert_eq!(chan.squelch, 4);
    assert!(chan.tx_conf.is_none());
    assert!(chan.rx_conf.is_none());
}

#[test]
fn squelch_levels_above_eight_are_rejected() {
    assert!(matches!(Channel::default().squelch(9), Err(Sa818Error::InvalidSquelch)));
    assert!(matches!(Channel::default().squelch(255), Err(Sa818Error::InvalidSquelch)));
    let chan = Channel::default().squelch(0).unwrap();
    assert_eq!(chan.squelch, 0);
    let chan = Channel::default().squelch(8).unwrap();
    assert_eq!(chan.squelch, 8);
}

#[test]
fn generating_without_tx_fails_with_missing_tx() {
    let chan = Channel::default();
    assert!(matches!(chan.generate_command(), Err(Sa818Error::MissingTx)));
    let chan = Channel::default().rx(FreqConf::new(4_339_500).unwrap());
    assert!(matches!(chan.generate_command(), Err(Sa818Error::MissingTx)));
}

#[test]
fn generating_with_only_tx_fails_with_missing_rx() {
    let chan = Channel::default().tx(FreqConf::new(4_339_250).unwrap());
    assert!(matches!(chan.generate_command(), Err(Sa818Error::MissingRx)));
}

#[test]
fn wide_bandwidth_and_squelch_render_into_the_command() {
    let chan = Channel::default()
        .bandwidth(FmBandwidth::Wide)
        .squelch(7)
        .unwrap()
        .tx(FreqConf::new(1_453_300).unwrap())
        .rx(FreqConf::new(1_453_300).unwrap());
    let cmd = chan.generate_command().unwrap();
    assert_eq!(cmd.command, "AT+DMOSETGROUP=0,145.3300,145.3300,0000,7,0000\r\n");
    assert_eq!(cmd.expected_response, "+DMOSETGROUP=0");
}

#[test]
fn frequencies_render_with_exactly_four_fractional_digits() {
    // 173.3 MHz carries trailing zeros; 400.0001 MHz needs leading zeros.
    let chan = Channel::default()
        .tx(FreqConf::new(1_733_000).unwrap())
        .rx(FreqConf::new(4_000_001).unwrap());
    let cmd = chan.generate_command().unwrap();
    assert_eq!(cmd.command, "AT+DMOSETGROUP=1,173.3000,400.0001,0000,4,0000\r\n");
}

#[test]
fn set_tx_and_set_rx_update_one_side_each() {
    let mut chan = Channel::default();
    chan.set_tx(FreqConf::new(4_339_250).unwrap());
    assert!(matches!(chan.generate_command(), Err(Sa818Error::MissingRx)));
    chan.set_rx(FreqConf::new(4_339_500).unwrap());
    let cmd = chan.generate_command().unwrap();
    assert_eq!(cmd.command, "AT+DMOSETGROUP=1,433.9250,433.9500,0000,4,0000\r\n");
}

#[test]
fn bandwidth_labels_name_the_fm_modes() {
    assert_eq!(FmBandwidth::Wide.label(), "WBFM:25k");
    assert_eq!(FmBandwidth::Narrow.label(), "NBFM:12.5k");
}
