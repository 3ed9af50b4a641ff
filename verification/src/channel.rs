//! The channel configuration and its composite programming command.
//!
//! A carrier frequency is held in fixed point, as an integer count of
//! 0.0001 MHz steps (100 Hz), so `433.925 MHz` is the value `4_339_250`.
//! That is exactly the resolution of the wire format, which writes every
//! frequency with four fractional digits, so each legal wire frequency has
//! one representation and rendering is lossless.

use vstd::prelude::*;
use vstd::string::StringExecFns;

use crate::error::Sa818Error;
use crate::group_call::group_text;
use crate::group_call::GroupSel;
use crate::textnum::dec_rep;
use crate::textnum::digit_char;
use crate::textnum::digit_text;
use crate::textnum::push_dec;

verus! {

/// Whether `f`, counted in 0.0001 MHz steps, lies in one of the two legal
/// sub-bands: 134.0..=174.0 MHz or 400.0..=480.0 MHz.
pub open spec fn valid_frequency(f: int) -> bool {
    1_340_000 <= f <= 1_740_000 || 4_000_000 <= f <= 4_800_000
}

/// The wire text of a frequency: the whole megahertz in decimal, a point,
/// and exactly four fractional digits.
pub open spec fn freq_text(f: nat) -> Seq<char> {
    dec_rep(f / 10000) + seq!['.'] + seq![
        digit_char(((f / 1000) % 10) as nat),
        digit_char(((f / 100) % 10) as nat),
        digit_char(((f / 10) % 10) as nat),
        digit_char((f % 10) as nat),
    ]
}

/// The group field of the channel command: the selector's text, or the
/// literal `0000` sentinel when no selector is set.
pub open spec fn group_field_text(og: Option<GroupSel>) -> Seq<char> {
    match og {
        Some(g) => group_text(g),
        None => seq!['0', '0', '0', '0'],
    }
}

/// A validated carrier frequency with an optional group-call selector.
#[derive(Debug, Clone, Copy, PartialEq)]
pub struct FreqConf {
    /// The carrier frequency in 0.0001 MHz steps.
    pub frequency: u32,
    /// The group-call selector, if any.
    pub group_sel: Option<GroupSel>,
}

impl FreqConf {
    /// Builds a frequency configuration without a selector; the frequency
    /// must lie in one of the two legal sub-bands.
    pub fn new(frequency: u32) -> (r: Result<FreqConf, Sa818Error>)
        ensures
            valid_frequency(frequency as int) ==> (r matches Ok(c) && c.frequency == frequency
                && c.group_sel is None),
            !valid_frequency(frequency as int) ==> (r matches Err(e) && e is InvalidFrequency),
    {
        if (frequency < 1_340_000 || frequency > 1_740_000) && (frequency < 4_000_000 || frequency
            > 4_800_000) {
            return Err(Sa818Error::InvalidFrequency);
        }
        Ok(FreqConf { frequency, group_sel: None })
    }

    /// Builds a frequency configuration carrying the given selector.
    pub fn with_group_sel(frequency: u32, group_call: GroupSel) -> (r: Result<
        FreqConf,
        Sa818Error,
    >)
        ensures
            valid_frequency(frequency as int) ==> (r matches Ok(c) && c.frequency == frequency
                && c.group_sel == Some(group_call)),
            !valid_frequency(frequency as int) ==> (r matches Err(e) && e is InvalidFrequency),
    {
        let mut freq = FreqConf::new(frequency)?;
        freq.group_sel = Some(group_call);
        Ok(freq)
    }

    /// Builds a frequency configuration with a CTCSS selector; the frequency
    /// is checked first, then the tone index.
    pub fn with_ctcss(frequency: u32, code: u8) -> (r: Result<FreqConf, Sa818Error>)
        ensures
            valid_frequency(frequency as int) && 1 <= code <= 38 ==> (r matches Ok(c)
                && c.frequency == frequency && c.group_sel == Some(GroupSel::Ctcss(code))),
            !valid_frequency(frequency as int) ==> (r matches Err(e) && e is InvalidFrequency),
            valid_frequency(frequency as int) && !(1 <= code <= 38) ==> (r matches Err(e)
                && e is OutOfRange),
    {
        let mut freq = FreqConf::new(frequency)?;
        freq.group_sel = Some(GroupSel::new_ctcss(code)?);
        Ok(freq)
    }
}

/// The FM bandwidth of the channel.
#[derive(Debug, Clone, Copy, PartialEq, Eq, Structural)]
pub enum FmBandwidth {
    Wide,
    Narrow,
}

/// The bandwidth field of the channel command: `0` for wide, `1` for narrow.
pub open spec fn bandwidth_code(b: FmBandwidth) -> Seq<char> {
    match b {
        FmBandwidth::Wide => seq!['0'],
        FmBandwidth::Narrow => seq!['1'],
    }
}

impl FmBandwidth {
    /// A human-readable name of the bandwidth setting.
    pub fn label(&self) -> (r: &'static str)
        ensures
            *self is Wide ==> r@ == "WBFM:25k"@,
            *self is Narrow ==> r@ == "NBFM:12.5k"@,
    {
        match self {
            FmBandwidth::Wide => "WBFM:25k",
            FmBandwidth::Narrow => "NBFM:12.5k",
        }
    }
}

/// A request line paired with the reply that signals success.
#[derive(Debug, Clone)]
pub struct Command {
    /// The full request line, terminator included.
    pub command: String,
    /// The exact trimmed reply that acknowledges the request.
    pub expected_response: String,
}

/// The full channel programming command line for the given settings:
/// `AT+DMOSETGROUP=<bw>,<txf>,<rxf>,<txg>,<sq>,<rxg>` with a CRLF
/// terminator.  The device parses positionally, so the field order and the
/// `0000` sentinel are part of the wire contract.
pub open spec fn channel_command_text(
    bw: FmBandwidth,
    tx: FreqConf,
    rx: FreqConf,
    squelch: u8,
) -> Seq<char> {
    "AT+DMOSETGROUP="@ + bandwidth_code(bw) + seq![','] + freq_text(tx.frequency as nat) + seq![',']
        + freq_text(rx.frequency as nat) + seq![','] + group_field_text(tx.group_sel) + seq![',']
        + dec_rep(squelch as nat) + seq![','] + group_field_text(rx.group_sel) + "\r\n"@
}

/// Appends the wire text of the frequency `f` to `out`.
fn push_freq(f: u32, out: &mut String)
    ensures
        final(out)@ == old(out)@ + freq_text(f as nat),
{
    push_dec(f / 10000, out);
    out.append(".");
    out.append(digit_text((f / 1000) % 10));
    out.append(digit_text((f / 100) % 10));
    out.append(digit_text((f / 10) % 10));
    out.append(digit_text(f % 10));
    proof {
        reveal_strlit(".");
        assert(out@ =~= old(out)@ + freq_text(f as nat));
    }
}

/// Appends the group field of `og` to `out`.
fn push_group_field(og: &Option<GroupSel>, out: &mut String)
    ensures
        final(out)@ == old(out)@ + group_field_text(*og),
{
    match og {
        Some(g) => {
            let t = g.render();
            out.append(t.as_str());
        },
        None => {
            out.append("0000");
            proof {
                reveal_strlit("0000");
                assert(out@ =~= old(out)@ + group_field_text(*og));
            }
        },
    }
}

/// A full radio channel: bandwidth, squelch level, and the two frequency
/// configurations.  Built incrementally, so the frequencies may still be
/// absent; generating the command demands both.
#[derive(Debug, Clone, PartialEq)]
pub struct Channel {
    /// The FM bandwidth; narrow by default.
    pub bandwidth: FmBandwidth,
    /// The transmit frequency configuration, once set.
    pub tx_conf: Option<FreqConf>,
    /// The receive frequency configuration, once set.
    pub rx_conf: Option<FreqConf>,
    /// The squelch level, 0..=8; 4 by default.
    pub squelch: u8,
}

impl Channel {
    /// The starting configuration: narrow bandwidth, squelch 4, no
    /// frequencies yet.
    pub fn default() -> (r: Channel)
        ensures
            r.bandwidth is Narrow,
            r.tx_conf is None,
            r.rx_conf is None,
            r.squelch == 4,
    {
        Channel { bandwidth: FmBandwidth::Narrow, tx_conf: None, rx_conf: None, squelch: 4 }
    }

    /// Sets the transmit frequency configuration.
    pub fn set_tx(&mut self, fq: FreqConf)
        ensures
            final(self).tx_conf == Some(fq),
            final(self).rx_conf == old(self).rx_conf,
            final(self).bandwidth == old(self).bandwidth,
            final(self).squelch == old(self).squelch,
    {
        self.tx_conf = Some(fq);
    }

    /// Sets the receive frequency configuration.
    pub fn set_rx(&mut self, fq: FreqConf)
        ensures
            final(self).rx_conf == Some(fq),
            final(self).tx_conf == old(self).tx_conf,
            final(self).bandwidth == old(self).bandwidth,
            final(self).squelch == old(self).squelch,
    {
        self.rx_conf = Some(fq);
    }

    /// Replaces the bandwidth, builder style.
    pub fn bandwidth(self, bandwidth: FmBandwidth) -> (r: Channel)
        ensures
            r.bandwidth == bandwidth,
            r.tx_conf == self.tx_conf,
            r.rx_conf == self.rx_conf,
            r.squelch == self.squelch,
    {
        Channel { bandwidth, ..self }
    }

    /// Replaces the squelch level, builder style; levels above 8 are
    /// rejected.
    pub fn squelch(self, squelch: u8) -> (r: Result<Channel, Sa818Error>)
        ensures
            squelch <= 8 ==> (r matches Ok(c) && c.squelch == squelch && c.bandwidth
                == self.bandwidth && c.tx_conf == self.tx_conf && c.rx_conf == self.rx_conf),
            squelch > 8 ==> (r matches Err(e) && e is InvalidSquelch),
    {
        if squelch > 8 {
            return Err(Sa818Error::InvalidSquelch);
        }
        Ok(Channel { squelch, ..self })
    }

    /// Replaces the transmit frequency configuration, builder style.
    pub fn tx(self, tx_conf: FreqConf) -> (r: Channel)
        ensures
            r.tx_conf == Some(tx_conf),
            r.rx_conf == self.rx_conf,
            r.bandwidth == self.bandwidth,
            r.squelch == self.squelch,
    {
        Channel { tx_conf: Some(tx_conf), ..self }
    }

    /// Replaces the receive frequency configuration, builder style.
    pub fn rx(self, rx_conf: FreqConf) -> (r: Channel)
        ensures
            r.rx_conf == Some(rx_conf),
            r.tx_conf == self.tx_conf,
            r.bandwidth == self.bandwidth,
            r.squelch == self.squelch,
    {
        Channel { rx_conf: Some(rx_conf), ..self }
    }

    /// Builds the channel programming command.  Both frequency
    /// configurations must have been set: a missing transmit frequency is
    /// reported first, then a missing receive frequency.
    pub fn generate_command(&self) -> (r: Result<Command, Sa818Error>)
        ensures
            self.tx_conf is Some && self.rx_conf is Some ==> (r matches Ok(cmd) && cmd.command@
                == channel_command_text(
                self.bandwidth,
                self.tx_conf->0,
                self.rx_conf->0,
                self.squelch,
            ) && cmd.expected_response@ == "+DMOSETGROUP=0"@),
            self.tx_conf is None ==> (r matches Err(e) && e is MissingTx),
            self.tx_conf is Some && self.rx_conf is None ==> (r matches Err(e) && e is MissingRx),
    {
        let tx = match &self.tx_conf {
            Some(tx) => tx,
            None => {
                return Err(Sa818Error::MissingTx);
            },
        };
        let rx = match &self.rx_conf {
            Some(rx) => rx,
            None => {
                return Err(Sa818Error::MissingRx);
            },
        };
        let mut line = String::new();
        line.append("AT+DMOSETGROUP=");
        match self.bandwidth {
            FmBandwidth::Wide => line.append("0"),
            FmBandwidth::Narrow => line.append("1"),
        }
        line.append(",");
        push_freq(tx.frequency, &mut line);
        line.append(",");
        push_freq(rx.frequency, &mut line);
        line.append(",");
        push_group_field(&tx.group_sel, &mut line);
        line.append(",");
        push_dec(self.squelch as u32, &mut line);
        line.append(",");
        push_group_field(&rx.group_sel, &mut line);
        line.append("\r\n");
        proof {
            reveal_strlit("0");
            reveal_strlit("1");
            reveal_strlit(",");
            assert(line@ =~= channel_command_text(self.bandwidth, *tx, *rx, self.squelch));
        }
        Ok(
            Command {
                command: line,
                expected_response: String::from_str("+DMOSETGROUP=0"),
            },
        )
    }
}

} // verus!
