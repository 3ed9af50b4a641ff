//! The audio filter configuration: pre-emphasis, high-pass and low-pass,
//! each either in circuit or bypassed, and the command that programs all
//! three at once.

use vstd::prelude::*;
use vstd::string::StringExecFns;

use crate::channel::Command;
use crate::error::Sa818Error;

verus! {

/// One audio filter stage: in circuit or bypassed.
#[derive(Debug, Clone, Copy, PartialEq, Eq, Structural)]
pub enum FilterState {
    Normal,
    Bypass,
}

/// The command field of a filter stage: `0` in circuit, `1` bypassed.
pub open spec fn filter_code(s: FilterState) -> Seq<char> {
    match s {
        FilterState::Normal => seq!['0'],
        FilterState::Bypass => seq!['1'],
    }
}

impl FilterState {
    /// Renders the stage to its command field.
    fn to_command(&self) -> (r: String)
        ensures
            r@ == filter_code(*self),
    {
        let r = match self {
            FilterState::Normal => String::from_str("0"),
            FilterState::Bypass => String::from_str("1"),
        };
        proof {
            reveal_strlit("0");
            reveal_strlit("1");
            assert(r@ =~= filter_code(*self));
        }
        r
    }
}

/// The filter command line for the given stages:
/// `AT+SETFILTER=<preemphasis>,<highpass>,<lowpass>`.
pub open spec fn filter_command_text(c: FilterConfig) -> Seq<char> {
    "AT+SETFILTER="@ + filter_code(c.preemphasis) + seq![','] + filter_code(c.high_pass)
        + seq![','] + filter_code(c.low_pass)
}

/// The three filter stages of the module.
#[derive(Debug, Clone, Copy, PartialEq)]
pub struct FilterConfig {
    /// The pre-emphasis stage.
    pub preemphasis: FilterState,
    /// The high-pass stage.
    pub high_pass: FilterState,
    /// The low-pass stage.
    pub low_pass: FilterState,
}

impl FilterConfig {
    /// The starting configuration: every stage in circuit.
    pub fn default() -> (r: FilterConfig)
        ensures
            r.preemphasis is Normal,
            r.high_pass is Normal,
            r.low_pass is Normal,
    {
        FilterConfig {
            preemphasis: FilterState::Normal,
            high_pass: FilterState::Normal,
            low_pass: FilterState::Normal,
        }
    }

    /// Replaces the pre-emphasis stage, builder style.
    pub fn preemphasis(self, state: FilterState) -> (r: FilterConfig)
        ensures
            r.preemphasis == state,
            r.high_pass == self.high_pass,
            r.low_pass == self.low_pass,
    {
        FilterConfig { preemphasis: state, ..self }
    }

    /// Replaces the high-pass stage, builder style.
    pub fn high_pass(self, state: FilterState) -> (r: FilterConfig)
        ensures
            r.high_pass == state,
            r.preemphasis == self.preemphasis,
            r.low_pass == self.low_pass,
    {
        FilterConfig { high_pass: state, ..self }
    }

    /// Replaces the low-pass stage, builder style.
    pub fn low_pass(self, state: FilterState) -> (r: FilterConfig)
        ensures
            r.low_pass == state,
            r.preemphasis == self.preemphasis,
            r.high_pass == self.high_pass,
    {
        FilterConfig { low_pass: state, ..self }
    }

    /// Builds the filter programming command.
    pub fn generate_command(&self) -> (r: Result<Command, Sa818Error>)
        ensures
            r matches Ok(cmd) && cmd.command@ == filter_command_text(*self)
                && cmd.expected_response@ == "+DMOSETFILTER: 0"@,
    {
        let mut line = String::new();
        line.append("AT+SETFILTER=");
        let pre = self.preemphasis.to_command();
        line.append(pre.as_str());
        line.append(",");
        let hp = self.high_pass.to_command();
        line.append(hp.as_str());
        line.append(",");
        let lp = self.low_pass.to_command();
        line.append(lp.as_str());
        proof {
            reveal_strlit(",");
            assert(line@ =~= filter_command_text(*self));
        }
        Ok(Command { command: line, expected_response: String::from_str("+DMOSETFILTER: 0") })
    }
}

} // verus!
