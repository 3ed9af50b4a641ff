//! Group-call selectors: a CTCSS tone index or a DCS code with its suffix.
//!
//! A selector renders to the compact text the module expects in the channel
//! command: the bare decimal code for CTCSS, the decimal code followed by
//! `N` (normal) or `I` (inverted) for DCS.  Code ranges are checked at
//! construction; an out-of-range code is a construction error, never a
//! silently clamped value.

use vstd::prelude::*;
use vstd::string::StrSliceExecFns;
use vstd::string::StringExecFns;

use crate::error::Sa818Error;
use crate::text::str_eq_text;
use crate::textnum::all_dec_digits;
use crate::textnum::dec_rep;
use crate::textnum::dec_val;
use crate::textnum::lemma_dec_rep_val;
use crate::textnum::numeral_val;
use crate::textnum::parse_u32_text;
use crate::textnum::parses_as_u32;
use crate::textnum::u32_to_text;

verus! {

/// The polarity of a DCS code.
#[derive(Debug, Clone, Copy, PartialEq, Eq, Structural)]
pub enum DcsSuffix {
    Inverted,
    Normal,
}

/// A group-call selector: a CTCSS tone index (1..=38) or a DCS code
/// (23..=754) with its suffix.
#[derive(Debug, Clone, Copy, PartialEq, Eq, Structural)]
pub enum GroupSel {
    Ctcss(u8),
    Dcs(u32, DcsSuffix),
}

/// The selector's text on the wire: the decimal CTCSS code, or the decimal
/// DCS code followed by `N` or `I`.
pub open spec fn group_text(g: GroupSel) -> Seq<char> {
    match g {
        GroupSel::Ctcss(code) => dec_rep(code as nat),
        GroupSel::Dcs(code, DcsSuffix::Normal) => dec_rep(code as nat) + seq!['N'],
        GroupSel::Dcs(code, DcsSuffix::Inverted) => dec_rep(code as nat) + seq!['I'],
    }
}

/// What `parse_dcs` makes of a text: the numeric prefix is read first, then
/// the suffix character, then the code range is enforced.
pub open spec fn parse_dcs_spec(v: Seq<char>) -> Result<GroupSel, Sa818Error> {
    if v.len() == 0 {
        Err(Sa818Error::EmptyInput)
    } else if !parses_as_u32(v.drop_last()) {
        Err(Sa818Error::MalformedNumber)
    } else {
        let code = numeral_val(v.drop_last());
        if v.last() == 'N' {
            if 23 <= code <= 754 {
                Ok(GroupSel::Dcs(code as u32, DcsSuffix::Normal))
            } else {
                Err(Sa818Error::OutOfRange)
            }
        } else if v.last() == 'I' {
            if 23 <= code <= 754 {
                Ok(GroupSel::Dcs(code as u32, DcsSuffix::Inverted))
            } else {
                Err(Sa818Error::OutOfRange)
            }
        } else {
            Err(Sa818Error::MalformedSuffix)
        }
    }
}

impl GroupSel {
    /// Builds a DCS selector; the code must lie in 23..=754.
    pub fn new_dcs(code: u32, suffix: DcsSuffix) -> (r: Result<GroupSel, Sa818Error>)
        ensures
            23 <= code <= 754 ==> r == Ok::<GroupSel, Sa818Error>(GroupSel::Dcs(code, suffix)),
            !(23 <= code <= 754) ==> r == Err::<GroupSel, Sa818Error>(Sa818Error::OutOfRange),
    {
        if code < 23 || code > 754 {
            return Err(Sa818Error::OutOfRange);
        }
        Ok(GroupSel::Dcs(code, suffix))
    }

    /// Builds a CTCSS selector; the tone index must lie in 1..=38.
    pub fn new_ctcss(code: u8) -> (r: Result<GroupSel, Sa818Error>)
        ensures
            1 <= code <= 38 ==> r == Ok::<GroupSel, Sa818Error>(GroupSel::Ctcss(code)),
            !(1 <= code <= 38) ==> r == Err::<GroupSel, Sa818Error>(Sa818Error::OutOfRange),
    {
        if code == 0 || code > 38 {
            return Err(Sa818Error::OutOfRange);
        }
        Ok(GroupSel::Ctcss(code))
    }

    /// Renders the selector to its wire text.
    pub fn render(&self) -> (s: String)
        ensures
            s@ == group_text(*self),
    {
        match self {
            GroupSel::Ctcss(code) => u32_to_text(*code as u32),
            GroupSel::Dcs(code, suffix) => {
                let mut s = u32_to_text(*code);
                match suffix {
                    DcsSuffix::Normal => {
                        s.append("N");
                        proof {
                            reveal_strlit("N");
                            assert(s@ =~= group_text(*self));
                        }
                    },
                    DcsSuffix::Inverted => {
                        s.append("I");
                        proof {
                            reveal_strlit("I");
                            assert(s@ =~= group_text(*self));
                        }
                    },
                }
                s
            },
        }
    }
}

/// Reads a DCS selector from text: a decimal code followed by `N` or `I`.
pub fn parse_dcs(dcs_string: String) -> (r: Result<GroupSel, Sa818Error>)
    ensures
        r == parse_dcs_spec(dcs_string@),
{
    let s = dcs_string.as_str();
    let n = s.unicode_len();
    if n == 0 {
        return Err(Sa818Error::EmptyInput);
    }
    let last = s.get_char(n - 1);
    let prefix = s.substring_char(0, n - 1);
    proof {
        assert(prefix@ =~= dcs_string@.drop_last());
    }
    match parse_u32_text(prefix) {
        None => Err(Sa818Error::MalformedNumber),
        Some(code) => {
            if last == 'N' {
                GroupSel::new_dcs(code, DcsSuffix::Normal)
            } else if last == 'I' {
                GroupSel::new_dcs(code, DcsSuffix::Inverted)
            } else {
                Err(Sa818Error::MalformedSuffix)
            }
        },
    }
}

/// The fixed CTCSS tone table: entry `i` is the tone frequency text whose
/// code is `i`.  Entry 0 is the reserved "no tone" value; entries 1..=38 are
/// the standard tones in ascending order, 67.0 Hz to 250.3 Hz.
pub open spec fn ctcss_text(i: int) -> Seq<char> {
    if i == 0 {
        "0"@
    } else if i == 1 {
        "67.0"@
    } else if i == 2 {
        "71.9"@
    } else if i == 3 {
        "74.4"@
    } else if i == 4 {
        "77.0"@
    } else if i == 5 {
        "79.7"@
    } else if i == 6 {
        "82.5"@
    } else if i == 7 {
        "85.4"@
    } else if i == 8 {
        "88.5"@
    } else if i == 9 {
        "91.5"@
    } else if i == 10 {
        "94.8"@
    } else if i == 11 {
        "97.4"@
    } else if i == 12 {
        "100.0"@
    } else if i == 13 {
        "103.5"@
    } else if i == 14 {
        "107.2"@
    } else if i == 15 {
        "110.9"@
    } else if i == 16 {
        "114.8"@
    } else if i == 17 {
        "118.8"@
    } else if i == 18 {
        "123.0"@
    } else if i == 19 {
        "127.3"@
    } else if i == 20 {
        "131.8"@
    } else if i == 21 {
        "136.5"@
    } else if i == 22 {
        "141.3"@
    } else if i == 23 {
        "146.2"@
    } else if i == 24 {
        "151.4"@
    } else if i == 25 {
        "156.7"@
    } else if i == 26 {
        "162.2"@
    } else if i == 27 {
        "167.9"@
    } else if i == 28 {
        "173.8"@
    } else if i == 29 {
        "179.9"@
    } else if i == 30 {
        "186.2"@
    } else if i == 31 {
        "192.8"@
    } else if i == 32 {
        "203.5"@
    } else if i == 33 {
        "210.7"@
    } else if i == 34 {
        "218.1"@
    } else if i == 35 {
        "225.7"@
    } else if i == 36 {
        "233.6"@
    } else if i == 37 {
        "241.8"@
    } else {
        "250.3"@
    }
}

/// The table entry for index `i`.
fn ctcss_entry(i: usize) -> (r: &'static str)
    requires
        i < 39,
    ensures
        r@ == ctcss_text(i as int),
{
    if i == 0 {
        "0"
    } else if i == 1 {
        "67.0"
    } else if i == 2 {
        "71.9"
    } else if i == 3 {
        "74.4"
    } else if i == 4 {
        "77.0"
    } else if i == 5 {
        "79.7"
    } else if i == 6 {
        "82.5"
    } else if i == 7 {
        "85.4"
    } else if i == 8 {
        "88.5"
    } else if i == 9 {
        "91.5"
    } else if i == 10 {
        "94.8"
    } else if i == 11 {
        "97.4"
    } else if i == 12 {
        "100.0"
    } else if i == 13 {
        "103.5"
    } else if i == 14 {
        "107.2"
    } else if i == 15 {
        "110.9"
    } else if i == 16 {
        "114.8"
    } else if i == 17 {
        "118.8"
    } else if i == 18 {
        "123.0"
    } else if i == 19 {
        "127.3"
    } else if i == 20 {
        "131.8"
    } else if i == 21 {
        "136.5"
    } else if i == 22 {
        "141.3"
    } else if i == 23 {
        "146.2"
    } else if i == 24 {
        "151.4"
    } else if i == 25 {
        "156.7"
    } else if i == 26 {
        "162.2"
    } else if i == 27 {
        "167.9"
    } else if i == 28 {
        "173.8"
    } else if i == 29 {
        "179.9"
    } else if i == 30 {
        "186.2"
    } else if i == 31 {
        "192.8"
    } else if i == 32 {
        "203.5"
    } else if i == 33 {
        "210.7"
    } else if i == 34 {
        "218.1"
    } else if i == 35 {
        "225.7"
    } else if i == 36 {
        "233.6"
    } else if i == 37 {
        "241.8"
    } else {
        "250.3"
    }
}

/// The first table index whose text is `v`, looking from `i` up; 39 when no
/// entry from `i` on matches.
pub open spec fn ctcss_index_from(v: Seq<char>, i: int) -> int
    decreases 39 - i,
{
    if i < 0 || i >= 39 {
        39
    } else if ctcss_text(i) == v {
        i
    } else {
        ctcss_index_from(v, i + 1)
    }
}

/// What `parse_ctcss` makes of a tone text: the code of the first matching
/// table entry, or `UnknownTone` when no entry matches.
pub open spec fn parse_ctcss_spec(v: Seq<char>) -> Result<GroupSel, Sa818Error> {
    let i = ctcss_index_from(v, 0);
    if i < 39 {
        Ok(GroupSel::Ctcss(i as u8))
    } else {
        Err(Sa818Error::UnknownTone)
    }
}

proof fn lemma_ctcss_index_at(v: Seq<char>, from: int, i: int)
    requires
        0 <= from <= i <= 39,
        forall|k: int| from <= k < i ==> #[trigger] ctcss_text(k) != v,
        i == 39 || ctcss_text(i) == v,
    ensures
        ctcss_index_from(v, from) == i,
    decreases i - from,
{
    if from < i {
        lemma_ctcss_index_at(v, from + 1, i);
    }
}

/// Looks a tone frequency text up in the CTCSS table, e.g. `"100.0"`, and
/// returns the selector carrying its code.
pub fn parse_ctcss(ctcss: &String) -> (r: Result<GroupSel, Sa818Error>)
    ensures
        r == parse_ctcss_spec(ctcss@),
{
    let mut i: usize = 0;
    while i < 39
        invariant
            0 <= i <= 39,
            forall|k: int| 0 <= k < i ==> #[trigger] ctcss_text(k) != ctcss@,
        decreases 39 - i,
    {
        if str_eq_text(ctcss.as_str(), ctcss_entry(i)) {
            proof {
                lemma_ctcss_index_at(ctcss@, 0, i as int);
            }
            return Ok(GroupSel::Ctcss(i as u8));
        }
        i = i + 1;
    }
    proof {
        lemma_ctcss_index_at(ctcss@, 0, 39);
    }
    Err(Sa818Error::UnknownTone)
}

/// Rendering a DCS selector and parsing the text back yields the selector
/// again, for every legal code and either suffix.
pub proof fn lemma_dcs_round_trip(code: u32, suffix: DcsSuffix)
    requires
        23 <= code <= 754,
    ensures
        parse_dcs_spec(group_text(GroupSel::Dcs(code, suffix))) == Ok::<GroupSel, Sa818Error>(
            GroupSel::Dcs(code, suffix),
        ),
{
    let v = group_text(GroupSel::Dcs(code, suffix));
    lemma_dec_rep_val(code as nat);
    match suffix {
        DcsSuffix::Normal => {
            assert(v.drop_last() =~= dec_rep(code as nat));
            assert(v.last() == 'N');
        },
        DcsSuffix::Inverted => {
            assert(v.drop_last() =~= dec_rep(code as nat));
            assert(v.last() == 'I');
        },
    }
}

/// The CTCSS code rendered for a legal tone index is exactly the decimal
/// numeral of the index: nothing but digits, and reading it back gives the
/// index again.
pub proof fn lemma_ctcss_render_exact(code: u8)
    requires
        1 <= code <= 38,
    ensures
        group_text(GroupSel::Ctcss(code)) == dec_rep(code as nat),
        all_dec_digits(group_text(GroupSel::Ctcss(code))),
        dec_val(group_text(GroupSel::Ctcss(code))) == code,
{
    lemma_dec_rep_val(code as nat);
}

} // verus!
