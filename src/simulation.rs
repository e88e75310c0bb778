//! The decisions of the `eth_call` simulation backend: how a transaction is
//! presented to the node, how a gas estimate is read, and how per-transaction
//! outcomes add up to one result. The node round trips themselves are made by
//! the caller, which feeds each answer in.
use crate::access::SimResult;
use vstd::prelude::*;

verus! {

/// Gas counted for a transaction whose estimate is missing or unreadable.
pub const FALLBACK_GAS: u64 = 21_000;

/// The lowercase hexadecimal digit for `n < 16`.
pub open spec fn hex_digit(n: u8) -> char {
    if n < 10 {
        ((48 + n) as u8) as char
    } else {
        ((87 + n) as u8) as char
    }
}

/// Two lowercase hexadecimal digits per byte, most significant first.
pub open spec fn hex_of(bytes: Seq<u8>) -> Seq<char>
    decreases bytes.len(),
{
    if bytes.len() == 0 {
        Seq::empty()
    } else {
        hex_of(bytes.drop_last()) + seq![hex_digit(bytes.last() / 16), hex_digit(bytes.last() % 16)]
    }
}

/// A number in lowercase hexadecimal, without leading zeros (`0` for zero).
pub open spec fn hex_number(n: nat) -> Seq<char>
    decreases n,
{
    if n < 16 {
        seq![hex_digit(n as u8)]
    } else {
        hex_number(n / 16) + seq![hex_digit((n % 16) as u8)]
    }
}

/// The value of a hexadecimal digit of either case, or -1 for any other char.
pub open spec fn hex_digit_value(c: char) -> int {
    if '0' <= c && c <= '9' {
        c as int - '0' as int
    } else if 'a' <= c && c <= 'f' {
        c as int - 'a' as int + 10
    } else if 'A' <= c && c <= 'F' {
        c as int - 'A' as int + 10
    } else {
        -1
    }
}

/// The number that a string of hexadecimal digits denotes.
pub open spec fn hex_value(digits: Seq<char>) -> int
    decreases digits.len(),
{
    if digits.len() == 0 {
        0
    } else {
        16 * hex_value(digits.drop_last()) + hex_digit_value(digits.last())
    }
}

/// How a `u64` is read from hexadecimal text: an optional `+`, then one or
/// more hexadecimal digits whose value fits in 64 bits.
pub open spec fn hex_u64(s: Seq<char>) -> Option<u64> {
    let digits = if s.len() > 0 && s[0] == '+' {
        s.skip(1)
    } else {
        s
    };
    if digits.len() > 0 && (forall|i: int| 0 <= i < digits.len() ==> hex_digit_value(#[trigger] digits[i]) >= 0)
        && hex_value(digits) <= u64::MAX {
        Some(hex_value(digits) as u64)
    } else {
        None
    }
}

pub open spec fn has_hex_prefix(s: Seq<char>) -> bool {
    s.len() >= 2 && s[0] == '0' && s[1] == 'x'
}

/// The gas counted for one estimate: the hexadecimal number it holds, with or
/// without a `0x` prefix, or the fallback when it is absent or unreadable.
pub open spec fn gas_of_estimate(estimate: Option<Seq<char>>) -> u64 {
    match estimate {
        None => FALLBACK_GAS,
        Some(s) => {
            let digits = if has_hex_prefix(s) {
                s.skip(2)
            } else {
                s
            };
            match hex_u64(digits) {
                Some(g) => g,
                None => FALLBACK_GAS,
            }
        },
    }
}

/// Relies on `hex::encode`: two lowercase hexadecimal digits per byte, in order.
#[verifier::external_body]
fn encode_hex(bytes: &[u8]) -> (r: String)
    ensures
        r@ == hex_of(bytes@),
{
    hex::encode(bytes)
}

/// Relies on std's `LowerHex` formatting of `u64`: lowercase digits, no
/// leading zeros.
#[verifier::external_body]
fn lower_hex(n: u64) -> (r: String)
    ensures
        r@ == hex_number(n as nat),
{
    format!("{:x}", n)
}

/// Relies on std's `str::strip_prefix`: the rest of `s` after a leading `0x`,
/// if there is one.
#[verifier::external_body]
fn strip_hex_prefix(s: &str) -> (r: Option<&str>)
    ensures
        match r {
            Some(rest) => has_hex_prefix(s@) && rest@ == s@.skip(2),
            None => !has_hex_prefix(s@),
        },
{
    s.strip_prefix("0x")
}

/// Relies on std's `u64::from_str_radix` with radix 16, which accepts an
/// optional `+` and digits of either case, and fails on anything else or on
/// overflow.
#[verifier::external_body]
fn parse_hex_u64(s: &str) -> (r: Option<u64>)
    ensures
        r == hex_u64(s@),
{
    u64::from_str_radix(s, 16).ok()
}

/// The call target and the call data under which a raw transaction is
/// simulated: the zero address, and the transaction's bytes as `0x`-prefixed
/// hexadecimal.
pub fn decode_tx_for_call(raw_tx: &[u8]) -> (r: (String, String))
    ensures
        r.0@ == seq!['0', 'x'] + Seq::new(40, |i: int| '0'),
        r.1@ == seq!['0', 'x'] + hex_of(raw_tx@),
{
    let to = "0x0000000000000000000000000000000000000000".to_owned();
    proof {
        reveal_strlit("0x0000000000000000000000000000000000000000");
    }
    assert(to@ =~= seq!['0', 'x'] + Seq::new(40, |i: int| '0'));
    let mut data = "0x".to_owned();
    proof {
        reveal_strlit("0x");
    }
    let digits = encode_hex(raw_tx);
    data.append(digits.as_str());
    assert(data@ =~= seq!['0', 'x'] + hex_of(raw_tx@));
    (to, data)
}

/// The block parameter of a node call: `0x` and the block number in
/// lowercase hexadecimal.
pub fn block_param(target_block: u64) -> (r: String)
    ensures
        r@ == seq!['0', 'x'] + hex_number(target_block as nat),
{
    let mut s = "0x".to_owned();
    proof {
        reveal_strlit("0x");
    }
    let digits = lower_hex(target_block);
    s.append(digits.as_str());
    assert(s@ =~= seq!['0', 'x'] + hex_number(target_block as nat));
    s
}

/// The gas to count for one transaction, given the node's estimate as text
/// (`None` when the estimate call failed or did not answer with a string).
pub fn gas_from_estimate(estimate: Option<&str>) -> (r: u64)
    ensures
        r == gas_of_estimate(
            match estimate {
                Some(s) => Some(s@),
                None => None,
            },
        ),
{
    match estimate {
        None => FALLBACK_GAS,
        Some(s) => {
            let digits = match strip_hex_prefix(s) {
                Some(rest) => rest,
                None => s,
            };
            match parse_hex_u64(digits) {
                Some(g) => g,
                None => FALLBACK_GAS,
            }
        },
    }
}

/// The running result of simulating a bundle one transaction at a time. The
/// first failed call stops the tally; later reports are ignored.
pub struct SimulationTally {
    pub total_gas: u64,
    pub all_success: bool,
    pub revert_reason: String,
    pub stopped: bool,
}

impl SimulationTally {
    pub fn new() -> (r: Self)
        ensures
            r.total_gas == 0,
            r.all_success,
            r.revert_reason@.len() == 0,
            !r.stopped,
    {
        SimulationTally { total_gas: 0, all_success: true, revert_reason: String::new(), stopped: false }
    }

    /// A transaction's call succeeded and `gas` was counted for it. Gas adds
    /// up saturating at `u64::MAX`.
    pub fn record_success(&mut self, gas: u64)
        ensures
            old(self).stopped ==> *final(self) == *old(self),
            !old(self).stopped ==> {
                &&& final(self).total_gas == if old(self).total_gas + gas > u64::MAX {
                    u64::MAX as int
                } else {
                    old(self).total_gas + gas
                }
                &&& final(self).all_success == old(self).all_success
                &&& final(self).revert_reason == old(self).revert_reason
                &&& !final(self).stopped
            },
    {
        if self.stopped {
            return;
        }
        if self.total_gas > u64::MAX - gas {
            self.total_gas = u64::MAX;
        } else {
            self.total_gas = self.total_gas + gas;
        }
    }

    /// A transaction's call failed with `reason`: the bundle has failed, and
    /// no further transaction is to be simulated.
    pub fn record_failure(&mut self, reason: String)
        ensures
            old(self).stopped ==> *final(self) == *old(self),
            !old(self).stopped ==> {
                &&& final(self).total_gas == old(self).total_gas
                &&& !final(self).all_success
                &&& final(self).revert_reason == reason
                &&& final(self).stopped
            },
    {
        if self.stopped {
            return;
        }
        self.all_success = false;
        self.revert_reason = reason;
        self.stopped = true;
    }

    /// The result to report: the gas counted, whether every call succeeded,
    /// the first failure's reason, and no state root, which calls do not give.
    pub fn finish(self) -> (r: SimResult)
        ensures
            r.gas_used == self.total_gas,
            r.success == self.all_success,
            r.state_root@.len() == 0,
            r.revert_reason == self.revert_reason,
    {
        SimResult {
            gas_used: self.total_gas,
            success: self.all_success,
            state_root: Vec::new(),
            revert_reason: self.revert_reason,
        }
    }
}

} // verus!
