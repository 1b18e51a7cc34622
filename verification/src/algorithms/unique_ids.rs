//! The unique-id node. An id packs three parts into 64 bits: the leading
//! digits of the time since the node's epoch, the number in the node's name,
//! and a count of the ids given, modulo 1024.

use vstd::prelude::*;
use vstd::string::*;
use crate::errors::{ErrorMsg, ErrorType};
use crate::rpc::InitMsgIn;
use crate::rpc::InitMsgOut;
use crate::rpc::unique_ids::{GenerateMsgIn, GenerateMsgOut};

verus! {

/// The node's epoch, in milliseconds after the Unix epoch: the first of
/// January 2023, one hour, one minute and one second after midnight.
pub const EPOCH_START_MILLIS: u128 = 1672534861000;

/// Whether `c` is one of the digits `0` to `9`.
pub open spec fn is_digit(c: char) -> bool {
    '0' <= c && c <= '9'
}

/// The number that the digit `c` stands for.
pub open spec fn digit_value(c: char) -> nat {
    (c as nat - '0' as nat) as nat
}

/// The digit for `d`, a number below ten.
pub open spec fn digit_char(d: nat) -> char {
    if d == 0 {
        '0'
    } else if d == 1 {
        '1'
    } else if d == 2 {
        '2'
    } else if d == 3 {
        '3'
    } else if d == 4 {
        '4'
    } else if d == 5 {
        '5'
    } else if d == 6 {
        '6'
    } else if d == 7 {
        '7'
    } else if d == 8 {
        '8'
    } else {
        '9'
    }
}

/// The decimal digits of `n`, without leading zeros.
pub open spec fn decimal(n: nat) -> Seq<char>
    decreases n,
{
    if n < 10 {
        seq![digit_char(n)]
    } else {
        decimal(n / 10).push(digit_char(n % 10))
    }
}

/// The number that the digits of `s` spell when every other character is
/// left out; 0 if there is no digit.
pub open spec fn digits_value(s: Seq<char>) -> nat
    decreases s.len(),
{
    if s.len() == 0 {
        0
    } else if is_digit(s.last()) {
        digits_value(s.drop_last()) * 10 + digit_value(s.last())
    } else {
        digits_value(s.drop_last())
    }
}

/// The number of the node called `name`: the number that the digits of the
/// name spell, or 0 if that number does not fit in 64 bits.
pub open spec fn node_number(name: Seq<char>) -> u64 {
    if digits_value(name) <= u64::MAX {
        digits_value(name) as u64
    } else {
        0
    }
}

/// The first ten digits of the milliseconds from the node's epoch to the
/// time `unix_millis`, which counts from the Unix epoch. There are none if
/// the time is before the node's epoch, or so soon after it that the
/// milliseconds have fewer than ten digits.
pub open spec fn millis_head(unix_millis: u128) -> Option<Seq<char>> {
    if unix_millis < EPOCH_START_MILLIS {
        None
    } else {
        let digits = decimal((unix_millis - EPOCH_START_MILLIS) as nat);
        if digits.len() < 10 {
            None
        } else {
            Some(digits.take(10))
        }
    }
}

/// The three parts of an id put together, as a number that may exceed 64
/// bits.
pub open spec fn packed_id(epoch: u64, node: u64, counter: u64) -> int {
    (epoch << 23u64) + (node << 10u64) + counter % 1024
}

/// `e` is the error of a fault from which the node does not recover.
pub open spec fn is_crash(e: ErrorMsg) -> bool {
    e.code == ErrorType::Crash && e.in_reply_to is None && e.text@ == "Unrecoverable error"@
}

/// What `generate` returns at the time `unix_millis` on a node with the
/// number `node` whose count, this id included, is `counter`.
pub open spec fn generated(unix_millis: u128, node: u64, counter: u64, result: Result<u64, ErrorMsg>) -> bool {
    match millis_head(unix_millis) {
        None => result matches Err(e) && is_crash(e),
        Some(head) => if packed_id(node_number(head), node, counter) <= u64::MAX {
            result matches Ok(id) && id == packed_id(node_number(head), node, counter)
        } else {
            result matches Err(e) && is_crash(e)
        },
    }
}

/// The decimal digits of `n`, from `ToString::to_string` of std on a
/// `u128`: the number in base ten, most significant digit first, without
/// sign or leading zeros.
#[verifier::external_body]
fn decimal_string(n: u128) -> (result: String)
    ensures
        result@ == decimal(n as nat),
{
    n.to_string()
}

/// Later digits only make the number larger.
proof fn lemma_digits_value_grows(s: Seq<char>, i: int)
    requires
        0 <= i <= s.len(),
    ensures
        digits_value(s.take(i)) <= digits_value(s),
    decreases s.len(),
{
    if i < s.len() {
        assert(s.drop_last().take(i) =~= s.take(i));
        lemma_digits_value_grows(s.drop_last(), i);
        assert(digits_value(s.drop_last()) <= digits_value(s)) by (nonlinear_arith)
            requires
                digits_value(s) == digits_value(s.drop_last()) || digits_value(s) == digits_value(
                    s.drop_last(),
                ) * 10 + digit_value(s.last()),
        ;
    } else {
        assert(s.take(i) =~= s);
    }
}

/// The number in a node's name: the digits of the name read as one decimal
/// number, 0 if the name has no digit or the number is too large.
pub fn node_string_id_to_u64(node_id: &str) -> (result: u64)
    ensures
        result == node_number(node_id@),
{
    let n = node_id.unicode_len();
    let mut value: u64 = 0;
    let mut fits = true;
    let mut i: usize = 0;
    while i < n
        invariant
            n == node_id@.len(),
            i <= n,
            fits ==> value == digits_value(node_id@.take(i as int)),
            !fits ==> digits_value(node_id@.take(i as int)) > u64::MAX,
        decreases n - i,
    {
        let c = node_id.get_char(i);
        proof {
            assert(node_id@.take(i + 1).drop_last() =~= node_id@.take(i as int));
            assert(node_id@.take(i + 1).last() == c);
            lemma_digits_value_grows(node_id@.take(i + 1), i as int);
            assert(node_id@.take(i + 1).take(i as int) =~= node_id@.take(i as int));
        }
        if fits && '0' <= c && c <= '9' {
            let d: u64 = (c as u64) - ('0' as u64);
            if value > (u64::MAX - d) / 10 {
                fits = false;
            } else {
                value = value * 10 + d;
            }
        }
        i += 1;
    }
    proof {
        assert(node_id@.take(n as int) =~= node_id@);
    }
    if fits {
        value
    } else {
        0
    }
}

/// The first ten digits of the milliseconds since the node's epoch, at the
/// time `unix_millis` after the Unix epoch. A time before the node's epoch
/// is a fault, and so is one that gives fewer than ten digits.
pub fn get_milliseconds(unix_millis: u128) -> (result: Result<String, ErrorMsg>)
    ensures
        match millis_head(unix_millis) {
            Some(head) => result matches Ok(s) && s@ == head,
            None => result matches Err(e) && is_crash(e),
        },
{
    if unix_millis < EPOCH_START_MILLIS {
        return Err(ErrorMsg::crash_error());
    }
    let epoch_milli_string = decimal_string(unix_millis - EPOCH_START_MILLIS);
    let digits = epoch_milli_string.as_str();
    if digits.unicode_len() < 10 {
        return Err(ErrorMsg::crash_error());
    }
    let head = digits.substring_char(0, 10);
    assert(head@ =~= digits@.take(10));
    Ok(head.to_owned())
}

/// The state of a unique-id node.
#[derive(Debug)]
pub struct UniqueIdGenerator {
    counter: u64,
    node_id: u64,
    last_msg_id: u64,
}

impl UniqueIdGenerator {
    /// The count of the ids given, which begins at 1.
    pub closed spec fn count(&self) -> u64 {
        self.counter
    }

    /// The number of this node.
    pub closed spec fn node(&self) -> u64 {
        self.node_id
    }

    /// The id that the last reply was given.
    pub closed spec fn last_id(&self) -> u64 {
        self.last_msg_id
    }

    /// A node with the number 0 that counts its replies from
    /// `starting_msg_id`.
    pub fn new(starting_msg_id: u64) -> (result: Self)
        ensures
            result.count() == 1,
            result.node() == 0,
            result.last_id() == starting_msg_id,
    {
        Self { last_msg_id: starting_msg_id, counter: 1, node_id: 0 }
    }

    /// The count of the ids given.
    pub fn counter(&self) -> (result: u64)
        ensures
            result == self.count(),
    {
        self.counter
    }

    /// The number of this node.
    pub fn node_number(&self) -> (result: u64)
        ensures
            result == self.node(),
    {
        self.node_id
    }

    /// The id that the last reply was given.
    pub fn last_msg_id(&self) -> (result: u64)
        ensures
            result == self.last_id(),
    {
        self.last_msg_id
    }

    /// The next id, at the time `unix_millis` after the Unix epoch. The
    /// count goes up by one whether or not an id results. There is none,
    /// but the error of a crash, if the time gives no ten digits or the
    /// parts do not fit in 64 bits.
    pub fn generate(&mut self, unix_millis: u128) -> (result: Result<u64, ErrorMsg>)
        requires
            old(self).count() < u64::MAX,
        ensures
            final(self).count() == old(self).count() + 1,
            final(self).node() == old(self).node(),
            final(self).last_id() == old(self).last_id(),
            generated(unix_millis, old(self).node(), final(self).count(), result),
    {
        self.counter += 1;
        let epoch_millis = match get_milliseconds(unix_millis) {
            Ok(head) => head,
            Err(e) => {
                return Err(e);
            },
        };
        let epoch = node_string_id_to_u64(epoch_millis.as_str());
        let high: u64 = epoch << 23u64;
        let middle: u64 = self.node_id << 10u64;
        let low: u64 = self.counter % 1024;
        match high.checked_add(middle) {
            Some(sum) => match sum.checked_add(low) {
                Some(id) => Ok(id),
                None => Err(ErrorMsg::crash_error()),
            },
            None => Err(ErrorMsg::crash_error()),
        }
    }

    /// Takes the node's number from the name in the `init` message and
    /// answers it.
    pub fn on_init(&mut self, msg: InitMsgIn) -> (result: InitMsgOut)
        ensures
            final(self).node() == node_number(msg.body.node_id@),
            final(self).count() == old(self).count(),
            final(self).last_id() == old(self).last_id(),
            result.src == msg.dest,
            result.dest == msg.src,
            result.body.in_reply_to == Some(msg.body.msg_id),
    {
        self.node_id = node_string_id_to_u64(msg.body.node_id.as_str());
        msg.into_response(self.last_msg_id)
    }

    /// Answers a `generate` request with the next id, written in decimal,
    /// under the next message id. Both counts go up even where no id
    /// results.
    pub fn handle(&mut self, msg: GenerateMsgIn, unix_millis: u128) -> (result: Result<
        GenerateMsgOut,
        ErrorMsg,
    >)
        requires
            old(self).count() < u64::MAX,
            old(self).last_id() < u64::MAX,
        ensures
            final(self).count() == old(self).count() + 1,
            final(self).node() == old(self).node(),
            final(self).last_id() == old(self).last_id() + 1,
            match result {
                Ok(out) => {
                    &&& exists|id: u64|
                        generated(unix_millis, old(self).node(), final(self).count(), Ok(id))
                            && out.body.value@ == decimal(id as nat)
                    &&& out.src == msg.dest
                    &&& out.dest == msg.src
                    &&& out.body.in_reply_to == Some(msg.body.msg_id)
                    &&& out.body.msg_id == final(self).last_id()
                },
                Err(e) => is_crash(e) && generated(
                    unix_millis,
                    old(self).node(),
                    final(self).count(),
                    Err(e),
                ),
            },
    {
        self.last_msg_id += 1;
        match self.generate(unix_millis) {
            Ok(generated_id) => {
                let text = decimal_string(generated_id as u128);
                Ok(msg.into_response_with(text, self.last_msg_id))
            },
            Err(e) => Err(e),
        }
    }
}

} // verus!
