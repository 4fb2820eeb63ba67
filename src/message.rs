use vstd::prelude::*;
use crate::stage::{CmdError, ExitStatus, IoOp};

verus! {

/// The character of the decimal digit `d`.
pub open spec fn digit_char(d: nat) -> char {
    seq!['0', '1', '2', '3', '4', '5', '6', '7', '8', '9'][d as int]
}

/// The decimal digits of `n`, most significant first, without leading zeros.
pub open spec fn digits(n: nat) -> Seq<char>
    decreases n,
{
    if n < 10 {
        seq![digit_char(n)]
    } else {
        digits(n / 10).push(digit_char(n % 10))
    }
}

/// `n` written in decimal, with a minus sign when negative.
pub open spec fn decimal(n: int) -> Seq<char> {
    if n < 0 {
        seq!['-'] + digits((-n) as nat)
    } else {
        digits(n as nat)
    }
}

fn digit_text(d: u32) -> (r: &'static str)
    requires
        d < 10,
    ensures
        r@ == seq![digit_char(d as nat)],
{
    let r = match d {
        0 => "0",
        1 => "1",
        2 => "2",
        3 => "3",
        4 => "4",
        5 => "5",
        6 => "6",
        7 => "7",
        8 => "8",
        _ => "9",
    };
    proof {
        reveal_strlit("0");
        reveal_strlit("1");
        reveal_strlit("2");
        reveal_strlit("3");
        reveal_strlit("4");
        reveal_strlit("5");
        reveal_strlit("6");
        reveal_strlit("7");
        reveal_strlit("8");
        reveal_strlit("9");
        assert(r@ =~= seq![digit_char(d as nat)]);
    }
    r
}

/// Writes `n` in decimal.
pub fn decimal_text(n: i32) -> (r: String)
    ensures
        r@ == decimal(n as int),
{
    let neg = n < 0;
    let mut m: u32 = if neg {
        (-(n as i64)) as u32
    } else {
        n as u32
    };
    let ghost whole = m as nat;
    let mut r = String::new();
    while m >= 10
        invariant
            digits(whole) == digits(m as nat) + r@,
        decreases m,
    {
        let d = digit_text(m % 10);
        proof {
            assert(digits(m as nat) == digits((m / 10) as nat).push(digit_char((m % 10) as nat)));
            assert(digits(whole) =~= digits((m / 10) as nat) + (d@ + r@));
        }
        r = String::from_str(d).concat(r.as_str());
        m = m / 10;
    }
    let d = digit_text(m);
    r = String::from_str(d).concat(r.as_str());
    proof {
        assert(r@ =~= digits(whole));
    }
    if neg {
        let s = String::from_str("-").concat(r.as_str());
        proof {
            reveal_strlit("-");
            assert(s@ =~= decimal(n as int));
        }
        s
    } else {
        r
    }
}

/// The text that reports `e`.
pub open spec fn message_of(e: CmdError) -> Seq<char> {
    match e {
        CmdError::StageExit { command, status } => match status {
            ExitStatus::Code(c) => command@ + " exited with error; status code: "@ + decimal(
                c as int,
            ),
            ExitStatus::Signal { shown, .. } => command@ + " exited with error; terminated by "@
                + shown@,
        },
        CmdError::Join { command, cause } => command@ + " thread joined with error: "@ + cause@,
        CmdError::Io { operation, command, cause } => match operation {
            IoOp::Wait => "waiting for "@ + command@ + " failed: "@ + cause@,
            IoOp::Read => "reading the output of "@ + command@ + " failed: "@ + cause@,
        },
        CmdError::Task { command, message } => message@,
    }
}

impl CmdError {
    /// The text that reports this failure, naming the stage and the cause.
    pub fn message(&self) -> (r: String)
        ensures
            r@ == message_of(*self),
    {
        match self {
            CmdError::StageExit { command, status } => match status {
                ExitStatus::Code(c) => String::from_str(command.as_str()).concat(
                    " exited with error; status code: ",
                ).concat(decimal_text(*c).as_str()),
                ExitStatus::Signal { shown, .. } => String::from_str(command.as_str()).concat(
                    " exited with error; terminated by ",
                ).concat(shown.as_str()),
            },
            CmdError::Join { command, cause } => String::from_str(command.as_str()).concat(
                " thread joined with error: ",
            ).concat(cause.as_str()),
            CmdError::Io { operation, command, cause } => match operation {
                IoOp::Wait => String::from_str("waiting for ").concat(command.as_str()).concat(
                    " failed: ",
                ).concat(cause.as_str()),
                IoOp::Read => String::from_str("reading the output of ").concat(
                    command.as_str(),
                ).concat(" failed: ").concat(cause.as_str()),
            },
            CmdError::Task { message, .. } => String::from_str(message.as_str()),
        }
    }
}

} // verus!
