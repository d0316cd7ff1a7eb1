//! One dispatch of the external notifier program: the argument list it is
//! invoked with, and the decoding of the identifier it prints.
//!
//! The library does not run the program itself.  A caller builds the argument
//! list with [`dispatch_args`], runs the program, and hands the captured
//! standard output back as an [`Option`]: `None` when the program could not
//! be run at all, `Some(bytes)` otherwise.

use vstd::prelude::*;
use vstd::string::{StrSliceExecFns, StringExecFns};
use vstd::utf8::{decode_utf8, valid_utf8};

use crate::decimal::{dec_str, is_u32_numeral, numeral_val, parse_digits, u32_to_dec};
use crate::notification::{Notification, NotificationView, Timeout};

verus! {

/// Why a dispatch failed.
#[derive(Clone, Copy, Debug, PartialEq, Eq, Structural)]
pub enum Error {
    /// The external program could not be located or failed to execute.
    Process,
    /// The captured output bytes are not valid text.
    Encoding,
    /// The output text, once trimmed, is not an unsigned 32-bit decimal
    /// integer.
    Parse,
}

/// The arguments that encode the timeout policy: the expire-time option with
/// the millisecond count as a decimal numeral, or nothing.  A never-expire
/// timeout is not encoded separately from the daemon's default.
pub open spec fn timeout_args(t: Timeout) -> Seq<Seq<char>> {
    match t {
        Timeout::Milliseconds(ms) => seq!["--expire-time"@, dec_str(ms as nat)],
        _ => Seq::empty(),
    }
}

/// The arguments that name the notification to replace: the replace-id
/// option with the previous identifier as a decimal numeral, or nothing.
pub open spec fn replace_args(previous_id: Option<u32>) -> Seq<Seq<char>> {
    match previous_id {
        Some(p) => seq!["--replace-id"@, dec_str(p as nat)],
        None => Seq::empty(),
    }
}

/// The fixed tail of every invocation: the print-id flag, the application
/// name and icon options, then summary and body as bare positionals.
pub open spec fn base_args(n: NotificationView) -> Seq<Seq<char>> {
    seq!["--print-id"@, "--app-name"@, n.appname, "--icon"@, n.icon, n.summary, n.body]
}

/// The full argument list of one dispatch: timeout encoding, then the
/// replace target, then the fixed tail.
pub open spec fn dispatch_arg_list(n: NotificationView, previous_id: Option<u32>) -> Seq<
    Seq<char>,
> {
    timeout_args(n.timeout) + replace_args(previous_id) + base_args(n)
}

/// Builds the argument list for one invocation of the external notifier.
pub fn dispatch_args(n: &Notification, previous_id: Option<u32>) -> (r: Vec<String>)
    ensures
        r.deep_view() == dispatch_arg_list(n@, previous_id),
{
    let mut args: Vec<String> = Vec::new();
    if let Timeout::Milliseconds(ms) = n.timeout {
        args.push(String::from_str("--expire-time"));
        args.push(u32_to_dec(ms));
    }
    if let Some(p) = previous_id {
        args.push(String::from_str("--replace-id"));
        args.push(u32_to_dec(p));
    }
    args.push(String::from_str("--print-id"));
    args.push(String::from_str("--app-name"));
    args.push(n.appname.clone());
    args.push(String::from_str("--icon"));
    args.push(n.icon.clone());
    args.push(n.summary.clone());
    args.push(n.body.clone());
    proof {
        assert(args.deep_view() =~~= dispatch_arg_list(n@, previous_id));
    }
    args
}

/// True of a character the decoded output is trimmed of at its end: the
/// Unicode characters with the White_Space property.
pub open spec fn is_white_space(c: char) -> bool {
    let u = c as u32;
    ||| u == 0x20
    ||| 0x09 <= u <= 0x0d
    ||| u == 0x85
    ||| u == 0xa0
    ||| u == 0x1680
    ||| 0x2000 <= u <= 0x200a
    ||| u == 0x2028
    ||| u == 0x2029
    ||| u == 0x202f
    ||| u == 0x205f
    ||| u == 0x3000
}

/// `s` without its trailing whitespace characters.
pub open spec fn trimmed(s: Seq<char>) -> Seq<char>
    decreases s.len(),
{
    if s.len() > 0 && is_white_space(s.last()) {
        trimmed(s.drop_last())
    } else {
        s
    }
}

/// Tests a character for [`is_white_space`].
fn is_ws_char(c: char) -> (r: bool)
    ensures
        r == is_white_space(c),
{
    let u = c as u32;
    u == 0x20 || (0x09 <= u && u <= 0x0d) || u == 0x85 || u == 0xa0 || u == 0x1680 || (0x2000 <= u
        && u <= 0x200a) || u == 0x2028 || u == 0x2029 || u == 0x202f || u == 0x205f || u == 0x3000
}

/// Relies on `String::from_utf8`: it returns `Ok` exactly when the bytes
/// are valid UTF-8, and then the returned string holds the characters those
/// bytes encode.
#[verifier::external_body]
fn decode_text(bytes: &Vec<u8>) -> (r: Option<String>)
    ensures
        r is Some <==> valid_utf8(bytes@),
        r is Some ==> r->0@ == decode_utf8(bytes@),
{
    match String::from_utf8(bytes.clone()) {
        Ok(s) => Some(s),
        Err(_) => None,
    }
}

/// What captured output decodes to: the identifier its text denotes once
/// trailing whitespace is trimmed, or the error that rules it out.
pub open spec fn parsed_output(bytes: Seq<u8>) -> Result<u32, Error> {
    if !valid_utf8(bytes) {
        Err(Error::Encoding)
    } else if is_u32_numeral(trimmed(decode_utf8(bytes))) {
        Ok(numeral_val(trimmed(decode_utf8(bytes))) as u32)
    } else {
        Err(Error::Parse)
    }
}

/// What one dispatch outcome decodes to.  `None` stands for a program that
/// could not be run; `Some(bytes)` for the standard output it printed.
pub open spec fn decoded(outcome: Option<Seq<u8>>) -> Result<u32, Error> {
    match outcome {
        None => Err(Error::Process),
        Some(bytes) => parsed_output(bytes),
    }
}

/// The view of a captured dispatch outcome.
pub open spec fn outcome_view(outcome: Option<Vec<u8>>) -> Option<Seq<u8>> {
    match outcome {
        None => None,
        Some(bytes) => Some(bytes@),
    }
}

/// Decodes captured standard output into the identifier it denotes.
pub fn parse_output(bytes: &Vec<u8>) -> (r: Result<u32, Error>)
    ensures
        r == parsed_output(bytes@),
{
    let text = match decode_text(bytes) {
        Some(t) => t,
        None => {
            return Err(Error::Encoding);
        },
    };
    let s = text.as_str();
    let mut end: usize = s.unicode_len();
    proof {
        assert(s@.take(end as int) =~= s@);
    }
    while end > 0 && is_ws_char(s.get_char(end - 1))
        invariant
            end <= s@.len(),
            trimmed(s@) == trimmed(s@.take(end as int)),
        decreases end,
    {
        proof {
            assert(s@.take(end as int).last() == s@[end - 1]);
            assert(s@.take(end as int).drop_last() =~= s@.take(end - 1));
        }
        end = end - 1;
    }
    proof {
        if end > 0 {
            assert(s@.take(end as int).last() == s@[end - 1]);
        }
        assert(trimmed(s@) == s@.take(end as int));
    }
    let ghost t = trimmed(s@);
    let from: usize = if end > 0 && s.get_char(0) == '+' {
        1
    } else {
        0
    };
    proof {
        if from == 1 {
            assert(s@.subrange(1, end as int) =~= t.drop_first());
        } else {
            assert(s@.subrange(0, end as int) =~= t);
        }
    }
    match parse_digits(s, from, end) {
        Some(id) => Ok(id),
        None => Err(Error::Parse),
    }
}

/// Decodes one dispatch outcome: a missing outcome is a process failure,
/// captured output is parsed as an identifier.
pub fn decode_dispatch(outcome: Option<Vec<u8>>) -> (r: Result<u32, Error>)
    ensures
        r == decoded(outcome_view(outcome)),
{
    match outcome {
        None => Err(Error::Process),
        Some(bytes) => parse_output(&bytes),
    }
}

/// With a millisecond timeout, the argument list opens with the expire-time
/// option carrying the count as a plain decimal numeral, immediately ahead
/// of any replace-id option.
pub proof fn lemma_expire_time_leads(n: NotificationView, previous_id: Option<u32>, ms: u32)
    requires
        n.timeout == Timeout::Milliseconds(ms),
    ensures
        dispatch_arg_list(n, previous_id)[0] == "--expire-time"@,
        dispatch_arg_list(n, previous_id)[1] == dec_str(ms as nat),
        previous_id is Some ==> dispatch_arg_list(n, previous_id)[2] == "--replace-id"@,
        previous_id is Some ==> dispatch_arg_list(n, previous_id)[3] == dec_str(
            previous_id->0 as nat,
        ),
{
}

/// With a default or never-expire timeout, no expire-time option is
/// emitted: the argument list is the replace target, then the fixed tail.
pub proof fn lemma_no_expire_time(n: NotificationView, previous_id: Option<u32>)
    requires
        n.timeout is Default || n.timeout is Never,
    ensures
        dispatch_arg_list(n, previous_id) == replace_args(previous_id) + base_args(n),
{
    assert(dispatch_arg_list(n, previous_id) =~= replace_args(previous_id) + base_args(n));
}

/// With a previous identifier, the argument list carries the replace-id
/// option with that identifier as a plain decimal numeral, right before the
/// fixed tail.
pub proof fn lemma_replace_id_present(n: NotificationView, p: u32)
    ensures
        dispatch_arg_list(n, Some(p)) == timeout_args(n.timeout) + seq![
            "--replace-id"@,
            dec_str(p as nat),
        ] + base_args(n),
{
}

/// Without a previous identifier, no replace-id option is emitted: the
/// argument list is the timeout encoding, then the fixed tail.
pub proof fn lemma_replace_id_absent(n: NotificationView)
    ensures
        dispatch_arg_list(n, None) == timeout_args(n.timeout) + base_args(n),
{
    assert(dispatch_arg_list(n, None) =~= timeout_args(n.timeout) + base_args(n));
}

} // verus!
