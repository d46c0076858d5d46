//! Response shaping: the minimal HTTP responses the gateway produces. Status
//! codes are 200 (file or shell result), 201 (write completed), 401
//! (unauthorized), 404 (no route, or a file that could not be read) and 500
//! (everything else). A shell result is rendered as the JSON object
//! `{"retcode":..,"stdout":..,"stderr":..}`, with undecodable output streams
//! replaced by the empty string.

use vstd::prelude::*;
use crate::unicode::{utf8_or_empty, bytes_if_utf8};

verus! {

/// How the body of a response is to be presented.
#[derive(PartialEq, Eq, Structural, Clone, Copy, Debug)]
pub enum BodyKind {
    /// No body.
    Empty,
    /// `text/plain; charset=utf-8`
    PlainText,
    /// `application/octet-stream`
    OctetStream,
    /// `application/json`
    Json,
}

/// A response: a status code, the body's presentation, and the body bytes.
pub struct HttpResponse {
    /// HTTP status code.
    pub status_code: u16,
    /// Presentation of the body.
    pub kind: BodyKind,
    /// Body bytes; empty when `kind` is `Empty`.
    pub body: Vec<u8>,
}

/// A bodyless response with the given status code.
pub fn empty_with_status(code: u16) -> (r: HttpResponse)
    ensures
        r.status_code == code,
        r.kind == BodyKind::Empty,
        r.body@ == Seq::<u8>::empty(),
{
    HttpResponse { status_code: code, kind: BodyKind::Empty, body: Vec::new() }
}

/// Response to a text file read: the contents as plain text when the read
/// succeeded, else 404 — absent and unreadable files are not distinguished.
pub fn read_file_response(content: Option<Vec<u8>>) -> (r: HttpResponse)
    ensures
        match content {
            Some(c) => r.status_code == 200 && r.kind == BodyKind::PlainText && r.body@ == c@,
            None => r.status_code == 404 && r.kind == BodyKind::Empty && r.body@
                == Seq::<u8>::empty(),
        },
{
    match content {
        Some(c) => HttpResponse { status_code: 200, kind: BodyKind::PlainText, body: c },
        None => empty_with_status(404),
    }
}

/// Response to a binary file read: the raw bytes as an octet stream when the
/// read succeeded, else 404.
pub fn read_bin_file_response(content: Option<Vec<u8>>) -> (r: HttpResponse)
    ensures
        match content {
            Some(c) => r.status_code == 200 && r.kind == BodyKind::OctetStream && r.body@ == c@,
            None => r.status_code == 404 && r.kind == BodyKind::Empty && r.body@
                == Seq::<u8>::empty(),
        },
{
    match content {
        Some(c) => HttpResponse { status_code: 200, kind: BodyKind::OctetStream, body: c },
        None => empty_with_status(404),
    }
}

/// A completed shell run: exit code and both captured output streams, already
/// decoded as text (an undecodable stream was replaced by the empty string).
pub struct CommandResult {
    /// Exit code of the process; 0 when it was terminated without one.
    pub retcode: i32,
    /// Captured standard output.
    pub stdout: Vec<u8>,
    /// Captured standard error.
    pub stderr: Vec<u8>,
}

impl CommandResult {
    /// Shape a raw process outcome: a missing exit code (the process was
    /// terminated by a signal) counts as 0, and an output stream that is not
    /// valid UTF-8 is replaced by the empty string rather than failing.
    pub fn from_raw(retcode: Option<i32>, stdout: Vec<u8>, stderr: Vec<u8>) -> (r: CommandResult)
        ensures
            r.retcode == match retcode {
                Some(c) => c,
                None => 0,
            },
            r.stdout@ == utf8_or_empty(stdout@),
            r.stderr@ == utf8_or_empty(stderr@),
    {
        CommandResult {
            retcode: match retcode {
                Some(c) => c,
                None => 0,
            },
            stdout: bytes_if_utf8(stdout),
            stderr: bytes_if_utf8(stderr),
        }
    }
}

/// Decimal digits of `n`, most significant first.
pub open spec fn dec_nat(n: nat) -> Seq<u8>
    decreases n,
{
    if n < 10 {
        seq![(0x30 + n) as u8]
    } else {
        dec_nat(n / 10) + seq![(0x30 + n % 10) as u8]
    }
}

/// Decimal rendering of `i`, with a leading `-` when negative.
pub open spec fn dec_int(i: int) -> Seq<u8> {
    if i < 0 {
        seq![0x2du8] + dec_nat((-i) as nat)
    } else {
        dec_nat(i as nat)
    }
}

/// Lowercase hexadecimal digit for a value below 16.
pub open spec fn hex_digit(n: u8) -> u8 {
    if n < 10 {
        (0x30 + n) as u8
    } else {
        (0x61 + (n - 10)) as u8
    }
}

/// JSON escape of one byte of a UTF-8 string: quote and backslash get a
/// backslash escape, the five named control characters their short form,
/// any other control byte a `\u00xx` form, and every other byte passes
/// through unchanged.
pub open spec fn esc_byte(b: u8) -> Seq<u8> {
    if b == 0x22 {
        seq![0x5cu8, 0x22]
    } else if b == 0x5c {
        seq![0x5cu8, 0x5c]
    } else if b == 0x08 {
        seq![0x5cu8, 0x62]
    } else if b == 0x09 {
        seq![0x5cu8, 0x74]
    } else if b == 0x0a {
        seq![0x5cu8, 0x6e]
    } else if b == 0x0c {
        seq![0x5cu8, 0x66]
    } else if b == 0x0d {
        seq![0x5cu8, 0x72]
    } else if b < 0x20 {
        seq![0x5cu8, 0x75, 0x30, 0x30, hex_digit(b / 16), hex_digit(b % 16)]
    } else {
        seq![b]
    }
}

/// JSON escape of a whole string, byte by byte.
pub open spec fn json_escape(s: Seq<u8>) -> Seq<u8>
    decreases s.len(),
{
    if s.len() == 0 {
        Seq::<u8>::empty()
    } else {
        json_escape(s.drop_last()) + esc_byte(s.last())
    }
}

/// The JSON object `{"retcode":R,"stdout":"O","stderr":"E"}` with `R` the
/// decimal exit code and `O`, `E` the escaped output streams.
pub open spec fn spec_command_result_json(retcode: int, out: Seq<u8>, err: Seq<u8>) -> Seq<u8> {
    seq![0x7bu8, 0x22, 0x72, 0x65, 0x74, 0x63, 0x6f, 0x64, 0x65, 0x22, 0x3a] + dec_int(retcode)
        + seq![0x2cu8, 0x22, 0x73, 0x74, 0x64, 0x6f, 0x75, 0x74, 0x22, 0x3a, 0x22] + json_escape(
        out,
    ) + seq![0x22u8, 0x2c, 0x22, 0x73, 0x74, 0x64, 0x65, 0x72, 0x72, 0x22, 0x3a, 0x22]
        + json_escape(err) + seq![0x22u8, 0x7d]
}

/// Append the decimal digits of `n`.
fn push_dec(v: &mut Vec<u8>, n: u64)
    ensures
        final(v)@ == old(v)@ + dec_nat(n as nat),
    decreases n,
{
    if n < 10 {
        v.push(0x30 + (n as u8));
        proof {
            assert(v@ =~= old(v)@ + dec_nat(n as nat));
        }
    } else {
        push_dec(v, n / 10);
        v.push(0x30 + ((n % 10) as u8));
        proof {
            assert(v@ =~= old(v)@ + dec_nat(n as nat));
        }
    }
}

/// Append the decimal rendering of `i`, sign included.
fn push_dec_i32(v: &mut Vec<u8>, i: i32)
    ensures
        final(v)@ == old(v)@ + dec_int(i as int),
{
    let wide: i64 = i as i64;
    if wide < 0 {
        v.push(0x2d);
        let ghost mid = v@;
        push_dec(v, (-wide) as u64);
        proof {
            assert(v@ =~= old(v)@ + dec_int(i as int));
        }
    } else {
        push_dec(v, wide as u64);
    }
}

/// Append the JSON escape of every byte of `s`.
fn push_json_escaped(v: &mut Vec<u8>, s: &Vec<u8>)
    ensures
        final(v)@ == old(v)@ + json_escape(s@),
{
    let mut i: usize = 0;
    proof {
        assert(s@.subrange(0, 0) =~= Seq::<u8>::empty());
        assert(v@ =~= old(v)@ + json_escape(s@.subrange(0, 0)));
    }
    while i < s.len()
        invariant
            0 <= i <= s@.len(),
            v@ == old(v)@ + json_escape(s@.subrange(0, i as int)),
        decreases s@.len() - i,
    {
        let ghost pre = v@;
        let b = s[i];
        if b == 0x22 {
            v.push(0x5c);
            v.push(0x22);
        } else if b == 0x5c {
            v.push(0x5c);
            v.push(0x5c);
        } else if b == 0x08 {
            v.push(0x5c);
            v.push(0x62);
        } else if b == 0x09 {
            v.push(0x5c);
            v.push(0x74);
        } else if b == 0x0a {
            v.push(0x5c);
            v.push(0x6e);
        } else if b == 0x0c {
            v.push(0x5c);
            v.push(0x66);
        } else if b == 0x0d {
            v.push(0x5c);
            v.push(0x72);
        } else if b < 0x20 {
            v.push(0x5c);
            v.push(0x75);
            v.push(0x30);
            v.push(0x30);
            v.push(if b / 16 < 10 { 0x30 + b / 16 } else { 0x61 + (b / 16 - 10) });
            v.push(if b % 16 < 10 { 0x30 + b % 16 } else { 0x61 + (b % 16 - 10) });
        } else {
            v.push(b);
        }
        proof {
            assert(v@ =~= pre + esc_byte(s@[i as int]));
            assert(s@.subrange(0, i + 1).drop_last() =~= s@.subrange(0, i as int));
            assert(s@.subrange(0, i + 1).last() == s@[i as int]);
            assert(json_escape(s@.subrange(0, i + 1)) == json_escape(s@.subrange(0, i as int))
                + esc_byte(s@[i as int]));
            assert(v@ =~= old(v)@ + json_escape(s@.subrange(0, i + 1)));
        }
        i = i + 1;
    }
    proof {
        assert(s@.subrange(0, s@.len() as int) =~= s@);
    }
}

/// The JSON rendering of a shell result.
pub fn command_result_json(res: &CommandResult) -> (r: Vec<u8>)
    ensures
        r@ == spec_command_result_json(res.retcode as int, res.stdout@, res.stderr@),
{
    let mut v: Vec<u8> = Vec::new();
    v.push(0x7b);
    v.push(0x22);
    v.push(0x72);
    v.push(0x65);
    v.push(0x74);
    v.push(0x63);
    v.push(0x6f);
    v.push(0x64);
    v.push(0x65);
    v.push(0x22);
    v.push(0x3a);
    proof {
        assert(v@ =~= seq![0x7bu8, 0x22, 0x72, 0x65, 0x74, 0x63, 0x6f, 0x64, 0x65, 0x22, 0x3a]);
    }
    push_dec_i32(&mut v, res.retcode);
    let ghost part1 = v@;
    v.push(0x2c);
    v.push(0x22);
    v.push(0x73);
    v.push(0x74);
    v.push(0x64);
    v.push(0x6f);
    v.push(0x75);
    v.push(0x74);
    v.push(0x22);
    v.push(0x3a);
    v.push(0x22);
    proof {
        assert(v@ =~= part1 + seq![0x2cu8, 0x22, 0x73, 0x74, 0x64, 0x6f, 0x75, 0x74, 0x22, 0x3a, 0x22]);
    }
    push_json_escaped(&mut v, &res.stdout);
    let ghost part2 = v@;
    v.push(0x22);
    v.push(0x2c);
    v.push(0x22);
    v.push(0x73);
    v.push(0x74);
    v.push(0x64);
    v.push(0x65);
    v.push(0x72);
    v.push(0x72);
    v.push(0x22);
    v.push(0x3a);
    v.push(0x22);
    proof {
        assert(v@ =~= part2 + seq![0x22u8, 0x2c, 0x22, 0x73, 0x74, 0x64, 0x65, 0x72, 0x72, 0x22, 0x3a, 0x22]);
    }
    push_json_escaped(&mut v, &res.stderr);
    let ghost part3 = v@;
    v.push(0x22);
    v.push(0x7d);
    proof {
        assert(v@ =~= part3 + seq![0x22u8, 0x7d]);
        assert(v@ =~= spec_command_result_json(res.retcode as int, res.stdout@, res.stderr@));
    }
    v
}

/// Response to a shell run whose process could be spawned: 200 with the JSON
/// rendering of its result.
pub fn command_result_response(res: &CommandResult) -> (r: HttpResponse)
    ensures
        r.status_code == 200,
        r.kind == BodyKind::Json,
        r.body@ == spec_command_result_json(res.retcode as int, res.stdout@, res.stderr@),
{
    HttpResponse { status_code: 200, kind: BodyKind::Json, body: command_result_json(res) }
}

} // verus!
