//! The plain-text lines the service writes to the peer, and the framing of
//! the solution payload the peer sends.
//!
//! Every line is specified character for character; the payload framing is
//! specified byte for byte: whatever one bounded read returns is the entire
//! solution bytecode, cut silently at the cap and handed to deserialization
//! unchanged.

use vstd::prelude::*;
use vstd::string::StringExecFns;

verus! {

/// The line announcing the challenge module's deployed address.
pub open spec fn challenge_line_spec(addr: Seq<char>) -> Seq<char> {
    "[SERVER] Challenge modules published at: "@ + addr
}

/// The line announcing the solution module's deployed address.
pub open spec fn solution_line_spec(addr: Seq<char>) -> Seq<char> {
    "[SERVER] Solution published at "@ + addr
}

/// The line disclosing the secret after a passing validation.
pub open spec fn success_line_spec(flag: Seq<char>) -> Seq<char> {
    "[SERVER] Congrats, flag: "@ + flag
}

/// The line written when validation passes but no secret is configured.
pub open spec fn misconfig_line_spec() -> Seq<char> {
    "[SERVER] Flag not found, please contact admin"@
}

/// The line written when validation fails.
pub open spec fn failure_line_spec() -> Seq<char> {
    "[SERVER] Invalid Solution!"@
}

pub fn challenge_line(addr: &str) -> (r: String)
    ensures
        r@ == challenge_line_spec(addr@),
{
    let mut line = String::from_str("[SERVER] Challenge modules published at: ");
    line.append(addr);
    line
}

pub fn solution_line(addr: &str) -> (r: String)
    ensures
        r@ == solution_line_spec(addr@),
{
    let mut line = String::from_str("[SERVER] Solution published at ");
    line.append(addr);
    line
}

pub fn success_line(flag: &str) -> (r: String)
    ensures
        r@ == success_line_spec(flag@),
{
    let mut line = String::from_str("[SERVER] Congrats, flag: ");
    line.append(flag);
    line
}

pub fn misconfig_line() -> (r: String)
    ensures
        r@ == misconfig_line_spec(),
{
    String::from_str("[SERVER] Flag not found, please contact admin")
}

pub fn failure_line() -> (r: String)
    ensures
        r@ == failure_line_spec(),
{
    String::from_str("[SERVER] Invalid Solution!")
}

/// What the single bounded read hands to deserialization: exactly the bytes
/// that arrived in that one read, cut at the cap and nothing more.  Nothing
/// is ever appended.
pub open spec fn frame_spec(chunk: Seq<u8>, cap: nat) -> Seq<u8> {
    if chunk.len() <= cap {
        chunk
    } else {
        chunk.subrange(0, cap as int)
    }
}

/// Frames the bytes one read returned into the buffer handed to
/// deserialization: the received bytes themselves, cut at `cap` without any
/// truncation signal.
///
/// Cutting silently at the cap is a deliberate protocol decision, kept for
/// compatibility with the wire format: the cap is the transport read
/// boundary, not a parsing boundary, so an oversized payload is shortened
/// here and only deserialization reports the damage.
pub fn frame_solution(chunk: &Vec<u8>, cap: usize) -> (r: Vec<u8>)
    ensures
        r@ == frame_spec(chunk@, cap as nat),
        r.len() <= cap,
{
    let bound = if chunk.len() < cap {
        chunk.len()
    } else {
        cap
    };
    let mut framed: Vec<u8> = Vec::new();
    let mut i: usize = 0;
    while i < bound
        invariant
            i <= bound,
            bound <= chunk@.len(),
            framed@ == chunk@.subrange(0, i as int),
        decreases bound - i,
    {
        framed.push(chunk[i]);
        i = i + 1;
        proof {
            assert(framed@ =~= chunk@.subrange(0, i as int));
        }
    }
    proof {
        assert(framed@ =~= frame_spec(chunk@, cap as nat));
    }
    framed
}

} // verus!
