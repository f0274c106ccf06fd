//! External commands as data: the program and arguments of each system
//! command the tool issues, the captured result of a run, and the decoding of
//! console output.
use vstd::prelude::*;
use vstd::string::*;

use crate::text::{lossy_utf8, utf8_lossy};
use crate::topology::views;

verus! {

/// A command to run: program, arguments, whether its output is UTF-8
/// (otherwise it is decoded as console GBK), and the seconds it is given
/// before it is stopped.
#[derive(Debug, Clone)]
pub struct CmdSpec {
    pub program: String,
    pub args: Vec<String>,
    pub utf8: bool,
    pub timeout_secs: u64,
}

/// The result of running a command.
#[derive(Debug, Clone)]
pub struct CmdOutput {
    pub success: bool,
    pub exit_code: Option<i32>,
    pub stdout: String,
    pub stderr: String,
}

/// Standard output and error together: whichever is present, or both joined by a newline.
pub open spec fn combined_text(stdout: Seq<char>, stderr: Seq<char>) -> Seq<char> {
    if stdout.len() == 0 {
        stderr
    } else if stderr.len() == 0 {
        stdout
    } else {
        stdout + "\n"@ + stderr
    }
}

impl CmdOutput {
    /// Standard output and error together.
    pub fn combined(&self) -> (r: String)
        ensures
            r@ == combined_text(self.stdout@, self.stderr@),
    {
        if self.stdout.as_str().is_empty() {
            self.stderr.clone()
        } else if self.stderr.as_str().is_empty() {
            self.stdout.clone()
        } else {
            let mut s = self.stdout.clone();
            s.append("\n");
            s.append(self.stderr.as_str());
            s
        }
    }
}

/// Owned copies of the given words, in order.
pub fn words(parts: &[&str]) -> (r: Vec<String>)
    ensures
        views(r@) == parts@.map_values(|p: &str| p@),
{
    let mut r: Vec<String> = Vec::new();
    let mut i: usize = 0;
    while i < parts.len()
        invariant
            i <= parts@.len(),
            views(r@) == parts@.take(i as int).map_values(|p: &str| p@),
        decreases parts@.len() - i,
    {
        r.push(String::from_str(parts[i]));
        assert(parts@.take(i + 1).map_values(|p: &str| p@) =~= parts@.take(i as int).map_values(
            |p: &str| p@,
        ).push(parts@[i as int]@));
        assert(views(r@) =~= parts@.take(i + 1).map_values(|p: &str| p@));
        i = i + 1;
    }
    assert(parts@.take(parts@.len() as int) =~= parts@);
    r
}

/// A command whose output is console text (GBK), given `timeout_secs`
/// seconds to finish.
pub fn console(program: &str, args: &[&str], timeout_secs: u64) -> (r: CmdSpec)
    ensures
        r.program@ == program@,
        views(r.args@) == args@.map_values(|p: &str| p@),
        !r.utf8,
        r.timeout_secs == timeout_secs,
{
    CmdSpec { program: String::from_str(program), args: words(args), utf8: false, timeout_secs }
}

/// What `encoding_rs::GBK.decode` gives for `bytes`: the text and whether
/// malformed sequences were replaced.
pub uninterp spec fn gbk_decode(bytes: Seq<u8>) -> (Seq<char>, bool);

/// Bytes below 0x80 read as the characters of the same code.
pub open spec fn ascii_text(bytes: Seq<u8>) -> Seq<char> {
    bytes.map_values(|b: u8| b as char)
}

/// Whether every byte is ASCII.
pub open spec fn all_ascii(bytes: Seq<u8>) -> bool {
    forall|i: int| 0 <= i < bytes.len() ==> #[trigger] bytes[i] < 128
}

/// `encoding_rs::Encoding::decode` on `GBK` (BOM sniffing, malformed
/// sequences replaced). The crate documents that ASCII-only input is borrowed
/// unchanged, without errors; otherwise the contract only names the result.
/// The crate panics when its buffer-size computation overflows, which the
/// length bound keeps away.
#[verifier::external_body]
fn gbk_decode_bytes(bytes: &[u8]) -> (r: (String, bool))
    requires
        bytes@.len() <= usize::MAX / 8,
    ensures
        (r.0@, r.1) == gbk_decode(bytes@),
        all_ascii(bytes@) ==> r.0@ == ascii_text(bytes@) && !r.1,
{
    let (text, _, had_errors) = encoding_rs::GBK.decode(bytes);
    (text.into_owned(), had_errors)
}

/// The text of decoding console output: GBK first (an ASCII superset); where
/// that meets malformed input, lossy UTF-8.
pub open spec fn decoded_text(bytes: Seq<u8>) -> Seq<char> {
    if gbk_decode(bytes).1 {
        utf8_lossy(bytes)
    } else {
        gbk_decode(bytes).0
    }
}

/// Decodes command output bytes: GBK when it decodes cleanly, else lossy UTF-8.
pub fn decode_output(bytes: Vec<u8>) -> (r: String)
    requires
        bytes@.len() <= usize::MAX / 8,
    ensures
        r@ == decoded_text(bytes@),
        all_ascii(bytes@) ==> r@ == ascii_text(bytes@),
{
    let (text, had_errors) = gbk_decode_bytes(bytes.as_slice());
    if had_errors {
        lossy_utf8(bytes.as_slice())
    } else {
        text
    }
}

/// The text of an output stream of a command run as `spec`: lossy UTF-8
/// for commands that write UTF-8, the console decoding otherwise.
pub fn stream_text(spec: &CmdSpec, bytes: Vec<u8>) -> (r: String)
    requires
        bytes@.len() <= usize::MAX / 8,
    ensures
        r@ == if spec.utf8 {
            utf8_lossy(bytes@)
        } else {
            decoded_text(bytes@)
        },
{
    if spec.utf8 {
        lossy_utf8(bytes.as_slice())
    } else {
        decode_output(bytes)
    }
}

} // verus!
