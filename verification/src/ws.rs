//! The editor's web protocol: reading the HTTP request head, the WebSocket
//! handshake answer, and framing of WebSocket messages (RFC 6455, text,
//! close and ping frames; server frames are never masked).
use vstd::prelude::*;
use vstd::string::*;

use base64::Engine;
use sha1::Digest;

use crate::text::{
    chars_of, eq_ignore_ascii_case, lowercase, push_decimal, decimal, str_eq, str_eq_ignore_ascii_case,
    string_of, to_lower, trim, trim_str,
};
use crate::topology::views;

verus! {

broadcast use vstd::seq_lib::group_seq_properties;

/// The GUID a server appends to the client's key to form its answer.
pub const WS_GUID: &'static str = "258EAFA5-E914-47DA-95CA-C5AB0DC85B11";

/// The first port tried for the editor service.
pub const EDITOR_PORT_FIRST: u16 = 18765;

/// The port after the last one tried for the editor service.
pub const EDITOR_PORT_END: u16 = 18800;

// ---------------------------------------------------------------------------
// Framing.

/// `n` as `k` big-endian bytes (its low `8k` bits).
pub open spec fn be_bytes(n: nat, k: nat) -> Seq<u8>
    decreases k,
{
    if k == 0 {
        Seq::empty()
    } else {
        be_bytes(n / 256, (k - 1) as nat).push((n % 256) as u8)
    }
}

/// The header of a server frame: the first byte, then the payload length
/// in the second byte, or 126 and the length in 16 bits, or 127 and the
/// length in 64 bits.
pub open spec fn frame_header(first: u8, len: nat) -> Seq<u8> {
    if len < 126 {
        seq![first, len as u8]
    } else if len < 65536 {
        seq![first, 126u8] + be_bytes(len, 2)
    } else {
        seq![first, 127u8] + be_bytes(len, 8)
    }
}

/// Appends `n` as `k` big-endian bytes.
fn push_be(v: &mut Vec<u8>, n: u64, k: usize)
    ensures
        final(v)@ == old(v)@ + be_bytes(n as nat, k as nat),
    decreases k,
{
    if k == 0 {
        assert(old(v)@ + Seq::<u8>::empty() =~= old(v)@);
        return;
    }
    push_be(v, n / 256, k - 1);
    v.push((n % 256) as u8);
    assert(final(v)@ =~= old(v)@ + be_bytes(n as nat, k as nat));
}

/// Appends the bytes of `s`.
fn push_bytes(v: &mut Vec<u8>, s: &[u8])
    ensures
        final(v)@ == old(v)@ + s@,
{
    let ghost start = v@;
    let mut i: usize = 0;
    while i < s.len()
        invariant
            i <= s@.len(),
            v@ == start + s@.take(i as int),
        decreases s@.len() - i,
    {
        v.push(s[i]);
        assert(s@.take(i + 1) =~= s@.take(i as int).push(s@[i as int]));
        i = i + 1;
    }
    assert(s@.take(i as int) =~= s@);
}

/// A server frame: the header for the payload's length, then the payload.
/// `first` holds the final-fragment bit and the opcode (`0x81` for text,
/// `0x8A` for a pong).
pub fn ws_frame(first: u8, payload: &[u8]) -> (r: Vec<u8>)
    ensures
        r@ == frame_header(first, payload@.len()) + payload@,
{
    let len = payload.len();
    let mut f: Vec<u8> = Vec::new();
    f.push(first);
    if len < 126 {
        f.push(len as u8);
        assert(f@ =~= seq![first, len as u8]);
    } else if len < 65536 {
        f.push(126);
        push_be(&mut f, len as u64, 2);
        assert(f@ =~= seq![first, 126u8] + be_bytes(len as nat, 2));
    } else {
        f.push(127);
        push_be(&mut f, len as u64, 8);
        assert(f@ =~= seq![first, 127u8] + be_bytes(len as nat, 8));
    }
    push_bytes(&mut f, payload);
    f
}

/// A text frame carrying `text`.
pub fn ws_text_frame(text: &str) -> (r: Vec<u8>)
    ensures
        r@ == frame_header(0x81, text.spec_bytes().len()) + text.spec_bytes(),
{
    ws_frame(0x81, text.as_bytes())
}

/// What the first two bytes of a frame say: its opcode, whether the
/// payload is masked, and the 7-bit length field (126: a 16-bit length
/// follows; 127: a 64-bit one).
#[derive(Debug, Clone, Copy, PartialEq, Eq, Structural)]
pub struct FrameStart {
    pub opcode: u8,
    pub masked: bool,
    pub len7: u8,
}

/// Reads the first two bytes of a frame.
pub fn frame_start(b0: u8, b1: u8) -> (r: FrameStart)
    ensures
        r.opcode == b0 % 16,
        r.masked == (b1 >= 128),
        r.len7 == b1 % 128,
{
    FrameStart { opcode: b0 % 16, masked: b1 >= 128, len7: b1 % 128 }
}

/// How many length bytes follow the first two bytes of a frame.
pub open spec fn extended_len_bytes(len7: u8) -> nat {
    if len7 == 126 {
        2
    } else if len7 == 127 {
        8
    } else {
        0
    }
}

/// The number of extended length bytes.
pub fn extended_len_size(len7: u8) -> (r: usize)
    ensures
        r == extended_len_bytes(len7),
{
    if len7 == 126 {
        2
    } else if len7 == 127 {
        8
    } else {
        0
    }
}

/// The value of big-endian bytes.
pub open spec fn be_value(s: Seq<u8>) -> nat
    decreases s.len(),
{
    if s.len() == 0 {
        0
    } else {
        be_value(s.drop_last()) * 256 + s.last() as nat
    }
}

/// `256^k`.
pub open spec fn pow256(k: nat) -> nat
    decreases k,
{
    if k == 0 {
        1
    } else {
        256 * pow256((k - 1) as nat)
    }
}

proof fn lemma_be_step(v: nat, b: u8, p: nat)
    requires
        v < p,
    ensures
        v * 256 + b < 256 * p,
{
    assert(v * 256 + b < 256 * p) by (nonlinear_arith)
        requires
            v < p,
            b < 256,
    ;
}

proof fn lemma_pow256_8()
    ensures
        pow256(8) == 0x1_0000_0000_0000_0000,
{
    reveal_with_fuel(pow256, 9);
}

proof fn lemma_pow256_mono(i: nat, j: nat)
    requires
        i <= j,
    ensures
        pow256(i) <= pow256(j),
    decreases j,
{
    if i < j {
        lemma_pow256_mono(i, (j - 1) as nat);
    }
}

/// The payload length of a frame: the 7-bit field, or the value of the
/// extended length bytes that follow it.
pub fn payload_len(len7: u8, ext: &[u8]) -> (r: u64)
    requires
        ext@.len() <= 8,
    ensures
        r == if len7 == 126 || len7 == 127 {
            be_value(ext@)
        } else {
            len7 as nat
        },
{
    if len7 != 126 && len7 != 127 {
        return len7 as u64;
    }
    let mut r: u64 = 0;
    let mut i: usize = 0;
    assert(ext@.take(0) =~= Seq::<u8>::empty());
    proof {
        lemma_pow256_8();
    }
    while i < ext.len()
        invariant
            i <= ext@.len(),
            ext@.len() <= 8,
            pow256(8) == 0x1_0000_0000_0000_0000,
            r as nat == be_value(ext@.take(i as int)),
            (r as nat) < pow256(i as nat),
        decreases ext@.len() - i,
    {
        proof {
            lemma_be_step(r as nat, ext@[i as int], pow256(i as nat));
            lemma_pow256_mono((i + 1) as nat, 8);
            assert(ext@.take(i + 1).drop_last() =~= ext@.take(i as int));
        }
        r = r * 256 + ext[i] as u64;
        i = i + 1;
    }
    assert(ext@.take(i as int) =~= ext@);
    r
}

/// The bytes of `p` with byte `i` XORed with mask byte `i % 4`.
pub open spec fn masked(p: Seq<u8>, mask: Seq<u8>) -> Seq<u8> {
    Seq::new(p.len(), |i: int| p[i] ^ mask[i % 4])
}

/// Masking is its own inverse: applying the same mask twice gives the
/// bytes back.
pub proof fn lemma_mask_twice(p: Seq<u8>, mask: Seq<u8>)
    ensures
        masked(masked(p, mask), mask) == p,
{
    assert forall|i: int| 0 <= i < p.len() implies #[trigger] masked(masked(p, mask), mask)[i]
        == p[i] by {
        let x = p[i];
        let m = mask[i % 4];
        assert((x ^ m) ^ m == x) by (bit_vector);
    }
    assert(masked(masked(p, mask), mask) =~= p);
}

/// Removes the client's mask: byte `i` is XORed with mask byte `i % 4`.
pub fn unmask(payload: &mut Vec<u8>, mask: [u8; 4])
    ensures
        final(payload)@ == masked(old(payload)@, mask@),
{
    let ghost orig = payload@;
    let mut i: usize = 0;
    while i < payload.len()
        invariant
            i <= payload@.len(),
            payload@.len() == orig.len(),
            forall|k: int| 0 <= k < i ==> #[trigger] payload@[k] == orig[k] ^ mask@[k % 4],
            forall|k: int| i <= k < orig.len() ==> #[trigger] payload@[k] == orig[k],
        decreases payload@.len() - i,
    {
        let b = payload[i] ^ mask[i % 4];
        payload.set(i, b);
        i = i + 1;
    }
}

proof fn lemma_pow256_pos(k: nat)
    ensures
        pow256(k) > 0,
    decreases k,
{
    if k > 0 {
        lemma_pow256_pos((k - 1) as nat);
    }
}

/// Big-endian bytes read back: `k` bytes keep `n` modulo `256^k`.
proof fn lemma_be_round_trip(n: nat, k: nat)
    ensures
        be_value(be_bytes(n, k)) == n % pow256(k),
        be_bytes(n, k).len() == k,
    decreases k,
{
    if k == 0 {
        assert(n % 1 == 0) by (nonlinear_arith);
    } else {
        let p = pow256((k - 1) as nat);
        lemma_pow256_pos((k - 1) as nat);
        lemma_be_round_trip(n / 256, (k - 1) as nat);
        assert(be_bytes(n, k).drop_last() =~= be_bytes(n / 256, (k - 1) as nat));
        let q = n / 256;
        let r = n % 256;
        let a = q / p;
        let b = q % p;
        vstd::arithmetic::div_mod::lemma_fundamental_div_mod(n as int, 256);
        vstd::arithmetic::div_mod::lemma_fundamental_div_mod(q as int, p as int);
        assert(n == a * (256 * p) + (256 * b + r)) by (nonlinear_arith)
            requires
                n == 256 * q + r,
                q == p * a + b,
        ;
        assert(0 <= 256 * b + r < 256 * p) by (nonlinear_arith)
            requires
                0 <= b < p,
                0 <= r < 256,
        ;
        vstd::arithmetic::div_mod::lemma_fundamental_div_mod_converse(
            n as int,
            (256 * p) as int,
            a as int,
            (256 * b + r) as int,
        );
    }
}

/// Reading back the header of a server frame gives what was written: the
/// opcode, no mask, the number of extended length bytes, and the payload
/// length (for any length that fits in 64 bits).
pub proof fn lemma_frame_header_round_trip(first: u8, len: nat)
    requires
        len < 0x1_0000_0000_0000_0000,
    ensures
        ({
            let h = frame_header(first, len);
            let len7 = (h[1] % 128) as u8;
            &&& h[0] % 16 == first % 16
            &&& h[1] < 128
            &&& h.len() == 2 + extended_len_bytes(len7)
            &&& len == if len7 == 126 || len7 == 127 {
                be_value(h.skip(2))
            } else {
                len7 as nat
            }
        }),
{
    let h = frame_header(first, len);
    if len < 126 {
    } else if len < 65536 {
        lemma_be_round_trip(len, 2);
        reveal_with_fuel(pow256, 3);
        assert(h.skip(2) =~= be_bytes(len, 2));
        assert(len % 65536 == len);
    } else {
        lemma_be_round_trip(len, 8);
        lemma_pow256_8();
        assert(h.skip(2) =~= be_bytes(len, 8));
        assert(len % 0x1_0000_0000_0000_0000 == len);
    }
}

/// What a received frame asks for.
#[derive(Debug, Clone, Copy, PartialEq, Eq, Structural)]
pub enum FrameAction {
    /// The client closed the connection.
    Close,
    /// Answer a ping with a pong carrying the same payload.
    Pong,
    /// A text message to read.
    Text,
    /// Anything else is ignored.
    Ignore,
}

/// The action for a frame's opcode: 8 closes, 9 is a ping, 1 is text.
pub fn frame_action(opcode: u8) -> (r: FrameAction)
    ensures
        r == if opcode == 8 {
            FrameAction::Close
        } else if opcode == 9 {
            FrameAction::Pong
        } else if opcode == 1 {
            FrameAction::Text
        } else {
            FrameAction::Ignore
        },
{
    if opcode == 8 {
        FrameAction::Close
    } else if opcode == 9 {
        FrameAction::Pong
    } else if opcode == 1 {
        FrameAction::Text
    } else {
        FrameAction::Ignore
    }
}

/// The first byte of a pong frame (final fragment, opcode 10).
pub const PONG_FIRST: u8 = 0x8A;

/// The first byte of a text frame (final fragment, opcode 1).
pub const TEXT_FIRST: u8 = 0x81;

/// What an editor message of the given `type` asks for.
#[derive(Debug, Clone, Copy, PartialEq, Eq, Structural)]
pub enum EditorCommand {
    /// The message carries the edited topology.
    Update,
    /// Save the topology.
    Save,
    /// Stop the editor.
    Close,
}

/// Reads the `type` of an editor message; other types are ignored.
pub fn editor_command(kind: Option<&str>) -> (r: Option<EditorCommand>)
    ensures
        r == match kind {
            Some(k) => if k@ == "update"@ {
                Some(EditorCommand::Update)
            } else if k@ == "save"@ {
                Some(EditorCommand::Save)
            } else if k@ == "close"@ {
                Some(EditorCommand::Close)
            } else {
                None
            },
            None => None,
        },
{
    match kind {
        Some(k) => if str_eq(k, "update") {
            Some(EditorCommand::Update)
        } else if str_eq(k, "save") {
            Some(EditorCommand::Save)
        } else if str_eq(k, "close") {
            Some(EditorCommand::Close)
        } else {
            None
        },
        None => None,
    }
}

// ---------------------------------------------------------------------------
// The request head.

/// Whether a line read from the request ends its head (an empty line).
pub fn ends_head(line: &str) -> (r: bool)
    ensures
        r == (line@ == "\r\n"@ || line@ == "\n"@),
{
    str_eq(line, "\r\n") || str_eq(line, "\n")
}

/// The index of the first `:` in `s`, or -1.
pub open spec fn colon_pos(s: Seq<char>) -> int
    decreases s.len(),
{
    if s.len() == 0 {
        -1
    } else {
        let p = colon_pos(s.drop_last());
        if p >= 0 {
            p
        } else if s.last() == ':' {
            s.len() - 1
        } else {
            -1
        }
    }
}

/// A header line as its name (trimmed and lowercased) and value (trimmed);
/// none for a line without a colon.
pub open spec fn header_entry(line: Seq<char>) -> Option<(Seq<char>, Seq<char>)> {
    let p = colon_pos(line);
    if p < 0 {
        None
    } else {
        Some((lowercase(trim(line.take(p))), trim(line.skip(p + 1))))
    }
}

proof fn lemma_colon_pos_prefix(s: Seq<char>, k: int)
    requires
        0 <= k <= s.len(),
        colon_pos(s.take(k)) == -1,
        k < s.len() ==> s[k] == ':',
    ensures
        k < s.len() ==> colon_pos(s) == k,
    decreases s.len(),
{
    if k < s.len() {
        if s.len() - 1 == k {
            assert(s.drop_last() =~= s.take(k));
        } else {
            assert(s.drop_last().take(k) =~= s.take(k));
            lemma_colon_pos_prefix(s.drop_last(), k);
        }
    }
}

proof fn lemma_colon_pos_range(s: Seq<char>)
    ensures
        -1 <= colon_pos(s) < s.len(),
    decreases s.len(),
{
    if s.len() > 0 {
        lemma_colon_pos_range(s.drop_last());
    }
}

/// Splits a header line into its name and value.
pub fn parse_header_line(line: &str) -> (r: Option<(String, String)>)
    ensures
        match r {
            Some((k, v)) => header_entry(line@) == Some((k@, v@)),
            None => header_entry(line@) is None,
        },
{
    let cs = chars_of(line);
    let mut i: usize = 0;
    assert(cs@.take(0) =~= Seq::<char>::empty());
    while i < cs.len() && cs[i] != ':'
        invariant
            i <= cs@.len(),
            cs@ == line@,
            colon_pos(cs@.take(i as int)) == -1,
        decreases cs@.len() - i,
    {
        assert(cs@.take(i + 1).drop_last() =~= cs@.take(i as int));
        i = i + 1;
    }
    proof {
        lemma_colon_pos_prefix(cs@, i as int);
        lemma_colon_pos_range(cs@);
    }
    if i == cs.len() {
        assert(cs@.take(i as int) =~= cs@);
        return None;
    }
    let mut name_chars: Vec<char> = Vec::new();
    let mut j: usize = 0;
    while j < i
        invariant
            j <= i < cs@.len(),
            name_chars@ == cs@.take(j as int),
        decreases i - j,
    {
        name_chars.push(cs[j]);
        assert(cs@.take(j + 1) =~= cs@.take(j as int).push(cs@[j as int]));
        j = j + 1;
    }
    let mut value_chars: Vec<char> = Vec::new();
    let mut k: usize = i + 1;
    assert(cs@.skip(i + 1).take(0) =~= Seq::<char>::empty());
    while k < cs.len()
        invariant
            i < k <= cs@.len(),
            value_chars@ == cs@.skip(i + 1).take(k - (i + 1)),
        decreases cs@.len() - k,
    {
        value_chars.push(cs[k]);
        assert(cs@.skip(i + 1).take(k + 1 - (i + 1)) =~= cs@.skip(i + 1).take(k - (i + 1)).push(
            cs@[k as int],
        ));
        k = k + 1;
    }
    assert(cs@.skip(i + 1).take(k - (i + 1)) =~= cs@.skip(i + 1));
    let name = string_of(&name_chars);
    let value = string_of(&value_chars);
    let name_trimmed = trim_str(name.as_str());
    let key = to_lower(name_trimmed.as_str());
    let val = trim_str(value.as_str());
    Some((key, val))
}

/// The value of the last header named `name` among the request's header
/// lines (a later header replaces an earlier one of the same name).
pub open spec fn last_header(lines: Seq<Seq<char>>, name: Seq<char>) -> Option<Seq<char>>
    decreases lines.len(),
{
    if lines.len() == 0 {
        None
    } else {
        match header_entry(lines.last()) {
            Some((k, v)) => if k == name {
                Some(v)
            } else {
                last_header(lines.drop_last(), name)
            },
            None => last_header(lines.drop_last(), name),
        }
    }
}

/// Whether the request asks to upgrade to a WebSocket.
pub open spec fn asks_upgrade(lines: Seq<Seq<char>>) -> bool {
    match last_header(lines, "upgrade"@) {
        Some(v) => eq_ignore_ascii_case(v, "websocket"@),
        None => false,
    }
}

/// What a request is for.
pub enum Request {
    /// The editor page.
    Page,
    /// A WebSocket upgrade, with the client's key when it sent one.
    Upgrade { key: Option<String> },
}

/// Looks up the last header named `name`.
fn find_header(lines: &[String], name: &str) -> (r: Option<String>)
    ensures
        match r {
            Some(v) => last_header(views(lines@), name@) == Some(v@),
            None => last_header(views(lines@), name@) is None,
        },
{
    let mut found: Option<String> = None;
    let mut i: usize = 0;
    assert(views(lines@).take(0) =~= Seq::<Seq<char>>::empty());
    while i < lines.len()
        invariant
            i <= lines@.len(),
            match found {
                Some(v) => last_header(views(lines@).take(i as int), name@) == Some(v@),
                None => last_header(views(lines@).take(i as int), name@) is None,
            },
        decreases lines@.len() - i,
    {
        assert(views(lines@).take(i + 1).drop_last() =~= views(lines@).take(i as int));
        assert(views(lines@).take(i + 1).last() == lines@[i as int]@);
        match parse_header_line(lines[i].as_str()) {
            Some((k, v)) => {
                if str_eq(k.as_str(), name) {
                    found = Some(v);
                }
            },
            None => {},
        }
        i = i + 1;
    }
    assert(views(lines@).take(i as int) =~= views(lines@));
    found
}

/// Classifies a request by its header lines (those after the request line
/// are what matter; a line without a colon is skipped).
pub fn classify_request(lines: &[String]) -> (r: Request)
    ensures
        asks_upgrade(views(lines@)) ==> (r matches Request::Upgrade { key } && match key {
            Some(k) => last_header(views(lines@), "sec-websocket-key"@) == Some(k@),
            None => last_header(views(lines@), "sec-websocket-key"@) is None,
        }),
        !asks_upgrade(views(lines@)) ==> r is Page,
{
    let upgrade = find_header(lines, "upgrade");
    let is_ws = match &upgrade {
        Some(v) => str_eq_ignore_ascii_case(v.as_str(), "websocket"),
        None => false,
    };
    if is_ws {
        Request::Upgrade { key: find_header(lines, "sec-websocket-key") }
    } else {
        Request::Page
    }
}

// ---------------------------------------------------------------------------
// Answers.

/// What SHA-1 gives for `data` (`sha1::Sha1`).
pub uninterp spec fn sha1_digest(data: Seq<u8>) -> Seq<u8>;

/// What standard Base64 with padding gives for `data`
/// (`base64::engine::general_purpose::STANDARD`).
pub uninterp spec fn base64_standard(data: Seq<u8>) -> Seq<char>;

/// `Sha1::digest`: the 20-byte SHA-1 digest of `data`. The contract names
/// the digest and states its length; the hash itself is not restated.
#[verifier::external_body]
fn sha1_of(data: &[u8]) -> (r: Vec<u8>)
    ensures
        r@ == sha1_digest(data@),
        r@.len() == 20,
{
    sha1::Sha1::digest(data).to_vec()
}

/// `Engine::encode` of the standard Base64 engine. The contract names the
/// encoding of `data`; the encoding itself is not restated.
#[verifier::external_body]
fn base64_of(data: &[u8]) -> (r: String)
    ensures
        r@ == base64_standard(data@),
{
    base64::engine::general_purpose::STANDARD.encode(data)
}

/// The `Sec-WebSocket-Accept` value answering the client's key: the Base64
/// of the SHA-1 of the key's bytes followed by the GUID.
pub fn accept_key(key: &str) -> (r: String)
    ensures
        r@ == base64_standard(sha1_digest(key.spec_bytes() + WS_GUID.spec_bytes())),
{
    let mut data: Vec<u8> = Vec::new();
    push_bytes(&mut data, key.as_bytes());
    push_bytes(&mut data, WS_GUID.as_bytes());
    assert(data@ =~= key.spec_bytes() + WS_GUID.spec_bytes());
    let digest = sha1_of(data.as_slice());
    base64_of(digest.as_slice())
}

/// The handshake answer for a client key: refused when the client sent no key.
pub fn handshake_response(key: Option<&str>) -> (r: Result<String, String>)
    ensures
        match key {
            None => r matches Err(m) && m@ == "缺少 Sec-WebSocket-Key"@,
            Some(k) => r matches Ok(s) && s@
                == "HTTP/1.1 101 Switching Protocols\r\nUpgrade: websocket\r\nConnection: Upgrade\r\nSec-WebSocket-Accept: "@
                + base64_standard(sha1_digest(k.spec_bytes() + WS_GUID.spec_bytes())) + "\r\n\r\n"@,
        },
{
    match key {
        None => Err(String::from_str("缺少 Sec-WebSocket-Key")),
        Some(k) => {
            let accept = accept_key(k);
            let mut s = String::from_str(
                "HTTP/1.1 101 Switching Protocols\r\nUpgrade: websocket\r\nConnection: Upgrade\r\nSec-WebSocket-Accept: ",
            );
            s.append(accept.as_str());
            s.append("\r\n\r\n");
            Ok(s)
        },
    }
}

/// The response head for the editor page of `body_len` bytes.
pub fn page_response_head(body_len: usize) -> (r: String)
    ensures
        r@ == "HTTP/1.1 200 OK\r\nContent-Type: text/html; charset=utf-8\r\nContent-Length: "@
            + decimal(body_len as nat) + "\r\nConnection: close\r\n\r\n"@,
{
    let mut s = String::from_str(
        "HTTP/1.1 200 OK\r\nContent-Type: text/html; charset=utf-8\r\nContent-Length: ",
    );
    push_decimal(&mut s, body_len as u64);
    s.append("\r\nConnection: close\r\n\r\n");
    s
}

} // verus!
