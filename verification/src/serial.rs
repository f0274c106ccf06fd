//! Serial console ports: how a port is described, whether a device reply
//! looks like a console prompt, and the baud-rate search that tries one rate
//! after another until a prompt answers.
use vstd::prelude::*;
use vstd::string::*;

use crate::text::{contains, has_char, lossy_utf8, lowercase, str_contains, to_lower, utf8_lossy};

verus! {

/// A serial port found on the machine.
#[derive(Debug, Clone)]
pub struct PortInfo {
    pub name: String,
    pub description: String,
}

/// What kind of port the system reports.
#[derive(Debug, Clone)]
pub enum SerialPortKind {
    Usb { manufacturer: Option<String>, product: Option<String> },
    Bluetooth,
    Pci,
    Unknown,
}

/// The text of an optional string, empty when absent.
pub open spec fn opt_text(s: Option<String>) -> Seq<char> {
    match s {
        Some(x) => x@,
        None => Seq::empty(),
    }
}

/// The description of a port: a USB port by its manufacturer and product
/// (either alone, or both separated by a space), or a generic name by kind.
pub open spec fn port_desc_text(t: SerialPortKind) -> Seq<char> {
    match t {
        SerialPortKind::Usb { manufacturer, product } => match (manufacturer, product) {
            (Some(m), Some(p)) => m@ + " "@ + p@,
            (Some(m), None) => m@,
            (None, Some(p)) => p@,
            (None, None) => "USB 串口"@,
        },
        SerialPortKind::Bluetooth => "蓝牙串口"@,
        SerialPortKind::Pci => "PCI 串口"@,
        SerialPortKind::Unknown => "未知串口"@,
    }
}

/// Describes a port for the port list.
pub fn port_desc(t: &SerialPortKind) -> (r: String)
    ensures
        r@ == port_desc_text(*t),
{
    match t {
        SerialPortKind::Usb { manufacturer, product } => match (manufacturer, product) {
            (Some(m), Some(p)) => {
                let mut s = m.clone();
                s.append(" ");
                s.append(p.as_str());
                s
            },
            (Some(m), None) => m.clone(),
            (None, Some(p)) => p.clone(),
            (None, None) => String::from_str("USB 串口"),
        },
        SerialPortKind::Bluetooth => String::from_str("蓝牙串口"),
        SerialPortKind::Pci => String::from_str("PCI 串口"),
        SerialPortKind::Unknown => String::from_str("未知串口"),
    }
}

/// A reply looks like a console prompt: its lowercased text holds `>` or
/// `#`, or asks for a user name, a login or a password.
pub open spec fn prompt_like(data: Seq<u8>) -> bool {
    let s = lowercase(utf8_lossy(data));
    has_char(s, '>') || has_char(s, '#') || contains(s, "username"@) || contains(s, "login"@)
        || contains(s, "password"@)
}

fn text_has_char(s: &str, c: char) -> (r: bool)
    ensures
        r == has_char(s@, c),
{
    let v = crate::text::chars_of(s);
    let mut i: usize = 0;
    while i < v.len()
        invariant
            i <= v@.len(),
            v@ == s@,
            forall|k: int| 0 <= k < i ==> v@[k] != c,
        decreases v@.len() - i,
    {
        if v[i] == c {
            return true;
        }
        i = i + 1;
    }
    false
}

/// Whether a device reply looks like a console prompt.
pub fn looks_like_prompt(data: &[u8]) -> (r: bool)
    ensures
        r == prompt_like(data@),
{
    let text = lossy_utf8(data);
    let low = to_lower(text.as_str());
    let s = low.as_str();
    text_has_char(s, '>') || text_has_char(s, '#') || str_contains(s, "username") || str_contains(
        s,
        "login",
    ) || str_contains(s, "password")
}

/// What the baud-rate search asks for next.
#[derive(Debug, Clone, Copy, PartialEq, Eq, Structural)]
pub enum BaudStep {
    /// Open the port at this rate, send a carriage return, and report the reply.
    Try(u32),
    /// A prompt answered at this rate.
    Found(u32),
    /// No rate gave a prompt.
    Exhausted,
}

/// The baud-rate search over a list of rates, tried in order.
pub struct BaudProbe {
    pub bauds: Vec<u32>,
    /// The index of the rate being tried.
    pub next: usize,
}

/// The step after the rates before `i` gave no prompt.
pub open spec fn step_at(bauds: Seq<u32>, i: int) -> BaudStep {
    if i < bauds.len() {
        BaudStep::Try(bauds[i])
    } else {
        BaudStep::Exhausted
    }
}

impl BaudProbe {
    /// Starts the search: the first rate to try, or nothing to try.
    pub fn start(bauds: Vec<u32>) -> (r: (BaudProbe, BaudStep))
        ensures
            r.0.bauds@ == bauds@,
            r.0.next == 0,
            r.1 == step_at(bauds@, 0),
    {
        let step = if bauds.len() > 0 {
            BaudStep::Try(bauds[0])
        } else {
            BaudStep::Exhausted
        };
        (BaudProbe { bauds, next: 0 }, step)
    }

    /// Takes the reply to the rate being tried (none where the port did not
    /// open or could not be written): the rate is found when the reply looks
    /// like a prompt, else the next rate is tried.
    pub fn on_reply(&mut self, reply: Option<&[u8]>) -> (r: BaudStep)
        requires
            old(self).next < old(self).bauds@.len(),
        ensures
            final(self).bauds@ == old(self).bauds@,
            match reply {
                Some(d) if prompt_like(d@) => {
                    &&& r == BaudStep::Found(old(self).bauds@[old(self).next as int])
                    &&& final(self).next == old(self).next
                },
                _ => {
                    &&& r == step_at(old(self).bauds@, old(self).next + 1)
                    &&& final(self).next == old(self).next + 1
                },
            },
    {
        let found = match reply {
            Some(d) => looks_like_prompt(d),
            None => false,
        };
        if found {
            return BaudStep::Found(self.bauds[self.next]);
        }
        let n = self.bauds.len();
        self.next = self.next + 1;
        if self.next < n {
            BaudStep::Try(self.bauds[self.next])
        } else {
            BaudStep::Exhausted
        }
    }
}

/// The rate a search over `bauds` finds when trying rate `i` gave `replies[i]`
/// (none where the port did not open or could not be written): the first rate
/// whose reply looks like a prompt.
pub open spec fn found_baud(bauds: Seq<u32>, replies: Seq<Option<Seq<u8>>>) -> Option<u32>
    decreases bauds.len(),
{
    if bauds.len() == 0 || replies.len() == 0 {
        None
    } else if (replies[0] matches Some(d) && prompt_like(d)) {
        Some(bauds[0])
    } else {
        found_baud(bauds.skip(1), replies.skip(1))
    }
}

/// The views of optional byte buffers.
pub open spec fn reply_views(v: Seq<Option<Vec<u8>>>) -> Seq<Option<Seq<u8>>> {
    v.map_values(
        |r: Option<Vec<u8>>|
            match r {
                Some(b) => Some(b@),
                None => None,
            },
    )
}

/// The rate found by trying `bauds` in order, given the reply each gave.
pub fn probe_baud(bauds: &[u32], replies: &[Option<Vec<u8>>]) -> (r: Option<u32>)
    ensures
        r == found_baud(bauds@, reply_views(replies@)),
{
    let mut i: usize = 0;
    assert(bauds@.skip(0) =~= bauds@);
    assert(reply_views(replies@).skip(0) =~= reply_views(replies@));
    while i < bauds.len() && i < replies.len()
        invariant
            i <= bauds@.len(),
            i <= replies@.len(),
            found_baud(bauds@.skip(i as int), reply_views(replies@).skip(i as int)) == found_baud(
                bauds@,
                reply_views(replies@),
            ),
        decreases bauds@.len() - i,
    {
        let hit = match &replies[i] {
            Some(d) => looks_like_prompt(d.as_slice()),
            None => false,
        };
        assert(bauds@.skip(i as int)[0] == bauds@[i as int]);
        assert(reply_views(replies@).skip(i as int)[0] == reply_views(replies@)[i as int]);
        if hit {
            return Some(bauds[i]);
        }
        assert(bauds@.skip(i as int).skip(1) =~= bauds@.skip(i + 1));
        assert(reply_views(replies@).skip(i as int).skip(1) =~= reply_views(replies@).skip(i + 1));
        i = i + 1;
    }
    None
}

/// A scan accepts a port whose reply looks like a prompt or is empty.
pub open spec fn scan_accepts(data: Seq<u8>) -> bool {
    prompt_like(data) || lowercase(utf8_lossy(data)).len() == 0
}

/// Whether a port's reply lets the scan connect to it.
pub fn scan_reply_ok(data: &[u8]) -> (r: bool)
    ensures
        r == scan_accepts(data@),
{
    if looks_like_prompt(data) {
        return true;
    }
    let text = lossy_utf8(data);
    let low = to_lower(text.as_str());
    low.as_str().is_empty()
}

/// Any reply whose (lowercased) text shows `>` looks like a prompt, whatever
/// else it holds: user-mode prompts such as `Router>` and `<HUAWEI>` are
/// recognised.
pub proof fn lemma_angle_reply_is_prompt(data: Seq<u8>)
    requires
        has_char(lowercase(utf8_lossy(data)), '>'),
    ensures
        prompt_like(data),
{
}

} // verus!
