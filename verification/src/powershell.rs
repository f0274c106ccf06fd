//! PowerShell invocations whose output is read as UTF-8 JSON.
use vstd::prelude::*;
use vstd::string::*;

use crate::command::{CmdOutput, CmdSpec};
use crate::text::{trim, trim_str};
use crate::topology::views;

verus! {

/// The statement put before every script so that its output is UTF-8.
pub open spec fn ps_preamble() -> Seq<char> {
    "[Console]::OutputEncoding=[System.Text.Encoding]::UTF8;"@
}

/// Whether `c` runs `script` in a non-interactive PowerShell reading UTF-8
/// output, given 30 seconds to finish.
pub open spec fn runs_script(c: CmdSpec, script: Seq<char>) -> bool {
    &&& c.program@ == "powershell"@
    &&& views(c.args@) == seq![
        "-NoProfile"@,
        "-NonInteractive"@,
        "-Command"@,
        ps_preamble() + " "@ + script,
    ]
    &&& c.utf8
    &&& c.timeout_secs == 30
}

/// A PowerShell run of `script`, its output forced to UTF-8.
pub fn run_ps(script: &str) -> (r: CmdSpec)
    ensures
        runs_script(r, script@),
{
    let mut cmd = String::from_str("[Console]::OutputEncoding=[System.Text.Encoding]::UTF8;");
    cmd.append(" ");
    cmd.append(script);
    let args = vec![
        String::from_str("-NoProfile"),
        String::from_str("-NonInteractive"),
        String::from_str("-Command"),
        cmd,
    ];
    let r = CmdSpec { program: String::from_str("powershell"), args, utf8: true, timeout_secs: 30 };
    assert(views(r.args@) =~= seq![
        "-NoProfile"@,
        "-NonInteractive"@,
        "-Command"@,
        ps_preamble() + " "@ + script@,
    ]);
    r
}

/// A PowerShell run of an arbitrary script whose output is shown as is.
pub fn run_ps_raw(script: &str) -> (r: CmdSpec)
    ensures
        runs_script(r, script@),
{
    run_ps(script)
}

/// The JSON text a PowerShell run produced: its trimmed standard output when
/// the run succeeded and printed something; none otherwise.
pub fn run_ps_json(out: &CmdOutput) -> (r: Option<String>)
    ensures
        r is Some <==> out.success && trim(out.stdout@).len() > 0,
        r matches Some(t) ==> t@ == trim(out.stdout@),
{
    let t = trim_str(out.stdout.as_str());
    if out.success && !t.as_str().is_empty() {
        Some(t)
    } else {
        None
    }
}

} // verus!
