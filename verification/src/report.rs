//! Diagnosis reports in Markdown and audit log lines.
use vstd::prelude::*;
use vstd::string::*;

use crate::net_diag::{CheckResult, Status};
use crate::seqs::somes;
use crate::state::DiagState;
use crate::text::{contains, occurs_at, replace_all, replace_str};
use crate::topology::views;

verus! {

broadcast use vstd::seq_lib::group_seq_properties;

/// A table cell: `|` escaped as `\|`.
pub open spec fn cell(s: Seq<char>) -> Seq<char> {
    replace_all(s, "|"@, "\\|"@)
}

/// The table row of a result: status, check, detail and suggested fix.
pub open spec fn report_row(r: CheckResult) -> Seq<char> {
    "| "@ + r.status.label_text() + " | "@ + r.name@ + " | "@ + cell(r.detail@) + " | "@ + cell(
        match r.fix {
            Some(f) => f.label@,
            None => Seq::empty(),
        },
    ) + " |\n"@
}

/// The table rows of the results, in order.
pub open spec fn report_rows(rs: Seq<CheckResult>) -> Seq<char>
    decreases rs.len(),
{
    if rs.len() == 0 {
        Seq::empty()
    } else {
        report_rows(rs.drop_last()) + report_row(rs.last())
    }
}

/// The extra lines as a Markdown list.
pub open spec fn extra_items(extra: Seq<Seq<char>>) -> Seq<char>
    decreases extra.len(),
{
    if extra.len() == 0 {
        Seq::empty()
    } else {
        extra_items(extra.drop_last()) + "- "@ + extra.last() + "\n"@
    }
}

/// The report: title, time and conclusion, the results table, and the extra
/// information section when there is any.
pub open spec fn report_text(
    rs: Seq<CheckResult>,
    summary: Seq<char>,
    extra: Seq<Seq<char>>,
    time: Seq<char>,
) -> Seq<char> {
    "# NMTs 网络诊断报告\n\n"@ + "- 生成时间："@ + time + "\n"@ + "- 结论："@ + summary + "\n\n"@
        + "## 检查结果\n\n"@ + "| 状态 | 检查项 | 详情 | 修复建议 |\n"@ + "| --- | --- | --- | --- |\n"@
        + report_rows(rs) + if extra.len() == 0 {
        Seq::empty()
    } else {
        "\n## 附加信息\n\n"@ + extra_items(extra)
    }
}

/// The Markdown diagnosis report, generated at `time` (`%Y-%m-%d %H:%M:%S`).
pub fn diag_report_md(results: &[CheckResult], summary: &str, extra: &[String], time: &str) -> (r:
    String)
    ensures
        r@ == report_text(results@, summary@, views(extra@), time@),
{
    let mut s = report_head(summary, time);
    let ghost head = s@;
    let mut i: usize = 0;
    while i < results.len()
        invariant
            i <= results@.len(),
            s@ == head + report_rows(results@.take(i as int)),
        decreases results@.len() - i,
    {
        push_row(&mut s, &results[i]);
        assert(results@.take(i + 1).drop_last() =~= results@.take(i as int));
        assert(results@.take(i + 1).last() == results@[i as int]);
        assert(s@ =~= head + report_rows(results@.take(i + 1)));
        i = i + 1;
    }
    assert(results@.take(results@.len() as int) =~= results@);
    push_extra(&mut s, extra);
    s
}

/// The title, time, conclusion and table header of a report.
fn report_head(summary: &str, time: &str) -> (s: String)
    ensures
        s@ == "# NMTs 网络诊断报告\n\n"@ + "- 生成时间："@ + time@ + "\n"@ + "- 结论："@ + summary@
            + "\n\n"@ + "## 检查结果\n\n"@ + "| 状态 | 检查项 | 详情 | 修复建议 |\n"@
            + "| --- | --- | --- | --- |\n"@,
{
    let mut s = String::from_str("# NMTs 网络诊断报告\n\n");
    s.append("- 生成时间：");
    s.append(time);
    s.append("\n");
    s.append("- 结论：");
    s.append(summary);
    s.append("\n\n");
    s.append("## 检查结果\n\n");
    s.append("| 状态 | 检查项 | 详情 | 修复建议 |\n");
    s.append("| --- | --- | --- | --- |\n");
    s
}

/// Appends the table row of one result.
fn push_row(s: &mut String, r: &CheckResult)
    ensures
        final(s)@ == old(s)@ + report_row(*r),
{
    proof {
        reveal_strlit("|");
    }
    let ghost start = s@;
    s.append("| ");
    s.append(r.status.label());
    s.append(" | ");
    s.append(r.name.as_str());
    s.append(" | ");
    let d = replace_str(r.detail.as_str(), "|", "\\|");
    s.append(d.as_str());
    s.append(" | ");
    let label = match &r.fix {
        Some(f) => replace_str(f.label.as_str(), "|", "\\|"),
        None => String::new(),
    };
    assert(label@ == cell(
        match r.fix {
            Some(f) => f.label@,
            None => Seq::empty(),
        },
    ));
    s.append(label.as_str());
    s.append(" |\n");
    assert(s@ =~= start + report_row(*r));
}

/// Appends the extra information section, when there is any.
fn push_extra(s: &mut String, extra: &[String])
    ensures
        final(s)@ == old(s)@ + if extra@.len() == 0 {
            Seq::empty()
        } else {
            "\n## 附加信息\n\n"@ + extra_items(views(extra@))
        },
{
    if extra.len() > 0 {
        s.append("\n## 附加信息\n\n");
        let ghost mid = s@;
        let mut k: usize = 0;
        assert(views(extra@.take(0)) =~= Seq::<Seq<char>>::empty());
        while k < extra.len()
            invariant
                k <= extra@.len(),
                s@ == mid + extra_items(views(extra@.take(k as int))),
            decreases extra@.len() - k,
        {
            s.append("- ");
            s.append(extra[k].as_str());
            s.append("\n");
            assert(views(extra@.take(k + 1)).drop_last() =~= views(extra@.take(k as int)));
            assert(s@ =~= mid + extra_items(views(extra@.take(k + 1))));
            k = k + 1;
        }
        assert(extra@.take(extra@.len() as int) =~= extra@);
    } else {
        assert(old(s)@ + Seq::<char>::empty() =~= old(s)@);
    }
}

impl DiagState {
    /// The report of the last run (its finished checks and conclusion),
    /// generated at `time`; refused before any run.
    pub fn export_report(&self, time: &str) -> (r: Result<String, String>)
        ensures
            !self.started ==> (r matches Err(m) && m@ == "请先运行诊断"@),
            self.started ==> (r matches Ok(md) && md@ == report_text(
                somes(self.results@),
                match self.summary {
                    Some(x) => x@,
                    None => Seq::empty(),
                },
                Seq::empty(),
                time@,
            )),
    {
        if !self.started {
            return Err(String::from_str("请先运行诊断"));
        }
        let summary: &str = match &self.summary {
            Some(x) => x.as_str(),
            None => "",
        };
        proof {
            reveal_strlit("");
        }
        let mut s = report_head(summary, time);
        let ghost head = s@;
        let mut i: usize = 0;
        assert(self.results@.take(0) =~= Seq::<Option<CheckResult>>::empty());
        while i < self.results.len()
            invariant
                i <= self.results@.len(),
                s@ == head + report_rows(somes(self.results@.take(i as int))),
            decreases self.results@.len() - i,
        {
            assert(self.results@.take(i + 1).drop_last() =~= self.results@.take(i as int));
            assert(self.results@.take(i + 1).last() == self.results@[i as int]);
            match &self.results[i] {
                Some(r) => {
                    push_row(&mut s, r);
                    assert(somes(self.results@.take(i + 1)).drop_last() =~= somes(
                        self.results@.take(i as int),
                    ));
                    assert(s@ =~= head + report_rows(somes(self.results@.take(i + 1))));
                },
                None => {},
            }
            i = i + 1;
        }
        assert(self.results@.take(i as int) =~= self.results@);
        let empty: Vec<String> = Vec::new();
        push_extra(&mut s, empty.as_slice());
        assert(s@ =~= report_text(
            somes(self.results@),
            summary@,
            Seq::empty(),
            time@,
        ));
        Ok(s)
    }
}

/// An audit log line: time, action and result separated by ` | `.
pub fn audit_line(time: &str, action: &str, result: &str) -> (r: String)
    ensures
        r@ == time@ + " | "@ + action@ + " | "@ + result@ + "\n"@,
{
    let mut s = String::from_str(time);
    s.append(" | ");
    s.append(action);
    s.append(" | ");
    s.append(result);
    s.append("\n");
    s
}

/// The console tag of a check status.
pub open spec fn console_tag(s: Status) -> Seq<char> {
    match s {
        Status::Normal => "[正常]"@,
        Status::Warn => "[警告]"@,
        Status::Error => "[异常]"@,
        _ => "[信息]"@,
    }
}

/// The console lines of a finished check: its tag, name and detail, then
/// the suggested fix when there is one.
pub open spec fn console_result(r: CheckResult) -> Seq<Seq<char>> {
    let head = "  "@ + console_tag(r.status) + " "@ + r.name@ + "："@ + r.detail@;
    match r.fix {
        Some(f) => seq![head, "        → "@ + f.label@],
        None => seq![head],
    }
}

/// The console lines of a finished check, for the text-only diagnosis.
pub fn console_result_lines(r: &CheckResult) -> (v: Vec<String>)
    ensures
        views(v@) == console_result(*r),
{
    let tag = match r.status {
        Status::Normal => "[正常]",
        Status::Warn => "[警告]",
        Status::Error => "[异常]",
        _ => "[信息]",
    };
    let mut head = String::from_str("  ");
    head.append(tag);
    head.append(" ");
    head.append(r.name.as_str());
    head.append("：");
    head.append(r.detail.as_str());
    let mut v: Vec<String> = Vec::new();
    v.push(head);
    match &r.fix {
        Some(f) => {
            let mut l = String::from_str("        → ");
            l.append(f.label.as_str());
            v.push(l);
        },
        None => {},
    }
    assert(views(v@) =~= console_result(*r));
    v
}

/// The first line of the text-only diagnosis: administrator rights and the
/// internet adapter (`未找到` when none).
pub fn console_header(is_admin: bool, adapter: Option<&str>) -> (r: String)
    ensures
        r@ == "管理员权限："@ + (if is_admin {
            "是"@
        } else {
            "否"@
        }) + "；当前上网网卡："@ + match adapter {
            Some(a) => a@,
            None => "未找到"@,
        },
{
    let mut s = String::from_str("管理员权限：");
    s.append(if is_admin {
        "是"
    } else {
        "否"
    });
    s.append("；当前上网网卡：");
    match adapter {
        Some(a) => s.append(a),
        None => s.append("未找到"),
    }
    s
}

/// Text found in a part is found in anything the part is put between.
proof fn lemma_contains_within(a: Seq<char>, b: Seq<char>, c: Seq<char>, n: Seq<char>)
    requires
        contains(b, n),
    ensures
        contains(a + b + c, n),
{
    let i = choose|i: int| occurs_at(b, n, i);
    assert((a + b + c).subrange(a.len() + i, a.len() + i + n.len()) =~= b.subrange(i, i + n.len()));
    assert(occurs_at(a + b + c, n, a.len() + i));
}

proof fn lemma_contains_self(n: Seq<char>)
    ensures
        contains(n, n),
{
    assert(n.subrange(0, n.len() as int) =~= n);
    assert(occurs_at(n, n, 0));
}

/// Every result's row names its check.
proof fn lemma_rows_name_checks(rs: Seq<CheckResult>, k: int)
    requires
        0 <= k < rs.len(),
    ensures
        contains(report_rows(rs), rs[k].name@),
    decreases rs.len(),
{
    let last = rs.last();
    if k == rs.len() - 1 {
        let row = report_row(last);
        let pre = "| "@ + last.status.label_text() + " | "@;
        let post = row.skip((pre.len() + last.name@.len()) as int);
        lemma_contains_self(last.name@);
        assert(row =~= pre + last.name@ + post);
        lemma_contains_within(pre, last.name@, post, last.name@);
        lemma_contains_within(report_rows(rs.drop_last()), row, Seq::empty(), last.name@);
        assert(report_rows(rs) =~= report_rows(rs.drop_last()) + row + Seq::<char>::empty());
    } else {
        lemma_rows_name_checks(rs.drop_last(), k);
        lemma_contains_within(Seq::empty(), report_rows(rs.drop_last()), report_row(last), rs[k].name@);
        assert(report_rows(rs) =~= Seq::<char>::empty() + report_rows(rs.drop_last()) + report_row(last));
    }
}

/// A report lists every check it was given: each result's name appears in
/// the report text.
pub proof fn lemma_report_names_every_check(
    rs: Seq<CheckResult>,
    summary: Seq<char>,
    extra: Seq<Seq<char>>,
    time: Seq<char>,
    k: int,
)
    requires
        0 <= k < rs.len(),
    ensures
        contains(report_text(rs, summary, extra, time), rs[k].name@),
{
    lemma_rows_name_checks(rs, k);
    let head = "# NMTs 网络诊断报告\n\n"@ + "- 生成时间："@ + time + "\n"@ + "- 结论："@ + summary + "\n\n"@
        + "## 检查结果\n\n"@ + "| 状态 | 检查项 | 详情 | 修复建议 |\n"@ + "| --- | --- | --- | --- |\n"@;
    let tail = if extra.len() == 0 {
        Seq::empty()
    } else {
        "\n## 附加信息\n\n"@ + extra_items(extra)
    };
    lemma_contains_within(head, report_rows(rs), tail, rs[k].name@);
    assert(report_text(rs, summary, extra, time) =~= head + report_rows(rs) + tail);
}

/// Every result that has a row of its own (`k` ranges over results).
proof fn lemma_rows_hold_rows(rs: Seq<CheckResult>, k: int)
    requires
        0 <= k < rs.len(),
    ensures
        contains(report_rows(rs), report_row(rs[k])),
    decreases rs.len(),
{
    let last = rs.last();
    if k == rs.len() - 1 {
        lemma_contains_self(report_row(last));
        lemma_contains_within(report_rows(rs.drop_last()), report_row(last), Seq::empty(), report_row(last));
        assert(report_rows(rs) =~= report_rows(rs.drop_last()) + report_row(last) + Seq::<char>::empty());
    } else {
        lemma_rows_hold_rows(rs.drop_last(), k);
        lemma_contains_within(Seq::empty(), report_rows(rs.drop_last()), report_row(last), report_row(rs[k]));
        assert(report_rows(rs) =~= Seq::<char>::empty() + report_rows(rs.drop_last()) + report_row(last));
    }
}

/// The report's table has, for each result with a fix, the row "status |
/// check | detail | fix label", the detail and the label with `|` escaped as
/// `\|`: the suggested fix is written in the fourth column.
pub proof fn lemma_report_shows_fixes(
    rs: Seq<CheckResult>,
    summary: Seq<char>,
    extra: Seq<Seq<char>>,
    time: Seq<char>,
    k: int,
    f: crate::net_diag::Fix,
)
    requires
        0 <= k < rs.len(),
        rs[k].fix == Some(f),
    ensures
        contains(
            report_text(rs, summary, extra, time),
            "| "@ + rs[k].status.label_text() + " | "@ + rs[k].name@ + " | "@ + replace_all(
                rs[k].detail@,
                "|"@,
                "\\|"@,
            ) + " | "@ + replace_all(f.label@, "|"@, "\\|"@) + " |\n"@,
        ),
{
    lemma_rows_hold_rows(rs, k);
    let head = "# NMTs 网络诊断报告\n\n"@ + "- 生成时间："@ + time + "\n"@ + "- 结论："@ + summary + "\n\n"@
        + "## 检查结果\n\n"@ + "| 状态 | 检查项 | 详情 | 修复建议 |\n"@ + "| --- | --- | --- | --- |\n"@;
    let tail = if extra.len() == 0 {
        Seq::empty()
    } else {
        "\n## 附加信息\n\n"@ + extra_items(extra)
    };
    lemma_contains_within(head, report_rows(rs), tail, report_row(rs[k]));
    assert(report_text(rs, summary, extra, time) =~= head + report_rows(rs) + tail);
}

} // verus!
