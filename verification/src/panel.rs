//! The quick-settings panel as lines of text, each tagged with the row the
//! focus can rest on, and the line that carries the focus.
use vstd::prelude::*;
use vstd::string::*;

use crate::state::{
    advanced_action_list, advanced_actions, field_labels, five_rows, focus_rows_of,
    ip_field_labels, QsRow, QuickSetState,
};
use crate::views::{field_marker, field_value, field_value_text, marker_text};

verus! {

broadcast use vstd::seq_lib::group_seq_properties;

/// The lines of the panel and the index of the focused one.
pub struct QuickPanel {
    pub lines: Vec<String>,
    pub selected: usize,
}

/// The row the focus rests on (the IPv4 switch when the focus is past the rows).
pub open spec fn focused_row(qs: QuickSetState, ipv6_on: bool) -> QsRow {
    let rows = focus_rows_of(qs.ipv4_static, ipv6_on, qs.advanced_open);
    if qs.focus < rows.len() {
        rows[qs.focus as int]
    } else {
        QsRow::Ipv4Toggle
    }
}

/// How a switch shows.
pub open spec fn switch_text(on: bool) -> Seq<char> {
    if on {
        "[开]"@
    } else {
        "[关]"@
    }
}

/// The row of field `i` of the IPv4 or the IPv6 form.
pub open spec fn form_row(v6: bool, i: int) -> QsRow {
    if v6 {
        QsRow::Ipv6Field(i as usize)
    } else {
        QsRow::Ipv4Field(i as usize)
    }
}

/// The five lines of an address form: marker, label and value of each field;
/// field `field_idx` shows as edited when `editing_here`.
pub open spec fn form_entries(
    v6: bool,
    fields: Seq<String>,
    focusable: bool,
    readonly: bool,
    editing_here: bool,
    field_idx: usize,
    cur: QsRow,
) -> Seq<(Option<QsRow>, Seq<char>)> {
    Seq::new(
        5,
        |i: int|
            (
                if focusable {
                    Some(form_row(v6, i))
                } else {
                    None
                },
                marker_text(cur == form_row(v6, i), editing_here && field_idx == i) + " "@
                    + ip_field_labels()[i] + ": "@ + field_value_text(
                    fields[i]@,
                    editing_here && field_idx == i,
                    readonly,
                ),
            ),
    )
}

/// The lines of the advanced actions.
pub open spec fn advanced_entries(cur: QsRow) -> Seq<(Option<QsRow>, Seq<char>)> {
    Seq::new(
        4,
        |i: int|
            (
                Some(QsRow::AdvancedItem(i as usize)),
                marker_text(cur == QsRow::AdvancedItem(i as usize), false) + "   "@
                    + advanced_action_list()[i].0,
            ),
    )
}

/// The MAC address, or `（未知）` when none is known.
pub open spec fn mac_text(mac: Seq<char>) -> Seq<char> {
    if mac.len() == 0 {
        "（未知）"@
    } else {
        mac
    }
}

/// The lines under the form: the last result after a blank line, then the
/// DNS test status.
pub open spec fn tail_entries(result: Option<String>, dns_status: Option<String>) -> Seq<
    (Option<QsRow>, Seq<char>),
> {
    (match result {
        Some(r) => seq![(None, Seq::<char>::empty()), (None, " "@ + r@)],
        None => Seq::empty(),
    }) + (match dns_status {
        Some(s) => seq![(None, " DNS："@ + s@)],
        None => Seq::empty(),
    })
}

/// The IPv4 heading and switch, then its form, whose fields take the focus
/// only when the address is static.
pub open spec fn ipv4_entries(qs: QuickSetState, cur: QsRow) -> Seq<(Option<QsRow>, Seq<char>)> {
    seq![
        (None, " IPv4"@),
        (
            Some(QsRow::Ipv4Toggle),
            marker_text(cur == QsRow::Ipv4Toggle, false) + " 静态 IP / DHCP "@ + switch_text(
                qs.ipv4_static,
            ),
        ),
    ] + form_entries(
        false,
        qs.ipv4_fields@,
        qs.ipv4_static,
        !qs.ipv4_static,
        qs.editing && !qs.editing_v6,
        qs.field_idx,
        cur,
    )
}

/// The IPv6 heading and switch, then its form when IPv6 is on.
pub open spec fn ipv6_entries(qs: QuickSetState, ipv6_on: bool, cur: QsRow) -> Seq<
    (Option<QsRow>, Seq<char>),
> {
    seq![
        (None, " IPv6"@),
        (
            Some(QsRow::Ipv6Toggle),
            marker_text(cur == QsRow::Ipv6Toggle, false) + " 启用 IPv6 "@ + switch_text(ipv6_on),
        ),
    ] + (if ipv6_on {
        form_entries(
            true,
            qs.ipv6_fields@,
            true,
            false,
            qs.editing && qs.editing_v6,
            qs.field_idx,
            cur,
        )
    } else {
        Seq::empty()
    })
}

/// The MAC address, the advanced switch and, when open, the advanced actions.
pub open spec fn advanced_section(qs: QuickSetState, mac: Seq<char>, cur: QsRow) -> Seq<
    (Option<QsRow>, Seq<char>),
> {
    seq![
        (None, " MAC："@ + mac_text(mac)),
        (
            Some(QsRow::AdvancedToggle),
            marker_text(cur == QsRow::AdvancedToggle, false) + " 高级设置 "@ + (if qs.advanced_open {
                "▾"@
            } else {
                "▸"@
            }),
        ),
    ] + (if qs.advanced_open {
        advanced_entries(cur)
    } else {
        Seq::empty()
    })
}

/// The panel: the IPv4 section, the IPv6 section, the MAC address and the
/// advanced section, then the last result and the DNS test status.
pub open spec fn panel_entries(
    qs: QuickSetState,
    ipv6_on: bool,
    mac: Seq<char>,
    dns_status: Option<String>,
) -> Seq<(Option<QsRow>, Seq<char>)> {
    let cur = focused_row(qs, ipv6_on);
    ipv4_entries(qs, cur) + ipv6_entries(qs, ipv6_on, cur) + advanced_section(qs, mac, cur)
        + tail_entries(qs.result, dns_status)
}

/// The rows that the tagged lines stand for, in order.
pub open spec fn focus_tags(s: Seq<(Option<QsRow>, Seq<char>)>) -> Seq<QsRow>
    decreases s.len(),
{
    if s.len() == 0 {
        Seq::empty()
    } else {
        focus_tags(s.drop_last()) + match s.last().0 {
            Some(r) => seq![r],
            None => Seq::empty(),
        }
    }
}

/// The last line tagged with `row`.
pub open spec fn last_tagged(s: Seq<(Option<QsRow>, Seq<char>)>, row: QsRow) -> Option<int>
    decreases s.len(),
{
    if s.len() == 0 {
        None
    } else if s.last().0 == Some(row) {
        Some(s.len() - 1)
    } else {
        last_tagged(s.drop_last(), row)
    }
}

/// The index of the focused line: the last line tagged with the focused
/// row, or the first line when none is.
pub open spec fn selected_line(s: Seq<(Option<QsRow>, Seq<char>)>, row: QsRow) -> int {
    match last_tagged(s, row) {
        Some(k) => k,
        None => 0,
    }
}

proof fn lemma_focus_tags_concat(a: Seq<(Option<QsRow>, Seq<char>)>, b: Seq<(Option<QsRow>, Seq<char>)>)
    ensures
        focus_tags(a + b) == focus_tags(a) + focus_tags(b),
    decreases b.len(),
{
    if b.len() == 0 {
        assert(a + b =~= a);
    } else {
        lemma_focus_tags_concat(a, b.drop_last());
        assert((a + b).drop_last() =~= a + b.drop_last());
        assert((a + b).last() == b.last());
    }
}

proof fn lemma_focus_tags_none(s: Seq<(Option<QsRow>, Seq<char>)>)
    requires
        forall|i: int| 0 <= i < s.len() ==> (#[trigger] s[i]).0 is None,
    ensures
        focus_tags(s) == Seq::<QsRow>::empty(),
    decreases s.len(),
{
    if s.len() > 0 {
        lemma_focus_tags_none(s.drop_last());
    }
}

proof fn lemma_focus_tags_some(s: Seq<(Option<QsRow>, Seq<char>)>)
    requires
        forall|i: int| 0 <= i < s.len() ==> (#[trigger] s[i]).0 is Some,
    ensures
        focus_tags(s) == s.map_values(|e: (Option<QsRow>, Seq<char>)| e.0->0),
    decreases s.len(),
{
    if s.len() > 0 {
        lemma_focus_tags_some(s.drop_last());
        assert(s.map_values(|e: (Option<QsRow>, Seq<char>)| e.0->0) =~= s.drop_last().map_values(
            |e: (Option<QsRow>, Seq<char>)| e.0->0,
        ).push(s.last().0->0));
    }
}

proof fn lemma_last_tagged(s: Seq<(Option<QsRow>, Seq<char>)>, row: QsRow)
    ensures
        last_tagged(s, row) matches Some(k) ==> 0 <= k < s.len() && s[k].0 == Some(row),
        focus_tags(s).contains(row) ==> last_tagged(s, row) is Some,
    decreases s.len(),
{
    if s.len() > 0 {
        lemma_last_tagged(s.drop_last(), row);
        if focus_tags(s).contains(row) && s.last().0 != Some(row) {
            let k = choose|k: int| 0 <= k < focus_tags(s).len() && focus_tags(s)[k] == row;
            let t = focus_tags(s.drop_last());
            assert(k < t.len());
            assert(t[k] == row);
        }
    }
}

proof fn lemma_form_tags(
    v6: bool,
    fields: Seq<String>,
    focusable: bool,
    readonly: bool,
    editing_here: bool,
    field_idx: usize,
    cur: QsRow,
)
    ensures
        focus_tags(form_entries(v6, fields, focusable, readonly, editing_here, field_idx, cur)) == (
        if focusable {
            five_rows(|i: usize| form_row(v6, i as int))
        } else {
            Seq::empty()
        }),
{
    let f = form_entries(v6, fields, focusable, readonly, editing_here, field_idx, cur);
    if focusable {
        lemma_focus_tags_some(f);
        assert(f.map_values(|e: (Option<QsRow>, Seq<char>)| e.0->0) =~= five_rows(
            |i: usize| form_row(v6, i as int),
        ));
    } else {
        lemma_focus_tags_none(f);
    }
}

proof fn lemma_pair_tags(a: (Option<QsRow>, Seq<char>), row: QsRow, t: Seq<char>)
    requires
        a.0 is None,
    ensures
        focus_tags(seq![a, (Some(row), t)]) == seq![row],
{
    let s = seq![a, (Some(row), t)];
    let one = seq![a];
    assert(s.drop_last() =~= one);
    assert(one.drop_last() =~= Seq::<(Option<QsRow>, Seq<char>)>::empty());
    assert(focus_tags(one.drop_last()) == Seq::<QsRow>::empty());
    assert(focus_tags(one) =~= Seq::<QsRow>::empty());
    assert(focus_tags(s) == focus_tags(one) + seq![row]);
    assert(focus_tags(s) =~= seq![row]);
}

proof fn lemma_ipv4_tags(qs: QuickSetState, cur: QsRow)
    ensures
        focus_tags(ipv4_entries(qs, cur)) == seq![QsRow::Ipv4Toggle] + (if qs.ipv4_static {
            five_rows(|i: usize| QsRow::Ipv4Field(i))
        } else {
            Seq::empty()
        }),
{
    let e = ipv4_entries(qs, cur);
    let h = e.take(2);
    let f = form_entries(
        false,
        qs.ipv4_fields@,
        qs.ipv4_static,
        !qs.ipv4_static,
        qs.editing && !qs.editing_v6,
        qs.field_idx,
        cur,
    );
    assert(e =~= h + f);
    assert(h =~= seq![h[0], (Some(QsRow::Ipv4Toggle), h[1].1)]);
    lemma_pair_tags(h[0], QsRow::Ipv4Toggle, h[1].1);
    lemma_focus_tags_concat(h, f);
    lemma_form_tags(
        false,
        qs.ipv4_fields@,
        qs.ipv4_static,
        !qs.ipv4_static,
        qs.editing && !qs.editing_v6,
        qs.field_idx,
        cur,
    );
    assert(five_rows(|i: usize| form_row(false, i as int)) =~= five_rows(
        |i: usize| QsRow::Ipv4Field(i),
    ));
}

proof fn lemma_ipv6_tags(qs: QuickSetState, ipv6_on: bool, cur: QsRow)
    ensures
        focus_tags(ipv6_entries(qs, ipv6_on, cur)) == seq![QsRow::Ipv6Toggle] + (if ipv6_on {
            five_rows(|i: usize| QsRow::Ipv6Field(i))
        } else {
            Seq::empty()
        }),
{
    let e = ipv6_entries(qs, ipv6_on, cur);
    let h = e.take(2);
    let f = if ipv6_on {
        form_entries(
            true,
            qs.ipv6_fields@,
            true,
            false,
            qs.editing && qs.editing_v6,
            qs.field_idx,
            cur,
        )
    } else {
        Seq::empty()
    };
    assert(e =~= h + f);
    assert(h =~= seq![h[0], (Some(QsRow::Ipv6Toggle), h[1].1)]);
    lemma_pair_tags(h[0], QsRow::Ipv6Toggle, h[1].1);
    lemma_focus_tags_concat(h, f);
    if ipv6_on {
        lemma_form_tags(
            true,
            qs.ipv6_fields@,
            true,
            false,
            qs.editing && qs.editing_v6,
            qs.field_idx,
            cur,
        );
        assert(five_rows(|i: usize| form_row(true, i as int)) =~= five_rows(
            |i: usize| QsRow::Ipv6Field(i),
        ));
    } else {
        lemma_focus_tags_none(f);
    }
}

proof fn lemma_advanced_tags(qs: QuickSetState, mac: Seq<char>, cur: QsRow)
    ensures
        focus_tags(advanced_section(qs, mac, cur)) == seq![QsRow::AdvancedToggle] + (
        if qs.advanced_open {
            seq![
                QsRow::AdvancedItem(0),
                QsRow::AdvancedItem(1),
                QsRow::AdvancedItem(2),
                QsRow::AdvancedItem(3),
            ]
        } else {
            Seq::empty()
        }),
{
    let e = advanced_section(qs, mac, cur);
    let h = e.take(2);
    let f = if qs.advanced_open {
        advanced_entries(cur)
    } else {
        Seq::empty()
    };
    assert(e =~= h + f);
    assert(h =~= seq![h[0], (Some(QsRow::AdvancedToggle), h[1].1)]);
    lemma_pair_tags(h[0], QsRow::AdvancedToggle, h[1].1);
    lemma_focus_tags_concat(h, f);
    if qs.advanced_open {
        lemma_focus_tags_some(f);
        assert(f.map_values(|e: (Option<QsRow>, Seq<char>)| e.0->0) =~= seq![
            QsRow::AdvancedItem(0),
            QsRow::AdvancedItem(1),
            QsRow::AdvancedItem(2),
            QsRow::AdvancedItem(3),
        ]);
    } else {
        lemma_focus_tags_none(f);
    }
}

/// The focusable lines of the panel stand, in order, for exactly the rows
/// that the focus moves through.
pub proof fn lemma_panel_focus_rows(
    qs: QuickSetState,
    ipv6_on: bool,
    mac: Seq<char>,
    dns_status: Option<String>,
)
    ensures
        focus_tags(panel_entries(qs, ipv6_on, mac, dns_status)) == focus_rows_of(
            qs.ipv4_static,
            ipv6_on,
            qs.advanced_open,
        ),
{
    let cur = focused_row(qs, ipv6_on);
    let a = ipv4_entries(qs, cur);
    let b = ipv6_entries(qs, ipv6_on, cur);
    let c = advanced_section(qs, mac, cur);
    let d = tail_entries(qs.result, dns_status);
    lemma_focus_tags_concat(a, b);
    lemma_focus_tags_concat(a + b, c);
    lemma_focus_tags_concat(a + b + c, d);
    lemma_focus_tags_none(d);
    lemma_ipv4_tags(qs, cur);
    lemma_ipv6_tags(qs, ipv6_on, cur);
    lemma_advanced_tags(qs, mac, cur);
    assert(focus_tags(panel_entries(qs, ipv6_on, mac, dns_status)) =~= focus_rows_of(
        qs.ipv4_static,
        ipv6_on,
        qs.advanced_open,
    ));
}

/// Lines paired with their tags.
pub open spec fn zipped(tags: Seq<Option<QsRow>>, lines: Seq<String>) -> Seq<
    (Option<QsRow>, Seq<char>),
> {
    Seq::new(tags.len(), |k: int| (tags[k], lines[k]@))
}

fn push_line(
    tags: &mut Vec<Option<QsRow>>,
    lines: &mut Vec<String>,
    focus: Option<QsRow>,
    text: String,
)
    requires
        old(tags)@.len() == old(lines)@.len(),
    ensures
        final(tags)@.len() == final(lines)@.len(),
        zipped(final(tags)@, final(lines)@) == zipped(old(tags)@, old(lines)@) + seq![
            (focus, text@),
        ],
{
    let ghost before = zipped(tags@, lines@);
    tags.push(focus);
    lines.push(text);
    assert(zipped(tags@, lines@) =~= before + seq![(focus, text@)]);
}

fn push_text(tags: &mut Vec<Option<QsRow>>, lines: &mut Vec<String>, focus: Option<QsRow>, text: &str)
    requires
        old(tags)@.len() == old(lines)@.len(),
    ensures
        final(tags)@.len() == final(lines)@.len(),
        zipped(final(tags)@, final(lines)@) == zipped(old(tags)@, old(lines)@) + seq![
            (focus, text@),
        ],
{
    push_line(tags, lines, focus, String::from_str(text));
}

/// `marker + text + switch`.
fn marked(marker: &str, text: &str, tail: &str) -> (r: String)
    ensures
        r@ == marker@ + text@ + tail@,
{
    let mut r = String::from_str(marker);
    r.append(text);
    r.append(tail);
    r
}

fn switch_str(on: bool) -> (r: &'static str)
    ensures
        r@ == switch_text(on),
{
    if on {
        "[开]"
    } else {
        "[关]"
    }
}

fn push_form(
    tags: &mut Vec<Option<QsRow>>,
    lines: &mut Vec<String>,
    v6: bool,
    fields: &[String; 5],
    focusable: bool,
    readonly: bool,
    editing_here: bool,
    field_idx: usize,
    cur: QsRow,
)
    requires
        old(tags)@.len() == old(lines)@.len(),
    ensures
        final(tags)@.len() == final(lines)@.len(),
        zipped(final(tags)@, final(lines)@) == zipped(old(tags)@, old(lines)@) + form_entries(
            v6,
            fields@,
            focusable,
            readonly,
            editing_here,
            field_idx,
            cur,
        ),
{
    let ghost before = zipped(tags@, lines@);
    let ghost form = form_entries(v6, fields@, focusable, readonly, editing_here, field_idx, cur);
    let labels = field_labels();
    proof {
        assert(labels@.map_values(|s: &str| s@).len() == 5);
    }
    let mut i: usize = 0;
    while i < 5
        invariant
            i <= 5,
            labels@.len() == 5,
            tags@.len() == lines@.len(),
            labels@.map_values(|s: &str| s@) == ip_field_labels(),
            form == form_entries(v6, fields@, focusable, readonly, editing_here, field_idx, cur),
            zipped(tags@, lines@) == before + form.take(i as int),
        decreases 5 - i,
    {
        let row = if v6 {
            QsRow::Ipv6Field(i)
        } else {
            QsRow::Ipv4Field(i)
        };
        let ed = editing_here && field_idx == i;
        let mut text = String::from_str(field_marker(cur == row, ed));
        text.append(" ");
        assert(labels@.map_values(|s: &str| s@)[i as int] == labels@[i as int]@);
        text.append(labels[i]);
        text.append(": ");
        let v = field_value(fields[i].as_str(), ed, readonly);
        text.append(v.as_str());
        let focus = if focusable {
            Some(row)
        } else {
            None
        };
        let ghost mid = zipped(tags@, lines@);
        push_line(tags, lines, focus, text);
        assert(form[i as int] == (focus, text@));
        assert(form.take(i + 1) =~= form.take(i as int) + seq![form[i as int]]);
        i += 1;
    }
    assert(form.take(5) =~= form);
}

/// `a` followed by `b`.
fn joined(a: &str, b: &str) -> (r: String)
    ensures
        r@ == a@ + b@,
{
    let mut r = String::from_str(a);
    r.append(b);
    r
}

fn push_ipv4(tags: &mut Vec<Option<QsRow>>, lines: &mut Vec<String>, qs: &QuickSetState, cur: QsRow)
    requires
        old(tags)@.len() == old(lines)@.len(),
    ensures
        final(tags)@.len() == final(lines)@.len(),
        zipped(final(tags)@, final(lines)@) == zipped(old(tags)@, old(lines)@) + ipv4_entries(
            *qs,
            cur,
        ),
{
    let ghost z0 = zipped(tags@, lines@);
    push_text(tags, lines, None, " IPv4");
    let t = marked(
        field_marker(cur == QsRow::Ipv4Toggle, false),
        " 静态 IP / DHCP ",
        switch_str(qs.ipv4_static),
    );
    push_line(tags, lines, Some(QsRow::Ipv4Toggle), t);
    push_form(
        tags,
        lines,
        false,
        &qs.ipv4_fields,
        qs.ipv4_static,
        !qs.ipv4_static,
        qs.editing && !qs.editing_v6,
        qs.field_idx,
        cur,
    );
    assert(zipped(tags@, lines@) =~= z0 + ipv4_entries(*qs, cur));
}

fn push_ipv6(
    tags: &mut Vec<Option<QsRow>>,
    lines: &mut Vec<String>,
    qs: &QuickSetState,
    ipv6_on: bool,
    cur: QsRow,
)
    requires
        old(tags)@.len() == old(lines)@.len(),
    ensures
        final(tags)@.len() == final(lines)@.len(),
        zipped(final(tags)@, final(lines)@) == zipped(old(tags)@, old(lines)@) + ipv6_entries(
            *qs,
            ipv6_on,
            cur,
        ),
{
    let ghost z0 = zipped(tags@, lines@);
    push_text(tags, lines, None, " IPv6");
    let t = marked(field_marker(cur == QsRow::Ipv6Toggle, false), " 启用 IPv6 ", switch_str(ipv6_on));
    push_line(tags, lines, Some(QsRow::Ipv6Toggle), t);
    if ipv6_on {
        push_form(
            tags,
            lines,
            true,
            &qs.ipv6_fields,
            true,
            false,
            qs.editing && qs.editing_v6,
            qs.field_idx,
            cur,
        );
    }
    assert(zipped(tags@, lines@) =~= z0 + ipv6_entries(*qs, ipv6_on, cur));
}

fn push_advanced(
    tags: &mut Vec<Option<QsRow>>,
    lines: &mut Vec<String>,
    qs: &QuickSetState,
    mac: &str,
    cur: QsRow,
)
    requires
        old(tags)@.len() == old(lines)@.len(),
    ensures
        final(tags)@.len() == final(lines)@.len(),
        zipped(final(tags)@, final(lines)@) == zipped(old(tags)@, old(lines)@) + advanced_section(
            *qs,
            mac@,
            cur,
        ),
{
    let ghost z0 = zipped(tags@, lines@);
    let mac_shown = if mac.is_empty() {
        "（未知）"
    } else {
        mac
    };
    let t = joined(" MAC：", mac_shown);
    push_line(tags, lines, None, t);
    let arrow = if qs.advanced_open {
        "▾"
    } else {
        "▸"
    };
    let t = marked(field_marker(cur == QsRow::AdvancedToggle, false), " 高级设置 ", arrow);
    push_line(tags, lines, Some(QsRow::AdvancedToggle), t);
    let ghost a9 = zipped(tags@, lines@);
    if qs.advanced_open {
        let actions = advanced_actions();
        proof {
            assert(actions@.map_values(|p: (&str, crate::state::QuickAction)| (p.0@, p.1)).len()
                == 4);
        }
        let mut i: usize = 0;
        while i < 4
            invariant
                i <= 4,
                actions@.len() == 4,
                tags@.len() == lines@.len(),
                actions@.map_values(|p: (&str, crate::state::QuickAction)| (p.0@, p.1))
                    == advanced_action_list(),
                zipped(tags@, lines@) == a9 + advanced_entries(cur).take(i as int),
            decreases 4 - i,
        {
            let row = QsRow::AdvancedItem(i);
            assert(actions@.map_values(|p: (&str, crate::state::QuickAction)| (p.0@, p.1))[i as int].0
                == actions@[i as int].0@);
            let t = marked(field_marker(cur == row, false), "   ", actions[i].0);
            push_line(tags, lines, Some(row), t);
            assert(advanced_entries(cur).take(i + 1) =~= advanced_entries(cur).take(i as int)
                + seq![advanced_entries(cur)[i as int]]);
            i += 1;
        }
        assert(advanced_entries(cur).take(4) =~= advanced_entries(cur));
    }
    assert(zipped(tags@, lines@) =~= z0 + advanced_section(*qs, mac@, cur));
}

fn push_tail(
    tags: &mut Vec<Option<QsRow>>,
    lines: &mut Vec<String>,
    result: &Option<String>,
    dns_status: &Option<String>,
)
    requires
        old(tags)@.len() == old(lines)@.len(),
    ensures
        final(tags)@.len() == final(lines)@.len(),
        zipped(final(tags)@, final(lines)@) == zipped(old(tags)@, old(lines)@) + tail_entries(
            *result,
            *dns_status,
        ),
{
    let ghost z0 = zipped(tags@, lines@);
    match result {
        Some(res) => {
            push_line(tags, lines, None, String::new());
            let t = joined(" ", res.as_str());
            push_line(tags, lines, None, t);
        },
        None => {},
    }
    let ghost z1 = zipped(tags@, lines@);
    let ghost pr: Seq<(Option<QsRow>, Seq<char>)> = match result {
        Some(r) => seq![(None, Seq::<char>::empty()), (None, " "@ + r@)],
        None => Seq::empty(),
    };
    assert(z1 =~= z0 + pr);
    match dns_status {
        Some(s) => {
            let t = joined(" DNS：", s.as_str());
            push_line(tags, lines, None, t);
        },
        None => {},
    }
    let ghost pd: Seq<(Option<QsRow>, Seq<char>)> = match dns_status {
        Some(s) => seq![(None, " DNS："@ + s@)],
        None => Seq::empty(),
    };
    assert(zipped(tags@, lines@) =~= z1 + pd);
    assert(zipped(tags@, lines@) =~= z0 + tail_entries(*result, *dns_status));
}

/// The panel's lines and the focused one (see `panel_entries`); the caller
/// scrolls so that this line shows.
pub fn quick_panel(qs: &QuickSetState, ipv6_on: bool, mac: &str, dns_status: &Option<String>) -> (r:
    QuickPanel)
    ensures
        r.lines@.map_values(|s: String| s@) == panel_entries(
            *qs,
            ipv6_on,
            mac@,
            *dns_status,
        ).map_values(|e: (Option<QsRow>, Seq<char>)| e.1),
        r.selected == selected_line(
            panel_entries(*qs, ipv6_on, mac@, *dns_status),
            focused_row(*qs, ipv6_on),
        ),
        qs.focus < focus_rows_of(qs.ipv4_static, ipv6_on, qs.advanced_open).len() ==> r.selected
            < r.lines.len() && panel_entries(*qs, ipv6_on, mac@, *dns_status)[r.selected as int].0
            == Some(focused_row(*qs, ipv6_on)),
{
    let cur = qs.current_row(ipv6_on);
    let ghost g = panel_entries(*qs, ipv6_on, mac@, *dns_status);
    let mut tags: Vec<Option<QsRow>> = Vec::new();
    let mut lines: Vec<String> = Vec::new();
    let ghost z0 = zipped(tags@, lines@);
    push_ipv4(&mut tags, &mut lines, qs, cur);
    push_ipv6(&mut tags, &mut lines, qs, ipv6_on, cur);
    push_advanced(&mut tags, &mut lines, qs, mac, cur);
    push_tail(&mut tags, &mut lines, &qs.result, dns_status);
    proof {
        assert(z0 =~= Seq::empty());
        assert(zipped(tags@, lines@) =~= g);
    }
    let mut selected: usize = 0;
    let mut k: usize = 0;
    while k < tags.len()
        invariant
            k <= tags@.len(),
            tags@.len() == lines@.len(),
            zipped(tags@, lines@) == g,
            selected == selected_line(g.take(k as int), cur),
        decreases tags.len() - k,
    {
        proof {
            assert(g.take(k + 1).drop_last() =~= g.take(k as int));
        }
        match tags[k] {
            Some(row) => {
                if row == cur {
                    selected = k;
                }
            },
            None => {},
        }
        k += 1;
    }
    proof {
        assert(g.take(k as int) =~= g);
        assert(lines@.map_values(|s: String| s@) =~= g.map_values(
            |e: (Option<QsRow>, Seq<char>)| e.1,
        ));
        lemma_panel_focus_rows(*qs, ipv6_on, mac@, *dns_status);
        lemma_last_tagged(g, cur);
        if qs.focus < focus_rows_of(qs.ipv4_static, ipv6_on, qs.advanced_open).len() {
            assert(focus_tags(g)[qs.focus as int] == cur);
        }
    }
    QuickPanel { lines, selected }
}

} // verus!
