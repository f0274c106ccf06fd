//! Display helpers shared by the screens: status icons and greedy line
//! wrapping by display width.
use vstd::prelude::*;
use vstd::string::*;

use crate::net_diag::Status;
use crate::text::{chars_of, string_of};
use crate::topology::views;

verus! {

broadcast use vstd::seq_lib::group_seq_properties;

/// The icon of a check status.
pub open spec fn status_icon_text(s: Status) -> Seq<char> {
    match s {
        Status::Normal => "✓"@,
        Status::Warn => "!"@,
        Status::Error => "✗"@,
        Status::Running => "…"@,
        Status::Info => "i"@,
        Status::Pending => "·"@,
    }
}

/// The icon of a check status.
pub fn status_icon(s: Status) -> (r: &'static str)
    ensures
        r@ == status_icon_text(s),
{
    match s {
        Status::Normal => "✓",
        Status::Warn => "!",
        Status::Error => "✗",
        Status::Running => "…",
        Status::Info => "i",
        Status::Pending => "·",
    }
}

/// Display width of a character: two columns for NUL, U+2000..U+9FFF and
/// the full-width forms U+FF00..U+FFEF, one otherwise.
pub open spec fn char_width(c: char) -> nat {
    let u = c as u32;
    if u == 0 || (0x2000 <= u <= 0x9fff) || (0xff00 <= u <= 0xffef) {
        2
    } else {
        1
    }
}

fn width_of(c: char) -> (r: usize)
    ensures
        r == char_width(c),
{
    let u = c as u32;
    if u == 0 || (0x2000 <= u && u <= 0x9fff) || (0xff00 <= u && u <= 0xffef) {
        2
    } else {
        1
    }
}

/// Greedy wrapping from a point: `out` holds the finished lines, `cur` the
/// line being filled and `w` its width. A character starts a new line when it
/// would push a non-empty line past `max`.
pub open spec fn wrap_from(
    rest: Seq<char>,
    max: nat,
    out: Seq<Seq<char>>,
    cur: Seq<char>,
    w: nat,
) -> Seq<Seq<char>>
    decreases rest.len(),
{
    if rest.len() == 0 {
        out.push(cur)
    } else {
        let c = rest[0];
        if w + char_width(c) > max && cur.len() > 0 {
            wrap_from(rest.skip(1), max, out.push(cur), seq![c], char_width(c))
        } else {
            wrap_from(rest.skip(1), max, out, cur.push(c), w + char_width(c))
        }
    }
}

/// The lines of `s` wrapped to `max` columns; the whole text as one line when
/// `max` is zero.
pub open spec fn wrapped(s: Seq<char>, max: nat) -> Seq<Seq<char>> {
    if max == 0 {
        seq![s]
    } else {
        wrap_from(s, max, Seq::empty(), Seq::empty(), 0)
    }
}

/// Wraps a line of text to `max` display columns, breaking between characters.
pub fn wrap_text(s: &str, max: usize) -> (r: Vec<String>)
    ensures
        views(r@) == wrapped(s@, max as nat),
{
    if max == 0 {
        let r = vec![String::from_str(s)];
        assert(views(r@) =~= seq![s@]);
        return r;
    }
    let v = chars_of(s);
    let mut out: Vec<String> = Vec::new();
    let mut cur: Vec<char> = Vec::new();
    let mut w: usize = 0;
    let mut i: usize = 0;
    assert(v@.skip(0) =~= v@);
    assert(views(out@) =~= Seq::<Seq<char>>::empty());
    assert(cur@ =~= Seq::<char>::empty());
    while i < v.len()
        invariant
            i <= v@.len(),
            max > 0,
            w <= max || w <= 2,
            cur@.len() == 0 ==> w == 0,
            wrap_from(v@.skip(i as int), max as nat, views(out@), cur@, w as nat) == wrapped(
                s@,
                max as nat,
            ),
            v@ == s@,
        decreases v@.len() - i,
    {
        let c = v[i];
        let cw = width_of(c);
        assert(v@.skip(i as int)[0] == c);
        assert(v@.skip(i as int).skip(1) =~= v@.skip(i + 1));
        if (w > max || cw > max - w) && cur.len() > 0 {
            let line = string_of(&cur);
            let ghost before = views(out@);
            out.push(line);
            assert(views(out@) =~= before.push(cur@));
            cur = Vec::new();
            cur.push(c);
            assert(cur@ =~= seq![c]);
            w = cw;
        } else {
            cur.push(c);
            w = w + cw;
        }
        i = i + 1;
    }
    let line = string_of(&cur);
    let ghost before = views(out@);
    out.push(line);
    assert(views(out@) =~= before.push(cur@));
    assert(v@.skip(i as int) =~= Seq::<char>::empty());
    out
}

/// The lines of `parts` one after another.
pub open spec fn concat_lines(parts: Seq<Seq<char>>) -> Seq<char>
    decreases parts.len(),
{
    if parts.len() == 0 {
        Seq::empty()
    } else {
        concat_lines(parts.drop_last()) + parts.last()
    }
}

proof fn lemma_concat_push(parts: Seq<Seq<char>>, x: Seq<char>)
    ensures
        concat_lines(parts.push(x)) == concat_lines(parts) + x,
{
    assert(parts.push(x).drop_last() =~= parts);
}

proof fn lemma_wrap_from_concat(rest: Seq<char>, max: nat, out: Seq<Seq<char>>, cur: Seq<char>, w: nat)
    ensures
        concat_lines(wrap_from(rest, max, out, cur, w)) == concat_lines(out) + cur + rest,
    decreases rest.len(),
{
    if rest.len() == 0 {
        lemma_concat_push(out, cur);
        assert(concat_lines(out) + cur + rest =~= concat_lines(out) + cur);
    } else {
        let c = rest[0];
        assert(seq![c] + rest.skip(1) =~= rest);
        if w + char_width(c) > max && cur.len() > 0 {
            lemma_wrap_from_concat(rest.skip(1), max, out.push(cur), seq![c], char_width(c));
            lemma_concat_push(out, cur);
            assert(concat_lines(out) + cur + seq![c] + rest.skip(1) =~= concat_lines(out) + cur
                + rest);
        } else {
            lemma_wrap_from_concat(rest.skip(1), max, out, cur.push(c), w + char_width(c));
            assert(concat_lines(out) + cur.push(c) + rest.skip(1) =~= concat_lines(out) + cur
                + rest);
        }
    }
}

/// Wrapping loses and adds nothing: the wrapped lines, put back one after
/// another, give back the text.
pub proof fn lemma_wrapped_concat(s: Seq<char>, max: nat)
    ensures
        concat_lines(wrapped(s, max)) == s,
{
    assert(concat_lines(Seq::<Seq<char>>::empty()) == Seq::<char>::empty());
    if max == 0 {
        lemma_concat_push(Seq::<Seq<char>>::empty(), s);
        assert(Seq::<Seq<char>>::empty().push(s) =~= seq![s]);
        assert(Seq::<char>::empty() + s =~= s);
    } else {
        lemma_wrap_from_concat(s, max, Seq::empty(), Seq::empty(), 0);
        assert(Seq::<char>::empty() + Seq::<char>::empty() + s =~= s);
    }
}


/// The visual rows of a list whose items are wrapped to `width` columns,
/// each row tagged with the index of its item.
pub open spec fn item_rows(items: Seq<Seq<char>>, width: nat) -> Seq<(int, Seq<char>)>
    decreases items.len(),
{
    if items.len() == 0 {
        Seq::empty()
    } else {
        let k = items.len() - 1;
        item_rows(items.drop_last(), width) + wrapped(items.last(), width).map_values(
            |l: Seq<char>| (k, l),
        )
    }
}

/// The rows of a list as numbers and texts.
pub open spec fn row_views(rows: Seq<(usize, String)>) -> Seq<(int, Seq<char>)> {
    rows.map_values(|p: (usize, String)| (p.0 as int, p.1@))
}

/// The visual rows of a list drawn `width` columns wide (at least one
/// column): every item wrapped, each row tagged with its item's index.
pub fn visual_rows(items: &[String], width: usize) -> (r: Vec<(usize, String)>)
    ensures
        row_views(r@) == item_rows(views(items@), if width == 0 { 1 } else { width as nat }),
{
    let w: usize = if width == 0 { 1 } else { width };
    let mut r: Vec<(usize, String)> = Vec::new();
    let mut i: usize = 0;
    assert(views(items@).take(0) =~= Seq::<Seq<char>>::empty());
    while i < items.len()
        invariant
            i <= items@.len(),
            w == if width == 0 { 1 } else { width as nat },
            row_views(r@) == item_rows(views(items@).take(i as int), w as nat),
        decreases items@.len() - i,
    {
        let lines = wrap_text(items[i].as_str(), w);
        let ghost before = row_views(r@);
        let ghost tagged = wrapped(items@[i as int]@, w as nat).map_values(
            |l: Seq<char>| (i as int, l),
        );
        let mut j: usize = 0;
        while j < lines.len()
            invariant
                j <= lines@.len(),
                views(lines@) == wrapped(items@[i as int]@, w as nat),
                tagged == wrapped(items@[i as int]@, w as nat).map_values(
                    |l: Seq<char>| (i as int, l),
                ),
                row_views(r@) == before + tagged.take(j as int),
            decreases lines@.len() - j,
        {
            let ghost prev = r@;
            r.push((i, lines[j].clone()));
            assert(row_views(r@) =~= row_views(prev).push((i as int, lines@[j as int]@)));
            assert(views(lines@)[j as int] == lines@[j as int]@);
            assert(tagged.take(j + 1) =~= tagged.take(j as int).push(tagged[j as int]));
            j = j + 1;
        }
        assert(tagged.take(j as int) =~= tagged);
        assert(views(items@).take(i + 1).drop_last() =~= views(items@).take(i as int));
        assert(views(items@).take(i + 1).last() == items@[i as int]@);
        i = i + 1;
    }
    assert(views(items@).take(i as int) =~= views(items@));
    r
}

/// The index of the first row owned by item `sel`, or -1 when it owns none.
pub open spec fn first_owned(owners: Seq<usize>, sel: usize) -> int
    decreases owners.len(),
{
    if owners.len() == 0 {
        -1
    } else {
        let f = first_owned(owners.drop_last(), sel);
        if f >= 0 {
            f
        } else if owners.last() == sel {
            owners.len() - 1
        } else {
            -1
        }
    }
}

/// The row the view keeps visible: the selected item's first row, or the
/// top row when it has none.
pub open spec fn anchor_row(owners: Seq<usize>, sel: usize) -> int {
    let f = first_owned(owners, sel);
    if f < 0 {
        0
    } else {
        f
    }
}

/// The new scroll offset of a list view `height` rows high: moved just
/// enough to show the anchor row, then kept within the list.
pub open spec fn scrolled_offset(owners: Seq<usize>, sel: usize, offset: int, height: int) -> int {
    let first = anchor_row(owners, sel);
    let max_off = if owners.len() > height {
        owners.len() - height
    } else {
        0
    };
    let o = if first < offset {
        first
    } else if first >= offset + height {
        first - (height - 1)
    } else {
        offset
    };
    if o < max_off {
        o
    } else {
        max_off
    }
}

proof fn lemma_first_owned_range(owners: Seq<usize>, sel: usize)
    ensures
        -1 <= first_owned(owners, sel) < owners.len(),
        first_owned(owners, sel) >= 0 ==> owners[first_owned(owners, sel)] == sel,
    decreases owners.len(),
{
    if owners.len() > 0 {
        lemma_first_owned_range(owners.drop_last(), sel);
    }
}

/// The scroll offset of a list view `height` rows high after the selection
/// moved to item `selected`. Whenever the list has rows, the anchor row
/// (the selected item's first row) is inside the visible window.
pub fn scroll_offset(rows: &[(usize, String)], selected: usize, offset: usize, height: usize) -> (r: usize)
    requires
        height > 0,
    ensures
        r == scrolled_offset(rows@.map_values(|p: (usize, String)| p.0), selected, offset as int, height as int),
        rows@.len() > 0 ==> r <= anchor_row(rows@.map_values(|p: (usize, String)| p.0), selected) < r + height,
{
    let ghost owners = rows@.map_values(|p: (usize, String)| p.0);
    let mut first: usize = 0;
    let mut found = false;
    let mut k: usize = 0;
    assert(owners.take(0) =~= Seq::<usize>::empty());
    while k < rows.len() && !found
        invariant
            k <= rows@.len(),
            owners == rows@.map_values(|p: (usize, String)| p.0),
            found ==> first_owned(owners, selected) == first as int && first < k,
            !found ==> first_owned(owners.take(k as int), selected) == -1 && first == 0,
        decreases rows@.len() - k,
    {
        assert(owners.take(k + 1).drop_last() =~= owners.take(k as int));
        if rows[k].0 == selected {
            proof {
                lemma_first_owned_prefix(owners, selected, k as int);
            }
            first = k;
            found = true;
        }
        k = k + 1;
    }
    proof {
        if !found {
            assert(owners.take(k as int) =~= owners);
        }
        lemma_first_owned_range(owners, selected);
        assert(first as int == anchor_row(owners, selected));
        assert(owners.len() == rows@.len());
    }
    let max_off: usize = if rows.len() > height { rows.len() - height } else { 0 };
    let o: usize = if first < offset {
        first
    } else if first - offset >= height {
        first - (height - 1)
    } else {
        offset
    };
    if o < max_off {
        o
    } else {
        max_off
    }
}

proof fn lemma_first_owned_prefix(owners: Seq<usize>, sel: usize, k: int)
    requires
        0 <= k < owners.len(),
        first_owned(owners.take(k), sel) == -1,
        owners[k] == sel,
    ensures
        first_owned(owners, sel) == k,
    decreases owners.len(),
{
    if owners.len() - 1 == k {
        assert(owners.drop_last() =~= owners.take(k));
    } else {
        assert(owners.drop_last().take(k) =~= owners.take(k));
        lemma_first_owned_prefix(owners.drop_last(), sel, k);
    }
}

} // verus!
