//! Decisions the bot makes around a script run: which command an event reaches,
//! how slash-command options are read, and how a response is laid out.
pub mod events;
pub mod commands;
pub mod presence;
pub mod message;
pub mod trigger_vars;
pub mod interactions;

use vstd::prelude::*;
use crate::executor::{ButtonData, ComponentData, RunResponse};
use crate::decimal::{nat_option, parse_unsigned, parse_unsigned_spec};
use crate::text::{
    chars_of, join, join_spec, views, last_index_of, starts_with_spec, string_of, subrange_of, trim,
    trim_spec,
};

verus! {

// ── Response text ───────────────────────────────────────────────────────

/// The text sent with a response: the errors if there are any, else the output
/// lines, joined by newlines; nothing if both are empty.
pub fn resolve_text_content(data: &RunResponse) -> (r: Option<String>)
    ensures
        data.errors@.len() > 0 ==> (r matches Some(t) && t@ == join_spec(
            views(data.errors@),
            "\n"@,
        )),
        data.errors@.len() == 0 && data.output@.len() > 0 ==> (r matches Some(t) && t@ == join_spec(
            views(data.output@),
            "\n"@,
        )),
        data.errors@.len() == 0 && data.output@.len() == 0 ==> r is None,
{
    if !data.errors.is_empty() {
        return Some(join(&data.errors, "\n"));
    }
    if !data.output.is_empty() {
        return Some(join(&data.output, "\n"));
    }
    None
}

// ── Slash command options ───────────────────────────────────────────────

/// The value of one option of an invoked slash command.
pub enum OptionValue {
    /// A scalar value, as text.
    Scalar(String),
    SubCommand(Vec<CommandOption>),
    SubCommandGroup(Vec<CommandOption>),
    /// Autocomplete and unknown values.
    Other,
}

/// One option of an invoked slash command.
pub struct CommandOption {
    pub name: String,
    pub value: OptionValue,
}

/// Texts by name (option values, cached variable values); a later entry for a
/// name replaces an earlier one.
pub struct TextMap {
    pub entries: Vec<(String, String)>,
}

/// The map that a list of (name, value) entries denotes, later entries winning.
pub open spec fn entries_map(e: Seq<(Seq<char>, Seq<char>)>) -> Map<Seq<char>, Seq<char>>
    decreases e.len(),
{
    if e.len() == 0 {
        Map::empty()
    } else {
        entries_map(e.drop_last()).insert(e.last().0, e.last().1)
    }
}

/// The value of a name in the map of entries is that of its last entry; a
/// name without entries is absent (`k` is the last entry for `name`, or -1).
pub proof fn lemma_entries_lookup(e: Seq<(Seq<char>, Seq<char>)>, name: Seq<char>, k: int)
    requires
        -1 <= k < e.len(),
        k >= 0 ==> e[k].0 == name,
        forall|j: int| k < j < e.len() ==> e[j].0 != name,
    ensures
        k >= 0 ==> entries_map(e).contains_key(name) && entries_map(e)[name] == e[k].1,
        k < 0 ==> !entries_map(e).contains_key(name),
    decreases e.len(),
{
    if e.len() > 0 && k < e.len() - 1 {
        lemma_entries_lookup(e.drop_last(), name, k);
    }
}

pub open spec fn entry_views(e: Seq<(String, String)>) -> Seq<(Seq<char>, Seq<char>)> {
    e.map_values(|p: (String, String)| (p.0@, p.1@))
}

impl View for TextMap {
    type V = Map<Seq<char>, Seq<char>>;

    open spec fn view(&self) -> Map<Seq<char>, Seq<char>> {
        entries_map(entry_views(self.entries@))
    }
}

impl TextMap {
    /// An empty map.
    pub fn new() -> (r: Self)
        ensures
            r@ == Map::<Seq<char>, Seq<char>>::empty(),
            r.entries@.len() == 0,
    {
        TextMap { entries: Vec::new() }
    }

    /// The text under `name`, if any.
    pub fn get(&self, name: &str) -> (r: Option<String>)
        ensures
            match r {
                Some(v) => self@.contains_key(name@) && self@[name@] == v@,
                None => !self@.contains_key(name@),
            },
    {
        let ghost e = entry_views(self.entries@);
        let mut i: usize = self.entries.len();
        while i > 0
            invariant
                i <= self.entries.len(),
                e == entry_views(self.entries@),
                forall|j: int| i <= j < e.len() ==> e[j].0 != name@,
            decreases i,
        {
            let k = i - 1;
            if crate::text::str_eq(self.entries[k].0.as_str(), name) {
                proof {
                    lemma_entries_lookup(e, name@, k as int);
                }
                return Some(self.entries[k].1.clone());
            }
            i = k;
        }
        proof {
            lemma_entries_lookup(e, name@, -1);
        }
        None
    }

    /// Sets `name` to `value`.
    pub fn insert(&mut self, name: String, value: String)
        ensures
            final(self)@ == old(self)@.insert(name@, value@),
    {
        let ghost e0 = entry_views(self.entries@);
        self.entries.push((name, value));
        assert(entry_views(self.entries@).drop_last() =~= e0);
    }
}

/// The scalar options among `opts`, in order, as (name, value).
pub open spec fn scalar_entries(opts: Seq<CommandOption>) -> Seq<(Seq<char>, Seq<char>)>
    decreases opts.len(),
{
    if opts.len() == 0 {
        Seq::empty()
    } else {
        let prev = scalar_entries(opts.drop_last());
        match opts.last().value {
            OptionValue::Scalar(v) => prev.push((opts.last().name@, v@)),
            _ => prev,
        }
    }
}

pub open spec fn entry_values(e: Seq<(Seq<char>, Seq<char>)>) -> Seq<Seq<char>> {
    e.map_values(|p: (Seq<char>, Seq<char>)| p.1)
}

/// Records a scalar option in the map and the positional list; other kinds of
/// options are skipped.
pub fn flatten_option_values(option: &CommandOption, values: &mut TextMap, list: &mut Vec<String>)
    ensures
        match option.value {
            OptionValue::Scalar(v) => final(values)@ == old(values)@.insert(option.name@, v@)
                && views(final(list)@) == views(old(list)@).push(v@),
            _ => final(values)@ == old(values)@ && final(list)@ == old(list)@,
        },
{
    match &option.value {
        OptionValue::Scalar(s) => {
            values.insert(option.name.clone(), s.clone());
            let ghost l0 = list@;
            list.push(s.clone());
            assert(views(list@) =~= views(l0).push(s@));
        },
        _ => {},
    }
}

/// Records every scalar option of `opts` in order.
fn flatten_all(opts: &Vec<CommandOption>, values: &mut TextMap, list: &mut Vec<String>)
    ensures
        final(values)@ == entries_map(entry_views(old(values).entries@) + scalar_entries(opts@)),
        views(final(list)@) == views(old(list)@) + entry_values(scalar_entries(opts@)),
{
    let ghost e0 = entry_views(values.entries@);
    let ghost l0 = views(list@);
    let mut i: usize = 0;
    while i < opts.len()
        invariant
            i <= opts.len(),
            values@ == entries_map(e0 + scalar_entries(opts@.take(i as int))),
            views(list@) == l0 + entry_values(scalar_entries(opts@.take(i as int))),
        decreases opts.len() - i,
    {
        assert(opts@.take(i + 1).drop_last() =~= opts@.take(i as int));
        assert(opts@.take(i + 1).last() == opts@[i as int]);
        let ghost before = scalar_entries(opts@.take(i as int));
        flatten_option_values(&opts[i], values, list);
        proof {
            match opts@[i as int].value {
                OptionValue::Scalar(v) => {
                    assert((e0 + before.push((opts@[i as int].name@, v@))).drop_last() =~= e0
                        + before);
                    assert(entry_values(before.push((opts@[i as int].name@, v@))) =~= entry_values(
                        before,
                    ).push(v@));
                },
                _ => {},
            }
        }
        i = i + 1;
    }
    assert(opts@.take(opts.len() as int) =~= opts@);
}

/// What an invoked slash command leads to: its trigger, and the scalar options
/// that the run sees.
pub open spec fn command_target(name: Seq<char>, options: Seq<CommandOption>) -> (
    Seq<char>,
    Seq<(Seq<char>, Seq<char>)>,
) {
    let base = seq!['/'] + name;
    if options.len() == 0 {
        (base, Seq::empty())
    } else {
        match options[0].value {
            OptionValue::SubCommand(nested) => (
                base + seq![' '] + options[0].name@,
                scalar_entries(nested@),
            ),
            OptionValue::SubCommandGroup(nested) => if nested@.len() > 0 {
                match nested@[0].value {
                    OptionValue::SubCommand(sub_nested) => (
                        base + seq![' '] + options[0].name@ + seq![' '] + nested@[0].name@,
                        scalar_entries(sub_nested@),
                    ),
                    _ => (base, Seq::empty()),
                }
            } else {
                (base, Seq::empty())
            },
            _ => (base, scalar_entries(options)),
        }
    }
}

/// The trigger of an invoked slash command (`/name`, `/name sub` or
/// `/name group sub`), the scalar option values by name, and the same values
/// in order.
pub fn build_command_trigger_and_options(command_name: &str, options: &Vec<CommandOption>) -> (r: (
    String,
    TextMap,
    Vec<String>,
))
    ensures
        r.0@ == command_target(command_name@, options@).0,
        r.1@ == entries_map(command_target(command_name@, options@).1),
        views(r.2@) == entry_values(command_target(command_name@, options@).1),
{
    let mut values = TextMap::new();
    let mut list: Vec<String> = Vec::new();
    let mut trigger = String::new();
    crate::text::push_char(&mut trigger, '/');
    trigger.append(command_name);
    assert(entry_views(values.entries@) =~= Seq::empty());
    assert(views(list@) =~= Seq::empty());
    if options.len() > 0 {
        let first = &options[0];
        match &first.value {
            OptionValue::SubCommand(nested) => {
                crate::text::push_char(&mut trigger, ' ');
                trigger.append(first.name.as_str());
                flatten_all(nested, &mut values, &mut list);
            },
            OptionValue::SubCommandGroup(nested) => {
                if nested.len() > 0 {
                    let sub = &nested[0];
                    match &sub.value {
                        OptionValue::SubCommand(sub_nested) => {
                            crate::text::push_char(&mut trigger, ' ');
                            trigger.append(first.name.as_str());
                            crate::text::push_char(&mut trigger, ' ');
                            trigger.append(sub.name.as_str());
                            flatten_all(sub_nested, &mut values, &mut list);
                        },
                        _ => {},
                    }
                }
            },
            _ => {
                flatten_all(options, &mut values, &mut list);
            },
        }
    }
    let ghost t = command_target(command_name@, options@);
    assert(trigger@ =~= t.0);
    assert(entry_views(Seq::<(String, String)>::empty()) + t.1 =~= t.1);
    assert(Seq::<Seq<char>>::empty() + entry_values(t.1) =~= entry_values(t.1));
    (trigger, values, list)
}

// ── Component layout ────────────────────────────────────────────────────

/// The elements of the rows, row after row.
pub open spec fn flatten(rows: Seq<Seq<int>>) -> Seq<int>
    decreases rows.len(),
{
    if rows.len() == 0 {
        Seq::empty()
    } else {
        flatten(rows.drop_last()) + rows.last()
    }
}

/// The indices `0..n` in order.
pub open spec fn indices(n: int) -> Seq<int> {
    Seq::new(n as nat, |k: int| k)
}

/// One button placed: a requested new row closes a non-empty row, a full row of
/// five is closed, then the button joins the open row.
pub open spec fn layout_step(rows: Seq<Seq<int>>, cur: Seq<int>, k: int, new_row: bool) -> (
    Seq<Seq<int>>,
    Seq<int>,
) {
    let rows1 = if new_row && cur.len() > 0 {
        rows.push(cur)
    } else {
        rows
    };
    let cur1 = if new_row && cur.len() > 0 {
        Seq::empty()
    } else {
        cur
    };
    let rows2 = if cur1.len() == 5 {
        rows1.push(cur1)
    } else {
        rows1
    };
    let cur2 = if cur1.len() == 5 {
        Seq::empty()
    } else {
        cur1
    };
    (rows2, cur2.push(k))
}

/// The closed rows and the open row after placing the first `i` buttons, whose
/// new-row requests are `flags`.
pub open spec fn layout_prefix(flags: Seq<bool>, i: int) -> (Seq<Seq<int>>, Seq<int>)
    decreases i,
{
    if i <= 0 {
        (Seq::empty(), Seq::empty())
    } else {
        let prev = layout_prefix(flags, i - 1);
        layout_step(prev.0, prev.1, i - 1, flags[i - 1])
    }
}

/// The rows of button indices for buttons whose new-row requests are `flags`.
pub open spec fn button_layout_spec(flags: Seq<bool>) -> Seq<Seq<int>> {
    let last = layout_prefix(flags, flags.len() as int);
    if last.1.len() > 0 {
        last.0.push(last.1)
    } else {
        last.0
    }
}

/// Button `k` is the first of one of the rows.
pub open spec fn starts_a_row(rows: Seq<Seq<int>>, k: int) -> bool {
    exists|r: int| 0 <= r < rows.len() && rows[r].len() > 0 && #[trigger] rows[r][0] == k
}

/// Every row holds one to five buttons.
pub open spec fn rows_sized(rows: Seq<Seq<int>>) -> bool {
    forall|r: int| 0 <= r < rows.len() ==> 1 <= #[trigger] rows[r].len() <= 5
}

pub open spec fn new_row_flags(buttons: Seq<ButtonData>) -> Seq<bool> {
    buttons.map_values(|b: ButtonData| b.new_row)
}

pub open spec fn rows_view(rows: Seq<Vec<usize>>) -> Seq<Seq<int>> {
    rows.map_values(|r: Vec<usize>| r@.map_values(|k: usize| k as int))
}

proof fn lemma_flatten_push(rows: Seq<Seq<int>>, x: Seq<int>)
    ensures
        flatten(rows.push(x)) == flatten(rows) + x,
{
    assert(rows.push(x).drop_last() =~= rows);
}

proof fn lemma_layout_prefix(flags: Seq<bool>, i: int)
    requires
        0 <= i <= flags.len(),
    ensures
        ({
            let (rows, cur) = layout_prefix(flags, i);
            &&& flatten(rows) + cur =~= indices(i)
            &&& rows_sized(rows)
            &&& cur.len() <= 5
            &&& (i > 0 <==> cur.len() > 0)
            &&& forall|k: int|
                0 <= k < i && flags[k] ==> starts_a_row(rows, k) || cur[0] == k
        }),
    decreases i,
{
    if i > 0 {
        lemma_layout_prefix(flags, i - 1);
        let (rows, cur) = layout_prefix(flags, i - 1);
        let new_row = flags[i - 1];
        let rows1 = if new_row && cur.len() > 0 {
            rows.push(cur)
        } else {
            rows
        };
        let cur1 = if new_row && cur.len() > 0 {
            Seq::<int>::empty()
        } else {
            cur
        };
        lemma_flatten_push(rows, cur);
        assert(flatten(rows1) + cur1 =~= indices(i - 1));
        assert(rows_sized(rows1));
        assert forall|k: int| 0 <= k < i - 1 && flags[k] implies starts_a_row(rows1, k) || (
        cur1.len() > 0 && cur1[0] == k) by {
            if new_row && cur.len() > 0 && !starts_a_row(rows, k) {
                assert(rows1[rows.len() as int] == cur);
            }
            if starts_a_row(rows, k) {
                let r = choose|r: int| 0 <= r < rows.len() && rows[r].len() > 0 && #[trigger] rows[r][0] == k;
                assert(rows1[r] == rows[r]);
            }
        }
        let rows2 = if cur1.len() == 5 {
            rows1.push(cur1)
        } else {
            rows1
        };
        let cur2 = if cur1.len() == 5 {
            Seq::<int>::empty()
        } else {
            cur1
        };
        lemma_flatten_push(rows1, cur1);
        assert(flatten(rows2) + cur2 =~= indices(i - 1));
        assert(rows_sized(rows2));
        assert forall|k: int| 0 <= k < i - 1 && flags[k] implies starts_a_row(rows2, k) || (
        cur2.len() > 0 && cur2[0] == k) by {
            if cur1.len() == 5 && !starts_a_row(rows1, k) {
                assert(rows2[rows1.len() as int] == cur1);
            }
            if starts_a_row(rows1, k) {
                let r = choose|r: int| 0 <= r < rows1.len() && rows1[r].len() > 0 && #[trigger] rows1[r][0] == k;
                assert(rows2[r] == rows1[r]);
            }
        }
        let (rows3, cur3) = layout_prefix(flags, i);
        assert(rows3 == rows2 && cur3 == cur2.push(i - 1));
        assert(indices(i - 1).push(i - 1) =~= indices(i));
        assert(flatten(rows3) + cur3 =~= indices(i));
        assert forall|k: int| 0 <= k < i && flags[k] implies starts_a_row(rows3, k) || cur3[0] == k by {
            if k < i - 1 {
                if !starts_a_row(rows2, k) {
                    assert(cur2.len() > 0 && cur2[0] == k);
                    assert(cur3[0] == cur2[0]);
                }
            } else {
                assert(cur2.len() == 0);
            }
        }
    }
}

/// Law of the button layout: the rows hold every button exactly once and in
/// order, each row holds one to five buttons, and every button that asks for a
/// new row is the first of its row.
pub proof fn button_layout_laws(flags: Seq<bool>)
    ensures
        flatten(button_layout_spec(flags)) =~= indices(flags.len() as int),
        rows_sized(button_layout_spec(flags)),
        forall|k: int|
            0 <= k < flags.len() && flags[k] ==> starts_a_row(button_layout_spec(flags), k),
{
    let n = flags.len() as int;
    lemma_layout_prefix(flags, n);
    let (rows, cur) = layout_prefix(flags, n);
    if cur.len() > 0 {
        lemma_flatten_push(rows, cur);
        assert forall|k: int| 0 <= k < n && flags[k] implies starts_a_row(
            button_layout_spec(flags),
            k,
        ) by {
            if starts_a_row(rows, k) {
                let r = choose|r: int| 0 <= r < rows.len() && rows[r].len() > 0 && #[trigger] rows[r][0] == k;
                assert(rows.push(cur)[r] == rows[r]);
            } else {
                assert(rows.push(cur)[rows.len() as int] == cur);
            }
        }
    } else {
        assert(cur =~= Seq::<int>::empty());
        assert(flatten(rows) + cur =~= flatten(rows));
    }
}

/// The rows of buttons in a response: buttons in order, a new row where a button
/// asks for one, and at most five buttons per row.
pub fn button_rows(buttons: &Vec<ButtonData>) -> (r: Vec<Vec<usize>>)
    ensures
        rows_view(r@) == button_layout_spec(new_row_flags(buttons@)),
        flatten(rows_view(r@)) =~= indices(buttons@.len() as int),
        rows_sized(rows_view(r@)),
        forall|k: int|
            0 <= k < buttons@.len() && buttons@[k].new_row ==> starts_a_row(rows_view(r@), k),
{
    let ghost flags = new_row_flags(buttons@);
    let mut rows: Vec<Vec<usize>> = Vec::new();
    let mut cur: Vec<usize> = Vec::new();
    let mut i: usize = 0;
    while i < buttons.len()
        invariant
            i <= buttons.len(),
            flags == new_row_flags(buttons@),
            (rows_view(rows@), cur@.map_values(|k: usize| k as int)) == layout_prefix(
                flags,
                i as int,
            ),
        decreases buttons.len() - i,
    {
        let ghost rows0 = rows_view(rows@);
        let ghost cur0 = cur@.map_values(|k: usize| k as int);
        if buttons[i].new_row && cur.len() > 0 {
            rows.push(cur);
            cur = Vec::new();
            assert(rows_view(rows@) =~= rows0.push(cur0));
        }
        let ghost rows1 = rows_view(rows@);
        let ghost cur1 = cur@.map_values(|k: usize| k as int);
        if cur.len() == 5 {
            rows.push(cur);
            cur = Vec::new();
            assert(rows_view(rows@) =~= rows1.push(cur1));
        }
        let ghost cur2 = cur@.map_values(|k: usize| k as int);
        cur.push(i);
        assert(cur@.map_values(|k: usize| k as int) =~= cur2.push(i as int));
        assert(cur@.map_values(|k: usize| k as int) =~= layout_prefix(flags, i + 1).1);
        assert(rows_view(rows@) =~= layout_prefix(flags, i + 1).0);
        i = i + 1;
    }
    assert(flags.len() == buttons@.len());
    if cur.len() > 0 {
        let ghost rows0 = rows_view(rows@);
        let ghost cur0 = cur@.map_values(|k: usize| k as int);
        rows.push(cur);
        assert(rows_view(rows@) =~= rows0.push(cur0));
    }
    proof {
        button_layout_laws(flags);
        assert forall|k: int| 0 <= k < buttons@.len() && buttons@[k].new_row implies starts_a_row(
            rows_view(rows@),
            k,
        ) by {
            assert(flags[k]);
        }
    }
    rows
}

/// A row of components in a response.
pub enum ComponentRow {
    /// A row of buttons, by their positions among the response's buttons.
    Buttons(Vec<usize>),
    /// The response's select menu.
    SelectMenu,
}

/// The rows of components in a response: the button rows of `button_rows`,
/// then one row for the select menu where there is one, last.
pub fn component_rows(data: &ComponentData) -> (r: Vec<ComponentRow>)
    ensures
        ({
            let layout = button_layout_spec(new_row_flags(data.buttons@));
            &&& r@.len() == layout.len() + (if data.select_menu is Some { 1int } else { 0int })
            &&& forall|j: int|
                0 <= j < layout.len() ==> (#[trigger] r@[j] matches ComponentRow::Buttons(b)
                    && b@.map_values(|k: usize| k as int) == layout[j])
            &&& data.select_menu is Some ==> r@[r@.len() - 1] is SelectMenu
        }),
        r@.len() == 0 <==> (data.buttons@.len() == 0 && data.select_menu is None),
{
    let rows = button_rows(&data.buttons);
    let ghost layout = button_layout_spec(new_row_flags(data.buttons@));
    let mut out: Vec<ComponentRow> = Vec::new();
    let mut i: usize = 0;
    while i < rows.len()
        invariant
            i <= rows.len(),
            rows_view(rows@) == layout,
            out@.len() == i,
            forall|j: int|
                0 <= j < i ==> (#[trigger] out@[j] matches ComponentRow::Buttons(b)
                    && b@.map_values(|k: usize| k as int) == layout[j]),
        decreases rows.len() - i,
    {
        let row = rows[i].clone();
        assert(row@ == rows@[i as int]@);
        assert(row@.map_values(|k: usize| k as int) == layout[i as int]);
        out.push(ComponentRow::Buttons(row));
        i = i + 1;
    }
    proof {
        if data.buttons@.len() == 0 {
            assert(flatten(layout) =~= indices(0));
            if layout.len() > 0 {
                lemma_flatten_len_positive(layout);
            }
        } else {
            assert(flatten(layout) =~= indices(data.buttons@.len() as int));
            if layout.len() == 0 {
                assert(flatten(layout) =~= Seq::<int>::empty());
                assert(indices(data.buttons@.len() as int).len() > 0);
            }
        }
    }
    if data.select_menu.is_some() {
        out.push(ComponentRow::SelectMenu);
    }
    out
}

proof fn lemma_flatten_len_positive(rows: Seq<Seq<int>>)
    requires
        rows.len() > 0,
        rows_sized(rows),
    ensures
        flatten(rows).len() > 0,
    decreases rows.len(),
{
    assert(rows[rows.len() - 1].len() >= 1);
}

/// How a non-link button is drawn.
pub enum ButtonStyleKind {
    Primary,
    Secondary,
    Success,
    Danger,
}

/// The style a style name stands for: primary, success and danger by name, any
/// other name secondary.
pub open spec fn style_named(style: Seq<char>) -> ButtonStyleKind {
    if style == "primary"@ {
        ButtonStyleKind::Primary
    } else if style == "success"@ {
        ButtonStyleKind::Success
    } else if style == "danger"@ {
        ButtonStyleKind::Danger
    } else {
        ButtonStyleKind::Secondary
    }
}

/// The style of a non-link button.
pub fn button_style(style: &str) -> (r: ButtonStyleKind)
    ensures
        r == style_named(style@),
{
    if crate::text::str_eq(style, "primary") {
        ButtonStyleKind::Primary
    } else if crate::text::str_eq(style, "success") {
        ButtonStyleKind::Success
    } else if crate::text::str_eq(style, "danger") {
        ButtonStyleKind::Danger
    } else {
        ButtonStyleKind::Secondary
    }
}

/// The emoji shown on a button.
pub enum ButtonEmoji {
    /// A custom emoji by ID.
    Custom(u64),
    /// A Unicode emoji: the first character of the text.
    Unicode(char),
}

/// The emoji for a button's emoji text: a custom emoji where the text is a
/// numeric ID, else its first character; none for empty text.
pub fn button_emoji(emoji: &str) -> (r: Option<ButtonEmoji>)
    ensures
        crate::decimal::parse_unsigned_spec(emoji@, u64::MAX as nat) matches Some(id) ==> (r matches Some(
            ButtonEmoji::Custom(x),
        ) && x == id),
        crate::decimal::parse_unsigned_spec(emoji@, u64::MAX as nat) is None && emoji@.len() > 0 ==> (
        r matches Some(ButtonEmoji::Unicode(c)) && c == emoji@[0]),
        crate::decimal::parse_unsigned_spec(emoji@, u64::MAX as nat) is None && emoji@.len() == 0
            ==> r is None,
{
    let v = crate::text::chars_of(emoji);
    match crate::decimal::parse_unsigned(v.as_slice(), u64::MAX) {
        Some(id) => Some(ButtonEmoji::Custom(id)),
        None => {
            if v.len() > 0 {
                Some(ButtonEmoji::Unicode(v[0]))
            } else {
                None
            }
        },
    }
}

/// The kind of a select menu.
pub enum SelectKind {
    User,
    Role,
    Mentionable,
    /// A menu of the given string options (every other kind name).
    Strings,
}

/// The kind a kind name stands for: user, role and mentionable; any other name
/// gives a string menu.
pub open spec fn select_kind_named(kind: Seq<char>) -> SelectKind {
    if kind == "user"@ {
        SelectKind::User
    } else if kind == "role"@ {
        SelectKind::Role
    } else if kind == "mentionable"@ {
        SelectKind::Mentionable
    } else {
        SelectKind::Strings
    }
}

/// The kind of a select menu by name.
pub fn select_kind(kind: &str) -> (r: SelectKind)
    ensures
        r == select_kind_named(kind@),
{
    if crate::text::str_eq(kind, "user") {
        SelectKind::User
    } else if crate::text::str_eq(kind, "role") {
        SelectKind::Role
    } else if crate::text::str_eq(kind, "mentionable") {
        SelectKind::Mentionable
    } else {
        SelectKind::Strings
    }
}

// ── Reactions ───────────────────────────────────────────────────────────

/// A reaction to put on a message.
pub enum ReactionSpec {
    /// A custom emoji.
    Custom { animated: bool, id: u64, name: Option<String> },
    /// A Unicode emoji.
    Unicode(String),
}

/// The parts of a custom emoji written `<:name:id>` or `<a:name:id>` (the leading
/// `:` may be left out): whether it is animated, its ID and its name.
pub open spec fn custom_emoji_parts(t: Seq<char>) -> Option<(bool, nat, Seq<char>)> {
    if t.len() >= 2 && t[0] == '<' && t.last() == '>' {
        let inner = t.subrange(1, t.len() - 1);
        let animated = starts_with_spec(inner, seq!['a', ':']);
        let body = if animated {
            inner.subrange(2, inner.len() as int)
        } else if inner.len() > 0 && inner[0] == ':' {
            inner.drop_first()
        } else {
            inner
        };
        match last_index_of(body, ':') {
            Some(c) => match parse_unsigned_spec(
                body.subrange(c + 1, body.len() as int),
                u64::MAX as nat,
            ) {
                Some(id) => Some((animated, id, body.subrange(0, c))),
                None => None,
            },
            None => None,
        }
    } else {
        None
    }
}

/// The reaction that emoji text stands for, once trimmed: a custom emoji in
/// `<...>` form, a custom emoji by bare numeric ID, else the text as a Unicode
/// emoji.
pub open spec fn reaction_matches(r: ReactionSpec, s: Seq<char>) -> bool {
    let t = trim_spec(s);
    match custom_emoji_parts(t) {
        Some(p) => r matches ReactionSpec::Custom { animated, id, name } && animated == p.0 && id
            == p.1 && (name matches Some(n) && n@ == p.2),
        None => match parse_unsigned_spec(t, u64::MAX as nat) {
            Some(v) => r matches ReactionSpec::Custom { animated, id, name } && !animated && id == v
                && name is None,
            None => r matches ReactionSpec::Unicode(u) && u@ == t,
        },
    }
}

fn custom_emoji(t: &Vec<char>) -> (r: Option<(bool, u64, Vec<char>)>)
    ensures
        match custom_emoji_parts(t@) {
            Some(p) => r matches Some(q) && q.0 == p.0 && q.1 == p.1 && q.2@ == p.2,
            None => r is None,
        },
{
    let n = t.len();
    if !(n >= 2 && t[0] == '<' && t[n - 1] == '>') {
        return None;
    }
    let inner = subrange_of(t.as_slice(), 1, n - 1);
    let prefix = ['a', ':'];
    let animated = crate::text::starts_with(inner.as_slice(), prefix.as_slice());
    assert(prefix@ =~= seq!['a', ':']);
    let body = if animated {
        subrange_of(inner.as_slice(), 2, inner.len())
    } else if inner.len() > 0 && inner[0] == ':' {
        let b = subrange_of(inner.as_slice(), 1, inner.len());
        assert(b@ =~= inner@.drop_first());
        b
    } else {
        inner
    };
    match crate::text::rfind_char(body.as_slice(), ':') {
        Some(c) => {
            proof {
                crate::text::lemma_last_index_of(body@, ':');
            }
            let id_text = subrange_of(body.as_slice(), c + 1, body.len());
            match parse_unsigned(id_text.as_slice(), u64::MAX) {
                Some(id) => Some((animated, id, subrange_of(body.as_slice(), 0, c))),
                None => None,
            }
        },
        None => None,
    }
}

/// The reaction for emoji text: `<:name:id>` or `<a:name:id>` gives a custom
/// emoji, a bare numeric ID a custom emoji without name, anything else the
/// trimmed text as a Unicode emoji.
pub fn parse_reaction_type(s: &str) -> (r: ReactionSpec)
    ensures
        reaction_matches(r, s@),
{
    let v = chars_of(s);
    let t = trim(v.as_slice());
    match custom_emoji(&t) {
        Some((animated, id, name)) => {
            return ReactionSpec::Custom { animated, id, name: Some(string_of(name.as_slice())) };
        },
        None => {},
    }
    match parse_unsigned(t.as_slice(), u64::MAX) {
        Some(id) => ReactionSpec::Custom { animated: false, id, name: None },
        None => ReactionSpec::Unicode(string_of(t.as_slice())),
    }
}

// ── Where a response goes ───────────────────────────────────────────────

/// The channel for a response to a message: the redirect channel where one is set
/// and is a numeric ID, else the message's channel.
pub fn response_channel(use_channel: &Option<String>, message_channel: u64) -> (r: u64)
    ensures
        r == match use_channel {
            Some(c) => match parse_unsigned_spec(c@, u64::MAX as nat) {
                Some(id) => id,
                None => message_channel as nat,
            },
            None => message_channel as nat,
        },
{
    match use_channel {
        Some(c) => match crate::decimal::parse_u64(c.as_str()) {
            Some(id) => id,
            None => message_channel,
        },
        None => message_channel,
    }
}

/// The channel for the response to an event: the redirect channel where one is
/// set and is a numeric ID, else the event's channel where that is a numeric ID,
/// else none (nothing is sent).
pub fn event_response_channel(use_channel: &Option<String>, default_channel_id: &str) -> (r: Option<
    u64,
>)
    ensures
        nat_option(r) == match use_channel {
            Some(c) => match parse_unsigned_spec(c@, u64::MAX as nat) {
                Some(id) => Some(id),
                None => parse_unsigned_spec(default_channel_id@, u64::MAX as nat),
            },
            None => parse_unsigned_spec(default_channel_id@, u64::MAX as nat),
        },
{
    if let Some(c) = use_channel {
        if let Some(id) = crate::decimal::parse_u64(c.as_str()) {
            return Some(id);
        }
    }
    crate::decimal::parse_u64(default_channel_id)
}

/// The numeric IDs among the texts, in order (the others are skipped).
pub open spec fn parsed_ids(ids: Seq<Seq<char>>) -> Seq<nat>
    decreases ids.len(),
{
    if ids.len() == 0 {
        Seq::empty()
    } else {
        let prev = parsed_ids(ids.drop_last());
        match parse_unsigned_spec(ids.last(), u64::MAX as nat) {
            Some(v) => prev.push(v),
            None => prev,
        }
    }
}

/// The IDs that a mention allow-list names; entries that are not numeric IDs are
/// skipped.
pub fn mention_ids(ids: &Vec<String>) -> (r: Vec<u64>)
    ensures
        r@.map_values(|x: u64| x as nat) == parsed_ids(views(ids@)),
{
    let mut r: Vec<u64> = Vec::new();
    let mut i: usize = 0;
    while i < ids.len()
        invariant
            i <= ids.len(),
            r@.map_values(|x: u64| x as nat) == parsed_ids(views(ids@).take(i as int)),
        decreases ids.len() - i,
    {
        assert(views(ids@).take(i + 1).drop_last() =~= views(ids@).take(i as int));
        let ghost r0 = r@.map_values(|x: u64| x as nat);
        match crate::decimal::parse_u64(ids[i].as_str()) {
            Some(v) => {
                r.push(v);
                assert(r@.map_values(|x: u64| x as nat) =~= r0.push(v as nat));
            },
            None => {},
        }
        i = i + 1;
    }
    assert(views(ids@).take(ids.len() as int) =~= views(ids@));
    r
}

// ── Shards ──────────────────────────────────────────────────────────────

/// The number of shards the bot runs: that of the shard manager's runners, or
/// one where no shard manager is registered.
pub fn total_shard_count(runner_count: Option<usize>) -> (r: u64)
    ensures
        r == match runner_count {
            Some(n) => n as u64,
            None => 1,
        },
{
    match runner_count {
        Some(n) => n as u64,
        None => 1,
    }
}


// ── Laws ────────────────────────────────────────────────────────────────

/// Reading a name after writing it gives the value written; the other names
/// keep their values.
pub proof fn law_text_map_read_after_write(
    before: Map<Seq<char>, Seq<char>>,
    name: Seq<char>,
    value: Seq<char>,
    other: Seq<char>,
)
    requires
        other != name,
    ensures
        before.insert(name, value).contains_key(name),
        before.insert(name, value)[name] == value,
        before.insert(name, value).contains_key(other) == before.contains_key(other),
        before.contains_key(other) ==> before.insert(name, value)[other] == before[other],
{
}

/// Each style name gives its own style and only it does: `primary`, `success`,
/// `danger`; every other name is secondary. So the four give four distinct
/// styles.
pub proof fn law_button_style_names(style: Seq<char>)
    ensures
        style_named(style) == ButtonStyleKind::Primary <==> style == "primary"@,
        style_named(style) == ButtonStyleKind::Success <==> style == "success"@,
        style_named(style) == ButtonStyleKind::Danger <==> style == "danger"@,
        style_named(style) == ButtonStyleKind::Secondary <==> (style != "primary"@ && style
            != "success"@ && style != "danger"@),
{
    reveal_strlit("primary");
    assert("primary"@.len() == 7 && "primary"@[0] == 'p' && "primary"@[1] == 'r');
    reveal_strlit("success");
    assert("success"@.len() == 7 && "success"@[0] == 's' && "success"@[1] == 'u');
    reveal_strlit("danger");
    assert("danger"@.len() == 6 && "danger"@[0] == 'd' && "danger"@[1] == 'a');
}

/// Each select menu kind name gives its own kind and only it does: `user`,
/// `role`, `mentionable`; every other name is a string menu.
pub proof fn law_select_kind_names(kind: Seq<char>)
    ensures
        select_kind_named(kind) == SelectKind::User <==> kind == "user"@,
        select_kind_named(kind) == SelectKind::Role <==> kind == "role"@,
        select_kind_named(kind) == SelectKind::Mentionable <==> kind == "mentionable"@,
        select_kind_named(kind) == SelectKind::Strings <==> (kind != "user"@ && kind != "role"@
            && kind != "mentionable"@),
{
    reveal_strlit("user");
    assert("user"@.len() == 4 && "user"@[0] == 'u' && "user"@[1] == 's');
    reveal_strlit("role");
    assert("role"@.len() == 4 && "role"@[0] == 'r' && "role"@[1] == 'o');
    reveal_strlit("mentionable");
    assert("mentionable"@.len() == 11 && "mentionable"@[0] == 'm' && "mentionable"@[1] == 'e');
}

} // verus!
