//! What the options panel shows and what it reads back: the long-press delay
//! box, the exclusion list box and the language list; how the start-at-login
//! setting is brought in line with the checkbox; the help marks; the decoding
//! of the panel's command messages and the layout of its rows.

use vstd::prelude::*;
use crate::config::{
    exclude_list_spec, join_chars, join_spec, long_press_in_range, parse_exclude_list,
    strings_view, Config, MAX_LONG_PRESS_MS, MIN_LONG_PRESS_MS,
};
use crate::i18n::{all_langs, Lang};
use crate::text::{chars_of, push_char, string_from_chars, trim, trim_bounds};

verus! {

/// ASCII decimal digit.
pub open spec fn is_digit(c: char) -> bool {
    '0' <= c <= '9'
}

/// Value of a digit.
pub open spec fn digit_value(c: char) -> nat {
    (c as u32 - '0' as u32) as nat
}

/// Value of a sequence of decimal digits (0 for the empty sequence).
pub open spec fn digits_value(d: Seq<char>) -> nat
    decreases d.len(),
{
    if d.len() == 0 {
        0
    } else {
        digits_value(d.drop_last()) * 10 + digit_value(d.last())
    }
}

/// Every character of `d` is a decimal digit.
pub open spec fn all_digits(d: Seq<char>) -> bool {
    forall|i: int| 0 <= i < d.len() ==> is_digit(#[trigger] d[i])
}

/// `u32::from_str`: an optional `+` followed by at least one decimal digit,
/// with a value that fits in a `u32`; nothing else (no sign `-`, no spaces).
pub open spec fn parse_u32_spec(s: Seq<char>) -> Option<u32> {
    let d = if s.len() > 0 && s[0] == '+' { s.drop_first() } else { s };
    if d.len() > 0 && all_digits(d) && digits_value(d) <= u32::MAX {
        Some(digits_value(d) as u32)
    } else {
        None
    }
}

/// The delay typed in the panel: a whole number of milliseconds, surrounding
/// white space allowed, within the accepted range.
pub open spec fn parse_long_press_spec(s: Seq<char>) -> Option<u32> {
    match parse_u32_spec(trim(s)) {
        Some(v) => if long_press_in_range(v) {
            Some(v)
        } else {
            None
        },
        None => None,
    }
}

/// Decimal digits of `n`, without leading zeros (`"0"` for zero).
pub open spec fn decimal_spec(n: nat) -> Seq<char>
    decreases n,
{
    if n < 10 {
        seq![('0' as u32 + n) as char]
    } else {
        decimal_spec(n / 10).push(('0' as u32 + n % 10) as char)
    }
}

/// A longer run of digits is worth at least as much as its prefix.
proof fn lemma_digits_prefix(d: Seq<char>, k: int)
    requires
        0 <= k <= d.len(),
        all_digits(d),
    ensures
        digits_value(d.take(k)) <= digits_value(d),
    decreases d.len(),
{
    if k < d.len() {
        assert(d.drop_last().take(k) =~= d.take(k));
        lemma_digits_prefix(d.drop_last(), k);
    } else {
        assert(d.take(k) =~= d);
    }
}

/// Parses the long-press delay typed in the options panel: an integer in
/// `100..=5000`, surrounding white space allowed; anything else is refused.
pub fn parse_long_press_ms(s: &str) -> (r: Option<u32>)
    ensures
        r == parse_long_press_spec(s@),
        r matches Some(v) ==> long_press_in_range(v),
{
    let v = chars_of(s);
    let (start, end) = trim_bounds(&v);
    let ghost t = v@.subrange(start as int, end as int);
    let mut i = start;
    if i < end && v[i] == '+' {
        i = i + 1;
    }
    let ghost d = v@.subrange(i as int, end as int);
    assert(d == (if t.len() > 0 && t[0] == '+' { t.drop_first() } else { t }));
    if i == end {
        return None;
    }
    let mut acc: u64 = 0;
    let mut j = i;
    assert(v@.subrange(i as int, i as int) =~= Seq::<char>::empty());
    while j < end
        invariant
            i <= j <= end <= v@.len(),
            d == v@.subrange(i as int, end as int),
            v@ == s@,
            t == trim(s@),
            d == (if t.len() > 0 && t[0] == '+' { t.drop_first() } else { t }),
            acc as nat == digits_value(v@.subrange(i as int, j as int)),
            acc <= u32::MAX,
            all_digits(v@.subrange(i as int, j as int)),
        decreases end - j,
    {
        let c = v[j];
        if !('0' <= c && c <= '9') {
            assert(d[j - i] == c);
            return None;
        }
        let digit = (c as u32 - '0' as u32) as u64;
        assert(v@.subrange(i as int, j + 1).drop_last() =~= v@.subrange(i as int, j as int));
        acc = acc * 10 + digit;
        j = j + 1;
        assert(all_digits(v@.subrange(i as int, j as int)));
        if acc > u32::MAX as u64 {
            proof {
                if all_digits(d) {
                    assert(d.take(j - i) =~= v@.subrange(i as int, j as int));
                    lemma_digits_prefix(d, j - i);
                }
            }
            return None;
        }
    }
    assert(v@.subrange(i as int, end as int) =~= d);
    let value = acc as u32;
    if MIN_LONG_PRESS_MS <= value && value <= MAX_LONG_PRESS_MS {
        Some(value)
    } else {
        None
    }
}


/// The character of a digit value.
fn digit_char(d: u32) -> (c: char)
    requires
        d < 10,
    ensures
        c == ('0' as u32 + d) as char,
{
    match d {
        0 => '0',
        1 => '1',
        2 => '2',
        3 => '3',
        4 => '4',
        5 => '5',
        6 => '6',
        7 => '7',
        8 => '8',
        _ => '9',
    }
}

/// Appends the decimal digits of `n` to `out`.
fn push_decimal(out: &mut String, n: u32)
    ensures
        final(out)@ == old(out)@ + decimal_spec(n as nat),
    decreases n,
{
    if n >= 10 {
        push_decimal(out, n / 10);
    }
    let ghost mid = out@;
    push_char(out, digit_char(n % 10));
    if n >= 10 {
        assert(old(out)@ + decimal_spec(n as nat) =~= mid.push(('0' as u32 + n % 10) as char));
    } else {
        assert(old(out)@ + decimal_spec(n as nat) =~= mid.push(('0' as u32 + n % 10) as char));
    }
}

/// Text of the delay box: the threshold in decimal.
pub fn delay_text(ms: u32) -> (r: String)
    ensures
        r@ == decimal_spec(ms as nat),
{
    let mut out = String::new();
    push_decimal(&mut out, ms);
    assert(out@ =~= decimal_spec(ms as nat));
    out
}

/// Separator between entries in the exclusion box: a line break.
pub open spec fn line_break() -> Seq<char> {
    seq!['\r', '\n']
}

/// Text of the exclusion box: the entries, one per line.
pub fn exclude_text(list: &Vec<String>) -> (r: String)
    ensures
        r@ == join_spec(strings_view(list@), line_break()),
{
    let sep = ['\r', '\n'];
    assert(sep@ =~= line_break());
    let joined = join_chars(list, &sep);
    string_from_chars(&joined, 0, joined.len())
}

/// Decimal digits, their value and their form.
proof fn lemma_decimal(n: nat)
    ensures
        decimal_spec(n).len() > 0,
        all_digits(decimal_spec(n)),
        digits_value(decimal_spec(n)) == n,
        decimal_spec(n)[0] != '+',
        !crate::text::white_space(decimal_spec(n)[0]),
        !crate::text::white_space(decimal_spec(n).last()),
    decreases n,
{
    let c = ('0' as u32 + n % 10) as char;
    assert(c as u32 == '0' as u32 + n % 10);
    assert(digit_value(c) == n % 10);
    if n >= 10 {
        lemma_decimal(n / 10);
        let d = decimal_spec(n);
        assert(d.last() == c);
        assert(d.drop_last() =~= decimal_spec(n / 10));
        assert(digits_value(d) == digits_value(decimal_spec(n / 10)) * 10 + n % 10);
        assert(n == (n / 10) * 10 + n % 10);
    } else {
        let d = decimal_spec(n);
        assert(n % 10 == n);
        assert(d == seq![c]);
        assert(d.drop_last() =~= Seq::<char>::empty());
        assert(d.last() == c);
        assert(digits_value(d) == digits_value(d.drop_last()) * 10 + digit_value(c));
    }
}

/// The delay box shows a threshold so that reading it back gives the same
/// threshold, for every threshold in the accepted range.
pub proof fn lemma_delay_text_roundtrip(ms: u32)
    ensures
        long_press_in_range(ms) ==> parse_long_press_spec(decimal_spec(ms as nat)) == Some(ms),
        parse_u32_spec(decimal_spec(ms as nat)) == Some(ms),
{
    let d = decimal_spec(ms as nat);
    lemma_decimal(ms as nat);
    assert(crate::text::trim_start(d) == d);
    assert(crate::text::trim_end(d) == d);
}

/// The exclusion box shows a list so that saving it unchanged gives back the
/// same entries (lowercased), when every entry is non-empty, free of
/// surrounding white space and of separators.
pub proof fn lemma_exclude_text_roundtrip(list: Seq<Seq<char>>)
    requires
        forall|i: int| 0 <= i < list.len() ==> crate::config::plain_entry(#[trigger] list[i]),
    ensures
        exclude_list_spec(join_spec(list, line_break())) == list.map_values(
            |e: Seq<char>| crate::text::lowercase(e),
        ),
{
    let sep = line_break();
    assert(forall|i: int| 0 <= i < sep.len() ==> crate::config::is_list_separator(#[trigger] sep[i]));
    crate::config::lemma_exclude_list_roundtrip(list, sep);
}

/// Language chosen in the panel's list: the entry at `index` in menu order,
/// Chinese when nothing (or something out of range) is selected.
pub open spec fn lang_at_spec(index: usize) -> Lang {
    if index < all_langs().len() {
        all_langs()[index as int]
    } else {
        Lang::Zh
    }
}

/// Language at position `index` of the panel's list.
pub fn lang_at(index: usize) -> (r: Lang)
    ensures
        r == lang_at_spec(index),
        index < all_langs().len() ==> r == all_langs()[index as int],
        index >= all_langs().len() ==> r == Lang::Zh,
{
    let all = Lang::all();
    if index < 8 {
        all[index]
    } else {
        Lang::Zh
    }
}

/// The panel's language list is `Lang::all()` in order: the entry at the
/// position of a language in that list is that language, so selecting a
/// language and reading the selection back gives the same language, and
/// distinct positions give distinct languages.
pub proof fn lemma_lang_at_positions(l: Lang, i: usize, j: usize)
    ensures
        i < all_langs().len() && all_langs()[i as int] == l ==> lang_at_spec(i) == l,
        i < all_langs().len() && j < all_langs().len() && i != j ==> lang_at_spec(i) != lang_at_spec(j),
        exists|k: usize| k < all_langs().len() && lang_at_spec(k) == l,
{
    crate::i18n::lemma_all_langs_complete(l);
    let k = choose|k: int| 0 <= k < all_langs().len() && all_langs()[k] == l;
    assert(lang_at_spec(k as usize) == l);
}

/// The configuration the panel saves, from the texts of the delay and
/// exclusion boxes, the selected language and the run-as-administrator box;
/// `None` when the delay is not an integer in `100..=5000` (the panel then
/// reports the range and saves nothing).
pub fn options_from_panel(delay: &str, exclude: &str, lang_index: usize, run_as_admin: bool) -> (r: Option<Config>)
    ensures
        r is Some <==> parse_long_press_spec(delay@) is Some,
        r matches Some(c) ==> {
            &&& Some(c.long_press_ms) == parse_long_press_spec(delay@)
            &&& strings_view(c.exclude_processes@) == exclude_list_spec(exclude@)
            &&& c.language@ == lang_at_spec(lang_index).code_spec()
            &&& c.run_as_admin == run_as_admin
            &&& lang_index < all_langs().len() ==> c.language@ == all_langs()[lang_index as int].code_spec()
            &&& lang_index >= all_langs().len() ==> c.language@ == Lang::Zh.code_spec()
        },
{
    broadcast use vstd::string::group_string_axioms;

    let ms = match parse_long_press_ms(delay) {
        Some(v) => v,
        None => return None,
    };
    let lang = lang_at(lang_index);
    Some(
        Config {
            long_press_ms: ms,
            exclude_processes: parse_exclude_list(exclude),
            language: lang.code().to_string(),
            run_as_admin,
        },
    )
}

/// What has to happen to the start-at-login registry value.
#[derive(Debug, Clone, Copy, PartialEq, Eq, Structural)]
pub enum AutostartChange {
    /// Already as wanted.
    Keep,
    /// Write the value (start at login).
    Enable,
    /// Delete the value (do not start at login).
    Disable,
}

/// Brings the start-at-login setting to `want`, given whether it is currently
/// `enabled`: nothing to do when they agree.
pub fn autostart_change(want: bool, enabled: bool) -> (r: AutostartChange)
    ensures
        r == (if want == enabled {
            AutostartChange::Keep
        } else if want {
            AutostartChange::Enable
        } else {
            AutostartChange::Disable
        }),
{
    if want == enabled {
        AutostartChange::Keep
    } else if want {
        AutostartChange::Enable
    } else {
        AutostartChange::Disable
    }
}

/// The start-at-login box as the panel shows it, given the
/// run-as-administrator box: with that box checked it is checked and greyed
/// out (the option implies start at login); otherwise it keeps its state and
/// can be changed. Returns whether it is checked and whether it is enabled.
pub fn autostart_box(admin_checked: bool, autostart_checked: bool) -> (r: (bool, bool))
    ensures
        r == (if admin_checked {
            (true, false)
        } else {
            (autostart_checked, true)
        }),
{
    if admin_checked {
        (true, false)
    } else {
        (autostart_checked, true)
    }
}

/// Control identifier of the start-at-login help mark.
pub const ID_OPT_HELP_AUTOSTART: usize = 2008;
/// Control identifier of the delay help mark.
pub const ID_OPT_HELP_DELAY: usize = 2009;
/// Control identifier of the exclusion help mark.
pub const ID_OPT_HELP_EXCLUDE: usize = 2010;
/// Control identifier of the run-as-administrator box.
pub const ID_OPT_CHECK_ADMIN: usize = 2014;
/// Control identifier of the run-as-administrator help mark.
pub const ID_OPT_HELP_ADMIN: usize = 2015;

/// Clicking a help mark pins its text; clicking the pinned mark again unpins
/// it and hides the text. Returns the new pinned mark and whether the text is
/// to be shown.
pub fn help_click(pinned: Option<usize>, ctrl_id: usize) -> (r: (Option<usize>, bool))
    ensures
        r == (if pinned == Some(ctrl_id) {
            (None::<usize>, false)
        } else {
            (Some(ctrl_id), true)
        }),
{
    match pinned {
        Some(p) if p == ctrl_id => (None, false),
        _ => (Some(ctrl_id), true),
    }
}

/// When the pointer leaves a help mark, its text hides unless it is pinned.
pub fn help_hides_on_leave(pinned: Option<usize>, ctrl_id: usize) -> (r: bool)
    ensures
        r == (pinned != Some(ctrl_id)),
{
    match pinned {
        Some(p) => p != ctrl_id,
        None => true,
    }
}

/// Help text of a help mark, in the language of `strings`.
pub fn help_text(strings: &crate::i18n::Strings, ctrl_id: usize) -> (r: Option<&'static str>)
    ensures
        r == (if ctrl_id == ID_OPT_HELP_AUTOSTART {
            Some(strings.help_autostart)
        } else if ctrl_id == ID_OPT_HELP_DELAY {
            Some(strings.help_delay)
        } else if ctrl_id == ID_OPT_HELP_EXCLUDE {
            Some(strings.help_exclude)
        } else if ctrl_id == ID_OPT_HELP_ADMIN {
            Some(strings.help_run_as_admin)
        } else {
            None
        }),
{
    if ctrl_id == ID_OPT_HELP_AUTOSTART {
        Some(strings.help_autostart)
    } else if ctrl_id == ID_OPT_HELP_DELAY {
        Some(strings.help_delay)
    } else if ctrl_id == ID_OPT_HELP_EXCLUDE {
        Some(strings.help_exclude)
    } else if ctrl_id == ID_OPT_HELP_ADMIN {
        Some(strings.help_run_as_admin)
    } else {
        None
    }
}


/// Control identifier of the save button.
pub const ID_OPT_SAVE: usize = 2003;
/// Notification code of a click (buttons, and static controls with notify).
pub const BN_CLICKED: usize = 0;

/// What a command message to the options panel asks for.
#[derive(Debug, Clone, Copy, PartialEq, Eq, Structural)]
pub enum PanelCommand {
    /// Save the settings.
    Save,
    /// A help mark was clicked.
    HelpClick(usize),
    /// The run-as-administrator box was clicked.
    AdminClick,
    /// Nothing for the panel to do.
    Ignore,
}

/// Control identifier carried by a command message (low word of `wParam`).
pub open spec fn command_id(wparam: usize) -> usize {
    wparam % 0x10000
}

/// Notification code carried by a command message (high word of the low
/// 32 bits of `wParam`).
pub open spec fn command_code(wparam: usize) -> usize {
    (wparam / 0x10000) % 0x10000
}

/// Whether `id` is one of the help marks.
pub open spec fn is_help_mark(id: usize) -> bool {
    id == ID_OPT_HELP_AUTOSTART || id == ID_OPT_HELP_DELAY || id == ID_OPT_HELP_EXCLUDE || id
        == ID_OPT_HELP_ADMIN
}

/// Decodes a command message of the options panel: a click on the save
/// button saves, a click on a help mark pins or unpins its text, a click on
/// the run-as-administrator box updates the start-at-login box.
pub fn panel_command(wparam: usize) -> (r: PanelCommand)
    ensures
        r == (if command_id(wparam) == ID_OPT_SAVE && command_code(wparam) == BN_CLICKED {
            PanelCommand::Save
        } else if command_code(wparam) == BN_CLICKED && is_help_mark(command_id(wparam)) {
            PanelCommand::HelpClick(command_id(wparam))
        } else if command_id(wparam) == ID_OPT_CHECK_ADMIN && command_code(wparam) == BN_CLICKED {
            PanelCommand::AdminClick
        } else {
            PanelCommand::Ignore
        }),
{
    let id = wparam & 0xffff;
    let code = (wparam >> 16) & 0xffff;
    assert(wparam & 0xffff == wparam % 0x10000) by (bit_vector);
    assert((wparam >> 16) & 0xffff == (wparam / 0x10000) % 0x10000) by (bit_vector);
    if id == ID_OPT_SAVE && code == BN_CLICKED {
        PanelCommand::Save
    } else if code == BN_CLICKED && (id == ID_OPT_HELP_AUTOSTART || id == ID_OPT_HELP_DELAY || id
        == ID_OPT_HELP_EXCLUDE || id == ID_OPT_HELP_ADMIN) {
        PanelCommand::HelpClick(id)
    } else if id == ID_OPT_CHECK_ADMIN && code == BN_CLICKED {
        PanelCommand::AdminClick
    } else {
        PanelCommand::Ignore
    }
}

/// Horizontal layout of a settings row, in pixels.
#[derive(Debug, Clone, Copy, PartialEq, Eq, Structural)]
pub struct RowLayout {
    /// Width of the label column.
    pub label_w: i32,
    /// Left edge of the label.
    pub label_x: i32,
    /// Left edge of the help mark.
    pub help_x: i32,
    /// Left edge of the input column.
    pub input_x: i32,
    /// Width of the input column (up to 16 pixels from the right edge).
    pub input_w: i32,
}

/// Label column width used when no label could be measured.
pub const FALLBACK_LABEL_W: i32 = 130;

/// Width of the label column for the widest measured label (0 or less when
/// nothing could be measured).
pub open spec fn label_width(measured: i32) -> int {
    if measured <= 0 {
        FALLBACK_LABEL_W as int
    } else {
        measured as int
    }
}

/// Lays out a row of the options panel: a 16-pixel icon at 16, the label 6
/// pixels after it, the help mark 4 pixels after the label column, and the
/// input column 12 pixels after the 16-pixel help mark, filling the client
/// width up to a 16-pixel right margin.
pub fn row_layout(measured: i32, client_w: i32) -> (r: RowLayout)
    requires
        label_width(measured) + 70 <= i32::MAX,
        client_w - 16 - (label_width(measured) + 70) >= i32::MIN,
    ensures
        r.label_w == label_width(measured),
        r.label_x == 38,
        r.help_x == 38 + label_width(measured) + 4,
        r.input_x == r.help_x + 16 + 12,
        r.input_w == client_w - 16 - r.input_x,
{
    let label_w = if measured <= 0 {
        FALLBACK_LABEL_W
    } else {
        measured
    };
    let label_x = 16 + 16 + 6;
    let help_x = label_x + label_w + 4;
    let input_x = help_x + 16 + 12;
    let input_w = client_w - 16 - input_x;
    RowLayout { label_w, label_x, help_x, input_x, input_w }
}

} // verus!
