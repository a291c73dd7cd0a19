//! The decisions of the Android device tool: which command a tool call asks
//! for, read from its arguments. Running the command on a device is left to
//! the caller.
use vstd::prelude::*;
use crate::json::{Json, member, text_of, same_text};
use crate::message::Content;
use crate::markup::{chars_of, find, find_from};
use crate::prompt::starts_with;
use crate::openai_format::member_of;

verus! {

/// The name of the Android device tool.
pub const ANDROID_TOOL_NAME: &'static str = "android";

/// A command for the device.
#[derive(Debug)]
pub enum AndroidCommand {
    /// Press the home key.
    Home,
    /// Tap the screen at a point.
    Click { x: i64, y: i64 },
    /// Type text.
    EnterText(String),
    /// Capture the screen.
    Screenshot,
    /// List the installed apps.
    ListApps,
    /// Start the app with this package name.
    StartApp(String),
}

/// The argument `key1`, or its member `key2` when one is named.
pub open spec fn argument_at(arguments: Json, key1: Seq<char>, key2: Option<Seq<char>>) -> Option<Json> {
    match key2 {
        Some(k2) => member_of(member(arguments, key1), k2),
        None => member(arguments, key1),
    }
}

/// The argument `key1` of a tool call, or its member `key2` when one is named.
pub fn get_argument<'a>(arguments: &'a Json, key1: &str, key2: Option<&str>) -> (r: Option<&'a Json>)
    ensures
        match r {
            Some(v) => argument_at(*arguments, key1@, match key2 {
                Some(k) => Some(k@),
                None => None,
            }) == Some(*v),
            None => argument_at(*arguments, key1@, match key2 {
                Some(k) => Some(k@),
                None => None,
            }) is None,
        },
{
    let value = match arguments.get(key1) {
        Some(v) => v,
        None => {
            return None;
        },
    };
    match key2 {
        Some(sub_key) => value.get(sub_key),
        None => Some(value),
    }
}

/// The integer `v` holds.
pub open spec fn int_of(v: Option<Json>) -> Option<i64> {
    match v {
        Some(Json::Int(n)) => Some(n),
        _ => None,
    }
}

fn read_int(v: Option<&Json>) -> (r: Option<i64>)
    ensures
        r == int_of(match v {
            Some(j) => Some(*j),
            None => None,
        }),
{
    match v {
        Some(Json::Int(n)) => Some(*n),
        _ => None,
    }
}

fn read_text(v: Option<&Json>) -> (r: Option<String>)
    ensures
        match text_of(match v {
            Some(j) => Some(*j),
            None => None,
        }) {
            Some(t) => r is Some && r.unwrap()@ == t,
            None => r is None,
        },
{
    match v {
        Some(j) => match j.as_str() {
            Some(s) => Some(s.to_owned()),
            None => None,
        },
        None => None,
    }
}

/// The command a call of the tool `tool_name` with `arguments` asks for, or
/// the message of why it cannot be run.
pub open spec fn planned(tool_name: Seq<char>, arguments: Json, r: Result<AndroidCommand, String>) -> bool {
    let command = text_of(member(arguments, "command"@));
    if tool_name != ANDROID_TOOL_NAME@ {
        r is Err && r->Err_0@ == "Unknown tool name."@
    } else if command == Some("home"@) {
        r is Ok && r->Ok_0 is Home
    } else if command == Some("click"@) {
        let x = int_of(argument_at(arguments, "click_where"@, Some("x"@)));
        let y = int_of(argument_at(arguments, "click_where"@, Some("y"@)));
        if x is Some && y is Some {
            r is Ok && r->Ok_0 == AndroidCommand::Click { x: x.unwrap(), y: y.unwrap() }
        } else {
            r is Err && r->Err_0@ == "Missing or invalid click coordinates."@
        }
    } else if command == Some("enter_text"@) {
        match text_of(argument_at(arguments, "enter_text"@, Some("text"@))) {
            Some(t) => r is Ok && r->Ok_0 is EnterText && r->Ok_0->EnterText_0@ == t,
            None => r is Err && r->Err_0@ == "Missing or invalid text input."@,
        }
    } else if command == Some("screenshot"@) {
        r is Ok && r->Ok_0 is Screenshot
    } else if command == Some("list_apps"@) {
        r is Ok && r->Ok_0 is ListApps
    } else if command == Some("start_app"@) {
        match text_of(argument_at(arguments, "start_app"@, Some("package_name"@))) {
            Some(p) => r is Ok && r->Ok_0 is StartApp && r->Ok_0->StartApp_0@ == p,
            None => r is Err && r->Err_0@ == "Missing or invalid package name."@,
        }
    } else {
        r is Err && r->Err_0@ == "Invalid or unsupported command."@
    }
}

/// The command that a call of the tool `tool_name` with `arguments` asks for.
pub fn plan_android_command(tool_name: &str, arguments: &Json) -> (r: Result<AndroidCommand, String>)
    ensures
        planned(tool_name@, *arguments, r),
{
    if !same_text(tool_name, ANDROID_TOOL_NAME) {
        return Err("Unknown tool name.".to_owned());
    }
    let command = match get_argument(arguments, "command", None) {
        Some(v) => v.as_str(),
        None => None,
    };
    let command = match command {
        Some(c) => c,
        None => {
            return Err("Invalid or unsupported command.".to_owned());
        },
    };
    if same_text(command, "home") {
        Ok(AndroidCommand::Home)
    } else if same_text(command, "click") {
        let x = read_int(get_argument(arguments, "click_where", Some("x")));
        let y = read_int(get_argument(arguments, "click_where", Some("y")));
        match (x, y) {
            (Some(x), Some(y)) => Ok(AndroidCommand::Click { x, y }),
            _ => Err("Missing or invalid click coordinates.".to_owned()),
        }
    } else if same_text(command, "enter_text") {
        match read_text(get_argument(arguments, "enter_text", Some("text"))) {
            Some(t) => Ok(AndroidCommand::EnterText(t)),
            None => Err("Missing or invalid text input.".to_owned()),
        }
    } else if same_text(command, "screenshot") {
        Ok(AndroidCommand::Screenshot)
    } else if same_text(command, "list_apps") {
        Ok(AndroidCommand::ListApps)
    } else if same_text(command, "start_app") {
        match read_text(get_argument(arguments, "start_app", Some("package_name"))) {
            Some(p) => Ok(AndroidCommand::StartApp(p)),
            None => Err("Missing or invalid package name.".to_owned()),
        }
    } else {
        Err("Invalid or unsupported command.".to_owned())
    }
}

/// A whitespace character: space, tab, line feed, vertical tab, form feed or
/// carriage return.
pub open spec fn is_blank(c: char) -> bool {
    c == ' ' || c == '\t' || c == '\n' || c == '\x0B' || c == '\x0C' || c == '\r'
}

/// `s` without leading blanks.
pub open spec fn trim_start(s: Seq<char>) -> Seq<char>
    decreases s.len(),
{
    if s.len() > 0 && is_blank(s[0]) {
        trim_start(s.drop_first())
    } else {
        s
    }
}

/// `s` without trailing blanks.
pub open spec fn trim_end(s: Seq<char>) -> Seq<char>
    decreases s.len(),
{
    if s.len() > 0 && is_blank(s.last()) {
        trim_end(s.drop_last())
    } else {
        s
    }
}

/// The lines of `s`: the pieces between line feeds; a final line feed ends
/// the last line rather than starting an empty one.
pub open spec fn lines_of(s: Seq<char>) -> Seq<Seq<char>> {
    if s.len() == 0 {
        Seq::empty()
    } else if s.last() == '\n' {
        lines_after(s, s.len() - 1)
    } else {
        lines_after(s, s.len() as int)
    }
}

/// The lines of `s.subrange(0, end)`, where it does not end with a line feed.
pub open spec fn lines_after(s: Seq<char>, end: int) -> Seq<Seq<char>>
    decreases end,
{
    if end <= 0 {
        seq![Seq::empty()]
    } else if s[end - 1] == '\n' {
        lines_after(s, end - 1).push(Seq::empty())
    } else {
        let prev = lines_after(s, end - 1);
        prev.update(prev.len() - 1, prev.last().push(s[end - 1]))
    }
}

/// The package a line of `pm list packages` names: what follows `package:`,
/// without surrounding blanks.
pub open spec fn package_of(line: Seq<char>) -> Option<Seq<char>> {
    if line.len() >= 8 && line.subrange(0, 8) == "package:"@ {
        Some(trim_end(trim_start(line.subrange(8, line.len() as int))))
    } else {
        None
    }
}

/// The packages that the lines `lines` name, in order.
pub open spec fn packages_of(lines: Seq<Seq<char>>) -> Seq<Seq<char>>
    decreases lines.len(),
{
    if lines.len() == 0 {
        Seq::empty()
    } else {
        let rest = packages_of(lines.drop_last());
        match package_of(lines.last()) {
            Some(p) => rest.push(p),
            None => rest,
        }
    }
}
fn is_blank_char(c: char) -> (r: bool)
    ensures
        r == is_blank(c),
{
    c == ' ' || c == '\t' || c == '\n' || c == '\x0B' || c == '\x0C' || c == '\r'
}

/// `s` without surrounding blanks.
pub fn trim_blanks(s: &str) -> (r: String)
    ensures
        r@ == trim_end(trim_start(s@)),
{
    let n = s.unicode_len();
    let mut a: usize = 0;
    assert(s@.subrange(0, n as int) =~= s@);
    while a < n && is_blank_char(s.get_char(a))
        invariant
            n == s@.len(),
            a <= n,
            trim_start(s@) == trim_start(s@.subrange(a as int, n as int)),
        decreases n - a,
    {
        assert(s@.subrange(a as int, n as int).drop_first() =~= s@.subrange(a + 1, n as int));
        a = a + 1;
    }
    assert(trim_start(s@.subrange(a as int, n as int)) == s@.subrange(a as int, n as int));
    let mut b: usize = n;
    while b > a && is_blank_char(s.get_char(b - 1))
        invariant
            n == s@.len(),
            a <= b <= n,
            trim_end(s@.subrange(a as int, n as int)) == trim_end(s@.subrange(a as int, b as int)),
        decreases b,
    {
        assert(s@.subrange(a as int, b as int).drop_last() =~= s@.subrange(a as int, b - 1));
        b = b - 1;
    }
    proof {
        assert(trim_start(s@) == s@.subrange(a as int, n as int));
    }
    s.substring_char(a, b).to_owned()
}

/// The package a line of `pm list packages` names.
pub fn package_name(line: &str) -> (r: Option<String>)
    ensures
        match package_of(line@) {
            Some(p) => r is Some && r.unwrap()@ == p,
            None => r is None,
        },
{
    proof {
        reveal_strlit("package:");
    }
    if !starts_with(line, "package:") {
        return None;
    }
    let rest = line.substring_char(8, line.unicode_len());
    Some(trim_blanks(rest))
}

/// The lines of `output`.
pub fn split_lines(output: &str) -> (r: Vec<String>)
    ensures
        r@.len() == lines_of(output@).len(),
        forall|i: int| 0 <= i < r@.len() ==> r@[i]@ == lines_of(output@)[i],
{
    let cs = chars_of(output);
    let n = cs.len();
    let mut out: Vec<String> = Vec::new();
    if n == 0 {
        return out;
    }
    let end = if cs[n - 1] == '\n' {
        n - 1
    } else {
        n
    };
    let mut start: usize = 0;
    let mut k: usize = 0;
    while k < end
        invariant
            cs@ == output@,
            end <= n == cs@.len(),
            start <= k <= end,
            lines_after(output@, k as int).len() > 0,
            lines_after(output@, k as int).last() == output@.subrange(start as int, k as int),
            out@.len() == lines_after(output@, k as int).len() - 1,
            forall|i: int| 0 <= i < out@.len() ==> out@[i]@ == lines_after(output@, k as int)[i],
        decreases end - k,
    {
        let ghost prev = lines_after(output@, k as int);
        if cs[k] == '\n' {
            let line = output.substring_char(start, k).to_owned();
            out.push(line);
            start = k + 1;
            proof {
                assert(output@.subrange(start as int, k + 1) =~= Seq::<char>::empty());
            }
        } else {
            proof {
                assert(output@.subrange(start as int, k + 1) =~= output@.subrange(
                    start as int,
                    k as int,
                ).push(output@[k as int]));
            }
        }
        k = k + 1;
    }
    out.push(output.substring_char(start, end).to_owned());
    out
}

/// The packages that the output of `pm list packages` names, in order.
pub fn package_names(output: &str) -> (r: Vec<String>)
    ensures
        r@.len() == packages_of(lines_of(output@)).len(),
        forall|i: int| 0 <= i < r@.len() ==> r@[i]@ == packages_of(lines_of(output@))[i],
{
    let lines = split_lines(output);
    let ghost all = lines_of(output@);
    let mut out: Vec<String> = Vec::new();
    let mut i: usize = 0;
    assert(all.subrange(0, 0) =~= Seq::<Seq<char>>::empty());
    while i < lines.len()
        invariant
            lines@.len() == all.len(),
            forall|q: int| 0 <= q < lines@.len() ==> lines@[q]@ == all[q],
            0 <= i <= lines@.len(),
            out@.len() == packages_of(all.subrange(0, i as int)).len(),
            forall|q: int| 0 <= q < out@.len() ==> out@[q]@ == packages_of(all.subrange(0, i as int))[q],
        decreases lines@.len() - i,
    {
        proof {
            let next = all.subrange(0, i + 1);
            assert(next.drop_last() =~= all.subrange(0, i as int));
            assert(next.last() == all[i as int]);
        }
        match package_name(lines[i].as_str()) {
            Some(p) => out.push(p),
            None => {},
        }
        i = i + 1;
    }
    assert(all.subrange(0, all.len() as int) =~= all);
    out
}

/// The value of a run of decimal digits.
pub open spec fn digits_value(s: Seq<char>) -> int
    decreases s.len(),
{
    if s.len() == 0 {
        0
    } else {
        digits_value(s.drop_last()) * 10 + (s.last() as int - '0' as int)
    }
}

/// `s` is one or more decimal digits.
pub open spec fn is_digits(s: Seq<char>) -> bool {
    s.len() > 0 && forall|i: int| 0 <= i < s.len() ==> '0' <= #[trigger] s[i] && s[i] <= '9'
}

/// The `i32` that `s` writes in decimal, with an optional sign; `None` when
/// it writes none or one out of range.
pub open spec fn decimal_i32(s: Seq<char>) -> Option<i32> {
    if s.len() > 0 && s[0] == '-' {
        let body = s.drop_first();
        if is_digits(body) && digits_value(body) <= 0x8000_0000 {
            Some((-digits_value(body)) as i32)
        } else {
            None
        }
    } else {
        let body = if s.len() > 0 && s[0] == '+' {
            s.drop_first()
        } else {
            s
        };
        if is_digits(body) && digits_value(body) <= 0x7fff_ffff {
            Some(digits_value(body) as i32)
        } else {
            None
        }
    }
}

/// The value of the digits of `s` in `[from, n)`, capped just above the
/// largest magnitude an `i32` can have; `None` when one is not a digit or
/// there is none.
fn capped_digits(s: &str, from: usize) -> (r: Option<i64>)
    requires
        from <= s@.len(),
    ensures
        is_digits(s@.subrange(from as int, s@.len() as int)) <==> r is Some,
        r is Some ==> 0 <= r.unwrap() <= 0x8000_0001,
        r is Some ==> r.unwrap() == (if digits_value(s@.subrange(from as int, s@.len() as int))
            > 0x8000_0000 {
            0x8000_0001
        } else {
            digits_value(s@.subrange(from as int, s@.len() as int))
        }),
{
    let n = s.unicode_len();
    if from >= n {
        return None;
    }
    let mut acc: i64 = 0;
    let mut i: usize = from;
    assert(s@.subrange(from as int, from as int) =~= Seq::<char>::empty());
    while i < n
        invariant
            n == s@.len(),
            from <= i <= n,
            forall|q: int| from <= q < i ==> '0' <= #[trigger] s@[q] && s@[q] <= '9',
            digits_value(s@.subrange(from as int, i as int)) >= 0,
            acc == (if digits_value(s@.subrange(from as int, i as int)) > 0x8000_0000 {
                0x8000_0001
            } else {
                digits_value(s@.subrange(from as int, i as int))
            }),
        decreases n - i,
    {
        let c = s.get_char(i);
        if !('0' <= c && c <= '9') {
            assert(!is_digits(s@.subrange(from as int, n as int))) by {
                assert(s@.subrange(from as int, n as int)[i - from] == c);
            }
            return None;
        }
        let d = (c as u32 - '0' as u32) as i64;
        proof {
            let next = s@.subrange(from as int, i + 1);
            assert(next.drop_last() =~= s@.subrange(from as int, i as int));
            assert(next.last() == c);
        }
        if acc > 0x8000_0000 {
            acc = 0x8000_0001;
        } else {
            acc = acc * 10 + d;
            if acc > 0x8000_0000 {
                acc = 0x8000_0001;
            }
        }
        i = i + 1;
    }
    proof {
        assert forall|q: int| 0 <= q < s@.subrange(from as int, n as int).len() implies '0'
            <= #[trigger] s@.subrange(from as int, n as int)[q] && s@.subrange(
            from as int,
            n as int,
        )[q] <= '9' by {
            assert(s@.subrange(from as int, n as int)[q] == s@[from + q]);
        }
    }
    Some(acc)
}

/// The `i32` that `s` writes in decimal, with an optional sign.
pub fn parse_i32(s: &str) -> (r: Option<i32>)
    ensures
        r == decimal_i32(s@),
{
    let n = s.unicode_len();
    if n > 0 && s.get_char(0) == '-' {
        proof {
            assert(s@.subrange(1, n as int) =~= s@.drop_first());
        }
        match capped_digits(s, 1) {
            Some(v) => if v <= 0x8000_0000 {
                Some((-v) as i32)
            } else {
                None
            },
            None => None,
        }
    } else {
        let from: usize = if n > 0 && s.get_char(0) == '+' {
            1
        } else {
            0
        };
        proof {
            assert(s@.subrange(1, n as int) =~= s@.drop_first());
            assert(s@.subrange(0, n as int) =~= s@);
        }
        match capped_digits(s, from) {
            Some(v) => if v <= 0x7fff_ffff {
                Some(v as i32)
            } else {
                None
            },
            None => None,
        }
    }
}

/// The words of `s.subrange(0, end)`: its runs of non-blank characters.
pub open spec fn words_upto(s: Seq<char>, end: int) -> Seq<Seq<char>>
    decreases end,
{
    if end <= 0 {
        Seq::empty()
    } else if is_blank(s[end - 1]) {
        words_upto(s, end - 1)
    } else if end >= 2 && !is_blank(s[end - 2]) {
        let w = words_upto(s, end - 1);
        w.update(w.len() - 1, w.last().push(s[end - 1]))
    } else {
        words_upto(s, end - 1).push(seq![s[end - 1]])
    }
}

/// The first of `lines` in which `pat` occurs.
pub open spec fn first_line_with(lines: Seq<Seq<char>>, pat: Seq<char>) -> Option<Seq<char>>
    decreases lines.len(),
{
    if lines.len() == 0 {
        None
    } else if find_from(lines[0], pat, 0) is Some {
        Some(lines[0])
    } else {
        first_line_with(lines.drop_first(), pat)
    }
}

/// What comes before the first `x` of `w`, or all of it.
pub open spec fn before_x(w: Seq<char>) -> Seq<char> {
    match find_from(w, "x"@, 0) {
        Some(k) => w.subrange(0, k),
        None => w,
    }
}

/// The width and height that a word such as `1080x2400` gives: each part
/// read as an `i32`, zero where it is missing or unreadable.
pub open spec fn dimensions_of(w: Seq<char>) -> (i32, i32) {
    let width = match decimal_i32(before_x(w)) {
        Some(v) => v,
        None => 0,
    };
    let height = match find_from(w, "x"@, 0) {
        Some(k) => match decimal_i32(before_x(w.subrange(k + 1, w.len() as int))) {
            Some(v) => v,
            None => 0,
        },
        None => 0,
    };
    (width, height)
}

/// The screen size that the output of `wm size` reports: the third word of
/// its first line that mentions `Physical size`.
pub open spec fn screen_size_of(output: Seq<char>) -> Option<(i32, i32)> {
    match first_line_with(lines_of(output), "Physical size"@) {
        Some(line) => if words_upto(line, line.len() as int).len() > 2 {
            Some(dimensions_of(words_upto(line, line.len() as int)[2]))
        } else {
            None
        },
        None => None,
    }
}

/// The words of `s`.
pub fn split_words(s: &str) -> (r: Vec<String>)
    ensures
        r@.len() == words_upto(s@, s@.len() as int).len(),
        forall|i: int| 0 <= i < r@.len() ==> r@[i]@ == words_upto(s@, s@.len() as int)[i],
{
    let n = s.unicode_len();
    let mut out: Vec<String> = Vec::new();
    let mut start: usize = 0;
    let mut in_word = false;
    let mut i: usize = 0;
    while i < n
        invariant
            n == s@.len(),
            start <= i <= n,
            in_word == (i > 0 && !is_blank(s@[i - 1])),
            in_word ==> words_upto(s@, i as int).len() > 0 && words_upto(s@, i as int).last()
                == s@.subrange(start as int, i as int) && out@.len() == words_upto(s@, i as int).len()
                - 1,
            !in_word ==> out@.len() == words_upto(s@, i as int).len(),
            forall|q: int| 0 <= q < out@.len() ==> out@[q]@ == words_upto(s@, i as int)[q],
        decreases n - i,
    {
        let c = s.get_char(i);
        if is_blank_char(c) {
            if in_word {
                out.push(s.substring_char(start, i).to_owned());
            }
            in_word = false;
        } else {
            if !in_word {
                start = i;
                assert(s@.subrange(start as int, i + 1) =~= seq![c]);
            } else {
                assert(s@.subrange(start as int, i + 1) =~= s@.subrange(start as int, i as int).push(c));
            }
            in_word = true;
        }
        i = i + 1;
    }
    if in_word {
        out.push(s.substring_char(start, n).to_owned());
    }
    out
}

/// The part of `w` before its first `x`, and where that `x` is.
fn split_at_x(w: &str) -> (r: (String, Option<usize>))
    ensures
        r.0@ == before_x(w@),
        r.1 is Some ==> r.1.unwrap() < w@.len(),
        r.1 is Some <==> find_from(w@, "x"@, 0) is Some,
        r.1 is Some ==> find_from(w@, "x"@, 0) == Some(r.1.unwrap() as int),
{
    proof {
        reveal_strlit("x");
    }
    let cs = chars_of(w);
    let x = chars_of("x");
    match find(&cs, &x, 0) {
        Some(k) => (w.substring_char(0, k).to_owned(), Some(k)),
        None => (w.to_owned(), None),
    }
}

fn dimension(s: &str) -> (r: i32)
    ensures
        r == match decimal_i32(s@) {
            Some(v) => v,
            None => 0,
        },
{
    match parse_i32(s) {
        Some(v) => v,
        None => 0,
    }
}

/// The width and height that a word such as `1080x2400` gives.
pub fn parse_dimensions(w: &str) -> (r: (i32, i32))
    ensures
        r == dimensions_of(w@),
{
    let n = w.unicode_len();
    let (first, at) = split_at_x(w);
    let width = dimension(first.as_str());
    let height = match at {
        Some(k) => {
            let rest = w.substring_char(k + 1, n);
            let (second, _) = split_at_x(rest);
            dimension(second.as_str())
        },
        None => 0,
    };
    (width, height)
}

/// The screen size that the output of `wm size` reports, if it reports one.
pub fn parse_screen_size(output: &str) -> (r: Option<(i32, i32)>)
    ensures
        r == screen_size_of(output@),
{
    proof {
        reveal_strlit("Physical size");
    }
    let lines = split_lines(output);
    let marker = chars_of("Physical size");
    let ghost all = lines_of(output@);
    let mut i: usize = 0;
    assert(all.subrange(0, all.len() as int) =~= all);
    while i < lines.len()
        invariant
            lines@.len() == all.len(),
            forall|q: int| 0 <= q < lines@.len() ==> lines@[q]@ == all[q],
            marker@ == "Physical size"@,
            all == lines_of(output@),
            0 <= i <= lines@.len(),
            first_line_with(all, "Physical size"@) == first_line_with(
                all.subrange(i as int, all.len() as int),
                "Physical size"@,
            ),
        decreases lines@.len() - i,
    {
        proof {
            let rest = all.subrange(i as int, all.len() as int);
            assert(rest.drop_first() =~= all.subrange(i + 1, all.len() as int));
            assert(rest[0] == all[i as int]);
        }
        let line = lines[i].as_str();
        let line_chars = chars_of(line);
        if find(&line_chars, &marker, 0).is_some() {
            let words = split_words(line);
            proof {
                let rest = all.subrange(i as int, all.len() as int);
                assert(line@ == all[i as int]);
                assert(find_from(rest[0], "Physical size"@, 0) is Some);
                assert(first_line_with(rest, "Physical size"@) == Some(all[i as int]));
                assert(first_line_with(lines_of(output@), "Physical size"@) == Some(line@));
                assert(words@.len() == words_upto(line@, line@.len() as int).len());
            }
            if words.len() > 2 {
                return Some(parse_dimensions(words[2].as_str()));
            }
            return None;
        }
        i = i + 1;
    }
    None
}

/// The standard base64 text, with padding, of `bytes`.
pub uninterp spec fn base64_of(bytes: Seq<u8>) -> Seq<char>;

/// Relies on the base64 crate's `STANDARD` engine and its `encode`: the text
/// depends on the bytes alone.
#[verifier::external_body]
fn encode_base64(bytes: &[u8]) -> (r: String)
    ensures
        r@ == base64_of(bytes@),
{
    base64::Engine::encode(&base64::engine::general_purpose::STANDARD, bytes)
}

/// The content that carries a PNG screenshot: its bytes in base64.
pub fn screenshot_content(png: &[u8]) -> (r: Content)
    ensures
        r is Image,
        r->Image_data@ == base64_of(png@),
        r->Image_mime_type@ == "image/png"@,
{
    Content::Image { data: encode_base64(png), mime_type: "image/png".to_owned() }
}

/// The first text of the first element that `selector` matches in the HTML
/// document `html`.
pub uninterp spec fn first_text_of(html: Seq<char>, selector: Seq<char>) -> Option<Seq<char>>;

/// Relies on scraper's `Html::parse_document`, `Selector::parse` and
/// `select`: the first text of the first matching element, which depends on
/// the document and the selector alone; none where the selector does not parse.
#[verifier::external_body]
fn select_first_text(html: &str, selector: &str) -> (r: Option<String>)
    ensures
        match first_text_of(html@, selector@) {
            Some(t) => r is Some && r.unwrap()@ == t,
            None => r is None,
        },
{
    let document = scraper::Html::parse_document(html);
    let selector = scraper::Selector::parse(selector).ok()?;
    let element = document.select(&selector).next()?;
    element.text().next().map(|t| t.to_string())
}

/// Where a Play Store page holds an app's title.
pub const STORE_TITLE_SELECTOR: &'static str = "h1 span.AfwdI[itemprop='name']";

/// The app title that a Play Store page shows, if it shows one.
pub fn store_title(page: &str) -> (r: Option<String>)
    ensures
        match first_text_of(page@, STORE_TITLE_SELECTOR@) {
            Some(t) => r is Some && r.unwrap()@ == t,
            None => r is None,
        },
{
    select_first_text(page, STORE_TITLE_SELECTOR)
}
} // verus!
