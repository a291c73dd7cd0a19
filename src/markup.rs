//! The fallback reader for tool calls that a model wrote as markup inside its
//! text: `<function_calls><invoke name="..."><parameter name="...">value
//! </parameter>...</invoke></function_calls>`. It never fails: where a marker
//! is missing, that parameter, or the whole call, is left out.
use vstd::prelude::*;
use crate::json::{Json, lookup, member, text_of, put_member};

verus! {

/// `pat` occurs in `s` at `k`.
pub open spec fn occurs_at(s: Seq<char>, pat: Seq<char>, k: int) -> bool {
    0 <= k && k + pat.len() <= s.len() && s.subrange(k, k + pat.len()) == pat
}

/// The first position at or after `from` where `pat` occurs in `s`.
pub open spec fn find_from(s: Seq<char>, pat: Seq<char>, from: int) -> Option<int>
    decreases s.len() - from,
{
    if from < 0 || from + pat.len() > s.len() {
        None
    } else if occurs_at(s, pat, from) {
        Some(from)
    } else if from >= s.len() {
        None
    } else {
        find_from(s, pat, from + 1)
    }
}

/// A position that `find_from` gives is an occurrence at or after where the
/// search started.
pub proof fn lemma_find_from_bounds(s: Seq<char>, pat: Seq<char>, from: int)
    ensures
        find_from(s, pat, from) is Some ==> from <= find_from(s, pat, from).unwrap() && occurs_at(
            s,
            pat,
            find_from(s, pat, from).unwrap(),
        ),
    decreases s.len() - from,
{
    if from < 0 || from + pat.len() > s.len() {
    } else if occurs_at(s, pat, from) {
    } else if from >= s.len() {
    } else {
        lemma_find_from_bounds(s, pat, from + 1);
    }
}

/// The first occurrence of `pat` that starts at or after `lo` and ends by `hi`:
/// a search inside the region `[lo, hi)` of `s`.
pub open spec fn find_in(s: Seq<char>, pat: Seq<char>, lo: int, hi: int) -> Option<int> {
    match find_from(s, pat, lo) {
        Some(k) => if k + pat.len() <= hi {
            Some(k)
        } else {
            None
        },
        None => None,
    }
}

/// The key and value of the parameter element that spans `[lo, hi)` of `t`:
/// the key between `name="` and the next `"`, the value between the first `>`
/// and the next `<`.
pub open spec fn parameter_at(t: Seq<char>, lo: int, hi: int) -> Option<(Seq<char>, Seq<char>)> {
    match find_in(t, "name=\""@, lo, hi) {
        Some(n) => match find_in(t, "\""@, n + 6, hi) {
            Some(ne) => match find_in(t, ">"@, lo, hi) {
                Some(v) => match find_in(t, "<"@, v + 1, hi) {
                    Some(ve) => Some((t.subrange(n + 6, ne), t.subrange(v + 1, ve))),
                    None => None,
                },
                None => None,
            },
            None => None,
        },
        None => None,
    }
}

/// The parameters found in `[pos, hi)` of `t`, in order.
pub open spec fn parameters_from(t: Seq<char>, pos: int, hi: int) -> Seq<(Seq<char>, Seq<char>)>
    decreases hi - pos,
{
    match find_in(t, "<parameter"@, pos, hi) {
        Some(ps) => match find_in(t, "</parameter>"@, ps, hi) {
            Some(pe) => if pos <= ps && ps <= pe && pe + 12 <= hi {
                let rest = parameters_from(t, pe + 12, hi);
                match parameter_at(t, ps, pe + 12) {
                    Some(kv) => seq![kv] + rest,
                    None => rest,
                }
            } else {
                Seq::empty()
            },
            None => Seq::empty(),
        },
        None => Seq::empty(),
    }
}

/// The tool call written as markup in `t`: the name of its first invocation
/// and its parameters.
pub open spec fn markup_call(t: Seq<char>) -> Option<(Seq<char>, Seq<(Seq<char>, Seq<char>)>)> {
    match (find_from(t, "<function_calls>"@, 0), find_from(t, "</function_calls>"@, 0)) {
        (Some(a), Some(e)) => if a <= e {
            let b = e + 17;
            match find_in(t, "<invoke"@, a, b) {
                Some(i) => match find_in(t, "</invoke>"@, i, b) {
                    Some(ie) => match find_in(t, "name=\""@, i, ie + 9) {
                        Some(n) => match find_in(t, "\""@, n + 6, ie + 9) {
                            Some(ne) => Some((t.subrange(n + 6, ne), parameters_from(t, ne, ie + 9))),
                            None => None,
                        },
                        None => None,
                    },
                    None => None,
                },
                None => None,
            }
        } else {
            None
        },
        _ => None,
    }
}

/// The value of the last pair with key `k`.
pub open spec fn last_value(pairs: Seq<(Seq<char>, Seq<char>)>, k: Seq<char>) -> Option<Seq<char>>
    decreases pairs.len(),
{
    if pairs.len() == 0 {
        None
    } else if pairs.last().0 == k {
        Some(pairs.last().1)
    } else {
        last_value(pairs.drop_last(), k)
    }
}

/// `v` is the object mapping each key of `pairs` to its last value, as text.
pub open spec fn holds_pairs(v: Json, pairs: Seq<(Seq<char>, Seq<char>)>) -> bool {
    &&& v is Object
    &&& forall|k: Seq<char>| #[trigger] text_of(member(v, k)) == last_value(pairs, k)
    &&& forall|k: Seq<char>| #[trigger] member(v, k) is Some ==> member(v, k).unwrap() is Str
}

/// The characters of `s`.
pub fn chars_of(s: &str) -> (r: Vec<char>)
    ensures
        r@ == s@,
{
    let n = s.unicode_len();
    let mut out: Vec<char> = Vec::new();
    let mut i: usize = 0;
    while i < n
        invariant
            n == s@.len(),
            0 <= i <= n,
            out@ == s@.subrange(0, i as int),
        decreases n - i,
    {
        out.push(s.get_char(i));
        i = i + 1;
        assert(out@ =~= s@.subrange(0, i as int));
    }
    assert(out@ =~= s@);
    out
}

/// Whether `pat` occurs in `s` at `k`.
fn occurs(s: &Vec<char>, pat: &Vec<char>, k: usize) -> (r: bool)
    ensures
        r == occurs_at(s@, pat@, k as int),
{
    let m = pat.len();
    if k > s.len() || m > s.len() - k {
        return false;
    }
    let n = s.len();
    let mut j: usize = 0;
    while j < m
        invariant
            n == s@.len(),
            m == pat@.len(),
            k + m <= s@.len(),
            0 <= j <= m,
            forall|q: int| 0 <= q < j ==> s@[k + q] == pat@[q],
        decreases m - j,
    {
        assert(k + j < s@.len());
        if s[k + j] != pat[j] {
            assert(s@.subrange(k as int, k + m)[j as int] != pat@[j as int]);
            return false;
        }
        j = j + 1;
    }
    assert(s@.subrange(k as int, k + m) =~= pat@);
    true
}

/// The first occurrence of `pat` in `s` at or after `from`.
pub fn find(s: &Vec<char>, pat: &Vec<char>, from: usize) -> (r: Option<usize>)
    ensures
        r is Some <==> find_from(s@, pat@, from as int) is Some,
        r is Some ==> find_from(s@, pat@, from as int) == Some(r.unwrap() as int),
        r is Some ==> from <= r.unwrap() && r.unwrap() + pat@.len() <= s@.len(),
{
    proof {
        lemma_find_from_bounds(s@, pat@, from as int);
    }
    let mut k = from;
    while k <= s.len() && pat.len() <= s.len() - k
        invariant
            find_from(s@, pat@, from as int) == find_from(s@, pat@, k as int),
            from <= k,
        decreases s@.len() - k,
    {
        if occurs(s, pat, k) {
            return Some(k);
        }
        if k == s.len() {
            return None;
        }
        k = k + 1;
    }
    None
}

/// The first occurrence of `pat` inside the region `[lo, hi)` of `s`.
pub fn find_within(s: &Vec<char>, pat: &Vec<char>, lo: usize, hi: usize) -> (r: Option<usize>)
    ensures
        r is Some <==> find_in(s@, pat@, lo as int, hi as int) is Some,
        r is Some ==> find_in(s@, pat@, lo as int, hi as int) == Some(r.unwrap() as int),
        r is Some ==> lo <= r.unwrap() && r.unwrap() + pat@.len() <= hi && r.unwrap() + pat@.len()
            <= s@.len(),
{
    match find(s, pat, lo) {
        Some(k) => {
            if k <= hi && pat.len() <= hi - k {
                Some(k)
            } else {
                None
            }
        },
        None => None,
    }
}

/// The entries hold each key of `pairs` with its last value, as text.
pub open spec fn entries_hold(entries: Seq<(String, Json)>, pairs: Seq<(Seq<char>, Seq<char>)>) -> bool {
    &&& forall|k: Seq<char>| #[trigger] text_of(lookup(entries, k)) == last_value(pairs, k)
    &&& forall|k: Seq<char>| #[trigger] lookup(entries, k) is Some ==> lookup(entries, k).unwrap() is Str
}

/// The key and value of the parameter element spanning `[lo, hi)` of `t`.
fn read_parameter(t: &str, cs: &Vec<char>, lo: usize, hi: usize) -> (r: Option<(String, String)>)
    requires
        cs@ == t@,
        lo <= hi <= cs@.len(),
    ensures
        match parameter_at(t@, lo as int, hi as int) {
            Some(kv) => r is Some && r.unwrap().0@ == kv.0 && r.unwrap().1@ == kv.1,
            None => r is None,
        },
{
    proof {
        reveal_strlit("name=\"");
        reveal_strlit("\"");
        reveal_strlit(">");
        reveal_strlit("<");
    }
    let name_attr = chars_of("name=\"");
    let quote = chars_of("\"");
    let gt = chars_of(">");
    let lt = chars_of("<");
    let n = match find_within(cs, &name_attr, lo, hi) {
        Some(n) => n,
        None => {
            return None;
        },
    };
    let ne = match find_within(cs, &quote, n + 6, hi) {
        Some(ne) => ne,
        None => {
            return None;
        },
    };
    let v = match find_within(cs, &gt, lo, hi) {
        Some(v) => v,
        None => {
            return None;
        },
    };
    let ve = match find_within(cs, &lt, v + 1, hi) {
        Some(ve) => ve,
        None => {
            return None;
        },
    };
    let key = t.substring_char(n + 6, ne).to_owned();
    let value = t.substring_char(v + 1, ve).to_owned();
    Some((key, value))
}

/// The object of the parameters found in `[start, hi)` of `t`.
fn read_parameters(t: &str, cs: &Vec<char>, start: usize, hi: usize) -> (r: Json)
    requires
        cs@ == t@,
        start <= hi <= cs@.len(),
    ensures
        holds_pairs(r, parameters_from(t@, start as int, hi as int)),
{
    proof {
        reveal_strlit("<parameter");
        reveal_strlit("</parameter>");
    }
    let open = chars_of("<parameter");
    let close = chars_of("</parameter>");
    let mut entries: Vec<(String, Json)> = Vec::new();
    let mut pos = start;
    let mut going = true;
    let ghost done: Seq<(Seq<char>, Seq<char>)> = Seq::empty();
    while going
        invariant
            cs@ == t@,
            open@ == "<parameter"@,
            close@ == "</parameter>"@,
            close@.len() == 12,
            start <= pos <= hi <= cs@.len(),
            parameters_from(t@, start as int, hi as int) == done + (if going {
                parameters_from(t@, pos as int, hi as int)
            } else {
                Seq::empty()
            }),
            entries_hold(entries@, done),
        decreases hi - pos + (if going { 1int } else { 0int }),
    {
        let ps = match find_within(cs, &open, pos, hi) {
            Some(ps) => ps,
            None => {
                going = false;
                assert(done + Seq::<(Seq<char>, Seq<char>)>::empty() =~= done);
                continue;
            },
        };
        let pe = match find_within(cs, &close, ps, hi) {
            Some(pe) => pe,
            None => {
                going = false;
                assert(done + Seq::<(Seq<char>, Seq<char>)>::empty() =~= done);
                continue;
            },
        };
        let ghost rest = parameters_from(t@, pe + 12, hi as int);
        match read_parameter(t, cs, ps, pe + 12) {
            Some(kv) => {
                let ghost pair = (kv.0@, kv.1@);
                let ghost old_entries = entries@;
                let (k, v) = kv;
                put_member(&mut entries, k, Json::Str(v));
                proof {
                    let nd = done.push(pair);
                    assert forall|q: Seq<char>| #[trigger]
                        text_of(lookup(entries@, q)) == last_value(nd, q) by {
                        assert(nd.drop_last() =~= done);
                    }
                    assert forall|q: Seq<char>| #[trigger]
                        lookup(entries@, q) is Some implies lookup(entries@, q).unwrap() is Str by {
                        assert(lookup(entries@, q) == (if q == pair.0 {
                            Some(Json::Str(v))
                        } else {
                            lookup(old_entries, q)
                        }));
                    }
                    assert(done + (seq![pair] + rest) =~= nd + rest);
                    done = nd;
                }
            },
            None => {},
        }
        pos = pe + 12;
    }
    Json::Object(entries)
}

/// The tool call written as markup in `text`, if there is one.
pub fn extract_markup_call(text: &str) -> (r: Option<(String, Json)>)
    ensures
        match markup_call(text@) {
            Some(c) => r is Some && r.unwrap().0@ == c.0 && holds_pairs(r.unwrap().1, c.1),
            None => r is None,
        },
{
    proof {
        reveal_strlit("<function_calls>");
        reveal_strlit("</function_calls>");
        reveal_strlit("<invoke");
        reveal_strlit("</invoke>");
        reveal_strlit("name=\"");
        reveal_strlit("\"");
        assert("</function_calls>"@.len() == 17);
        assert("</invoke>"@.len() == 9);
        assert("name=\""@.len() == 6);
    }
    let cs = chars_of(text);
    let a = match find(&cs, &chars_of("<function_calls>"), 0) {
        Some(a) => a,
        None => {
            return None;
        },
    };
    let close_calls = chars_of("</function_calls>");
    let e = match find(&cs, &close_calls, 0) {
        Some(e) => e,
        None => {
            return None;
        },
    };
    if a > e {
        return None;
    }
    let total = cs.len();
    assert(e + close_calls@.len() <= total);
    let b = e + 17;
    let i = match find_within(&cs, &chars_of("<invoke"), a, b) {
        Some(i) => i,
        None => {
            return None;
        },
    };
    let ie = match find_within(&cs, &chars_of("</invoke>"), i, b) {
        Some(ie) => ie,
        None => {
            return None;
        },
    };
    let n = match find_within(&cs, &chars_of("name=\""), i, ie + 9) {
        Some(n) => n,
        None => {
            return None;
        },
    };
    let ne = match find_within(&cs, &chars_of("\""), n + 6, ie + 9) {
        Some(ne) => ne,
        None => {
            return None;
        },
    };
    let name = text.substring_char(n + 6, ne).to_owned();
    let arguments = read_parameters(text, &cs, ne, ie + 9);
    Some((name, arguments))
}

} // verus!
