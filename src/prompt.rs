use vstd::prelude::*;

verus! {

/// The first line of the disambiguation menu.
pub open spec fn menu_header() -> Seq<char> {
    "Choose an available input port:\n"@
}

pub open spec fn is_digit(c: char) -> bool {
    '0' <= c && c <= '9'
}

pub open spec fn digit_value(c: char) -> int {
    (c as u32) as int - ('0' as u32) as int
}

/// The number that a sequence of decimal digits denotes.
pub open spec fn digits_value(s: Seq<char>) -> int
    decreases s.len(),
{
    if s.len() == 0 {
        0
    } else {
        digits_value(s.drop_last()) * 10 + digit_value(s.last())
    }
}

/// The digits of an unsigned number written with an optional leading `+`.
pub open spec fn unsigned_digits(s: Seq<char>) -> Seq<char> {
    if s.len() > 0 && s[0] == '+' {
        s.drop_first()
    } else {
        s
    }
}

/// The value of `s` read as a `usize` in decimal: an optional `+` followed by
/// at least one digit and nothing else, whose value fits in a `usize`.
pub open spec fn decimal_usize(s: Seq<char>) -> Option<int> {
    let d = unsigned_digits(s);
    if d.len() > 0 && (forall|i: int| 0 <= i < d.len() ==> is_digit(#[trigger] d[i]))
        && digits_value(d) <= usize::MAX {
        Some(digits_value(d))
    } else {
        None
    }
}

pub open spec fn digit_char(d: int) -> char {
    seq!['0', '1', '2', '3', '4', '5', '6', '7', '8', '9'][d]
}

/// The decimal text of a natural number, without leading zeros.
pub open spec fn decimal_text(n: nat) -> Seq<char>
    decreases n,
{
    if n < 10 {
        seq![digit_char(n as int)]
    } else {
        decimal_text(n / 10).push(digit_char((n % 10) as int))
    }
}

/// One menu line: `index: name` and a line break.
pub open spec fn menu_line(i: nat, name: Seq<char>) -> Seq<char> {
    decimal_text(i) + ": "@ + name + "\n"@
}

/// The lines of the first `k` names, in listing order.
pub open spec fn menu_lines(names: Seq<Seq<char>>, k: nat) -> Seq<char>
    decreases k,
{
    if k == 0 || k > names.len() {
        Seq::empty()
    } else {
        menu_lines(names, (k - 1) as nat) + menu_line((k - 1) as nat, names[k - 1])
    }
}

/// The whole menu offered when several ports are listed.
pub open spec fn menu_of(names: Seq<Seq<char>>) -> Seq<char> {
    menu_header() + menu_lines(names, names.len())
}

/// The index that one answer to the prompt selects among `count` ports:
/// an answer that was given, reads as a decimal `usize`, and is in bounds.
pub open spec fn chosen_index(answer: Option<Seq<char>>, count: int) -> Option<int> {
    match answer {
        Some(s) => match decimal_usize(s) {
            Some(n) => if n < count {
                Some(n)
            } else {
                None
            },
            None => None,
        },
        None => None,
    }
}

/// The text of an answer to the prompt; `None` when it was dismissed.
pub open spec fn answer_text(answer: Option<String>) -> Option<Seq<char>> {
    match answer {
        Some(s) => Some(s@),
        None => None,
    }
}

/// Relies on `str::parse::<usize>`, which accepts an optional `+` followed by
/// decimal digits only, and fails when the value does not fit.
#[verifier::external_body]
fn parse_usize(s: &str) -> (r: Option<usize>)
    ensures
        match decimal_usize(s@) {
            Some(n) => r matches Some(v) && v as int == n,
            None => r is None,
        },
{
    s.parse::<usize>().ok()
}

/// Relies on `usize::to_string`, which writes the number in decimal.
#[verifier::external_body]
fn index_text(n: usize) -> (r: String)
    ensures
        r@ == decimal_text(n as nat),
{
    n.to_string()
}

/// Relies on `String::push_str`, which appends `t` to `s`.
#[verifier::external_body]
fn push_text(s: &mut String, t: &str)
    ensures
        final(s)@ == old(s)@ + t@,
{
    s.push_str(t)
}

/// Reads one answer to the prompt: `Some(i)` for an index in bounds, `None`
/// for a cancelled prompt, text that is not a decimal `usize`, or an index
/// past the end, all of which call for asking again.
pub fn parse_choice(answer: Option<String>, count: usize) -> (r: Option<usize>)
    ensures
        match chosen_index(answer_text(answer), count as int) {
            Some(i) => r matches Some(v) && v as int == i,
            None => r is None,
        },
{
    match answer {
        Some(s) => match parse_usize(s.as_str()) {
            Some(n) => if n < count {
                Some(n)
            } else {
                None
            },
            None => None,
        },
        None => None,
    }
}

/// The menu of a listing, one `index: name` line per port, after a header.
pub fn menu_text(names: &Vec<String>) -> (r: String)
    ensures
        r@ == menu_of(names@.map_values(|n: String| n@)),
{
    let ghost views = names@.map_values(|n: String| n@);
    let mut text = String::new();
    push_text(&mut text, "Choose an available input port:\n");
    let mut i: usize = 0;
    while i < names.len()
        invariant
            i <= names@.len(),
            views == names@.map_values(|n: String| n@),
            text@ == menu_header() + menu_lines(views, i as nat),
        decreases names@.len() - i,
    {
        let number = index_text(i);
        push_text(&mut text, number.as_str());
        push_text(&mut text, ": ");
        push_text(&mut text, names[i].as_str());
        push_text(&mut text, "\n");
        proof {
            assert(menu_lines(views, (i + 1) as nat) == menu_lines(views, i as nat)
                + menu_line(i as nat, views[i as int]));
        }
        i = i + 1;
    }
    text
}

} // verus!
