//! Connection setup: which output port to connect to.
//!
//! Enumerating the ports, prompting and reading the answer are the caller's
//! business. What is decided here is what the number of ports calls for, and
//! which port a typed line selects.

use vstd::prelude::*;

verus! {

/// Why no port was selected.
#[derive(Clone, Copy, Debug, PartialEq, Eq, Structural)]
pub enum SelectError {
    /// There is no output port at all.
    NoDevice,
    /// The answer to the prompt does not name a port.
    InvalidSelection,
}

/// What the number of ports calls for.
#[derive(Clone, Copy, Debug, PartialEq, Eq, Structural)]
pub enum Plan {
    /// Take this port without asking.
    Auto(usize),
    /// List the ports and ask for an index.
    Prompt,
}

/// No port: fail. One port: take it. Several: ask.
pub open spec fn plan_for(port_count: usize) -> Result<Plan, SelectError> {
    if port_count == 0 {
        Err(SelectError::NoDevice)
    } else if port_count == 1 {
        Ok(Plan::Auto(0))
    } else {
        Ok(Plan::Prompt)
    }
}

/// Decides, from the number of output ports alone, how a port is selected.
pub fn select_port(port_count: usize) -> (plan: Result<Plan, SelectError>)
    ensures
        plan == plan_for(port_count),
        port_count == 0 <==> plan == Err::<Plan, SelectError>(SelectError::NoDevice),
        port_count == 1 <==> plan == Ok::<Plan, SelectError>(Plan::Auto(0)),
        port_count > 1 <==> plan == Ok::<Plan, SelectError>(Plan::Prompt),
{
    if port_count == 0 {
        Err(SelectError::NoDevice)
    } else if port_count == 1 {
        Ok(Plan::Auto(0))
    } else {
        Ok(Plan::Prompt)
    }
}

/// White space as Unicode defines it (`White_Space`).
pub open spec fn is_space(c: char) -> bool {
    let u = c as u32;
    ||| 0x09 <= u <= 0x0D
    ||| u == 0x20
    ||| u == 0x85
    ||| u == 0xA0
    ||| u == 0x1680
    ||| 0x2000 <= u <= 0x200A
    ||| u == 0x2028
    ||| u == 0x2029
    ||| u == 0x202F
    ||| u == 0x205F
    ||| u == 0x3000
}

/// `s` without its leading white space.
pub open spec fn trim_start(s: Seq<char>) -> Seq<char>
    decreases s.len(),
{
    if s.len() > 0 && is_space(s[0]) {
        trim_start(s.drop_first())
    } else {
        s
    }
}

/// `s` without its trailing white space.
pub open spec fn trim_end(s: Seq<char>) -> Seq<char>
    decreases s.len(),
{
    if s.len() > 0 && is_space(s.last()) {
        trim_end(s.drop_last())
    } else {
        s
    }
}

/// `s` without the white space at either end.
pub open spec fn trim(s: Seq<char>) -> Seq<char> {
    trim_end(trim_start(s))
}

/// One of the ten ASCII digits.
pub open spec fn is_digit(c: char) -> bool {
    0x30 <= c as u32 <= 0x39
}

/// The number a string of digits denotes in base ten.
pub open spec fn decimal(digits: Seq<char>) -> nat
    decreases digits.len(),
{
    if digits.len() == 0 {
        0
    } else {
        10 * decimal(digits.drop_last()) + (digits.last() as u32 - 0x30) as nat
    }
}

/// `text` without a leading plus sign.
pub open spec fn unsigned(text: Seq<char>) -> Seq<char> {
    if text.len() > 0 && text[0] == '+' {
        text.drop_first()
    } else {
        text
    }
}

/// The index that `text` denotes: an optional plus sign, then one or more
/// digits, and nothing else.
pub open spec fn index_in(text: Seq<char>) -> Option<nat> {
    let digits = unsigned(text);
    if digits.len() > 0 && (forall|i: int|
        0 <= i < digits.len() ==> is_digit(#[trigger] digits[i])) {
        Some(decimal(digits))
    } else {
        None
    }
}

/// The port that `line` selects among `port_count` ports, numbered from zero.
pub open spec fn choice_for(port_count: usize, line: Seq<char>) -> Result<usize, SelectError> {
    match index_in(trim(line)) {
        Some(index) if index < port_count => Ok(index as usize),
        _ => Err(SelectError::InvalidSelection),
    }
}

/// The port that setup settles on: what the number of ports calls for, and,
/// where that is to ask, what the typed `line` selects.
pub open spec fn selection(port_count: usize, line: Seq<char>) -> Result<usize, SelectError> {
    match plan_for(port_count) {
        Err(error) => Err(error),
        Ok(Plan::Auto(index)) => Ok(index),
        Ok(Plan::Prompt) => choice_for(port_count, line),
    }
}

/// What is typed matters only where it is asked for: with no port setup
/// fails for want of a device, and with one port that port is taken, whatever
/// the line holds.
pub proof fn law_answer_counts_only_when_asked(port_count: usize, line: Seq<char>)
    requires
        port_count <= 1,
    ensures
        port_count == 0 ==> selection(port_count, line) == Err::<usize, SelectError>(
            SelectError::NoDevice,
        ),
        port_count == 1 ==> selection(port_count, line) == Ok::<usize, SelectError>(0),
{
}

/// A port that setup settles on is one of the ports there are.
pub proof fn law_selection_in_range(port_count: usize, line: Seq<char>)
    ensures
        selection(port_count, line) matches Ok(index) ==> index < port_count,
        selection(port_count, line) matches Err(error) ==> (error == SelectError::NoDevice
            <==> port_count == 0),
{
}

impl SelectError {
    /// The text a failed setup is reported with.
    pub fn message(&self) -> (text: &'static str)
        ensures
            text@ == (match *self {
                SelectError::NoDevice => "no output port found"@,
                SelectError::InvalidSelection => "invalid output port selected"@,
            }),
    {
        match self {
            SelectError::NoDevice => "no output port found",
            SelectError::InvalidSelection => "invalid output port selected",
        }
    }
}

/// Skipping leading white space does not change what `trim_start` leaves.
proof fn lemma_trim_start_skips(s: Seq<char>, k: int)
    requires
        0 <= k <= s.len(),
        forall|i: int| 0 <= i < k ==> is_space(#[trigger] s[i]),
    ensures
        trim_start(s) == trim_start(s.subrange(k, s.len() as int)),
    decreases k,
{
    if k == 0 {
        assert(s.subrange(0, s.len() as int) =~= s);
    } else {
        let rest = s.drop_first();
        assert forall|i: int| 0 <= i < k - 1 implies is_space(#[trigger] rest[i]) by {
            assert(rest[i] == s[i + 1]);
        }
        lemma_trim_start_skips(rest, k - 1);
        assert(rest.subrange(k - 1, rest.len() as int) =~= s.subrange(k, s.len() as int));
    }
}

/// Dropping trailing white space does not change what `trim_end` leaves.
proof fn lemma_trim_end_skips(s: Seq<char>, k: int)
    requires
        0 <= k <= s.len(),
        forall|i: int| k <= i < s.len() ==> is_space(#[trigger] s[i]),
    ensures
        trim_end(s) == trim_end(s.take(k)),
    decreases s.len() - k,
{
    if k == s.len() {
        assert(s.take(k) =~= s);
    } else {
        let rest = s.drop_last();
        assert forall|i: int| k <= i < rest.len() implies is_space(#[trigger] rest[i]) by {
            assert(rest[i] == s[i]);
        }
        lemma_trim_end_skips(rest, k);
        assert(rest.take(k) =~= s.take(k));
    }
}

/// A number is at least what any of its leading digits denote.
proof fn lemma_decimal_grows(digits: Seq<char>, k: int)
    requires
        0 <= k <= digits.len(),
    ensures
        decimal(digits.take(k)) <= decimal(digits),
    decreases digits.len(),
{
    if k == digits.len() {
        assert(digits.take(k) =~= digits);
    } else {
        let front = digits.drop_last();
        lemma_decimal_grows(front, k);
        assert(front.take(k) =~= digits.take(k));
    }
}

fn is_space_char(c: char) -> (b: bool)
    ensures
        b == is_space(c),
{
    let u: u32 = c as u32;
    (0x09 <= u && u <= 0x0D) || u == 0x20 || u == 0x85 || u == 0xA0 || u == 0x1680 || (0x2000 <= u
        && u <= 0x200A) || u == 0x2028 || u == 0x2029 || u == 0x202F || u == 0x205F || u == 0x3000
}

fn is_digit_char(c: char) -> (b: bool)
    ensures
        b == is_digit(c),
{
    let u: u32 = c as u32;
    0x30 <= u && u <= 0x39
}

/// The characters of `line`, one by one.
fn chars_of(line: &str) -> (chars: Vec<char>)
    ensures
        chars@ == line@,
{
    let n: usize = line.unicode_len();
    let mut chars: Vec<char> = Vec::new();
    let mut i: usize = 0;
    while i < n
        invariant
            i <= n,
            n == line@.len(),
            chars@ == line@.take(i as int),
        decreases n - i,
    {
        chars.push(line.get_char(i));
        i += 1;
    }
    chars
}

/// Where the text between the white space at either end starts and stops.
fn trim_bounds(chars: &Vec<char>) -> (bounds: (usize, usize))
    ensures
        bounds.0 <= bounds.1 <= chars.len(),
        chars@.subrange(bounds.0 as int, bounds.1 as int) == trim(chars@),
{
    let n: usize = chars.len();
    let mut start: usize = 0;
    while start < n && is_space_char(chars[start])
        invariant
            start <= n,
            n == chars.len(),
            forall|i: int| 0 <= i < start ==> is_space(#[trigger] chars@[i]),
        decreases n - start,
    {
        start += 1;
    }
    let ghost tail = chars@.subrange(start as int, n as int);
    proof {
        lemma_trim_start_skips(chars@, start as int);
    }
    let mut end: usize = n;
    while end > start && is_space_char(chars[end - 1])
        invariant
            start <= end <= n,
            n == chars.len(),
            forall|i: int| end <= i < n ==> is_space(#[trigger] chars@[i]),
        decreases end - start,
    {
        end -= 1;
    }
    proof {
        assert forall|i: int| end - start <= i < tail.len() implies is_space(
            #[trigger] tail[i],
        ) by {
            assert(tail[i] == chars@[start + i]);
        }
        lemma_trim_end_skips(tail, end - start);
        assert(tail.take(end - start) =~= chars@.subrange(start as int, end as int));
    }
    (start, end)
}

/// What `read_index` finds in `text` below `limit`.
spec fn index_below(text: Seq<char>, limit: usize) -> Option<usize> {
    match index_in(text) {
        Some(index) if index < limit => Some(index as usize),
        _ => None,
    }
}

/// Reads the index written between `from` and `to`, if it is below `limit`.
fn read_index(chars: &Vec<char>, from: usize, to: usize, limit: usize) -> (found: Option<usize>)
    requires
        from <= to <= chars.len(),
    ensures
        found == index_below(chars@.subrange(from as int, to as int), limit),
{
    let ghost text = chars@.subrange(from as int, to as int);
    let mut i: usize = from;
    if i < to && chars[i] == '+' {
        i += 1;
    }
    let first: usize = i;
    let ghost digits = chars@.subrange(first as int, to as int);
    assert(digits =~= unsigned(text));
    if i == to || limit == 0 {
        return None;
    }
    let mut value: usize = 0;
    while i < to
        invariant
            from <= first <= i <= to <= chars.len(),
            digits == chars@.subrange(first as int, to as int),
            digits == unsigned(chars@.subrange(from as int, to as int)),
            forall|j: int| 0 <= j < i - first ==> is_digit(#[trigger] digits[j]),
            value == decimal(digits.take(i - first)),
            value < limit,
        decreases to - i,
    {
        let c: char = chars[i];
        assert(digits[i - first] == c);
        if !is_digit_char(c) {
            return None;
        }
        let digit: usize = (c as u32 - 0x30) as usize;
        proof {
            let head = digits.take(i - first + 1);
            assert(head.drop_last() =~= digits.take(i - first));
            lemma_decimal_grows(digits, i - first + 1);
        }
        if value > (usize::MAX - digit) / 10 {
            return None;
        }
        let grown: usize = value * 10 + digit;
        if grown >= limit {
            return None;
        }
        value = grown;
        i += 1;
    }
    assert(digits.take(to - first) =~= digits);
    Some(value)
}

/// Reads the answer to the prompt: the index of one of `port_count` ports,
/// with white space allowed around it.
pub fn select_from_line(port_count: usize, line: &str) -> (choice: Result<usize, SelectError>)
    ensures
        choice == choice_for(port_count, line@),
        choice matches Ok(index) ==> index < port_count && index_in(trim(line@)) == Some(
            index as nat,
        ),
        choice matches Err(error) ==> error == SelectError::InvalidSelection && !(index_in(
            trim(line@),
        ) matches Some(index) && index < port_count),
{
    let chars = chars_of(line);
    let (start, end) = trim_bounds(&chars);
    match read_index(&chars, start, end, port_count) {
        Some(index) => Ok(index),
        None => Err(SelectError::InvalidSelection),
    }
}

} // verus!
