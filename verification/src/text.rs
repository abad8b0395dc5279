//! Text helpers shared by the other modules.

use vstd::prelude::*;
use vstd::string::*;

verus! {

/// `needle` stands in `haystack` at offset `at`.
pub open spec fn occurs_at(haystack: Seq<char>, needle: Seq<char>, at: int) -> bool {
    &&& 0 <= at
    &&& at + needle.len() <= haystack.len()
    &&& haystack.subrange(at, at + needle.len()) == needle
}

/// `needle` stands somewhere in `haystack`.
pub open spec fn occurs_in(haystack: Seq<char>, needle: Seq<char>) -> bool {
    exists|at: int| occurs_at(haystack, needle, at)
}

/// `needle` stands in `haystack` at offset `at` as a whole line: a new line or
/// the start of the text comes before it, a new line or the end comes after.
pub open spec fn stands_as_line(haystack: Seq<char>, needle: Seq<char>, at: int) -> bool {
    &&& occurs_at(haystack, needle, at)
    &&& (at == 0 || haystack[at - 1] == '\n')
    &&& (at + needle.len() == haystack.len() || haystack[at + needle.len()] == '\n')
}

/// `needle` is one of the lines of `haystack`.
pub open spec fn holds_line(haystack: Seq<char>, needle: Seq<char>) -> bool {
    exists|at: int| stands_as_line(haystack, needle, at)
}

/// The character that writes the digit `d`.
pub open spec fn digit_char(d: nat) -> char {
    if d == 0 {
        '0'
    } else if d == 1 {
        '1'
    } else if d == 2 {
        '2'
    } else if d == 3 {
        '3'
    } else if d == 4 {
        '4'
    } else if d == 5 {
        '5'
    } else if d == 6 {
        '6'
    } else if d == 7 {
        '7'
    } else if d == 8 {
        '8'
    } else {
        '9'
    }
}

/// The decimal notation of `n`, without leading zeros.
pub open spec fn decimal_text(n: nat) -> Seq<char>
    decreases n,
{
    if n < 10 {
        seq![digit_char(n)]
    } else {
        decimal_text(n / 10).push(digit_char(n % 10))
    }
}

/// Whether two string slices hold the same characters.
pub fn same_text(a: &str, b: &str) -> (same: bool)
    ensures
        same == (a@ == b@),
{
    let left = a.to_owned();
    let right = b.to_owned();
    left == right
}

/// The characters of `s`, one by one.
pub fn characters(s: &str) -> (chars: Vec<char>)
    ensures
        chars@ == s@,
{
    let mut chars: Vec<char> = Vec::new();
    let source = s.chars();
    for c in iter: source
        invariant
            chars@ == iter.seq().take(iter.index() as int),
    {
        chars.push(c);
    }
    chars
}

/// Whether `s` begins with the character `first`.
pub fn begins_with(s: &str, first: char) -> (yes: bool)
    ensures
        yes == (s@.len() > 0 && s@[0] == first),
{
    let chars = characters(s);
    chars.len() > 0 && chars[0] == first
}

fn matches_at(haystack: &Vec<char>, needle: &Vec<char>, at: usize) -> (yes: bool)
    requires
        at + needle.len() <= haystack.len(),
    ensures
        yes == occurs_at(haystack@, needle@, at as int),
{
    let mut k: usize = 0;
    while k < needle.len()
        invariant
            k <= needle.len(),
            at + needle.len() <= haystack.len(),
            forall|j: int| 0 <= j < k ==> haystack@[at + j] == needle@[j],
        decreases needle.len() - k,
    {
        if haystack[at + k] != needle[k] {
            assert(haystack@.subrange(at as int, at + needle.len())[k as int] != needle@[k as int]);
            return false;
        }
        k += 1;
    }
    assert(haystack@.subrange(at as int, at + needle.len()) =~= needle@);
    true
}

/// Whether `needle` stands somewhere in `haystack`.
pub fn contains_text(haystack: &str, needle: &str) -> (found: bool)
    ensures
        found == occurs_in(haystack@, needle@),
{
    let hay = characters(haystack);
    let pin = characters(needle);
    if pin.len() > hay.len() {
        return false;
    }
    let last: usize = hay.len() - pin.len();
    let mut at: usize = 0;
    loop
        invariant
            hay@ == haystack@,
            pin@ == needle@,
            last + pin.len() == hay.len(),
            at <= last,
            forall|k: int| 0 <= k < at ==> !occurs_at(hay@, pin@, k),
        decreases last - at,
    {
        if matches_at(&hay, &pin, at) {
            return true;
        }
        if at == last {
            return false;
        }
        at += 1;
    }
}

/// Whether `needle` is one of the lines of `haystack`.
pub fn contains_line(haystack: &str, needle: &str) -> (found: bool)
    ensures
        found == holds_line(haystack@, needle@),
{
    let hay = characters(haystack);
    let pin = characters(needle);
    if pin.len() > hay.len() {
        return false;
    }
    let last: usize = hay.len() - pin.len();
    let mut at: usize = 0;
    loop
        invariant
            hay@ == haystack@,
            pin@ == needle@,
            last + pin.len() == hay.len(),
            at <= last,
            forall|k: int| 0 <= k < at ==> !stands_as_line(hay@, pin@, k),
        decreases last - at,
    {
        let begins = at == 0 || hay[at - 1] == '\n';
        let ends = at == last || hay[at + pin.len()] == '\n';
        if begins && ends && matches_at(&hay, &pin, at) {
            assert(stands_as_line(hay@, pin@, at as int));
            return true;
        }
        if at == last {
            return false;
        }
        at += 1;
    }
}

/// Whether `item` is one of `list`.
pub fn lists(list: &Vec<String>, item: &str) -> (found: bool)
    ensures
        found == list.deep_view().contains(item@),
{
    let mut i: usize = 0;
    while i < list.len()
        invariant
            i <= list.len(),
            forall|j: int| 0 <= j < i ==> list@[j]@ != item@,
        decreases list.len() - i,
    {
        if same_text(list[i].as_str(), item) {
            assert(list.deep_view()[i as int] == item@);
            return true;
        }
        i += 1;
    }
    assert forall|j: int| 0 <= j < list.deep_view().len() implies list.deep_view()[j] != item@ by {
        assert(list.deep_view()[j] == list@[j]@);
    }
    false
}

fn digit_text(d: u16) -> (text: &'static str)
    requires
        d < 10,
    ensures
        text@ == seq![digit_char(d as nat)],
{
    proof {
        reveal_strlit("0");
        reveal_strlit("1");
        reveal_strlit("2");
        reveal_strlit("3");
        reveal_strlit("4");
        reveal_strlit("5");
        reveal_strlit("6");
        reveal_strlit("7");
        reveal_strlit("8");
        reveal_strlit("9");
    }
    let text = if d == 0 {
        "0"
    } else if d == 1 {
        "1"
    } else if d == 2 {
        "2"
    } else if d == 3 {
        "3"
    } else if d == 4 {
        "4"
    } else if d == 5 {
        "5"
    } else if d == 6 {
        "6"
    } else if d == 7 {
        "7"
    } else if d == 8 {
        "8"
    } else {
        "9"
    };
    assert(text@ =~= seq![digit_char(d as nat)]);
    text
}

/// The decimal notation of `n`.
pub fn decimal(n: u16) -> (text: String)
    ensures
        text@ == decimal_text(n as nat),
    decreases n,
{
    if n < 10 {
        String::from_str(digit_text(n))
    } else {
        let mut text = decimal(n / 10);
        text.append(digit_text(n % 10));
        assert(text@ =~= decimal_text((n / 10) as nat).push(digit_char((n % 10) as nat)));
        text
    }
}

/// `first`, `second` and `third`, one after the other.
pub fn concat3(first: &str, second: &str, third: &str) -> (text: String)
    ensures
        text@ == first@ + second@ + third@,
{
    let mut text = String::from_str(first);
    text.append(second);
    text.append(third);
    text
}

} // verus!
