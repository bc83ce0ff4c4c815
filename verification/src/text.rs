//! Texts as sequences of characters: building them, comparing them and
//! looking things up in lists keyed by them.

use vstd::prelude::*;
use vstd::string::*;

verus! {

/// The characters of `unit` written `count` times in a row.
pub open spec fn repeated(unit: Seq<char>, count: nat) -> Seq<char>
    decreases count,
{
    if count == 0 {
        Seq::empty()
    } else {
        repeated(unit, (count - 1) as nat) + unit
    }
}

/// Writing a unit some number of times gives that many times its length.
pub proof fn lemma_repeated_len(unit: Seq<char>, count: nat)
    ensures
        repeated(unit, count).len() == count * unit.len(),
    decreases count,
{
    if count > 0 {
        lemma_repeated_len(unit, (count - 1) as nat);
        assert(count * unit.len() == (count - 1) * unit.len() + unit.len()) by (nonlinear_arith);
    } else {
        assert(0 * unit.len() == 0) by (nonlinear_arith);
    }
}

/// The character for a single decimal digit.
pub open spec fn digit_char(digit: nat) -> char {
    if digit == 0 {
        '0'
    } else if digit == 1 {
        '1'
    } else if digit == 2 {
        '2'
    } else if digit == 3 {
        '3'
    } else if digit == 4 {
        '4'
    } else if digit == 5 {
        '5'
    } else if digit == 6 {
        '6'
    } else if digit == 7 {
        '7'
    } else if digit == 8 {
        '8'
    } else {
        '9'
    }
}

/// The decimal numeral of `value`, without leading zeros.
pub open spec fn decimal(value: nat) -> Seq<char>
    decreases value,
{
    if value < 10 {
        seq![digit_char(value)]
    } else {
        decimal(value / 10).push(digit_char(value % 10))
    }
}

/// The decimal numeral of a signed value: a minus sign before the numeral of a
/// negative value's magnitude.
pub open spec fn signed_decimal(value: int) -> Seq<char> {
    if value < 0 {
        seq!['-'] + decimal((-value) as nat)
    } else {
        decimal(value as nat)
    }
}

/// The parts written one after another with `separator` between neighbours.
pub open spec fn joined(parts: Seq<Seq<char>>, separator: Seq<char>) -> Seq<char>
    decreases parts.len(),
{
    if parts.len() == 0 {
        Seq::empty()
    } else if parts.len() == 1 {
        parts[0]
    } else {
        joined(parts.drop_last(), separator) + separator + parts.last()
    }
}

/// The characters of a string slice, in order.
pub fn chars_of(s: &str) -> (chars: Vec<char>)
    ensures
        chars@ == s@,
{
    let mut chars: Vec<char> = Vec::new();
    for c in it: s.chars()
        invariant
            chars@ == it.seq().take(it.index() as int),
            it.seq() == s@,
    {
        chars.push(c);
    }
    chars
}

/// Whether two string slices hold the same characters.
pub fn same_text(a: &str, b: &str) -> (same: bool)
    ensures
        same == (a@ == b@),
{
    a.to_owned() == b.to_owned()
}

/// Whether `s` begins with the characters of `prefix`.
pub fn starts_with(s: &str, prefix: &str) -> (found: bool)
    ensures
        found == prefix@.is_prefix_of(s@),
{
    let text = chars_of(s);
    let wanted = chars_of(prefix);
    if wanted.len() > text.len() {
        return false;
    }
    let mut i: usize = 0;
    while i < wanted.len()
        invariant
            i <= wanted.len() <= text.len(),
            text@ == s@,
            wanted@ == prefix@,
            forall|k: int| 0 <= k < i ==> text@[k] == wanted@[k],
        decreases wanted.len() - i,
    {
        if text[i] != wanted[i] {
            return false;
        }
        i += 1;
    }
    true
}

/// `unit` written `count` times in a row.
pub fn repeat(unit: &str, count: u64) -> (out: String)
    ensures
        out@ == repeated(unit@, count as nat),
{
    let mut out = String::new();
    let mut done: u64 = 0;
    while done < count
        invariant
            done <= count,
            out@ == repeated(unit@, done as nat),
        decreases count - done,
    {
        out.append(unit);
        done += 1;
    }
    out
}

fn digit_text(digit: u64) -> (text: &'static str)
    requires
        digit < 10,
    ensures
        text@ == seq![digit_char(digit as nat)],
{
    proof {
        reveal_strlit("0");
        reveal_strlit("1");
        reveal_strlit("2");
        reveal_strlit("3");
        reveal_strlit("4");
        reveal_strlit("5");
        reveal_strlit("6");
        reveal_strlit("7");
        reveal_strlit("8");
        reveal_strlit("9");
    }
    let text = if digit == 0 {
        "0"
    } else if digit == 1 {
        "1"
    } else if digit == 2 {
        "2"
    } else if digit == 3 {
        "3"
    } else if digit == 4 {
        "4"
    } else if digit == 5 {
        "5"
    } else if digit == 6 {
        "6"
    } else if digit == 7 {
        "7"
    } else if digit == 8 {
        "8"
    } else {
        "9"
    };
    text
}

/// The decimal numeral of `value`.
pub fn decimal_text(value: u64) -> (out: String)
    ensures
        out@ == decimal(value as nat),
    decreases value,
{
    if value < 10 {
        digit_text(value).to_owned()
    } else {
        let mut out = decimal_text(value / 10);
        out.append(digit_text(value % 10));
        out
    }
}

/// The decimal numeral of a signed value.
pub fn signed_decimal_text(value: i64) -> (out: String)
    ensures
        out@ == signed_decimal(value as int),
{
    if value < 0 {
        let magnitude: u64 = if value == i64::MIN {
            9223372036854775808u64
        } else {
            (-value) as u64
        };
        proof {
            reveal_strlit("-");
        }
        let mut out = "-".to_owned();
        let digits = decimal_text(magnitude);
        out.append(digits.as_str());
        out
    } else {
        decimal_text(value as u64)
    }
}

/// The strings written one after another with `separator` between neighbours.
pub fn join(parts: &Vec<String>, separator: &str) -> (out: String)
    ensures
        out@ == joined(parts.deep_view(), separator@),
{
    let mut out = String::new();
    let mut i: usize = 0;
    while i < parts.len()
        invariant
            i <= parts.len(),
            out@ == joined(parts.deep_view().take(i as int), separator@),
        decreases parts.len() - i,
    {
        let ghost before = parts.deep_view().take(i as int);
        let ghost after = parts.deep_view().take(i + 1);
        assert(after.drop_last() =~= before);
        if i > 0 {
            out.append(separator);
        }
        out.append(parts[i].as_str());
        i += 1;
    }
    assert(parts.deep_view().take(parts.len() as int) =~= parts.deep_view());
    out
}

/// The keys of a list of keyed entries, in order.
pub open spec fn keys_of<V>(entries: Seq<(String, V)>) -> Seq<Seq<char>> {
    Seq::new(entries.len(), |i: int| entries[i].0@)
}

/// The position of the last occurrence of `key` among `keys`, if it occurs.
pub open spec fn last_index_of(keys: Seq<Seq<char>>, key: Seq<char>) -> Option<int>
    decreases keys.len(),
{
    if keys.len() == 0 {
        None
    } else if keys.last() == key {
        Some(keys.len() - 1)
    } else {
        last_index_of(keys.drop_last(), key)
    }
}

/// `last_index_of` finds an occurrence of the key after which the key does not
/// occur again, and finds nothing only where the key does not occur at all.
pub proof fn lemma_last_index_of(keys: Seq<Seq<char>>, key: Seq<char>)
    ensures
        match last_index_of(keys, key) {
            Some(i) => 0 <= i < keys.len() && keys[i] == key && forall|j: int|
                i < j < keys.len() ==> keys[j] != key,
            None => forall|j: int| 0 <= j < keys.len() ==> keys[j] != key,
        },
    decreases keys.len(),
{
    if keys.len() > 0 && keys.last() != key {
        let shorter = keys.drop_last();
        lemma_last_index_of(shorter, key);
        assert forall|j: int| 0 <= j < shorter.len() implies shorter[j] == keys[j] by {}
    }
}

/// The position of the last entry stored under `key`, if there is one.
pub fn find_last<V>(entries: &Vec<(String, V)>, key: &str) -> (found: Option<usize>)
    ensures
        match found {
            Some(i) => i < entries.len() && last_index_of(keys_of(entries@), key@) == Some(
                i as int,
            ),
            None => last_index_of(keys_of(entries@), key@) is None,
        },
{
    proof {
        lemma_last_index_of(keys_of(entries@), key@);
    }
    let wanted = key.to_owned();
    let mut found: Option<usize> = None;
    let mut i: usize = 0;
    while i < entries.len()
        invariant
            i <= entries.len(),
            wanted@ == key@,
            match found {
                Some(k) => last_index_of(keys_of(entries@).take(i as int), key@) == Some(k as int),
                None => last_index_of(keys_of(entries@).take(i as int), key@) is None,
            },
        decreases entries.len() - i,
    {
        assert(keys_of(entries@).take(i + 1).drop_last() =~= keys_of(entries@).take(i as int));
        if entries[i].0 == wanted {
            found = Some(i);
        }
        i += 1;
    }
    assert(keys_of(entries@).take(entries.len() as int) =~= keys_of(entries@));
    found
}

/// Whether `part` stands in `text` from position `start` on.
pub open spec fn occurs_at(part: Seq<char>, text: Seq<char>, start: int) -> bool {
    0 <= start && start + part.len() <= text.len() && text.subrange(start, start + part.len())
        == part
}

/// Whether `part` stands somewhere in `text`.
pub open spec fn occurs_in(part: Seq<char>, text: Seq<char>) -> bool {
    exists|start: int| occurs_at(part, text, start)
}

/// Whether `part` stands in `text` from position `start` on.
fn matches_at(text: &Vec<char>, part: &Vec<char>, start: usize) -> (found: bool)
    requires
        start + part.len() <= text.len(),
    ensures
        found == occurs_at(part@, text@, start as int),
{
    let mut k: usize = 0;
    while k < part.len()
        invariant
            k <= part.len(),
            start + part.len() <= text.len(),
            forall|j: int| 0 <= j < k ==> text@[start + j] == part@[j],
        decreases part.len() - k,
    {
        if text[start + k] != part[k] {
            return false;
        }
        k += 1;
    }
    assert(text@.subrange(start as int, start + part.len()) =~= part@);
    true
}

/// Whether `part` stands somewhere in `text`.
pub fn contains_text(text: &str, part: &str) -> (found: bool)
    ensures
        found == occurs_in(part@, text@),
{
    let whole = chars_of(text);
    let wanted = chars_of(part);
    if wanted.len() > whole.len() {
        return false;
    }
    if wanted.len() == 0 {
        assert(text@.subrange(0, 0) =~= part@);
        assert(occurs_at(part@, text@, 0));
        return true;
    }
    let last: usize = whole.len() - wanted.len();
    let mut start: usize = 0;
    while start <= last
        invariant
            start <= last + 1,
            last == whole.len() - wanted.len(),
            wanted.len() > 0,
            whole@ == text@,
            wanted@ == part@,
            forall|earlier: int| 0 <= earlier < start ==> !occurs_at(part@, text@, earlier),
        decreases last + 1 - start,
    {
        if matches_at(&whole, &wanted, start) {
            return true;
        }
        start += 1;
    }
    false
}

} // verus!
