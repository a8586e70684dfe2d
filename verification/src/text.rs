//! Text helpers shared by every rule: comparison, concatenation, decimal
//! numerals, dotted names, and ordered sets of names.
use vstd::prelude::*;

verus! {

/// The character sequences of a list of strings.
pub open spec fn texts(list: Seq<String>) -> Seq<Seq<char>> {
    Seq::new(list.len(), |i: int| list[i]@)
}

/// The character sequences of a list of static words.
pub open spec fn words(list: Seq<&'static str>) -> Seq<Seq<char>> {
    Seq::new(list.len(), |i: int| list[i]@)
}

/// Whether two texts hold the same characters.
pub fn same_text(a: &str, b: &str) -> (same: bool)
    ensures
        same == (a@ == b@),
{
    a.to_owned() == b.to_owned()
}

pub fn cat2(a: &str, b: &str) -> (joined: String)
    ensures
        joined@ == a@ + b@,
{
    let mut out: String = a.to_owned();
    out.append(b);
    out
}

pub fn cat3(a: &str, b: &str, c: &str) -> (joined: String)
    ensures
        joined@ == a@ + b@ + c@,
{
    let mut out: String = cat2(a, b);
    out.append(c);
    out
}

pub fn cat4(a: &str, b: &str, c: &str, d: &str) -> (joined: String)
    ensures
        joined@ == a@ + b@ + c@ + d@,
{
    let mut out: String = cat3(a, b, c);
    out.append(d);
    out
}

pub fn cat5(a: &str, b: &str, c: &str, d: &str, e: &str) -> (joined: String)
    ensures
        joined@ == a@ + b@ + c@ + d@ + e@,
{
    let mut out: String = cat4(a, b, c, d);
    out.append(e);
    out
}

pub fn cat6(a: &str, b: &str, c: &str, d: &str, e: &str, f: &str) -> (joined: String)
    ensures
        joined@ == a@ + b@ + c@ + d@ + e@ + f@,
{
    let mut out: String = cat5(a, b, c, d, e);
    out.append(f);
    out
}

pub fn cat7(a: &str, b: &str, c: &str, d: &str, e: &str, f: &str, g: &str) -> (joined: String)
    ensures
        joined@ == a@ + b@ + c@ + d@ + e@ + f@ + g@,
{
    let mut out: String = cat6(a, b, c, d, e, f);
    out.append(g);
    out
}

/// Whether `list` holds `text`.
pub fn has_text(list: &Vec<String>, text: &str) -> (found: bool)
    ensures
        found == texts(list@).contains(text@),
{
    let mut i: usize = 0;
    while i < list.len()
        invariant
            0 <= i <= list@.len(),
            forall|j: int| 0 <= j < i ==> #[trigger] list@[j]@ != text@,
        decreases list@.len() - i,
    {
        if same_text(list[i].as_str(), text) {
            proof {
                assert(texts(list@)[i as int] == text@);
            }
            return true;
        }
        i += 1;
    }
    false
}

/// Whether `list` holds `word`.
pub fn has_word(list: &[&'static str], word: &str) -> (found: bool)
    ensures
        found == words(list@).contains(word@),
{
    let mut i: usize = 0;
    while i < list.len()
        invariant
            0 <= i <= list@.len(),
            forall|j: int| 0 <= j < i ==> #[trigger] list@[j]@ != word@,
        decreases list@.len() - i,
    {
        if same_text(list[i], word) {
            proof {
                assert(words(list@)[i as int] == word@);
            }
            return true;
        }
        i += 1;
    }
    false
}

/// A copy of a list of strings.
pub fn copy_texts(list: &Vec<String>) -> (copy: Vec<String>)
    ensures
        texts(copy@) == texts(list@),
{
    let mut copy: Vec<String> = Vec::new();
    let mut i: usize = 0;
    while i < list.len()
        invariant
            0 <= i <= list@.len(),
            copy@.len() == i,
            forall|j: int| 0 <= j < i ==> (#[trigger] copy@[j])@ == list@[j]@,
        decreases list@.len() - i,
    {
        copy.push(list[i].clone());
        i += 1;
    }
    assert(texts(copy@) =~= texts(list@));
    copy
}

/// The items of a list, in order, with `separator` between neighbours.
pub open spec fn joined(list: Seq<Seq<char>>, separator: Seq<char>) -> Seq<char>
    decreases list.len(),
{
    if list.len() == 0 {
        Seq::empty()
    } else if list.len() == 1 {
        list[0]
    } else {
        joined(list.drop_last(), separator) + separator + list.last()
    }
}

/// Joins `list` with `separator`.
pub fn join(list: &Vec<String>, separator: &str) -> (out: String)
    ensures
        out@ == joined(texts(list@), separator@),
{
    let mut out: String = String::new();
    let mut i: usize = 0;
    assert(out@ =~= joined(texts(list@).take(0), separator@));
    while i < list.len()
        invariant
            0 <= i <= list@.len(),
            out@ == joined(texts(list@).take(i as int), separator@),
        decreases list@.len() - i,
    {
        let ghost before = texts(list@).take(i as int);
        let ghost after = texts(list@).take(i + 1);
        assert(after.drop_last() =~= before);
        assert(after.last() == list@[i as int]@);
        if i > 0 {
            out.append(separator);
        } else {
            assert(out@ =~= Seq::<char>::empty());
            assert(list@[0]@ =~= out@ + list@[0]@);
        }
        out.append(list[i].as_str());
        i += 1;
    }
    assert(texts(list@).take(i as int) =~= texts(list@));
    out
}

/// The decimal digit `d` as a one-character text.
pub open spec fn digit(d: int) -> Seq<char> {
    if d == 0 {
        "0"@
    } else if d == 1 {
        "1"@
    } else if d == 2 {
        "2"@
    } else if d == 3 {
        "3"@
    } else if d == 4 {
        "4"@
    } else if d == 5 {
        "5"@
    } else if d == 6 {
        "6"@
    } else if d == 7 {
        "7"@
    } else if d == 8 {
        "8"@
    } else {
        "9"@
    }
}

/// The decimal numeral of a natural number.
pub open spec fn numeral(n: nat) -> Seq<char>
    decreases n,
{
    if n < 10 {
        digit(n as int)
    } else {
        numeral(n / 10) + digit((n % 10) as int)
    }
}

/// The decimal numeral of an integer, with a leading `-` below zero.
pub open spec fn signed_numeral(n: int) -> Seq<char> {
    if n < 0 {
        "-"@ + numeral((-n) as nat)
    } else {
        numeral(n as nat)
    }
}

fn digit_text(d: u64) -> (text: &'static str)
    requires
        d < 10,
    ensures
        text@ == digit(d as int),
{
    if d == 0 {
        "0"
    } else if d == 1 {
        "1"
    } else if d == 2 {
        "2"
    } else if d == 3 {
        "3"
    } else if d == 4 {
        "4"
    } else if d == 5 {
        "5"
    } else if d == 6 {
        "6"
    } else if d == 7 {
        "7"
    } else if d == 8 {
        "8"
    } else {
        "9"
    }
}

/// Writes a natural number in decimal.
pub fn decimal(n: u64) -> (text: String)
    ensures
        text@ == numeral(n as nat),
    decreases n,
{
    if n < 10 {
        digit_text(n).to_owned()
    } else {
        let mut text: String = decimal(n / 10);
        text.append(digit_text(n % 10));
        text
    }
}

/// Writes an integer in decimal.
pub fn signed_decimal(n: i64) -> (text: String)
    ensures
        text@ == signed_numeral(n as int),
{
    if n < 0 {
        let magnitude: u64 = if n == i64::MIN {
            9_223_372_036_854_775_808u64
        } else {
            (-n) as u64
        };
        cat2("-", decimal(magnitude).as_str())
    } else {
        decimal(n as u64)
    }
}

/// Writes a length in decimal.
pub fn decimal_size(n: usize) -> (text: String)
    ensures
        text@ == numeral(n as nat),
{
    decimal(n as u64)
}

/// Position just behind the last `.` of a dotted name (0 without one).
pub open spec fn short_start(name: Seq<char>) -> int
    decreases name.len(),
{
    if name.len() == 0 {
        0
    } else if name.last() == '.' {
        name.len() as int
    } else {
        short_start(name.drop_last())
    }
}

/// The last segment of a dotted name.
pub open spec fn last_segment(name: Seq<char>) -> Seq<char> {
    name.subrange(short_start(name), name.len() as int)
}

proof fn short_start_bounds(name: Seq<char>)
    ensures
        0 <= short_start(name) <= name.len(),
    decreases name.len(),
{
    if name.len() > 0 && name.last() != '.' {
        short_start_bounds(name.drop_last());
    }
}

proof fn short_start_stable(name: Seq<char>, end: int)
    requires
        0 <= end <= name.len(),
        forall|j: int| end <= j < name.len() ==> name[j] != '.',
    ensures
        short_start(name) == short_start(name.take(end)),
    decreases name.len(),
{
    if end == name.len() {
        assert(name.take(end) =~= name);
    } else {
        assert(name.drop_last().take(end) =~= name.take(end));
        short_start_stable(name.drop_last(), end);
    }
}

/// The last segment of `owner.name` is `name`, and that of a plain name is the
/// name itself.
pub proof fn last_segment_is_exact(owner: Seq<char>, name: Seq<char>)
    requires
        !name.contains('.'),
    ensures
        last_segment(owner + "."@ + name) == name,
        last_segment(name) == name,
{
    reveal_strlit(".");
    let whole = owner + "."@ + name;
    let end = owner.len() as int + 1;
    assert forall|j: int| end <= j < whole.len() implies whole[j] != '.' by {
        assert(whole[j] == name[j - end]);
        assert(name.contains(name[j - end]));
    }
    short_start_stable(whole, end);
    assert(whole.take(end).last() == '.');
    assert(whole.subrange(end, whole.len() as int) =~= name);
    assert forall|j: int| 0 <= j < name.len() implies name[j] != '.' by {
        assert(name.contains(name[j]));
    }
    short_start_stable(name, 0);
    assert(name.subrange(0, name.len() as int) =~= name);
}

/// The last segment of a dotted name (the whole name without a dot).
pub fn short_name(name: &str) -> (short: String)
    ensures
        short@ == last_segment(name@),
{
    let len: usize = name.unicode_len();
    let mut start: usize = len;
    proof {
        short_start_bounds(name@);
    }
    while start > 0
        invariant_except_break
            start <= len,
            len == name@.len(),
            forall|j: int| start <= j < len ==> name@[j] != '.',
            start == 0 ==> short_start(name@) == 0,
        ensures
            start == short_start(name@),
            start <= len,
            len == name@.len(),
        decreases start,
    {
        if name.get_char(start - 1) == '.' {
            proof {
                short_start_stable(name@, start as int);
                assert(name@.take(start as int).last() == '.');
            }
            break;
        }
        start -= 1;
        proof {
            if start == 0 {
                short_start_stable(name@, 0);
                assert(name@.take(0).len() == 0);
            }
        }
    }
    name.substring_char(start, len).to_owned()
}

/// Whether `needle` occurs in `text`.
pub open spec fn contains_text(text: Seq<char>, needle: Seq<char>) -> bool {
    exists|i: int| #[trigger] occurs_at(text, needle, i)
}

/// Whether `needle` starts at position `i` of `text`.
pub open spec fn occurs_at(text: Seq<char>, needle: Seq<char>, i: int) -> bool {
    0 <= i && i + needle.len() <= text.len() && text.subrange(i, i + needle.len()) == needle
}

fn at_position(text: &str, needle: &str, i: usize, len: usize, width: usize) -> (there: bool)
    requires
        len == text@.len(),
        width == needle@.len(),
        i <= len,
    ensures
        there == occurs_at(text@, needle@, i as int),
{
    width <= len - i && same_text(text.substring_char(i, i + width), needle)
}

/// Whether `text` contains `needle`.
pub fn has_part(text: &str, needle: &str) -> (found: bool)
    ensures
        found == contains_text(text@, needle@),
{
    let len: usize = text.unicode_len();
    let width: usize = needle.unicode_len();
    let mut i: usize = 0;
    while i < len
        invariant
            i <= len,
            len == text@.len(),
            width == needle@.len(),
            forall|j: int| 0 <= j < i ==> !#[trigger] occurs_at(text@, needle@, j),
        decreases len - i,
    {
        if at_position(text, needle, i, len, width) {
            return true;
        }
        i += 1;
    }
    at_position(text, needle, len, len, width)
}

/// First position, from `i` on, at which `needle` occurs.
pub open spec fn part_from(text: Seq<char>, needle: Seq<char>, i: int) -> Option<int>
    decreases text.len() + 1 - i,
{
    if i < 0 || i > text.len() {
        None
    } else if occurs_at(text, needle, i) {
        Some(i)
    } else {
        part_from(text, needle, i + 1)
    }
}

/// First position of `needle` in `text`.
pub fn find_part(text: &str, needle: &str) -> (at: Option<usize>)
    ensures
        match at {
            Some(found) => part_from(text@, needle@, 0) == Some(found as int) && found
                <= text@.len(),
            None => part_from(text@, needle@, 0) is None,
        },
{
    let len: usize = text.unicode_len();
    let width: usize = needle.unicode_len();
    let mut i: usize = 0;
    while i < len
        invariant
            i <= len,
            len == text@.len(),
            width == needle@.len(),
            part_from(text@, needle@, 0) == part_from(text@, needle@, i as int),
        decreases len - i,
    {
        if at_position(text, needle, i, len, width) {
            return Some(i);
        }
        i += 1;
    }
    if at_position(text, needle, len, len, width) {
        Some(len)
    } else {
        assert(part_from(text@, needle@, len + 1) is None);
        None
    }
}

/// Whether `text` starts with `prefix`.
pub fn starts_with(text: &str, prefix: &str) -> (starts: bool)
    ensures
        starts == occurs_at(text@, prefix@, 0),
{
    at_position(text, prefix, 0, text.unicode_len(), prefix.unicode_len())
}

/// Whether `text` holds the character `c`.
pub fn has_char(text: &str, c: char) -> (found: bool)
    ensures
        found == text@.contains(c),
{
    let len: usize = text.unicode_len();
    let mut i: usize = 0;
    while i < len
        invariant
            i <= len,
            len == text@.len(),
            forall|j: int| 0 <= j < i ==> #[trigger] text@[j] != c,
        decreases len - i,
    {
        if text.get_char(i) == c {
            return true;
        }
        i += 1;
    }
    false
}

/// Whether Unicode counts `c` as a letter or a number.
pub uninterp spec fn alphanumeric(c: char) -> bool;

/// Calls [`char::is_alphanumeric`]: which characters it accepts is given by
/// the Unicode tables alone.
#[verifier::external_body]
pub(crate) fn is_alphanumeric(c: char) -> (accepted: bool)
    ensures
        accepted == alphanumeric(c),
{
    c.is_alphanumeric()
}

/// Whether `c` has the Unicode property `White_Space`.
pub open spec fn white_space(c: char) -> bool {
    let code = c as u32;
    0x9 <= code <= 0xD || code == 0x20 || code == 0x85 || code == 0xA0 || code == 0x1680
        || 0x2000 <= code <= 0x200A || code == 0x2028 || code == 0x2029 || code == 0x202F || code
        == 0x205F || code == 0x3000
}

/// Whether `c` is white space.
pub fn is_whitespace(c: char) -> (yes: bool)
    ensures
        yes == white_space(c),
{
    let code: u32 = c as u32;
    (0x9 <= code && code <= 0xD) || code == 0x20 || code == 0x85 || code == 0xA0 || code == 0x1680
        || (0x2000 <= code && code <= 0x200A) || code == 0x2028 || code == 0x2029 || code == 0x202F
        || code == 0x205F || code == 0x3000
}

/// Number of leading white-space characters of the first `len` characters,
/// from `i` on.
pub open spec fn trim_start(text: Seq<char>, i: int) -> int
    decreases text.len() - i,
{
    if i < 0 || i >= text.len() || !white_space(text[i]) {
        i
    } else {
        trim_start(text, i + 1)
    }
}

/// Position behind the last character of `text` before `end` that is no
/// white space, not before `start`.
pub open spec fn trim_end(text: Seq<char>, start: int, end: int) -> int
    decreases end,
{
    if end <= start || end <= 0 || !white_space(text[end - 1]) {
        end
    } else {
        trim_end(text, start, end - 1)
    }
}

/// The text without white space around it.
pub open spec fn trimmed(text: Seq<char>) -> Seq<char> {
    let start = trim_start(text, 0);
    text.subrange(start, trim_end(text, start, text.len() as int))
}

/// Removes white space at both ends.
pub fn trim(text: &str) -> (out: String)
    ensures
        out@ == trimmed(text@),
{
    let len: usize = text.unicode_len();
    let mut start: usize = 0;
    while start < len && is_whitespace(text.get_char(start))
        invariant
            start <= len,
            len == text@.len(),
            trim_start(text@, 0) == trim_start(text@, start as int),
        decreases len - start,
    {
        start += 1;
    }
    let mut end: usize = len;
    while end > start && is_whitespace(text.get_char(end - 1))
        invariant
            start <= end <= len,
            len == text@.len(),
            trim_end(text@, start as int, len as int) == trim_end(
                text@,
                start as int,
                end as int,
            ),
        decreases end,
    {
        end -= 1;
    }
    text.substring_char(start, end).to_owned()
}

/// The lower-case form of an ASCII letter; any other character itself.
pub open spec fn ascii_lower(c: char) -> char {
    if 'A' <= c && c <= 'Z' {
        ((c as u8) + 32) as u8 as char
    } else {
        c
    }
}

fn lower_ascii(c: char) -> (lower: char)
    ensures
        lower == ascii_lower(c),
{
    if 'A' <= c && c <= 'Z' {
        ((c as u8) + 32) as char
    } else {
        c
    }
}

/// The text with its ASCII letters in lower case.
pub open spec fn ascii_lowered(text: Seq<char>) -> Seq<char> {
    Seq::new(text.len(), |i: int| ascii_lower(text[i]))
}

/// Whether `text`, with its ASCII letters in lower case, is `wanted`.
pub fn lowers_to(text: &str, wanted: &str) -> (same: bool)
    ensures
        same == (ascii_lowered(text@) == wanted@),
{
    let len: usize = text.unicode_len();
    if len != wanted.unicode_len() {
        return false;
    }
    let mut i: usize = 0;
    while i < len
        invariant
            i <= len,
            len == text@.len(),
            len == wanted@.len(),
            forall|j: int| 0 <= j < i ==> ascii_lower(text@[j]) == #[trigger] wanted@[j],
        decreases len - i,
    {
        if lower_ascii(text.get_char(i)) != wanted.get_char(i) {
            assert(ascii_lowered(text@)[i as int] != wanted@[i as int]);
            return false;
        }
        i += 1;
    }
    assert(ascii_lowered(text@) =~= wanted@);
    true
}

/// The lower-case form of a text as Unicode defines it.
pub uninterp spec fn lowercase(text: Seq<char>) -> Seq<char>;

/// Calls [`str::to_lowercase`]: the result is given by the text and the
/// Unicode tables alone.
#[verifier::external_body]
pub(crate) fn to_lowercase(text: &str) -> (lower: String)
    ensures
        lower@ == lowercase(text@),
{
    text.to_lowercase()
}

/// Concatenation of `f(0), f(1), .., f(n - 1)`.
pub open spec fn gather<A>(n: int, f: spec_fn(int) -> Seq<A>) -> Seq<A>
    decreases n,
{
    if n <= 0 {
        Seq::empty()
    } else {
        gather(n - 1, f) + f(n - 1)
    }
}

/// Every item of a concatenation stands in one of its parts.
pub proof fn gathered_from<A>(n: int, f: spec_fn(int) -> Seq<A>, p: int)
    requires
        0 <= p < gather(n, f).len(),
    ensures
        exists|k: int| 0 <= k < n && (#[trigger] f(k)).contains(gather(n, f)[p]),
    decreases n,
{
    let before = gather(n - 1, f);
    if p < before.len() {
        gathered_from(n - 1, f, p);
        let k = choose|k: int| 0 <= k < n - 1 && (#[trigger] f(k)).contains(before[p]);
        assert(f(k).contains(gather(n, f)[p]));
    } else {
        assert(f(n - 1)[p - before.len()] == gather(n, f)[p]);
    }
}

/// The zero or one items of an option.
pub open spec fn found<A>(item: Option<A>) -> Seq<A> {
    match item {
        Some(value) => seq![value],
        None => Seq::empty(),
    }
}

/// The numbers below `n` that pass `test`, in order.
pub open spec fn picked(n: int, test: spec_fn(int) -> bool) -> Seq<usize>
    decreases n,
{
    if n <= 0 {
        Seq::empty()
    } else if test(n - 1) {
        picked(n - 1, test).push((n - 1) as usize)
    } else {
        picked(n - 1, test)
    }
}

/// Every number that is picked is below `n` and passes the test.
pub proof fn picked_pass(n: int, test: spec_fn(int) -> bool)
    requires
        0 <= n <= usize::MAX,
    ensures
        forall|i: int|
            0 <= i < picked(n, test).len() ==> 0 <= #[trigger] picked(n, test)[i] < n && test(
                picked(n, test)[i] as int,
            ),
    decreases n,
{
    if n > 0 {
        picked_pass(n - 1, test);
        let rest = picked(n - 1, test);
        assert forall|i: int| 0 <= i < picked(n, test).len() implies 0 <= #[trigger] picked(
            n,
            test,
        )[i] < n && test(picked(n, test)[i] as int) by {
            if i < rest.len() {
                assert(picked(n, test)[i] == rest[i]);
            }
        }
    }
}

} // verus!
