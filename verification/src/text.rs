//! Text operations with exact meanings over sequences of characters.

use vstd::prelude::*;

verus! {

/// Whether the two texts hold the same characters.
pub fn same_text(a: &str, b: &str) -> (same: bool)
    ensures
        same == (a@ == b@),
{
    a.to_owned() == b.to_owned()
}

/// The characters of a text, as a vector.
pub fn characters(text: &str) -> (chars: Vec<char>)
    ensures
        chars@ == text@,
{
    let mut chars: Vec<char> = Vec::new();
    for c in it: text.chars()
        invariant
            it.seq() == text@,
            chars@ == text@.take(it.index()),
    {
        proof {
            assert(text@.take(it.index() + 1) =~= text@.take(it.index()).push(text@[it.index()]));
        }
        chars.push(c);
    }
    proof {
        assert(text@.take(text@.len() as int) =~= text@);
    }
    chars
}

fn code_point(c: char) -> (n: u32)
    ensures
        n as int == c as int,
{
    c as u32
}

/// Membership in the Unicode `White_Space` property.
pub open spec fn is_white_space(c: char) -> bool {
    let n = c as int;
    ||| 0x09 <= n <= 0x0d
    ||| n == 0x20
    ||| n == 0x85
    ||| n == 0xa0
    ||| n == 0x1680
    ||| 0x2000 <= n <= 0x200a
    ||| n == 0x2028
    ||| n == 0x2029
    ||| n == 0x202f
    ||| n == 0x205f
    ||| n == 0x3000
}

/// Whether `c` has the Unicode `White_Space` property.
pub fn white_space(c: char) -> (result: bool)
    ensures
        result == is_white_space(c),
{
    let n: u32 = code_point(c);
    (0x09 <= n && n <= 0x0d) || n == 0x20 || n == 0x85 || n == 0xa0 || n == 0x1680 || (0x2000 <= n
        && n <= 0x200a) || n == 0x2028 || n == 0x2029 || n == 0x202f || n == 0x205f || n == 0x3000
}

/// `s` without the white space it begins with.
pub open spec fn trimmed_start(s: Seq<char>) -> Seq<char>
    decreases s.len(),
{
    if s.len() > 0 && is_white_space(s[0]) {
        trimmed_start(s.drop_first())
    } else {
        s
    }
}

/// `s` without the white space it ends with.
pub open spec fn trimmed_end(s: Seq<char>) -> Seq<char>
    decreases s.len(),
{
    if s.len() > 0 && is_white_space(s.last()) {
        trimmed_end(s.drop_last())
    } else {
        s
    }
}

/// `s` without the white space around it.
pub open spec fn trimmed(s: Seq<char>) -> Seq<char> {
    trimmed_end(trimmed_start(s))
}

/// Nothing but white space, or nothing at all.
pub open spec fn is_blank(s: Seq<char>) -> bool {
    forall|i: int| 0 <= i < s.len() ==> is_white_space(#[trigger] s[i])
}

/// The text without the white space around it.
pub fn trim(text: &str) -> (result: String)
    ensures
        result@ == trimmed(text@),
{
    let chars = characters(text);
    let n: usize = chars.len();
    let mut from: usize = 0;
    proof {
        assert(text@.skip(0) =~= text@);
    }
    while from < n && white_space(chars[from])
        invariant
            n == chars@.len(),
            chars@ == text@,
            from <= n,
            trimmed_start(text@) == trimmed_start(text@.skip(from as int)),
        decreases n - from,
    {
        proof {
            assert(text@.skip(from as int).drop_first() =~= text@.skip(from + 1));
        }
        from = from + 1;
    }
    let ghost core = text@.skip(from as int);
    let mut to: usize = n;
    proof {
        assert(core.take(n - from) =~= core);
    }
    while from < to && white_space(chars[to - 1])
        invariant
            n == chars@.len(),
            chars@ == text@,
            from <= to <= n,
            core == text@.skip(from as int),
            trimmed_end(core) == trimmed_end(core.take(to - from)),
        decreases to - from,
    {
        proof {
            assert(core.take(to - from).drop_last() =~= core.take(to - from - 1));
            assert(core.take(to - from).last() == chars@[to - 1]);
        }
        to = to - 1;
    }
    proof {
        assert(core.take(to - from) =~= text@.subrange(from as int, to as int));
        if from < to {
            assert(core.take(to - from).last() == chars@[to - 1]);
        }
    }
    text.substring_char(from, to).to_owned()
}

/// Whether trimming leaves nothing of the text.
pub fn blank(text: &str) -> (result: bool)
    ensures
        result == is_blank(text@),
        result == (trimmed(text@).len() == 0),
{
    proof {
        blank_is_what_trims_to_nothing(text@);
    }
    trim(text).as_str().is_empty()
}

proof fn start_trim_of_blank(s: Seq<char>)
    ensures
        is_blank(s) ==> trimmed_start(s).len() == 0,
        !is_blank(s) ==> trimmed_start(s).len() > 0 && !is_white_space(trimmed_start(s)[0]),
    decreases s.len(),
{
    if s.len() > 0 && is_white_space(s[0]) {
        start_trim_of_blank(s.drop_first());
        if is_blank(s) {
            assert forall|i: int| 0 <= i < s.drop_first().len() implies is_white_space(
                #[trigger] s.drop_first()[i],
            ) by {
                assert(s.drop_first()[i] == s[i + 1]);
            }
        } else {
            let k = choose|k: int| 0 <= k < s.len() && !is_white_space(#[trigger] s[k]);
            assert(s.drop_first()[k - 1] == s[k]);
        }
    } else if s.len() > 0 {
        assert(!is_white_space(s[0]));
    }
}

proof fn end_trim_keeps_the_start(s: Seq<char>)
    requires
        s.len() > 0,
        !is_white_space(s[0]),
    ensures
        trimmed_end(s).len() > 0,
        trimmed_end(s)[0] == s[0],
        !is_white_space(trimmed_end(s).last()),
    decreases s.len(),
{
    if is_white_space(s.last()) {
        assert(s.drop_last()[0] == s[0]);
        end_trim_keeps_the_start(s.drop_last());
    }
}

/// A text trims to nothing exactly when it is blank.
pub proof fn blank_is_what_trims_to_nothing(s: Seq<char>)
    ensures
        is_blank(s) <==> trimmed(s).len() == 0,
{
    start_trim_of_blank(s);
    if is_blank(s) {
        assert(trimmed_end(trimmed_start(s)) == trimmed_start(s));
    } else {
        end_trim_keeps_the_start(trimmed_start(s));
    }
}

/// What trimming leaves has no white space at either end, so trimming it again changes nothing.
pub proof fn trimming_is_idempotent(s: Seq<char>)
    ensures
        trimmed(trimmed(s)) == trimmed(s),
        trimmed(s).len() > 0 ==> !is_white_space(trimmed(s)[0]) && !is_white_space(
            trimmed(s).last(),
        ),
{
    start_trim_of_blank(s);
    if is_blank(s) {
        assert(trimmed(s).len() == 0);
    } else {
        end_trim_keeps_the_start(trimmed_start(s));
    }
}

/// The digit of a number below ten.
pub open spec fn digit(n: int) -> char {
    (n + 0x30) as char
}

/// A number in decimal, without leading zeros.
pub open spec fn decimal(n: nat) -> Seq<char>
    decreases n,
{
    if n < 10 {
        seq![digit(n as int)]
    } else {
        decimal(n / 10).push(digit((n % 10) as int))
    }
}

fn digit_text(n: u64) -> (text: &'static str)
    requires
        n < 10,
    ensures
        text@ == seq![digit(n as int)],
{
    proof {
        reveal_strlit("0");
        reveal_strlit("1");
        reveal_strlit("2");
        reveal_strlit("3");
        reveal_strlit("4");
        reveal_strlit("5");
        reveal_strlit("6");
        reveal_strlit("7");
        reveal_strlit("8");
        reveal_strlit("9");
    }
    let text = if n == 0 {
        "0"
    } else if n == 1 {
        "1"
    } else if n == 2 {
        "2"
    } else if n == 3 {
        "3"
    } else if n == 4 {
        "4"
    } else if n == 5 {
        "5"
    } else if n == 6 {
        "6"
    } else if n == 7 {
        "7"
    } else if n == 8 {
        "8"
    } else {
        "9"
    };
    proof {
        assert(text@ =~= seq![digit(n as int)]);
    }
    text
}

/// The number in decimal.
pub fn number(n: u64) -> (text: String)
    ensures
        text@ == decimal(n as nat),
    decreases n,
{
    if n < 10 {
        digit_text(n).to_owned()
    } else {
        let mut text = number(n / 10);
        text.append(digit_text(n % 10));
        proof {
            assert(text@ =~= decimal(n as nat));
        }
        text
    }
}

/// A number is written with digits alone, and with at least one of them.
pub proof fn decimal_is_digits(n: nat)
    ensures
        decimal(n).len() > 0,
        forall|i: int| 0 <= i < decimal(n).len() ==> '0' <= #[trigger] decimal(n)[i] <= '9',
    decreases n,
{
    if n >= 10 {
        decimal_is_digits(n / 10);
    }
}

/// Different numbers are written differently.
pub proof fn decimal_is_unambiguous(a: nat, b: nat)
    requires
        decimal(a) == decimal(b),
    ensures
        a == b,
    decreases a,
{
    decimal_is_digits(a / 10);
    decimal_is_digits(b / 10);
    if a < 10 && b < 10 {
        assert(decimal(a) == seq![digit(a as int)]);
        assert(decimal(b) == seq![digit(b as int)]);
        assert(seq![digit(a as int)][0] == seq![digit(b as int)][0]);
        assert(digit(a as int) as int == a + 0x30 && digit(b as int) as int == b + 0x30);
    } else if a >= 10 && b >= 10 {
        let (x, y) = ((a % 10) as int, (b % 10) as int);
        assert(decimal(a).drop_last() =~= decimal(a / 10));
        assert(decimal(b).drop_last() =~= decimal(b / 10));
        assert(decimal(a).last() == digit(x) && decimal(b).last() == digit(y));
        assert(digit(x) as int == x + 0x30 && digit(y) as int == y + 0x30);
        decimal_is_unambiguous(a / 10, b / 10);
    } else {
        assert(a < 10 ==> decimal(a) == seq![digit(a as int)]);
        assert(b < 10 ==> decimal(b) == seq![digit(b as int)]);
        assert(decimal(a).len() != decimal(b).len());
    }
}

/// Whether `pattern` stands in `s` at position `at`.
pub open spec fn occurs_at(s: Seq<char>, pattern: Seq<char>, at: int) -> bool {
    0 <= at && at + pattern.len() <= s.len() && s.subrange(at, at + pattern.len()) == pattern
}

/// `s` with every occurrence of `pattern`, found from the left without overlap, replaced by `by`.
pub open spec fn replaced(s: Seq<char>, pattern: Seq<char>, by: Seq<char>) -> Seq<char>
    decreases s.len(),
{
    if s.len() == 0 || pattern.len() == 0 {
        s
    } else if occurs_at(s, pattern, 0) {
        by + replaced(s.skip(pattern.len() as int), pattern, by)
    } else {
        seq![s[0]] + replaced(s.drop_first(), pattern, by)
    }
}

/// Whether `pattern` stands in `chars` at position `at`.
pub fn matches_at(chars: &Vec<char>, pattern: &Vec<char>, at: usize) -> (matches: bool)
    requires
        at <= chars@.len(),
    ensures
        matches == occurs_at(chars@.skip(at as int), pattern@, 0),
{
    let ghost rest = chars@.skip(at as int);
    let n: usize = chars.len();
    if pattern.len() > n - at {
        return false;
    }
    let mut k: usize = 0;
    while k < pattern.len()
        invariant
            k <= pattern@.len(),
            at + pattern@.len() <= n,
            n == chars@.len(),
            rest == chars@.skip(at as int),
            forall|j: int| 0 <= j < k ==> rest[j] == pattern@[j],
        decreases pattern.len() - k,
    {
        if chars[at + k] != pattern[k] {
            proof {
                assert(rest[k as int] != pattern@[k as int]);
                assert(rest.subrange(0, pattern@.len() as int)[k as int] == rest[k as int]);
            }
            return false;
        }
        k = k + 1;
    }
    proof {
        assert(rest.subrange(0, pattern@.len() as int) =~= pattern@);
    }
    true
}

/// The text with every occurrence of `pattern` replaced by `by`.
pub fn replace(text: &str, pattern: &str, by: &str) -> (result: String)
    requires
        pattern@.len() > 0,
    ensures
        result@ == replaced(text@, pattern@, by@),
{
    let chars = characters(text);
    let sought = characters(pattern);
    let n: usize = chars.len();
    let mut result = String::new();
    let mut at: usize = 0;
    proof {
        assert(text@.skip(0) =~= text@);
        assert(result@ + replaced(text@, pattern@, by@) =~= replaced(text@, pattern@, by@));
    }
    while at < n
        invariant
            n == chars@.len(),
            chars@ == text@,
            sought@ == pattern@,
            pattern@.len() > 0,
            at <= n,
            replaced(text@, pattern@, by@) == result@ + replaced(
                text@.skip(at as int),
                pattern@,
                by@,
            ),
        decreases n - at,
    {
        let ghost rest = text@.skip(at as int);
        let ghost before = result@;
        if matches_at(&chars, &sought, at) {
            result.append(by);
            proof {
                let after = rest.skip(pattern@.len() as int);
                assert(after =~= text@.skip(at + pattern@.len()));
                assert(before + (by@ + replaced(after, pattern@, by@)) =~= (before + by@)
                    + replaced(after, pattern@, by@));
            }
            at = at + sought.len();
        } else {
            result.append(text.substring_char(at, at + 1));
            proof {
                let after = rest.drop_first();
                assert(after =~= text@.skip(at + 1));
                assert(text@.subrange(at as int, at + 1) =~= seq![rest[0]]);
                assert(before + (seq![rest[0]] + replaced(after, pattern@, by@)) =~= (before
                    + seq![rest[0]]) + replaced(after, pattern@, by@));
            }
            at = at + 1;
        }
    }
    proof {
        assert(text@.skip(n as int) =~= Seq::<char>::empty());
        assert(result@ + Seq::<char>::empty() =~= result@);
    }
    result
}

/// A text in which the pattern does not occur is left as it is.
pub proof fn replacing_what_is_absent(s: Seq<char>, pattern: Seq<char>, by: Seq<char>)
    requires
        forall|at: int| !#[trigger] occurs_at(s, pattern, at),
    ensures
        replaced(s, pattern, by) == s,
    decreases s.len(),
{
    if s.len() > 0 && pattern.len() > 0 {
        assert(!occurs_at(s, pattern, 0));
        let rest = s.drop_first();
        assert forall|at: int| !#[trigger] occurs_at(rest, pattern, at) by {
            if occurs_at(rest, pattern, at) {
                assert(s.subrange(at + 1, at + 1 + pattern.len()) =~= rest.subrange(
                    at,
                    at + pattern.len(),
                ));
                assert(occurs_at(s, pattern, at + 1));
            }
        }
        replacing_what_is_absent(rest, pattern, by);
        assert(seq![s[0]] + rest =~= s);
    }
}

/// The order of texts by their characters, the first difference deciding.
pub open spec fn at_or_before(a: Seq<char>, b: Seq<char>) -> bool
    decreases a.len(),
{
    if a.len() == 0 {
        true
    } else if b.len() == 0 {
        false
    } else if a[0] != b[0] {
        (a[0] as int) < (b[0] as int)
    } else {
        at_or_before(a.drop_first(), b.drop_first())
    }
}

/// Whether `a` stands at or before `b` in the order of texts.
///
/// Texts in UTF-8 compare by their bytes as they do by their characters.
pub fn in_order(a: &str, b: &str) -> (ordered: bool)
    ensures
        ordered == at_or_before(a@, b@),
{
    let left = characters(a);
    let right = characters(b);
    let mut i: usize = 0;
    proof {
        assert(a@.skip(0) =~= a@);
        assert(b@.skip(0) =~= b@);
    }
    while i < left.len() && i < right.len() && left[i] == right[i]
        invariant
            left@ == a@,
            right@ == b@,
            i <= left@.len(),
            i <= right@.len(),
            at_or_before(a@, b@) == at_or_before(a@.skip(i as int), b@.skip(i as int)),
        decreases left.len() - i,
    {
        proof {
            assert(a@.skip(i as int).drop_first() =~= a@.skip(i + 1));
            assert(b@.skip(i as int).drop_first() =~= b@.skip(i + 1));
        }
        i = i + 1;
    }
    proof {
        if i < a@.len() && i < b@.len() {
            assert(a@.skip(i as int)[0] == left@[i as int]);
            assert(b@.skip(i as int)[0] == right@[i as int]);
        }
    }
    if i == left.len() {
        true
    } else if i == right.len() {
        false
    } else {
        code_point(left[i]) < code_point(right[i])
    }
}

/// The order of texts is total.
pub proof fn text_order_is_total(a: Seq<char>, b: Seq<char>)
    ensures
        at_or_before(a, b) || at_or_before(b, a),
    decreases a.len(),
{
    if a.len() > 0 && b.len() > 0 && a[0] == b[0] {
        text_order_is_total(a.drop_first(), b.drop_first());
    }
}

/// The order of texts is transitive.
pub proof fn text_order_is_transitive(a: Seq<char>, b: Seq<char>, c: Seq<char>)
    requires
        at_or_before(a, b),
        at_or_before(b, c),
    ensures
        at_or_before(a, c),
    decreases a.len(),
{
    if a.len() > 0 && b.len() > 0 && c.len() > 0 && a[0] == b[0] && b[0] == c[0] {
        text_order_is_transitive(a.drop_first(), b.drop_first(), c.drop_first());
    }
}

/// Two texts that stand at or before each other are the same.
pub proof fn text_order_is_antisymmetric(a: Seq<char>, b: Seq<char>)
    requires
        at_or_before(a, b),
        at_or_before(b, a),
    ensures
        a == b,
    decreases a.len(),
{
    if a.len() > 0 && b.len() > 0 && a[0] == b[0] {
        text_order_is_antisymmetric(a.drop_first(), b.drop_first());
        assert(a =~= seq![a[0]] + a.drop_first());
        assert(b =~= seq![b[0]] + b.drop_first());
    } else {
        assert(a =~= b);
    }
}

/// The first character in which two texts differ decides their order; where there is none, the
/// shorter text comes first.
pub proof fn first_difference_decides_the_order(a: Seq<char>, b: Seq<char>, k: int)
    requires
        0 <= k <= a.len(),
        k <= b.len(),
        forall|i: int| 0 <= i < k ==> a[i] == b[i],
        k < a.len() && k < b.len() ==> a[k] != b[k],
    ensures
        k == a.len() ==> at_or_before(a, b),
        k == b.len() && k < a.len() ==> !at_or_before(a, b),
        k < a.len() && k < b.len() ==> (at_or_before(a, b) <==> (a[k] as int) < (b[k] as int)),
    decreases k,
{
    if k > 0 {
        first_difference_decides_the_order(a.drop_first(), b.drop_first(), k - 1);
    }
}

proof fn start_trim_is_a_suffix(s: Seq<char>) -> (from: int)
    ensures
        0 <= from <= s.len(),
        trimmed_start(s) == s.skip(from),
        forall|i: int| 0 <= i < from ==> is_white_space(#[trigger] s[i]),
        from < s.len() ==> !is_white_space(s[from]),
    decreases s.len(),
{
    if s.len() > 0 && is_white_space(s[0]) {
        let rest = s.drop_first();
        let from = start_trim_is_a_suffix(rest);
        assert(rest.skip(from) =~= s.skip(from + 1));
        assert forall|i: int| 0 <= i < from + 1 implies is_white_space(#[trigger] s[i]) by {
            if i > 0 {
                assert(rest[i - 1] == s[i]);
            }
        }
        if from + 1 < s.len() {
            assert(rest[from] == s[from + 1]);
        }
        from + 1
    } else {
        assert(s.skip(0) =~= s);
        0
    }
}

proof fn end_trim_is_a_prefix(s: Seq<char>) -> (to: int)
    ensures
        0 <= to <= s.len(),
        trimmed_end(s) == s.take(to),
        forall|i: int| to <= i < s.len() ==> is_white_space(#[trigger] s[i]),
        to > 0 ==> !is_white_space(s[to - 1]),
    decreases s.len(),
{
    if s.len() > 0 && is_white_space(s.last()) {
        let rest = s.drop_last();
        let to = end_trim_is_a_prefix(rest);
        assert(rest.take(to) =~= s.take(to));
        assert forall|i: int| to <= i < s.len() implies is_white_space(#[trigger] s[i]) by {
            if i < rest.len() {
                assert(rest[i] == s[i]);
            }
        }
        to
    } else {
        assert(s.take(s.len() as int) =~= s);
        s.len() as int
    }
}

/// Trimming cuts a text off at both ends: what is cut off is white space, and what is left neither
/// begins nor ends with any. The result tells where the cuts are.
pub proof fn trimming_cuts_off_white_space(s: Seq<char>) -> (cuts: (int, int))
    ensures
        0 <= cuts.0 <= cuts.1 <= s.len(),
        trimmed(s) == s.subrange(cuts.0, cuts.1),
        forall|i: int|
            0 <= i < cuts.0 || cuts.1 <= i < s.len() ==> is_white_space(#[trigger] s[i]),
        cuts.0 < cuts.1 ==> !is_white_space(s[cuts.0]) && !is_white_space(s[cuts.1 - 1]),
{
    let from = start_trim_is_a_suffix(s);
    let rest = s.skip(from);
    let to = end_trim_is_a_prefix(rest);
    assert(rest.take(to) =~= s.subrange(from, from + to));
    assert forall|i: int| 0 <= i < from || from + to <= i < s.len() implies is_white_space(
        #[trigger] s[i],
    ) by {
        if i >= from {
            assert(rest[i - from] == s[i]);
        }
    }
    if to > 0 {
        assert(rest[0] == s[from]);
        assert(rest[to - 1] == s[from + to - 1]);
    }
    (from, from + to)
}

/// A text is blank exactly when each of its characters is white space.
pub proof fn blank_is_all_white_space(s: Seq<char>)
    ensures
        is_blank(s) <==> forall|i: int| 0 <= i < s.len() ==> is_white_space(#[trigger] s[i]),
{
}

/// A number below ten is written as its digit; ten times a number and a digit is written as the
/// number followed by the digit.
pub proof fn decimal_appends_digits(n: nat, d: nat)
    requires
        d < 10,
    ensures
        decimal(d).len() == 1,
        decimal(d)[0] as int == '0' as int + d,
        n > 0 ==> decimal(10 * n + d) == decimal(n).push(decimal(d)[0]),
{
    assert(decimal(d) == seq![digit(d as int)]);
    assert(digit(d as int) as int == d + 0x30);
    if n > 0 {
        let m = 10 * n + d;
        assert(m / 10 == n && m % 10 == d);
        assert(decimal(m) == decimal(m / 10).push(digit((m % 10) as int)));
    }
}

/// Where a pattern first occurs, it gives way, and the text behind it is treated in the same way.
pub proof fn first_occurrence_is_replaced(
    s: Seq<char>,
    pattern: Seq<char>,
    by: Seq<char>,
    at: int,
)
    requires
        pattern.len() > 0,
        0 <= at,
        at + pattern.len() <= s.len(),
        s.subrange(at, at + pattern.len()) == pattern,
        forall|j: int|
            0 <= j < at ==> #[trigger] s.subrange(j, j + pattern.len()) != pattern,
    ensures
        replaced(s, pattern, by) == s.take(at) + by + replaced(
            s.skip(at + pattern.len()),
            pattern,
            by,
        ),
    decreases at,
{
    let n = pattern.len() as int;
    if at == 0 {
        assert(s.take(0) + by =~= by);
        assert(occurs_at(s, pattern, 0));
    } else {
        let rest = s.drop_first();
        assert(s.subrange(0, 0 + n) != pattern);
        assert(!occurs_at(s, pattern, 0));
        assert(rest.subrange(at - 1, at - 1 + n) =~= s.subrange(at, at + n));
        assert forall|j: int| 0 <= j < at - 1 implies #[trigger] rest.subrange(j, j + n)
            != pattern by {
            assert(rest.subrange(j, j + n) =~= s.subrange(j + 1, j + 1 + n));
        }
        first_occurrence_is_replaced(rest, pattern, by, at - 1);
        let after = replaced(s.skip(at + n), pattern, by);
        assert(rest.skip(at - 1 + n) =~= s.skip(at + n));
        assert(seq![s[0]] + (rest.take(at - 1) + by + after) =~= s.take(at) + by + after);
    }
}

} // verus!
