//! The interface language: which one is in force, and how its texts are filled in.

use crate::text;
use crate::texts::{english, english_texts, japanese, japanese_texts, Texts};
use vstd::prelude::*;

verus! {

#[derive(Debug, Clone, Copy, PartialEq, Eq, Structural)]
pub enum Lang {
    En,
    Ja,
}

/// The language in force, as the code that is stored for it. Any code but that of Japanese stands
/// for English; a program starts with code zero.
#[derive(Debug, Clone, Copy, PartialEq, Eq, Structural)]
pub struct Current {
    pub code: u8,
}

/// The code that is stored for a language.
pub open spec fn lang_code(lang: Lang) -> u8 {
    match lang {
        Lang::En => 0,
        Lang::Ja => 1,
    }
}

/// The language that a stored code stands for.
pub open spec fn lang_of_code(code: u8) -> Lang {
    if code == lang_code(Lang::Ja) {
        Lang::Ja
    } else {
        Lang::En
    }
}

/// The texts of a language.
pub open spec fn texts_of(lang: Lang) -> Texts {
    match lang {
        Lang::En => english_texts(),
        Lang::Ja => japanese_texts(),
    }
}

/// Puts a language in force.
pub fn set(current: &mut Current, lang: Lang)
    ensures
        final(current).code == lang_code(lang),
{
    current.code = match lang {
        Lang::En => 0,
        Lang::Ja => 1,
    };
}

/// The language in force.
pub fn lang(current: Current) -> (lang: Lang)
    ensures
        lang == lang_of_code(current.code),
{
    if current.code == 1 {
        Lang::Ja
    } else {
        Lang::En
    }
}

/// The texts of the language in force.
pub fn t(current: Current) -> (texts: Texts)
    ensures
        texts == texts_of(lang_of_code(current.code)),
{
    match lang(current) {
        Lang::En => english(),
        Lang::Ja => japanese(),
    }
}

/// The language is what was last put in force, whatever it was before.
pub proof fn language_in_force_is_the_last_one_set(lang: Lang)
    ensures
        lang_of_code(lang_code(lang)) == lang,
{
}

/// The language of an operating system whose interface language has this identifier: Japanese when
/// the primary language, which is the low ten bits, is Japanese, and English otherwise.
pub fn detect_os_lang(id: u16) -> (lang: Lang)
    ensures
        lang == (if id % 1024 == 0x11 {
            Lang::Ja
        } else {
            Lang::En
        }),
{
    proof {
        assert(id & 0x3ff == id % 1024) by (bit_vector);
    }
    if id & 0x3ff == 0x11 {
        Lang::Ja
    } else {
        Lang::En
    }
}

/// The language to start with: the one asked for in this session, else the configured one, else
/// that of the operating system.
pub fn starting_lang(session: Option<Lang>, configured: Option<Lang>, os: Lang) -> (lang: Lang)
    ensures
        lang == (match (session, configured) {
            (Some(asked), _) => asked,
            (None, Some(chosen)) => chosen,
            (None, None) => os,
        }),
{
    match session {
        Some(asked) => asked,
        None => match configured {
            Some(chosen) => chosen,
            None => os,
        },
    }
}

/// The placeholder for argument `i`: its number in braces.
pub open spec fn placeholder(i: nat) -> Seq<char> {
    seq!['{'] + text::decimal(i) + seq!['}']
}

/// `template` with the placeholders of the first `n` arguments replaced, one argument after the
/// other.
pub open spec fn filled(template: Seq<char>, args: Seq<Seq<char>>, n: nat) -> Seq<char>
    decreases n,
{
    if n == 0 {
        template
    } else {
        text::replaced(
            filled(template, args, (n - 1) as nat),
            placeholder((n - 1) as nat),
            args[n - 1],
        )
    }
}

/// `template` with every placeholder of an argument replaced by that argument.
pub open spec fn formatted(template: Seq<char>, args: Seq<Seq<char>>) -> Seq<char> {
    filled(template, args, args.len())
}

/// The characters of each of the arguments.
pub open spec fn arguments(args: Seq<&str>) -> Seq<Seq<char>> {
    args.map_values(|arg: &str| arg@)
}

fn placeholder_text(i: usize) -> (text: String)
    ensures
        text@ == placeholder(i as nat),
{
    proof {
        reveal_strlit("{");
        reveal_strlit("}");
    }
    let mut text = "{".to_owned();
    text.append(text::number(i as u64).as_str());
    text.append("}");
    proof {
        assert("{"@ =~= seq!['{']);
        assert("}"@ =~= seq!['}']);
        assert(text@ =~= placeholder(i as nat));
    }
    text
}

/// The template with `{0}`, `{1}` and so on replaced by the arguments, in that order.
pub fn fmt(template: &str, args: &[&str]) -> (text: String)
    ensures
        text@ == formatted(template@, arguments(args@)),
{
    let mut text = template.to_owned();
    let n: usize = args.len();
    let mut i: usize = 0;
    while i < n
        invariant
            n == args@.len(),
            i <= n,
            text@ == filled(template@, arguments(args@), i as nat),
        decreases n - i,
    {
        let sought = placeholder_text(i);
        text = text::replace(text.as_str(), sought.as_str(), args[i]);
        i = i + 1;
    }
    text
}

/// The template with `{0}` replaced by the argument.
pub fn fill(template: &str, arg: &str) -> (text: String)
    ensures
        text@ == formatted(template@, seq![arg@]),
{
    let args: [&str; 1] = [arg];
    proof {
        assert(arguments(args@) =~= seq![arg@]);
    }
    fmt(template, &args)
}

/// With no arguments a template is its own result.
pub proof fn formatting_without_arguments(template: Seq<char>)
    ensures
        formatted(template, Seq::empty()) == template,
{
}

proof fn filling_without_braces(template: Seq<char>, args: Seq<Seq<char>>, n: nat)
    requires
        !template.contains('{'),
        n <= args.len(),
    ensures
        filled(template, args, n) == template,
    decreases n,
{
    if n > 0 {
        let m = (n - 1) as nat;
        filling_without_braces(template, args, m);
        assert forall|at: int| !#[trigger] text::occurs_at(template, placeholder(m), at) by {
            if text::occurs_at(template, placeholder(m), at) {
                let found = template.subrange(at, at + placeholder(m).len());
                assert(placeholder(m)[0] == '{');
                assert(found[0] == template[at]);
            }
        }
        text::replacing_what_is_absent(template, placeholder(m), args[n - 1]);
    }
}

/// A template without an opening brace is its own result, whatever the arguments.
pub proof fn formatting_without_placeholders(template: Seq<char>, args: Seq<Seq<char>>)
    requires
        !template.contains('{'),
    ensures
        formatted(template, args) == template,
{
    filling_without_braces(template, args, args.len());
}

/// Texts with others in between: the first text, the first in between, the second text and so on.
pub open spec fn woven(texts: Seq<Seq<char>>, between: Seq<Seq<char>>) -> Seq<char>
    decreases between.len(),
{
    if between.len() == 0 {
        texts[0]
    } else {
        texts[0] + (between[0] + woven(texts.drop_first(), between.drop_first()))
    }
}

/// The placeholders of these arguments.
pub open spec fn placeholders(slots: Seq<nat>) -> Seq<Seq<char>> {
    slots.map_values(|slot: nat| placeholder(slot))
}

/// The arguments themselves.
pub open spec fn arguments_at(slots: Seq<nat>, args: Seq<Seq<char>>) -> Seq<Seq<char>> {
    slots.map_values(|slot: nat| args[slot as int])
}

/// What stands at the slots once the first `n` arguments are filled in.
spec fn partly_filled(slots: Seq<nat>, args: Seq<Seq<char>>, n: nat) -> Seq<Seq<char>> {
    slots.map_values(
        |slot: nat|
            if slot < n {
                args[slot as int]
            } else {
                placeholder(slot)
            },
    )
}

proof fn replacing_after_other_text(
    other: Seq<char>,
    rest: Seq<char>,
    n: nat,
    by: Seq<char>,
)
    requires
        !other.contains('{'),
    ensures
        text::replaced(other + rest, placeholder(n), by) == other + text::replaced(
            rest,
            placeholder(n),
            by,
        ),
    decreases other.len(),
{
    let all = other + rest;
    if other.len() == 0 {
        assert(all =~= rest);
        assert(other + text::replaced(rest, placeholder(n), by) =~= text::replaced(
            rest,
            placeholder(n),
            by,
        ));
    } else {
        let others = other.drop_first();
        assert(other.contains(other[0]));
        if text::occurs_at(all, placeholder(n), 0) {
            assert(all.subrange(0, placeholder(n).len() as int)[0] == all[0]);
            assert(placeholder(n)[0] == '{');
        }
        assert(all.drop_first() =~= others + rest);
        assert(!others.contains('{')) by {
            if others.contains('{') {
                let i = choose|i: int| 0 <= i < others.len() && others[i] == '{';
                assert(other[i + 1] == '{');
            }
        }
        replacing_after_other_text(others, rest, n, by);
        assert(seq![other[0]] + (others + text::replaced(rest, placeholder(n), by)) =~= other
            + text::replaced(rest, placeholder(n), by));
    }
}

proof fn replacing_the_placeholder(rest: Seq<char>, n: nat, by: Seq<char>)
    ensures
        text::replaced(placeholder(n) + rest, placeholder(n), by) == by + text::replaced(
            rest,
            placeholder(n),
            by,
        ),
{
    let all = placeholder(n) + rest;
    assert(all.subrange(0, placeholder(n).len() as int) =~= placeholder(n));
    assert(all.skip(placeholder(n).len() as int) =~= rest);
}

proof fn other_placeholder_is_not_there(k: nat, rest: Seq<char>, n: nat)
    requires
        k != n,
    ensures
        !text::occurs_at(placeholder(k) + rest, placeholder(n), 0),
{
    let all = placeholder(k) + rest;
    let a = text::decimal(k);
    let b = text::decimal(n);
    text::decimal_is_digits(k);
    text::decimal_is_digits(n);
    if text::occurs_at(all, placeholder(n), 0) {
        let found = all.subrange(0, placeholder(n).len() as int);
        assert forall|i: int| 0 <= i < found.len() implies placeholder(n)[i] == all[i] by {
            assert(found[i] == all[i]);
        }
        if a.len() < b.len() {
            assert(all[a.len() as int + 1] == '}');
            assert(placeholder(n)[a.len() as int + 1] == b[a.len() as int]);
        } else if b.len() < a.len() {
            assert(placeholder(n)[b.len() as int + 1] == '}');
            assert(all[b.len() as int + 1] == a[b.len() as int]);
        } else {
            assert forall|i: int| 0 <= i < a.len() implies a[i] == b[i] by {
                assert(all[i + 1] == a[i]);
                assert(placeholder(n)[i + 1] == b[i]);
            }
            assert(a =~= b);
            text::decimal_is_unambiguous(k, n);
        }
    }
}

proof fn replacing_after_another_placeholder(k: nat, rest: Seq<char>, n: nat, by: Seq<char>)
    requires
        k != n,
    ensures
        text::replaced(placeholder(k) + rest, placeholder(n), by) == placeholder(k)
            + text::replaced(rest, placeholder(n), by),
{
    let all = placeholder(k) + rest;
    let a = text::decimal(k);
    text::decimal_is_digits(k);
    other_placeholder_is_not_there(k, rest, n);
    let tail = placeholder(k).drop_first();
    assert(!tail.contains('{')) by {
        if tail.contains('{') {
            let i = choose|i: int| 0 <= i < tail.len() && tail[i] == '{';
            if i < a.len() {
                assert(tail[i] == a[i]);
            }
        }
    }
    assert(all.drop_first() =~= tail + rest);
    replacing_after_other_text(tail, rest, n, by);
    assert(seq!['{'] + (tail + text::replaced(rest, placeholder(n), by)) =~= placeholder(k)
        + text::replaced(rest, placeholder(n), by));
}

proof fn filling_one_more(
    texts: Seq<Seq<char>>,
    slots: Seq<nat>,
    args: Seq<Seq<char>>,
    n: nat,
)
    requires
        texts.len() == slots.len() + 1,
        n < args.len(),
        forall|i: int| 0 <= i < texts.len() ==> !(#[trigger] texts[i]).contains('{'),
        forall|i: int| 0 <= i < args.len() ==> !(#[trigger] args[i]).contains('{'),
    ensures
        text::replaced(woven(texts, partly_filled(slots, args, n)), placeholder(n), args[n as int])
            == woven(texts, partly_filled(slots, args, n + 1)),
    decreases slots.len(),
{
    let by = args[n as int];
    let before = partly_filled(slots, args, n);
    let after = partly_filled(slots, args, n + 1);
    if slots.len() == 0 {
        let none = Seq::<char>::empty();
        replacing_after_other_text(texts[0], none, n, by);
        assert(texts[0] + none =~= texts[0]);
    } else {
        let slot = slots[0];
        let rest = woven(texts.drop_first(), before.drop_first());
        assert(before.drop_first() =~= partly_filled(slots.drop_first(), args, n));
        assert(after.drop_first() =~= partly_filled(slots.drop_first(), args, n + 1));
        assert forall|i: int| 0 <= i < texts.drop_first().len() implies !(
        #[trigger] texts.drop_first()[i]).contains('{') by {
            assert(texts.drop_first()[i] == texts[i + 1]);
        }
        filling_one_more(texts.drop_first(), slots.drop_first(), args, n);
        replacing_after_other_text(texts[0], before[0] + rest, n, by);
        if slot < n {
            replacing_after_other_text(args[slot as int], rest, n, by);
        } else if slot == n {
            replacing_the_placeholder(rest, n, by);
        } else {
            replacing_after_another_placeholder(slot, rest, n, by);
        }
    }
}

proof fn filling_the_first(texts: Seq<Seq<char>>, slots: Seq<nat>, args: Seq<Seq<char>>, n: nat)
    requires
        texts.len() == slots.len() + 1,
        n <= args.len(),
        forall|i: int| 0 <= i < texts.len() ==> !(#[trigger] texts[i]).contains('{'),
        forall|i: int| 0 <= i < args.len() ==> !(#[trigger] args[i]).contains('{'),
    ensures
        filled(woven(texts, placeholders(slots)), args, n) == woven(
            texts,
            partly_filled(slots, args, n),
        ),
    decreases n,
{
    if n == 0 {
        assert(partly_filled(slots, args, 0) =~= placeholders(slots));
    } else {
        let m = (n - 1) as nat;
        filling_the_first(texts, slots, args, m);
        filling_one_more(texts, slots, args, m);
    }
}

/// Every placeholder gives way to its argument and nothing else changes, in whatever order the
/// placeholders stand and however often, as long as neither the rest of the template nor an argument
/// holds an opening brace.
pub proof fn formatting_fills_every_placeholder(
    texts: Seq<Seq<char>>,
    slots: Seq<nat>,
    args: Seq<Seq<char>>,
)
    requires
        texts.len() == slots.len() + 1,
        forall|i: int| 0 <= i < slots.len() ==> (#[trigger] slots[i]) < args.len(),
        forall|i: int| 0 <= i < texts.len() ==> !(#[trigger] texts[i]).contains('{'),
        forall|i: int| 0 <= i < args.len() ==> !(#[trigger] args[i]).contains('{'),
    ensures
        formatted(woven(texts, placeholders(slots)), args) == woven(
            texts,
            arguments_at(slots, args),
        ),
{
    filling_the_first(texts, slots, args, args.len());
    assert(partly_filled(slots, args, args.len()) =~= arguments_at(slots, args));
}

/// The argument, among the first `n`, whose placeholder a text begins with.
pub open spec fn leading_slot(template: Seq<char>, n: nat) -> Option<nat>
    decreases n,
{
    if n == 0 {
        None
    } else if text::occurs_at(template, placeholder((n - 1) as nat), 0) {
        Some((n - 1) as nat)
    } else {
        leading_slot(template, (n - 1) as nat)
    }
}

/// The placeholder found at the beginning of a text stands there.
pub proof fn leading_slot_occurs(template: Seq<char>, n: nat)
    ensures
        leading_slot(template, n) matches Some(k) ==> k < n && text::occurs_at(
            template,
            placeholder(k),
            0,
        ),
    decreases n,
{
    if n > 0 {
        leading_slot_occurs(template, (n - 1) as nat);
    }
}

/// `template` with every placeholder of an argument replaced by that argument, all at once: what the
/// arguments hold is left as it is.
pub open spec fn substituted(template: Seq<char>, args: Seq<Seq<char>>) -> Seq<char>
    decreases template.len(),
{
    if template.len() == 0 {
        template
    } else {
        proof {
            leading_slot_occurs(template, args.len());
        }
        match leading_slot(template, args.len()) {
            Some(k) => args[k as int] + substituted(
                template.skip(placeholder(k).len() as int),
                args,
            ),
            None => seq![template[0]] + substituted(template.drop_first(), args),
        }
    }
}

/// The argument, among the first `n`, whose placeholder stands at a position.
fn slot_at(chars: &Vec<char>, at: usize, n: usize) -> (found: Option<usize>)
    requires
        at <= chars@.len(),
    ensures
        match found {
            Some(k) => k < n && leading_slot(chars@.skip(at as int), n as nat) == Some(k as nat)
                && text::occurs_at(chars@.skip(at as int), placeholder(k as nat), 0),
            None => leading_slot(chars@.skip(at as int), n as nat) is None,
        },
    decreases n,
{
    if n == 0 {
        return None;
    }
    let sought = text::characters(placeholder_text(n - 1).as_str());
    if text::matches_at(chars, &sought, at) {
        Some(n - 1)
    } else {
        slot_at(chars, at, n - 1)
    }
}

/// The template with `{0}`, `{1}` and so on replaced by the arguments, all at once: an argument is
/// written as it is, even where it holds a placeholder.
pub fn substitute(template: &str, args: &[&str]) -> (text: String)
    ensures
        text@ == substituted(template@, arguments(args@)),
{
    let chars = text::characters(template);
    let n: usize = chars.len();
    let count: usize = args.len();
    let ghost given = arguments(args@);
    let mut text = String::new();
    let mut at: usize = 0;
    proof {
        assert(template@.skip(0) =~= template@);
        assert(text@ + substituted(template@, given) =~= substituted(template@, given));
    }
    while at < n
        invariant
            n == chars@.len(),
            chars@ == template@,
            count == args@.len(),
            given == arguments(args@),
            at <= n,
            substituted(template@, given) == text@ + substituted(
                template@.skip(at as int),
                given,
            ),
        decreases n - at,
    {
        let ghost rest = template@.skip(at as int);
        let ghost before = text@;
        match slot_at(&chars, at, count) {
            Some(k) => {
                let width: usize = text::characters(placeholder_text(k).as_str()).len();
                text.append(args[k]);
                proof {
                    let after = rest.skip(width as int);
                    assert(after =~= template@.skip(at + width));
                    assert(before + (given[k as int] + substituted(after, given)) =~= (before
                        + given[k as int]) + substituted(after, given));
                }
                at = at + width;
            },
            None => {
                text.append(template.substring_char(at, at + 1));
                proof {
                    let after = rest.drop_first();
                    assert(after =~= template@.skip(at + 1));
                    assert(template@.subrange(at as int, at + 1) =~= seq![rest[0]]);
                    assert(before + (seq![rest[0]] + substituted(after, given)) =~= (before
                        + seq![rest[0]]) + substituted(after, given));
                }
                at = at + 1;
            },
        }
    }
    proof {
        assert(template@.skip(n as int) =~= Seq::<char>::empty());
        assert(text@ + Seq::<char>::empty() =~= text@);
    }
    text
}

proof fn no_slot_without_a_brace(template: Seq<char>, n: nat)
    requires
        template.len() > 0,
        template[0] != '{',
    ensures
        leading_slot(template, n) is None,
    decreases n,
{
    if n > 0 {
        let m = (n - 1) as nat;
        if text::occurs_at(template, placeholder(m), 0) {
            assert(template.subrange(0, placeholder(m).len() as int)[0] == template[0]);
            assert(placeholder(m)[0] == '{');
        }
        no_slot_without_a_brace(template, m);
    }
}

proof fn substituting_after_other_text(other: Seq<char>, rest: Seq<char>, args: Seq<Seq<char>>)
    requires
        !other.contains('{'),
    ensures
        substituted(other + rest, args) == other + substituted(rest, args),
    decreases other.len(),
{
    let all = other + rest;
    if other.len() == 0 {
        assert(all =~= rest);
        assert(other + substituted(rest, args) =~= substituted(rest, args));
    } else {
        let others = other.drop_first();
        assert(other.contains(other[0]));
        no_slot_without_a_brace(all, args.len());
        assert(all.drop_first() =~= others + rest);
        assert(!others.contains('{')) by {
            if others.contains('{') {
                let i = choose|i: int| 0 <= i < others.len() && others[i] == '{';
                assert(other[i + 1] == '{');
            }
        }
        substituting_after_other_text(others, rest, args);
        assert(seq![other[0]] + (others + substituted(rest, args)) =~= other + substituted(
            rest,
            args,
        ));
    }
}

/// A text that begins with a placeholder begins with no other.
proof fn slot_of_a_placeholder(k: nat, rest: Seq<char>, n: nat)
    ensures
        leading_slot(placeholder(k) + rest, n) == (if k < n {
            Some(k)
        } else {
            None
        }),
    decreases n,
{
    let all = placeholder(k) + rest;
    if n > 0 {
        let m = (n - 1) as nat;
        if m == k {
            assert(all.subrange(0, placeholder(k).len() as int) =~= placeholder(k));
        } else {
            other_placeholder_is_not_there(k, rest, m);
        }
        slot_of_a_placeholder(k, rest, m);
    }
}

/// Every placeholder gives way to its argument and nothing else changes, in whatever order the
/// placeholders stand, however often, and whatever the arguments hold, as long as the rest of the
/// template holds no opening brace.
pub proof fn substituting_fills_every_placeholder(
    texts: Seq<Seq<char>>,
    slots: Seq<nat>,
    args: Seq<Seq<char>>,
)
    requires
        texts.len() == slots.len() + 1,
        forall|i: int| 0 <= i < slots.len() ==> (#[trigger] slots[i]) < args.len(),
        forall|i: int| 0 <= i < texts.len() ==> !(#[trigger] texts[i]).contains('{'),
    ensures
        substituted(woven(texts, placeholders(slots)), args) == woven(
            texts,
            arguments_at(slots, args),
        ),
    decreases slots.len(),
{
    let marks = placeholders(slots);
    let filled_in = arguments_at(slots, args);
    if slots.len() == 0 {
        let none = Seq::<char>::empty();
        substituting_after_other_text(texts[0], none, args);
        assert(texts[0] + none =~= texts[0]);
    } else {
        let k = slots[0];
        let rest = woven(texts.drop_first(), marks.drop_first());
        assert(marks.drop_first() =~= placeholders(slots.drop_first()));
        assert(filled_in.drop_first() =~= arguments_at(slots.drop_first(), args));
        assert forall|i: int| 0 <= i < texts.drop_first().len() implies !(
        #[trigger] texts.drop_first()[i]).contains('{') by {
            assert(texts.drop_first()[i] == texts[i + 1]);
        }
        assert forall|i: int| 0 <= i < slots.drop_first().len() implies (
        #[trigger] slots.drop_first()[i]) < args.len() by {
            assert(slots.drop_first()[i] == slots[i + 1]);
        }
        substituting_fills_every_placeholder(texts.drop_first(), slots.drop_first(), args);
        substituting_after_other_text(texts[0], placeholder(k) + rest, args);
        slot_of_a_placeholder(k, rest, args.len());
        assert((placeholder(k) + rest).skip(placeholder(k).len() as int) =~= rest);
    }
}

/// A placeholder is the number of its argument in braces.
pub proof fn placeholder_is_a_number_in_braces(i: nat)
    ensures
        placeholder(i).len() == text::decimal(i).len() + 2,
        placeholder(i)[0] == '{',
        placeholder(i).subrange(1, placeholder(i).len() - 1) == text::decimal(i),
        placeholder(i)[placeholder(i).len() - 1] == '}',
{
    assert(placeholder(i).subrange(1, placeholder(i).len() - 1) =~= text::decimal(i));
}

/// A template with one placeholder is what stands before it, the argument as it is, and what stands
/// behind it.
pub proof fn one_placeholder_gives_way(before: Seq<char>, after: Seq<char>, arg: Seq<char>)
    requires
        !before.contains('{'),
        !after.contains('{'),
    ensures
        formatted(before + (placeholder(0) + after), seq![arg]) == before + (arg + after),
        substituted(before + (placeholder(0) + after), seq![arg]) == before + (arg + after),
{
    let none = Seq::<char>::empty();
    let rest = placeholder(0) + after;
    reveal_with_fuel(filled, 2);
    replacing_after_other_text(before, rest, 0, arg);
    replacing_the_placeholder(after, 0, arg);
    replacing_after_other_text(after, none, 0, arg);
    assert(after + none =~= after);
    substituting_after_other_text(before, rest, seq![arg]);
    slot_of_a_placeholder(0, after, 1);
    assert(rest.skip(placeholder(0).len() as int) =~= after);
    substituting_after_other_text(after, none, seq![arg]);
}

/// Two placeholders give way to their arguments, whichever stands first: exactly as the arguments
/// are where all are filled in at once, and where they are filled in one after the other as long as
/// the first argument holds no opening brace.
pub proof fn two_placeholders_give_way(
    a: Seq<char>,
    b: Seq<char>,
    c: Seq<char>,
    first: Seq<char>,
    second: Seq<char>,
)
    requires
        !a.contains('{'),
        !b.contains('{'),
        !c.contains('{'),
    ensures
        substituted(
            a + (placeholder(0) + (b + (placeholder(1) + c))),
            seq![first, second],
        ) == a + (first + (b + (second + c))),
        substituted(
            a + (placeholder(1) + (b + (placeholder(0) + c))),
            seq![first, second],
        ) == a + (second + (b + (first + c))),
        !first.contains('{') ==> formatted(
            a + (placeholder(0) + (b + (placeholder(1) + c))),
            seq![first, second],
        ) == a + (first + (b + (second + c))),
{
    let args = seq![first, second];
    let none = Seq::<char>::empty();
    let texts = seq![a, b, c];
    reveal_with_fuel(woven, 3);
    assert(texts.drop_first() =~= seq![b, c]);
    assert(seq![b, c].drop_first() =~= seq![c]);
    assert forall|slots: Seq<nat>|
        slots.len() == 2 && slots[0] < 2 && slots[1] < 2 implies #[trigger] woven(
        texts,
        placeholders(slots),
    ) == a + (placeholder(slots[0]) + (b + (placeholder(slots[1]) + c))) && woven(
        texts,
        arguments_at(slots, args),
    ) == a + (args[slots[0] as int] + (b + (args[slots[1] as int] + c))) by {
        assert(placeholders(slots).drop_first() =~= seq![placeholder(slots[1])]);
        assert(arguments_at(slots, args).drop_first() =~= seq![args[slots[1] as int]]);
    }
    let ahead = seq![0nat, 1nat];
    let turned = seq![1nat, 0nat];
    assert(woven(texts, placeholders(ahead)) == a + (placeholder(0) + (b + (placeholder(1) + c))));
    assert(woven(texts, placeholders(turned)) == a + (placeholder(1) + (b + (placeholder(0)
        + c))));
    substituting_fills_every_placeholder(texts, ahead, args);
    substituting_fills_every_placeholder(texts, turned, args);
    if !first.contains('{') {
        reveal_with_fuel(filled, 3);
        let tail = b + (placeholder(1) + c);
        replacing_after_other_text(a, placeholder(0) + tail, 0, first);
        replacing_the_placeholder(tail, 0, first);
        replacing_after_other_text(b, placeholder(1) + c, 0, first);
        replacing_after_another_placeholder(1, c, 0, first);
        replacing_after_other_text(c, none, 0, first);
        assert(c + none =~= c);
        replacing_after_other_text(a, first + tail, 1, second);
        replacing_after_other_text(first, tail, 1, second);
        replacing_after_other_text(b, placeholder(1) + c, 1, second);
        replacing_the_placeholder(c, 1, second);
        replacing_after_other_text(c, none, 1, second);
    }
}

/// Each language has its own texts.
pub proof fn languages_have_their_texts()
    ensures
        texts_of(Lang::En) == english_texts(),
        texts_of(Lang::Ja) == japanese_texts(),
        lang_of_code(0) == Lang::En,
        lang_of_code(lang_code(Lang::En)) == Lang::En,
        lang_of_code(lang_code(Lang::Ja)) == Lang::Ja,
{
}

/// The characters of the arguments stand where the arguments stand.
pub proof fn arguments_stand_in_place(args: Seq<&str>, i: int)
    requires
        0 <= i < args.len(),
    ensures
        arguments(args).len() == args.len(),
        arguments(args)[i] == args[i]@,
{
}

} // verus!
