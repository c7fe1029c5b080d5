//! What holds of texts: trimming, splitting, joining and numbers.

use vstd::prelude::*;

use crate::text;

verus! {

broadcast use vstd::string::group_string_axioms;

// ---------------------------------------------------------------------------
// Trimming and case
// ---------------------------------------------------------------------------

/// Whether a text holds nothing but white space.
pub open spec fn all_white(s: Seq<char>) -> bool {
    forall|i: int| 0 <= i < s.len() ==> text::is_whitespace(#[trigger] s[i])
}

/// Trimming takes away the white space around a text and nothing else.
pub proof fn law_trimming_takes_away_white_space(
    before: Seq<char>,
    core: Seq<char>,
    behind: Seq<char>,
)
    requires
        all_white(before),
        all_white(behind),
        core.len() > 0,
        !text::is_whitespace(core[0]),
        !text::is_whitespace(core.last()),
    ensures
        text::trimmed(before + core + behind) == core,
        !text::is_blank(before + core + behind),
        text::unless_blank(before + core + behind) == Some(core),
{
    lemma_start(before, core + behind);
    assert(before + core + behind =~= before + (core + behind));
    lemma_end(core, behind);
}

/// A text of white space alone is blank.
pub proof fn law_white_space_is_blank(s: Seq<char>)
    ensures
        all_white(s) ==> text::is_blank(s) && text::unless_blank(s) is None,
        text::is_blank(s) ==> all_white(s),
{
    crate::swifty::scan_laws::lemma_trimmed_is_a_piece(s);
    if all_white(s) && s.len() > 0 {
        let t = text::trimmed(s);
        let from = crate::swifty::scan_laws::lemma_trimmed_is_a_piece(s);
        if t.len() > 0 {
            assert(s.subrange(from, from + t.len())[0] == s[from]);
        }
    }
}

proof fn lemma_start(before: Seq<char>, rest: Seq<char>)
    requires
        all_white(before),
        rest.len() > 0,
        !text::is_whitespace(rest[0]),
    ensures
        text::trimmed_start(before + rest) == rest,
    decreases before.len(),
{
    if before.len() == 0 {
        assert(before + rest =~= rest);
    } else {
        assert(text::is_whitespace(before[0]));
        lemma_start(before.skip(1), rest);
        assert((before + rest).skip(1) =~= before.skip(1) + rest);
    }
}

proof fn lemma_end(core: Seq<char>, behind: Seq<char>)
    requires
        all_white(behind),
        core.len() > 0,
        !text::is_whitespace(core.last()),
    ensures
        text::trimmed_end(core + behind) == core,
    decreases behind.len(),
{
    if behind.len() == 0 {
        assert(core + behind =~= core);
    } else {
        assert(text::is_whitespace(behind.last()));
        lemma_end(core, behind.drop_last());
        assert((core + behind).drop_last() =~= core + behind.drop_last());
    }
}

/// Lowering changes ASCII capitals alone, each into the letter of the same place
/// in the alphabet, and doing it twice changes no more.
pub proof fn law_lowering_changes_capitals_alone(s: Seq<char>, i: int)
    requires
        0 <= i < s.len(),
    ensures
        text::lowered(s).len() == s.len(),
        !('A' <= s[i] <= 'Z') ==> text::lowered(s)[i] == s[i],
        'A' <= s[i] <= 'Z' ==> text::lowered(s)[i] as int - 'a' as int == s[i] as int
            - 'A' as int,
        text::lowered(text::lowered(s)) == text::lowered(s),
{
    assert(text::lowered(text::lowered(s)) =~= text::lowered(s));
}

/// Characters at the end of a text are taken away, and nothing else.
pub proof fn law_trailing_characters_are_taken_away(core: Seq<char>, c: char, n: nat)
    requires
        core.len() == 0 || core.last() != c,
    ensures
        text::without_trailing(core + Seq::new(n, |i: int| c), c) == core,
    decreases n,
{
    let tail = Seq::new(n, |i: int| c);
    if n == 0 {
        assert(core + tail =~= core);
    } else {
        law_trailing_characters_are_taken_away(core, c, (n - 1) as nat);
        assert((core + tail).drop_last() =~= core + Seq::new((n - 1) as nat, |i: int| c));
        assert((core + tail).last() == c);
    }
}

// ---------------------------------------------------------------------------
// Searching
// ---------------------------------------------------------------------------

/// A text holds whatever stands in it, wherever that is.
pub proof fn law_text_holds_its_parts(before: Seq<char>, part: Seq<char>, behind: Seq<char>)
    ensures
        text::text_contains(before + part + behind, part),
        text::text_starts_with(part + behind, part),
{
    let s = before + part + behind;
    let at = before.len() as int;
    assert(s.subrange(at, at + part.len()) =~= part);
    assert(text::occurs_at(s, part, at));
    assert((part + behind).subrange(0, part.len() as int) =~= part);
}

/// What a text holds stands in it somewhere.
pub proof fn law_held_part_stands_somewhere(s: Seq<char>, part: Seq<char>)
    requires
        text::text_contains(s, part),
    ensures
        exists|at: int|
            0 <= at <= s.len() - part.len() && s == #[trigger] s.take(at) + part + s.skip(
                at + part.len(),
            ),
{
    let at = choose|i: int| text::occurs_at(s, part, i);
    assert(s =~= s.take(at) + s.subrange(at, at + part.len()) + s.skip(at + part.len()));
}

// ---------------------------------------------------------------------------
// Splitting and joining
// ---------------------------------------------------------------------------

/// Two texts with a separator between them have the pieces of the one and then
/// those of the other.
pub proof fn law_pieces_follow_each_other(a: Seq<char>, b: Seq<char>, sep: char)
    ensures
        text::split_on(a + seq![sep] + b, sep) == text::split_on(a, sep) + text::split_on(b, sep),
    decreases b.len(),
{
    let whole = a + seq![sep] + b;
    if b.len() == 0 {
        assert(whole.drop_last() =~= a);
        assert(whole.last() == sep);
        assert(text::split_on(b, sep) =~= seq![Seq::<char>::empty()]);
        assert(text::split_on(a, sep).push(Seq::empty()) =~= text::split_on(a, sep)
            + text::split_on(b, sep));
    } else {
        law_pieces_follow_each_other(a, b.drop_last(), sep);
        assert(whole.drop_last() =~= a + seq![sep] + b.drop_last());
        assert(whole.last() == b.last());
        let head = text::split_on(b.drop_last(), sep);
        text::lemma_split_nonempty(b.drop_last(), sep);
        let all = text::split_on(a, sep) + head;
        assert(all.last() == head.last());
        if b.last() == sep {
            assert(all.push(Seq::empty()) =~= text::split_on(a, sep) + head.push(Seq::empty()));
        } else {
            let grown = head.last().push(b.last());
            assert(all.drop_last().push(grown) =~= text::split_on(a, sep)
                + head.drop_last().push(grown));
        }
    }
}

/// A text without the separator is one piece.
pub proof fn law_text_without_a_separator_is_one_piece(s: Seq<char>, sep: char)
    requires
        !s.contains(sep),
    ensures
        text::split_on(s, sep) == seq![s],
    decreases s.len(),
{
    if s.len() > 0 {
        let head = s.drop_last();
        assert(s[s.len() - 1] == s.last());
        assert(!head.contains(sep)) by {
            if head.contains(sep) {
                let k = choose|k: int| 0 <= k < head.len() && head[k] == sep;
                assert(s[k] == sep);
            }
        }
        law_text_without_a_separator_is_one_piece(head, sep);
        assert(head.push(s.last()) =~= s);
        assert(text::split_on(head, sep).drop_last() =~= Seq::empty());
        assert(text::split_on(s, sep) =~= seq![s]);
    } else {
        assert(s =~= Seq::empty());
        assert(text::split_on(s, sep) =~= seq![s]);
    }
}

/// The pieces of a text, joined with the separator, are the text.
pub proof fn law_joining_undoes_splitting(s: Seq<char>, sep: char)
    ensures
        text::joined(text::split_on(s, sep), seq![sep]) == s,
    decreases s.len(),
{
    reveal_with_fuel(text::joined, 2);
    if s.len() == 0 {
        assert(s =~= Seq::empty());
    } else {
        let head = text::split_on(s.drop_last(), sep);
        text::lemma_split_nonempty(s.drop_last(), sep);
        law_joining_undoes_splitting(s.drop_last(), sep);
        if s.last() == sep {
            let all = head.push(Seq::empty());
            assert(all.drop_last() =~= head);
            assert(text::joined(all, seq![sep]) =~= s);
        } else {
            let all = head.drop_last().push(head.last().push(s.last()));
            assert(all.drop_last() =~= head.drop_last());
            assert(text::joined(all, seq![sep]) =~= text::joined(head, seq![sep]).push(
                s.last(),
            ));
            assert(s.drop_last().push(s.last()) =~= s);
        }
    }
}

/// Lists that are joined one after the other have the separator between them.
pub proof fn law_joining_adds_up(a: Seq<Seq<char>>, b: Seq<Seq<char>>, sep: Seq<char>)
    requires
        a.len() > 0,
        b.len() > 0,
    ensures
        text::joined(a + b, sep) == text::joined(a, sep) + sep + text::joined(b, sep),
    decreases b.len(),
{
    let all = a + b;
    assert(all.last() == b.last());
    assert(all.drop_last() =~= a + b.drop_last());
    if b.len() == 1 {
        assert(a + b.drop_last() =~= a);
        assert(text::joined(b, sep) == b[0]);
    } else {
        law_joining_adds_up(a, b.drop_last(), sep);
        assert(text::joined(all, sep) =~= text::joined(a, sep) + sep + text::joined(b, sep));
    }
}

/// Texts without the separator, joined with it, are split into those texts.
pub proof fn law_splitting_undoes_joining(parts: Seq<Seq<char>>, sep: char)
    requires
        parts.len() > 0,
        forall|i: int| 0 <= i < parts.len() ==> !(#[trigger] parts[i]).contains(sep),
    ensures
        text::split_on(text::joined(parts, seq![sep]), sep) == parts,
    decreases parts.len(),
{
    let last = parts.last();
    assert(!parts[parts.len() - 1].contains(sep));
    law_text_without_a_separator_is_one_piece(last, sep);
    if parts.len() == 1 {
        assert(parts =~= seq![last]);
    } else {
        let head = parts.drop_last();
        assert forall|i: int| 0 <= i < head.len() implies !(#[trigger] head[i]).contains(
            sep,
        ) by {
            assert(head[i] == parts[i]);
        }
        law_splitting_undoes_joining(head, sep);
        law_pieces_follow_each_other(text::joined(head, seq![sep]), last, sep);
        assert(head + seq![last] =~= parts);
    }
}

/// One text is joined to itself, and none to nothing.
pub proof fn law_joining_one_text(s: Seq<char>, sep: Seq<char>)
    ensures
        text::joined(seq![s], sep) == s,
        text::joined(Seq::empty(), sep) == Seq::<char>::empty(),
{
}

// ---------------------------------------------------------------------------
// Numbers
// ---------------------------------------------------------------------------

/// The value of a row of decimal digits.
pub open spec fn value_of(s: Seq<char>) -> int
    decreases s.len(),
{
    if s.len() == 0 {
        0
    } else {
        10 * value_of(s.drop_last()) + (s.last() as int - '0' as int)
    }
}

/// Whether a text is made of decimal digits.
pub open spec fn all_digits(s: Seq<char>) -> bool {
    forall|i: int| 0 <= i < s.len() ==> '0' <= #[trigger] s[i] <= '9'
}

/// The decimal form of a number is made of digits whose value is the number, and
/// begins with a zero only if that is all of it.
pub proof fn law_decimal_form_has_the_value(n: nat)
    ensures
        all_digits(text::decimal(n)),
        value_of(text::decimal(n)) == n,
        text::decimal(n).len() > 0,
        text::decimal(n)[0] == '0' ==> n == 0,
    decreases n,
{
    reveal_with_fuel(value_of, 2);
    if n < 10 {
        assert(text::decimal(n).drop_last() =~= Seq::empty());
    } else {
        law_decimal_form_has_the_value(n / 10);
        assert(text::decimal(n).drop_last() =~= text::decimal(n / 10));
        assert(text::decimal(n)[0] == text::decimal(n / 10)[0]);
        assert forall|i: int| 0 <= i < text::decimal(n).len() implies '0'
            <= #[trigger] text::decimal(n)[i] <= '9' by {
            if i < text::decimal(n / 10).len() {
                assert(text::decimal(n)[i] == text::decimal(n / 10)[i]);
            }
        }
    }
}

/// A padded number has the value of the number, in digits, at least two of them,
/// and exactly two below a hundred.
pub proof fn law_padded_number_has_the_value(n: nat)
    ensures
        all_digits(text::padded_two(n)),
        value_of(text::padded_two(n)) == n,
        text::padded_two(n).len() >= 2,
        n < 100 ==> text::padded_two(n).len() == 2,
        n < 100 ==> text::padded_two(n) == text::two_digits(n),
{
    law_decimal_form_has_the_value(n);
    reveal_strlit("0");
    reveal_with_fuel(text::decimal, 3);
    reveal_with_fuel(value_of, 3);
    let s = text::padded_two(n);
    if n < 10 {
        assert(s.drop_last() =~= seq!['0']);
        assert(seq!['0'].drop_last() =~= Seq::empty());
        assert(s =~= text::two_digits(n));
    } else if n < 100 {
        assert(s =~= text::two_digits(n));
    } else {
        text::lemma_decimal_nonempty(n / 100);
    }
}

/// A signed number is its value in digits, behind a minus exactly if it is below
/// zero.
pub proof fn law_signed_number_has_the_value(n: int)
    ensures
        n >= 0 ==> all_digits(text::signed_decimal(n)) && value_of(text::signed_decimal(n)) == n,
        n < 0 ==> text::signed_decimal(n)[0] == '-' && value_of(text::signed_decimal(n).skip(1))
            == -n,
{
    reveal_strlit("-");
    if n < 0 {
        law_decimal_form_has_the_value((-n) as nat);
        assert(text::signed_decimal(n).skip(1) =~= text::decimal((-n) as nat));
    } else {
        law_decimal_form_has_the_value(n as nat);
    }
}

// ---------------------------------------------------------------------------
// Finding and taking away
// ---------------------------------------------------------------------------

/// What is found first is found behind everything before it.
pub proof fn law_first_occurrence_is_found(s: Seq<char>, part: Seq<char>, k: int)
    requires
        text::occurs_at(s, part, k),
        forall|j: int| 0 <= j < k ==> !text::occurs_at(s, part, j),
    ensures
        text::found_from(s, part, 0) == Some(k),
{
    text::lemma_found_from(s, part, 0);
}

/// What does not occur is not found.
pub proof fn law_what_is_missing_is_not_found(s: Seq<char>, part: Seq<char>)
    requires
        !text::text_contains(s, part),
    ensures
        text::found_from(s, part, 0) is None,
{
    text::lemma_found_from(s, part, 0);
}

/// The last of a character is found.
pub proof fn law_last_character_is_found(head: Seq<char>, c: char, tail: Seq<char>)
    requires
        !tail.contains(c),
    ensures
        ({
            let s = head + seq![c] + tail;
            text::last_char_in(s, c, 0, s.len() as int) == Some(head.len() as int)
        }),
{
    let s = head + seq![c] + tail;
    text::lemma_last_char_in(s, c, 0, s.len() as int);
    assert(s[head.len() as int] == c);
    let found = text::last_char_in(s, c, 0, s.len() as int);
    if found is Some && found->0 > head.len() {
        assert(tail[found->0 - head.len() - 1] == c);
    }
}

/// Copies at the beginning are taken away, all of them and nothing else.
pub proof fn law_leading_copies_are_taken_away(part: Seq<char>, rest: Seq<char>)
    requires
        part.len() > 0,
    ensures
        text::without_leading(part + rest, part) == text::without_leading(rest, part),
        !text::text_starts_with(rest, part) ==> text::without_leading(rest, part) == rest,
{
    let s = part + rest;
    assert(s.subrange(0, part.len() as int) =~= part);
    assert(s.skip(part.len() as int) =~= rest);
}

} // verus!
