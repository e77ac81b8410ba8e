//! Words and numbers in a text: words are what stands between white space,
//! and a number is a row of decimal digits that may have a plus sign before
//! it.

use vstd::prelude::*;
use vstd::string::*;

verus! {

/// Whether a character is white space.
pub open spec fn is_space(c: char) -> bool {
    let n = c as u32;
    ||| 0x09 <= n <= 0x0D
    ||| n == 0x20
    ||| n == 0x85
    ||| n == 0xA0
    ||| n == 0x1680
    ||| 0x2000 <= n <= 0x200A
    ||| n == 0x2028
    ||| n == 0x2029
    ||| n == 0x202F
    ||| n == 0x205F
    ||| n == 0x3000
}

/// Whether a character is passed over as if it were not there: a round or
/// square bracket or a comma.
pub open spec fn is_ignored(c: char) -> bool {
    c == '(' || c == ')' || c == ',' || c == '[' || c == ']'
}

/// Whether a character is a decimal digit.
pub open spec fn is_digit(c: char) -> bool {
    0x30 <= c as u32 <= 0x39
}

/// The value of a decimal digit.
pub open spec fn digit_value(c: char) -> nat {
    (c as u32 - 0x30) as nat
}

/// The word under way at the end of a text: what stands after the last
/// white space; with `brackets`, without brackets and commas.
pub open spec fn open_word(text: Seq<char>, brackets: bool) -> Seq<char>
    decreases text.len(),
{
    if text.len() == 0 {
        Seq::empty()
    } else if is_space(text.last()) {
        Seq::empty()
    } else if brackets && is_ignored(text.last()) {
        open_word(text.drop_last(), brackets)
    } else {
        open_word(text.drop_last(), brackets).push(text.last())
    }
}

/// The words of a text that are ended by white space.
pub open spec fn closed_words(text: Seq<char>, brackets: bool) -> Seq<Seq<char>>
    decreases text.len(),
{
    if text.len() == 0 {
        Seq::empty()
    } else if is_space(text.last()) && open_word(text.drop_last(), brackets).len() > 0 {
        closed_words(text.drop_last(), brackets).push(open_word(text.drop_last(), brackets))
    } else {
        closed_words(text.drop_last(), brackets)
    }
}

/// The words of a text: what stands between white space. With `brackets`,
/// brackets and commas are taken out first.
pub open spec fn words(text: Seq<char>, brackets: bool) -> Seq<Seq<char>> {
    if open_word(text, brackets).len() > 0 {
        closed_words(text, brackets).push(open_word(text, brackets))
    } else {
        closed_words(text, brackets)
    }
}

/// A word without the plus sign that may stand before a number.
pub open spec fn unsigned(word: Seq<char>) -> Seq<char> {
    if word.len() > 0 && word[0] == '+' {
        word.skip(1)
    } else {
        word
    }
}

/// The number that a row of digits stands for.
pub open spec fn value(digits: Seq<char>) -> nat
    decreases digits.len(),
{
    if digits.len() == 0 {
        0
    } else {
        value(digits.drop_last()) * 10 + digit_value(digits.last())
    }
}

/// Whether a word can still become a number up to `max`: after a plus
/// sign, if there is one, it holds nothing but digits, and they stand for
/// no more than `max`.
pub open spec fn is_prefix(word: Seq<char>, max: nat) -> bool {
    &&& forall|i: int| 0 <= i < unsigned(word).len() ==> is_digit(#[trigger] unsigned(word)[i])
    &&& value(unsigned(word)) <= max
}

/// The number that a word stands for: a decimal number of at least one
/// digit and at most `max`, which may have a plus sign before it.
pub open spec fn number(word: Seq<char>, max: nat) -> Option<nat> {
    if is_prefix(word, max) && unsigned(word).len() > 0 {
        Some(value(unsigned(word)))
    } else {
        None
    }
}

/// Whether every word stands for a number up to `max`.
pub open spec fn all_numbers(words: Seq<Seq<char>>, max: nat) -> bool {
    forall|k: int| 0 <= k < words.len() ==> (#[trigger] number(words[k], max)) is Some
}

/// The numbers that the words stand for.
pub open spec fn numbers_of(words: Seq<Seq<char>>, max: nat) -> Seq<nat> {
    Seq::new(words.len(), |k: int| number(words[k], max)->0)
}

/// The numbers that a text stands for, if every word of it is a number up
/// to `max`.
pub open spec fn numbers_in(text: Seq<char>, brackets: bool, max: nat) -> Option<Seq<nat>> {
    if all_numbers(words(text, brackets), max) {
        Some(numbers_of(words(text, brackets), max))
    } else {
        None
    }
}

/// The numbers of a list as mathematical values.
pub open spec fn nats(numbers: Seq<u32>) -> Seq<nat> {
    numbers.map_values(|n: u32| n as nat)
}

proof fn lemma_push_unsigned(word: Seq<char>, c: char)
    requires
        word.len() > 0 || c != '+',
    ensures
        unsigned(word.push(c)) == unsigned(word).push(c),
{
    if word.len() > 0 && word[0] == '+' {
        assert(word.push(c).skip(1) =~= word.skip(1).push(c));
    } else {
        assert(word.push(c)[0] != '+');
    }
}

proof fn lemma_push_value(digits: Seq<char>, c: char)
    ensures
        value(digits.push(c)) == value(digits) * 10 + digit_value(c),
{
    assert(digits.push(c).drop_last() =~= digits);
}

/// A word that cannot become a number stays so, whatever is added to it.
proof fn lemma_bad_stays_bad(word: Seq<char>, c: char, max: nat)
    requires
        !is_prefix(word, max),
    ensures
        !is_prefix(word.push(c), max),
{
    assert(word.len() > 0) by {
        if word.len() == 0 {
            assert(unsigned(word) =~= Seq::<char>::empty());
        }
    }
    lemma_push_unsigned(word, c);
    lemma_push_value(unsigned(word), c);
    if value(unsigned(word)) <= max {
        let i = choose|i: int| 0 <= i < unsigned(word).len() && !is_digit(#[trigger] unsigned(word)[i]);
        assert(unsigned(word).push(c)[i] == unsigned(word)[i]);
    }
}

proof fn lemma_push_numbers(words: Seq<Seq<char>>, word: Seq<char>, max: nat)
    ensures
        all_numbers(words.push(word), max) <==> all_numbers(words, max) && number(word, max) is Some,
        all_numbers(words.push(word), max) ==> numbers_of(words.push(word), max) == numbers_of(
            words,
            max,
        ).push(number(word, max)->0),
{
    let more = words.push(word);
    if all_numbers(more, max) {
        assert(more[words.len() as int] == word);
        assert forall|k: int| 0 <= k < words.len() implies (#[trigger] number(words[k], max)) is Some by {
            assert(more[k] == words[k]);
        }
        assert(numbers_of(more, max) =~= numbers_of(words, max).push(number(word, max)->0));
    }
    if all_numbers(words, max) && number(word, max) is Some {
        assert forall|k: int| 0 <= k < more.len() implies (#[trigger] number(more[k], max)) is Some by {
            if k < words.len() {
                assert(more[k] == words[k]);
            }
        }
    }
}

pub fn space(c: char) -> (is: bool)
    ensures
        is == is_space(c),
{
    let n: u32 = c as u32;
    (0x09 <= n && n <= 0x0D) || n == 0x20 || n == 0x85 || n == 0xA0 || n == 0x1680 || (0x2000 <= n && n
        <= 0x200A) || n == 0x2028 || n == 0x2029 || n == 0x202F || n == 0x205F || n == 0x3000
}

fn ignored(c: char) -> (is: bool)
    ensures
        is == is_ignored(c),
{
    c == '(' || c == ')' || c == ',' || c == '[' || c == ']'
}

/// The largest `max` that `parse_numbers` can be asked for.
pub const MAX_NUMBER: u32 = 100_000_000;

/// Reads the numbers of a text, each at most `max`. White space parts them;
/// with `brackets`, brackets and commas are passed over. A text with a word
/// in it that is no such number has no numbers.
pub fn parse_numbers(text: &str, brackets: bool, max: u32) -> (numbers: Option<Vec<u32>>)
    requires
        max <= MAX_NUMBER,
    ensures
        numbers is Some <==> numbers_in(text@, brackets, max as nat) is Some,
        numbers matches Some(found) ==> nats(found@) == numbers_in(text@, brackets, max as nat)->0,
{
    let len = text.unicode_len();
    let mut found: Vec<u32> = Vec::new();
    let mut failed = false;
    let mut in_word = false;
    let mut bad = false;
    let mut has_digit = false;
    let mut value_so_far: u32 = 0;
    let mut i: usize = 0;
    assert(text@.take(0) =~= Seq::<char>::empty());
    assert(unsigned(Seq::<char>::empty()) =~= Seq::<char>::empty());
    assert(numbers_of(Seq::<Seq<char>>::empty(), max as nat) =~= Seq::<nat>::empty());
    assert(nats(found@) =~= Seq::<nat>::empty());
    while i < len
        invariant
            len == text@.len(),
            i <= len,
            max <= MAX_NUMBER,
            failed <==> !all_numbers(closed_words(text@.take(i as int), brackets), max as nat),
            !failed ==> nats(found@) == numbers_of(closed_words(text@.take(i as int), brackets), max as nat),
            in_word == (open_word(text@.take(i as int), brackets).len() > 0),
            bad == !is_prefix(open_word(text@.take(i as int), brackets), max as nat),
            !bad ==> has_digit == (unsigned(open_word(text@.take(i as int), brackets)).len() > 0),
            !bad ==> value_so_far == value(unsigned(open_word(text@.take(i as int), brackets))),
        decreases len - i,
    {
        let c = text.get_char(i);
        let ghost done = text@.take(i as int);
        let ghost next = text@.take(i + 1);
        let ghost word = open_word(done, brackets);
        proof {
            assert(next.drop_last() =~= done);
            assert(next.last() == c);
        }
        if space(c) {
            proof {
                lemma_push_numbers(closed_words(done, brackets), word, max as nat);
                assert(unsigned(Seq::<char>::empty()) =~= Seq::<char>::empty());
            }
            if in_word {
                if bad || !has_digit {
                    failed = true;
                } else if !failed {
                    let ghost before = found@;
                    found.push(value_so_far);
                    assert(nats(found@) =~= nats(before).push(value_so_far as nat));
                }
            }
            in_word = false;
            bad = false;
            has_digit = false;
            value_so_far = 0;
        } else if brackets && ignored(c) {
        } else {
            proof {
                if word.len() > 0 || c != '+' {
                    lemma_push_unsigned(word, c);
                    lemma_push_value(unsigned(word), c);
                } else {
                    assert(word.push(c).skip(1) =~= Seq::<char>::empty());
                    assert(unsigned(word.push(c)) =~= Seq::<char>::empty());
                }
                if bad {
                    lemma_bad_stays_bad(word, c, max as nat);
                }
            }
            let n: u32 = c as u32;
            if bad {
            } else if !in_word && c == '+' {
            } else if 0x30 <= n && n <= 0x39 {
                let d: u32 = n - 0x30;
                let v: u32 = value_so_far * 10 + d;
                if v > max {
                    bad = true;
                } else {
                    value_so_far = v;
                    has_digit = true;
                    assert forall|k: int| 0 <= k < unsigned(word.push(c)).len() implies is_digit(
                        #[trigger] unsigned(word.push(c))[k],
                    ) by {
                        if k < unsigned(word).len() {
                            assert(unsigned(word.push(c))[k] == unsigned(word)[k]);
                        }
                    }
                }
            } else {
                bad = true;
                assert(!is_digit(unsigned(word.push(c))[unsigned(word).len() as int]));
            }
            in_word = true;
        }
        i = i + 1;
    }
    assert(text@.take(len as int) =~= text@);
    proof {
        lemma_push_numbers(closed_words(text@, brackets), open_word(text@, brackets), max as nat);
    }
    if failed || (in_word && (bad || !has_digit)) {
        None
    } else {
        if in_word {
            let ghost before = found@;
            found.push(value_so_far);
            assert(nats(found@) =~= nats(before).push(value_so_far as nat));
        }
        Some(found)
    }
}

/// The words of a list as mathematical values.
pub open spec fn texts(words: Seq<String>) -> Seq<Seq<char>> {
    words.map_values(|word: String| word@)
}

/// Without brackets to pass over, the word under way is what stands after
/// the last white space.
proof fn lemma_open_word_is_tail(text: Seq<char>, start: int)
    requires
        0 <= start <= text.len(),
        forall|k: int| start <= k < text.len() ==> !is_space(#[trigger] text[k]),
        start > 0 ==> is_space(text[start - 1]),
    ensures
        open_word(text, false) == text.subrange(start, text.len() as int),
    decreases text.len(),
{
    if text.len() == 0 {
        assert(text.subrange(start, 0) =~= Seq::<char>::empty());
    } else if start == text.len() {
        assert(text.subrange(start, text.len() as int) =~= Seq::<char>::empty());
    } else {
        let before = text.drop_last();
        assert forall|k: int| start <= k < before.len() implies !is_space(#[trigger] before[k]) by {
            assert(before[k] == text[k]);
        }
        lemma_open_word_is_tail(before, start);
        assert(text.subrange(start, text.len() as int) =~= before.subrange(start, before.len() as int).push(
            text.last(),
        ));
    }
}

/// Splits a text into its words: what stands between white space.
pub fn split_words(text: &str) -> (found: Vec<String>)
    ensures
        texts(found@) == words(text@, false),
{
    let len = text.unicode_len();
    let mut found: Vec<String> = Vec::new();
    let mut start: usize = 0;
    let mut i: usize = 0;
    assert(text@.take(0) =~= Seq::<char>::empty());
    assert(texts(found@) =~= Seq::<Seq<char>>::empty());
    while i < len
        invariant
            len == text@.len(),
            start <= i <= len,
            texts(found@) == closed_words(text@.take(i as int), false),
            forall|k: int| start <= k < i ==> !is_space(#[trigger] text@[k]),
            start > 0 ==> is_space(text@[start - 1]),
        decreases len - i,
    {
        let c = text.get_char(i);
        let ghost done = text@.take(i as int);
        let ghost next = text@.take(i + 1);
        proof {
            assert(next.drop_last() =~= done);
            assert(next.last() == c);
            assert forall|k: int| start <= k < done.len() implies !is_space(#[trigger] done[k]) by {
                assert(done[k] == text@[k]);
            }
            if start > 0 {
                assert(done[start - 1] == text@[start - 1]);
            }
            lemma_open_word_is_tail(done, start as int);
            assert(done.subrange(start as int, i as int) =~= text@.subrange(start as int, i as int));
        }
        if space(c) {
            if start < i {
                let word = text.substring_char(start, i);
                let ghost before = found@;
                found.push(String::from_str(word));
                assert(texts(found@) =~= texts(before).push(word@));
            }
            start = i + 1;
        }
        i = i + 1;
    }
    assert(text@.take(len as int) =~= text@);
    proof {
        lemma_open_word_is_tail(text@, start as int);
    }
    if start < len {
        let word = text.substring_char(start, len);
        let ghost before = found@;
        found.push(String::from_str(word));
        assert(texts(found@) =~= texts(before).push(word@));
    }
    found
}

/// Whether two texts are the same.
pub fn same_text(a: &str, b: &str) -> (same: bool)
    ensures
        same == (a@ == b@),
{
    let len = a.unicode_len();
    if len != b.unicode_len() {
        return false;
    }
    let mut i: usize = 0;
    while i < len
        invariant
            len == a@.len(),
            len == b@.len(),
            i <= len,
            forall|k: int| 0 <= k < i ==> a@[k] == b@[k],
        decreases len - i,
    {
        if a.get_char(i) != b.get_char(i) {
            return false;
        }
        i = i + 1;
    }
    assert(a@ =~= b@);
    true
}

/// A text without the white space at its end.
pub open spec fn trim_end(text: Seq<char>) -> Seq<char>
    decreases text.len(),
{
    if text.len() > 0 && is_space(text.last()) {
        trim_end(text.drop_last())
    } else {
        text
    }
}

/// How many characters of a text stand before the white space at its end.
pub fn trimmed_len(text: &str) -> (end: usize)
    ensures
        end <= text@.len(),
        trim_end(text@) == text@.take(end as int),
{
    let mut end = text.unicode_len();
    let mut going = true;
    assert(text@.take(end as int) =~= text@);
    while going && end > 0
        invariant
            end <= text@.len(),
            trim_end(text@) == trim_end(text@.take(end as int)),
            !going ==> end > 0 && !is_space(text@[end - 1]),
        decreases end + if going { 1int } else { 0int },
    {
        if space(text.get_char(end - 1)) {
            assert(text@.take(end as int).drop_last() =~= text@.take(end - 1));
            end = end - 1;
        } else {
            going = false;
        }
    }
    assert(end > 0 ==> text@.take(end as int).last() == text@[end - 1]);
    end
}

} // verus!
