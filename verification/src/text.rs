//! Line structure of buffer text, over sequences of characters.
use vstd::prelude::*;

verus! {

/// `String::push`: appends one character.
pub assume_specification[ std::string::String::push ](s: &mut std::string::String, ch: char)
    ensures
        final(s)@ == old(s)@.push(ch),
;

/// Whether a character has the Unicode White_Space property.
pub open spec fn is_whitespace(c: char) -> bool {
    let p = c as u32;
    ||| 0x09 <= p <= 0x0D
    ||| p == 0x20
    ||| p == 0x85
    ||| p == 0xA0
    ||| p == 0x1680
    ||| 0x2000 <= p <= 0x200A
    ||| p == 0x2028
    ||| p == 0x2029
    ||| p == 0x202F
    ||| p == 0x205F
    ||| p == 0x3000
}

#[verifier::when_used_as_spec(is_whitespace)]
pub fn whitespace(c: char) -> (r: bool)
    ensures
        r == is_whitespace(c),
{
    let p: u32 = c as u32;
    (0x09 <= p && p <= 0x0D) || p == 0x20 || p == 0x85 || p == 0xA0 || p == 0x1680 || (0x2000 <= p
        && p <= 0x200A) || p == 0x2028 || p == 0x2029 || p == 0x202F || p == 0x205F || p == 0x3000
}

/// The characters of a string, one element per character.
pub fn chars_of(s: &str) -> (r: Vec<char>)
    ensures
        r@ == s@,
{
    let mut out: Vec<char> = Vec::new();
    proof {
        assert(s@.take(0) =~= Seq::<char>::empty());
    }
    for c in it: s.chars()
        invariant
            it.seq() == s@,
            out@ == s@.take(it.index() as int),
    {
        proof {
            let i = it.index() as int;
            assert(s@.take(i + 1) =~= s@.take(i).push(s@[i]));
        }
        out.push(c);
    }
    proof {
        assert(s@.take(s@.len() as int) =~= s@);
    }
    out
}

/// The string made of the given characters.
pub fn string_of(chars: &Vec<char>) -> (r: String)
    ensures
        r@ == chars@,
{
    proof {
        assert(chars@.skip(0) =~= chars@);
    }
    string_from(chars, 0)
}

/// The string made of the characters from an index on.
pub fn string_from(chars: &Vec<char>, from: usize) -> (r: String)
    requires
        from <= chars.len(),
    ensures
        r@ == chars@.skip(from as int),
{
    let mut out = String::new();
    let mut i: usize = from;
    proof {
        assert(out@ =~= chars@.subrange(from as int, from as int));
    }
    while i < chars.len()
        invariant
            from <= i <= chars.len(),
            out@ == chars@.subrange(from as int, i as int),
        decreases chars.len() - i,
    {
        proof {
            assert(chars@.subrange(from as int, i + 1) =~= chars@.subrange(
                from as int,
                i as int,
            ).push(chars@[i as int]));
        }
        out.push(chars[i]);
        i += 1;
    }
    proof {
        assert(chars@.subrange(from as int, chars@.len() as int) =~= chars@.skip(from as int));
    }
    out
}

/// Number of line breaks in a text.
pub open spec fn newline_count(text: Seq<char>) -> nat
    decreases text.len(),
{
    if text.len() == 0 {
        0
    } else {
        newline_count(text.drop_last()) + if text.last() == '\n' { 1nat } else { 0nat }
    }
}

/// Index of the first line break at or after `from`, or the length of the
/// text where none follows.
pub open spec fn line_end(text: Seq<char>, from: int) -> int
    decreases text.len() - from,
{
    if from < 0 || from >= text.len() {
        text.len() as int
    } else if text[from] == '\n' {
        from
    } else {
        line_end(text, from + 1)
    }
}

/// Index of the character after the `n`-th line break, if the text has
/// that many line breaks; line 0 starts at index 0.
pub open spec fn line_start(text: Seq<char>, n: nat) -> Option<int>
    decreases n,
{
    if n == 0 {
        Some(0)
    } else {
        match line_start(text, (n - 1) as nat) {
            Some(s) => {
                let e = line_end(text, s);
                if e < text.len() {
                    Some(e + 1)
                } else {
                    None
                }
            },
            None => None,
        }
    }
}

/// Where the content of a line stops: before its line break, and before a
/// carriage return that directly precedes that line break.
pub open spec fn content_end(text: Seq<char>, start: int) -> int {
    let e = line_end(text, start);
    if e < text.len() && start < e && text[e - 1] == '\r' {
        e - 1
    } else {
        e
    }
}

/// The content of line `n`, without its line ending. A text that ends with a
/// line break has no further, empty line after it, and an empty text has no
/// line at all.
pub open spec fn nth_line(text: Seq<char>, n: nat) -> Option<Seq<char>> {
    match line_start(text, n) {
        Some(s) => if s < text.len() {
            Some(text.subrange(s, content_end(text, s)))
        } else {
            None
        },
        None => None,
    }
}

/// Number of lines that `nth_line` yields.
pub open spec fn line_total(text: Seq<char>) -> nat {
    if text.len() == 0 {
        0
    } else if text.last() == '\n' {
        newline_count(text)
    } else {
        newline_count(text) + 1
    }
}

/// Index of the first character that is not whitespace.
pub open spec fn first_word_offset(line: Seq<char>) -> Option<int>
    decreases line.len(),
{
    if line.len() == 0 {
        None
    } else if !is_whitespace(line[0]) {
        Some(0)
    } else {
        match first_word_offset(line.drop_first()) {
            Some(k) => Some(k + 1),
            None => None,
        }
    }
}

/// A line ends at or behind where it is entered, on a line break or at the
/// end of the text, and holds no line break before that.
pub proof fn lemma_line_end_bounds(text: Seq<char>, from: int)
    requires
        0 <= from <= text.len(),
    ensures
        from <= line_end(text, from) <= text.len(),
        line_end(text, from) < text.len() ==> text[line_end(text, from)] == '\n',
        forall|i: int| from <= i < line_end(text, from) ==> text[i] != '\n',
    decreases text.len() - from,
{
    if from < text.len() && text[from] != '\n' {
        lemma_line_end_bounds(text, from + 1);
    }
}

/// The first word starts at a character that is not whitespace, and only
/// whitespace precedes it; a line has no first word exactly when it is
/// whitespace throughout.
pub proof fn lemma_first_word_offset(line: Seq<char>)
    ensures
        match first_word_offset(line) {
            Some(k) => 0 <= k < line.len() && !is_whitespace(line[k]) && forall|i: int|
                0 <= i < k ==> is_whitespace(line[i]),
            None => forall|i: int| 0 <= i < line.len() ==> is_whitespace(line[i]),
        },
    decreases line.len(),
{
    if line.len() > 0 && is_whitespace(line[0]) {
        let rest = line.drop_first();
        lemma_first_word_offset(rest);
        match first_word_offset(rest) {
            Some(k) => {
                assert(forall|i: int| 0 <= i < k + 1 ==> is_whitespace(line[i])) by {
                    assert forall|i: int| 0 <= i < k + 1 implies is_whitespace(line[i]) by {
                        if i > 0 {
                            assert(line[i] == rest[i - 1]);
                        }
                    }
                }
                assert(line[k + 1] == rest[k]);
            },
            None => {
                assert forall|i: int| 0 <= i < line.len() implies is_whitespace(line[i]) by {
                    if i > 0 {
                        assert(line[i] == rest[i - 1]);
                    }
                }
            },
        }
    }
}

/// The line breaks of two texts add up in their concatenation.
pub proof fn lemma_newline_count_concat(a: Seq<char>, b: Seq<char>)
    ensures
        newline_count(a + b) == newline_count(a) + newline_count(b),
    decreases b.len(),
{
    if b.len() == 0 {
        assert(a + b =~= a);
    } else {
        lemma_newline_count_concat(a, b.drop_last());
        assert((a + b).drop_last() =~= a + b.drop_last());
    }
}

/// A stretch of text without line breaks counts none.
pub proof fn lemma_no_newlines(text: Seq<char>)
    requires
        forall|i: int| 0 <= i < text.len() ==> text[i] != '\n',
    ensures
        newline_count(text) == 0,
    decreases text.len(),
{
    if text.len() > 0 {
        lemma_no_newlines(text.drop_last());
    }
}

/// Line `n` starts right behind the `n`-th line break, and no line starts
/// where the text has fewer line breaks than that.
pub proof fn lemma_line_start_counts(text: Seq<char>, n: nat)
    ensures
        match line_start(text, n) {
            Some(s) => 0 <= s <= text.len() && newline_count(text.take(s)) == n && (n > 0
                ==> text[s - 1] == '\n'),
            None => newline_count(text) < n,
        },
    decreases n,
{
    if n == 0 {
        assert(text.take(0) =~= Seq::<char>::empty());
    } else {
        lemma_line_start_counts(text, (n - 1) as nat);
        match line_start(text, (n - 1) as nat) {
            Some(before) => {
                lemma_line_end_bounds(text, before);
                let e = line_end(text, before);
                lemma_no_newlines(text.subrange(before, e));
                lemma_newline_count_concat(text.take(before), text.subrange(before, e));
                assert(text.take(before) + text.subrange(before, e) =~= text.take(e));
                if e < text.len() {
                    assert(text.take(e + 1).drop_last() =~= text.take(e));
                } else {
                    assert(text.take(e) =~= text);
                }
            },
            None => {},
        }
    }
}

/// A text has exactly as many lines as `line_total` says: line `n` exists
/// if and only if `n` is below that number.
pub proof fn lemma_lines_are_counted(text: Seq<char>, n: nat)
    ensures
        nth_line(text, n) is Some <==> n < line_total(text),
{
    lemma_line_start_counts(text, n);
    if text.len() > 0 {
        match line_start(text, n) {
            Some(s) => {
                if s == text.len() {
                    assert(text.take(s) =~= text);
                } else {
                    lemma_newline_count_concat(text.take(s), text.skip(s));
                    assert(text.take(s) + text.skip(s) =~= text);
                    if text.last() == '\n' {
                        let rest = text.skip(s);
                        assert(rest.last() == '\n');
                        assert(newline_count(rest) >= 1);
                    }
                }
            },
            None => {},
        }
    }
}

/// A line of only whitespace, and so an empty line, has no first word.
pub proof fn lemma_blank_line_has_no_first_word(line: Seq<char>)
    requires
        forall|i: int| 0 <= i < line.len() ==> is_whitespace(line[i]),
    ensures
        first_word_offset(line) is None,
{
    lemma_first_word_offset(line);
}

/// Counts the line breaks of a text.
pub fn count_newlines(text: &Vec<char>) -> (r: usize)
    ensures
        r == newline_count(text@),
{
    let mut count: usize = 0;
    let mut i: usize = 0;
    proof {
        assert(text@.take(0) =~= Seq::<char>::empty());
    }
    while i < text.len()
        invariant
            i <= text.len(),
            count == newline_count(text@.take(i as int)),
            count <= i,
        decreases text.len() - i,
    {
        proof {
            let next = text@.take(i + 1);
            assert(next.drop_last() =~= text@.take(i as int));
            assert(next.last() == text@[i as int]);
        }
        if text[i] == '\n' {
            count += 1;
        }
        i += 1;
    }
    proof {
        assert(text@.take(text@.len() as int) =~= text@);
    }
    count
}

/// Finds where the line that holds index `from` ends.
pub fn find_line_end(text: &Vec<char>, from: usize) -> (r: usize)
    requires
        from <= text.len(),
    ensures
        r == line_end(text@, from as int),
        from <= r <= text.len(),
{
    let mut i: usize = from;
    while i < text.len() && text[i] != '\n'
        invariant
            from <= i <= text.len(),
            line_end(text@, from as int) == line_end(text@, i as int),
        decreases text.len() - i,
    {
        i += 1;
    }
    i
}

/// Finds where line `n` starts, if the text has that many line breaks.
pub fn find_line_start(text: &Vec<char>, n: usize) -> (r: Option<usize>)
    ensures
        match r {
            Some(s) => line_start(text@, n as nat) == Some(s as int) && s <= text.len(),
            None => line_start(text@, n as nat) is None,
        },
{
    let mut start: usize = 0;
    let mut k: usize = 0;
    while k < n
        invariant
            k <= n,
            start <= text.len(),
            line_start(text@, k as nat) == Some(start as int),
        decreases n - k,
    {
        let end = find_line_end(text, start);
        if end >= text.len() {
            proof {
                lemma_line_start_none_persists(text@, (k + 1) as nat, n as nat);
            }
            return None;
        }
        start = end + 1;
        k += 1;
    }
    Some(start)
}

/// Once the text runs out of line breaks, no later line starts.
pub proof fn lemma_line_start_none_persists(text: Seq<char>, m: nat, n: nat)
    requires
        m <= n,
        line_start(text, m) is None,
    ensures
        line_start(text, n) is None,
    decreases n - m,
{
    if m < n {
        lemma_line_start_none_persists(text, m, (n - 1) as nat);
    }
}

/// The bounds of the content of line `n` in the text.
pub fn line_bounds(text: &Vec<char>, n: usize) -> (r: Option<(usize, usize)>)
    ensures
        match r {
            Some((s, e)) => s <= e <= text.len() && nth_line(text@, n as nat) == Some(
                text@.subrange(s as int, e as int),
            ),
            None => nth_line(text@, n as nat) is None,
        },
{
    match find_line_start(text, n) {
        Some(start) => {
            if start >= text.len() {
                return None;
            }
            let end = find_line_end(text, start);
            if end < text.len() && start < end && text[end - 1] == '\r' {
                Some((start, end - 1))
            } else {
                Some((start, end))
            }
        },
        None => None,
    }
}

/// Finds the first character of a span of the text that is not whitespace,
/// as an offset into the span.
pub fn find_first_word(text: &Vec<char>, start: usize, end: usize) -> (r: Option<usize>)
    requires
        start <= end <= text.len(),
    ensures
        match r {
            Some(k) => first_word_offset(text@.subrange(start as int, end as int)) == Some(
                k as int,
            ) && k < end - start,
            None => first_word_offset(text@.subrange(start as int, end as int)) is None,
        },
{
    let ghost line = text@.subrange(start as int, end as int);
    let mut i: usize = start;
    while i < end
        invariant
            start <= i <= end <= text.len(),
            line == text@.subrange(start as int, end as int),
            forall|j: int| 0 <= j < i - start ==> is_whitespace(#[trigger] line[j]),
        decreases end - i,
    {
        if !whitespace(text[i]) {
            proof {
                lemma_first_word_offset(line);
                assert(line[i - start] == text@[i as int]);
                match first_word_offset(line) {
                    Some(k) => {
                        if k < i - start {
                            assert(is_whitespace(line[k]));
                        }
                        if k > i - start {
                            assert(is_whitespace(line[i - start]));
                        }
                    },
                    None => {
                        assert(is_whitespace(line[i - start]));
                    },
                }
            }
            return Some(i - start);
        }
        proof {
            assert(line[i - start] == text@[i as int]);
        }
        i += 1;
    }
    proof {
        lemma_first_word_offset(line);
        if let Some(k) = first_word_offset(line) {
            assert(is_whitespace(line[k]));
        }
    }
    None
}

} // verus!
