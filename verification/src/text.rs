//! Searching, splitting and joining text.
use vstd::prelude::*;

verus! {

/// The texts that a sequence of strings holds.
pub open spec fn texts(strings: Seq<String>) -> Seq<Seq<char>> {
    strings.map_values(|s: String| s@)
}

/// Whether `pat` stands in `s` at position `i`.
pub open spec fn matches_at(s: Seq<char>, pat: Seq<char>, i: int) -> bool {
    0 <= i && i + pat.len() <= s.len() && s.subrange(i, i + pat.len()) =~= pat
}

/// A text stands at a position if and only if each of its characters does.
pub proof fn law_a_match_is_one_of_every_character(s: Seq<char>, pat: Seq<char>, i: int)
    ensures
        matches_at(s, pat, i) <==> {
            &&& 0 <= i
            &&& i + pat.len() <= s.len()
            &&& forall|k: int| 0 <= k < pat.len() ==> s[i + k] == #[trigger] pat[k]
        },
{
    if matches_at(s, pat, i) {
        assert forall|k: int| 0 <= k < pat.len() implies s[i + k] == #[trigger] pat[k] by {
            assert(s.subrange(i, i + pat.len())[k] == pat[k]);
        }
    }
}

/// The first position at or behind `from` at which `pat` stands in `s`.
pub open spec fn find_from(s: Seq<char>, pat: Seq<char>, from: int) -> Option<int>
    decreases s.len() - from + 1,
{
    if from < 0 || from + pat.len() > s.len() {
        None
    } else if matches_at(s, pat, from) {
        Some(from)
    } else {
        find_from(s, pat, from + 1)
    }
}

/// What `find_from` finds is the first match, and it finds one wherever there
/// is one.
pub proof fn law_find_from_is_first(s: Seq<char>, pat: Seq<char>, from: int)
    requires
        0 <= from,
    ensures
        match find_from(s, pat, from) {
            Some(i) => from <= i && matches_at(s, pat, i) && forall|k: int|
                from <= k < i ==> !#[trigger] matches_at(s, pat, k),
            None => forall|k: int| from <= k ==> !#[trigger] matches_at(s, pat, k),
        },
    decreases s.len() - from + 1,
{
    if from + pat.len() <= s.len() && !matches_at(s, pat, from) {
        law_find_from_is_first(s, pat, from + 1);
    }
}

/// A match before which there is none is the one that `find_from` finds.
pub proof fn lemma_find_from_at(s: Seq<char>, pat: Seq<char>, from: int, i: int)
    requires
        0 <= from <= i,
        matches_at(s, pat, i),
        forall|k: int| from <= k < i ==> !#[trigger] matches_at(s, pat, k),
    ensures
        find_from(s, pat, from) == Some(i),
{
    law_find_from_is_first(s, pat, from);
}

/// A line without the carriage return that it may end with.
pub open spec fn without_cr(line: Seq<char>) -> Seq<char> {
    if line.len() > 0 && line.last() == '\r' {
        line.drop_last()
    } else {
        line
    }
}

/// The lines of `s` from position `from` on: each ends before a line feed,
/// together with a carriage return directly in front of it, or at the end of
/// `s`, and an empty rest is no line.
pub open spec fn lines_from(s: Seq<char>, from: int) -> Seq<Seq<char>>
    decreases s.len() - from,
{
    if from < 0 || from >= s.len() {
        Seq::empty()
    } else {
        match find_from(s, seq!['\n'], from) {
            Some(i) => if from <= i < s.len() {
                seq![without_cr(s.subrange(from, i))] + lines_from(s, i + 1)
            } else {
                Seq::empty()
            },
            None => seq![s.subrange(from, s.len() as int)],
        }
    }
}

/// The lines of `s`.
pub open spec fn lines_of(s: Seq<char>) -> Seq<Seq<char>> {
    lines_from(s, 0)
}

/// No line holds a line feed.
pub proof fn law_lines_hold_no_line_feed(s: Seq<char>, from: int)
    requires
        0 <= from,
    ensures
        forall|i: int|
            0 <= i < lines_from(s, from).len() ==> !(#[trigger] lines_from(s, from)[i]).contains(
                '\n',
            ),
    decreases s.len() - from,
{
    if from < s.len() {
        let newline = seq!['\n'];
        law_find_from_is_first(s, newline, from);
        let end = match find_from(s, newline, from) {
            Some(i) => i,
            None => s.len() as int,
        };
        assert forall|k: int| from <= k < end implies s[k] != '\n' by {
            if s[k] == '\n' {
                assert(s.subrange(k, k + 1) =~= newline);
                assert(matches_at(s, newline, k));
            }
        }
        if let Some(i) = find_from(s, newline, from) {
            law_lines_hold_no_line_feed(s, i + 1);
            let rest = lines_from(s, i + 1);
            assert forall|j: int| 0 <= j < lines_from(s, from).len() implies !(
            #[trigger] lines_from(s, from)[j]).contains('\n') by {
                if j > 0 {
                    assert(lines_from(s, from)[j] == rest[j - 1]);
                }
            }
        }
    }
}

/// The parts with `sep` between each two of them.
pub open spec fn joined(parts: Seq<Seq<char>>, sep: Seq<char>) -> Seq<char>
    decreases parts.len(),
{
    if parts.len() == 0 {
        Seq::empty()
    } else if parts.len() == 1 {
        parts[0]
    } else {
        joined(parts.drop_last(), sep) + sep + parts.last()
    }
}

/// `c`, `n` times.
pub open spec fn repeated(c: char, n: nat) -> Seq<char> {
    Seq::new(n, |i: int| c)
}

/// The characters of `s`.
pub fn chars_of(s: &str) -> (r: Vec<char>)
    ensures
        r@ == s@,
{
    let mut r: Vec<char> = Vec::new();
    for c in it: s.chars()
        invariant
            it.seq() == s@,
            r@ == s@.take(it.index() as int),
    {
        r.push(c);
        assert(r@ =~= s@.take(it.index() + 1));
    }
    assert(r@ =~= s@);
    r
}

/// The text that the characters from `from` up to `to` spell.
pub fn text_of(chars: &Vec<char>, from: usize, to: usize) -> (r: String)
    requires
        from <= to <= chars@.len(),
    ensures
        r@ == chars@.subrange(from as int, to as int),
{
    let mut r = String::new();
    let mut i: usize = from;
    while i < to
        invariant
            from <= i <= to <= chars@.len(),
            r@ == chars@.subrange(from as int, i as int),
        decreases to - i,
    {
        r.push(chars[i]);
        i = i + 1;
        assert(r@ =~= chars@.subrange(from as int, i as int));
    }
    r
}

/// Whether `pat` stands in `chars` at `i`.
fn stands_at(chars: &Vec<char>, pat: &Vec<char>, i: usize) -> (r: bool)
    requires
        i + pat@.len() <= chars@.len(),
    ensures
        r == matches_at(chars@, pat@, i as int),
{
    let len: usize = chars.len();
    let mut k: usize = 0;
    while k < pat.len()
        invariant
            k <= pat@.len(),
            i + pat@.len() <= chars@.len() == len,
            forall|j: int| 0 <= j < k ==> chars@[i + j] == #[trigger] pat@[j],
        decreases pat@.len() - k,
    {
        if chars[i + k] != pat[k] {
            assert(chars@.subrange(i as int, i + pat@.len())[k as int] != pat@[k as int]);
            return false;
        }
        k = k + 1;
    }
    true
}

/// The first position at or behind `from` at which `pat` stands in `chars`.
pub fn find(chars: &Vec<char>, pat: &Vec<char>, from: usize) -> (r: Option<usize>)
    ensures
        match r {
            Some(i) => find_from(chars@, pat@, from as int) == Some(i as int),
            None => find_from(chars@, pat@, from as int) is None,
        },
        r matches Some(i) ==> from <= i && i + pat@.len() <= chars@.len(),
{
    if pat.len() > chars.len() {
        return None;
    }
    let last: usize = chars.len() - pat.len();
    let mut i: usize = from;
    while i <= last
        invariant
            from <= i,
            last + pat@.len() == chars@.len(),
            find_from(chars@, pat@, from as int) == find_from(chars@, pat@, i as int),
        decreases last + 1 - i,
    {
        if stands_at(chars, pat, i) {
            return Some(i);
        }
        if i == last {
            return None;
        }
        i = i + 1;
    }
    None
}

/// The lines of `s`: they end at line feeds, which are left out together with
/// a carriage return directly in front.
pub fn lines(s: &str) -> (r: Vec<String>)
    ensures
        texts(r@) == lines_of(s@),
{
    let chars = chars_of(s);
    let mut newline: Vec<char> = Vec::new();
    newline.push('\n');
    assert(newline@ =~= seq!['\n']);
    let mut r: Vec<String> = Vec::new();
    let mut from: usize = 0;
    assert(texts(r@) + lines_from(s@, 0) =~= lines_of(s@));
    while from < chars.len()
        invariant
            chars@ == s@,
            newline@ == seq!['\n'],
            from <= chars@.len(),
            texts(r@) + lines_from(s@, from as int) == lines_of(s@),
        decreases chars@.len() - from,
    {
        let ghost before = texts(r@);
        let ghost rest = lines_from(s@, from as int);
        match find(&chars, &newline, from) {
            Some(i) => {
                let to: usize = if i > from && chars[i - 1] == '\r' { i - 1 } else { i };
                let line = text_of(&chars, from, to);
                assert(line@ =~= without_cr(s@.subrange(from as int, i as int)));
                r.push(line);
                assert(texts(r@) =~= before.push(line@));
                assert(rest =~= seq![line@] + lines_from(s@, i + 1));
                from = i + 1;
                assert(texts(r@) + lines_from(s@, from as int) =~= before + rest);
            },
            None => {
                let line = text_of(&chars, from, chars.len());
                r.push(line);
                assert(texts(r@) =~= before.push(line@));
                assert(rest =~= seq![line@]);
                from = chars.len();
                assert(texts(r@) + lines_from(s@, from as int) =~= before + rest);
            },
        }
    }
    assert(texts(r@) =~= lines_of(s@));
    r
}

/// The parts with `sep` between each two of them.
pub fn join(parts: &Vec<String>, sep: &str) -> (r: String)
    ensures
        r@ == joined(texts(parts@), sep@),
{
    let mut r = String::new();
    let mut i: usize = 0;
    while i < parts.len()
        invariant
            i <= parts@.len(),
            r@ == joined(texts(parts@).take(i as int), sep@),
        decreases parts@.len() - i,
    {
        if i > 0 {
            r.append(sep);
        }
        r.append(parts[i].as_str());
        let ghost so_far = texts(parts@).take(i + 1);
        assert(so_far.drop_last() =~= texts(parts@).take(i as int));
        i = i + 1;
    }
    assert(texts(parts@).take(i as int) =~= texts(parts@));
    r
}

/// Appends `c` to `s`, `n` times.
pub fn push_repeated(s: &mut String, c: char, n: usize)
    ensures
        final(s)@ == old(s)@ + repeated(c, n as nat),
{
    let mut i: usize = 0;
    let ghost start = s@;
    assert(s@ =~= start + repeated(c, 0));
    while i < n
        invariant
            i <= n,
            s@ == start + repeated(c, i as nat),
        decreases n - i,
    {
        s.push(c);
        i = i + 1;
        assert(s@ =~= start + repeated(c, i as nat));
    }
}

/// Three texts, one behind the other.
pub fn concat3(a: &str, b: &str, c: &str) -> (r: String)
    ensures
        r@ == a@ + b@ + c@,
{
    let mut r = a.to_string();
    r.append(b);
    r.append(c);
    r
}

/// Whether two texts are the same.
pub fn same_text(a: &str, b: &str) -> (r: bool)
    ensures
        r == (a@ == b@),
{
    a.to_string() == b.to_string()
}

/// The lines of a text begin with what stands in front of its first line feed,
/// without a carriage return directly in front of that, and go on with the
/// lines of what stands behind it. A text without a line feed is its only line,
/// carriage returns included, and an empty text has none.
pub proof fn law_lines_split_at_the_first_line_feed(first: Seq<char>, rest: Seq<char>)
    requires
        forall|i: int| 0 <= i < first.len() ==> #[trigger] first[i] != '\n',
    ensures
        lines_of(first) == if first.len() == 0 {
            Seq::<Seq<char>>::empty()
        } else {
            seq![first]
        },
        lines_of(first.push('\n') + rest) == seq![
            if first.len() > 0 && first[first.len() - 1] == '\r' {
                first.subrange(0, first.len() - 1)
            } else {
                first
            },
        ] + lines_of(rest),
{
    let newline = seq!['\n'];
    law_find_from_is_first(first, newline, 0);
    if let Some(i) = find_from(first, newline, 0) {
        assert(first.subrange(i, i + 1)[0] == first[i]);
    }
    assert(first.subrange(0, first.len() as int) =~= first);
    let all = first.push('\n') + rest;
    let end = first.len() as int;
    assert(all.subrange(end, end + 1) =~= newline);
    assert forall|k: int| 0 <= k < end implies !#[trigger] matches_at(all, newline, k) by {
        assert(all.subrange(k, k + 1)[0] == first[k]);
    }
    lemma_find_from_at(all, newline, 0, end);
    assert(all.subrange(0, end) =~= first);
    assert(first.len() > 0 ==> first.drop_last() =~= first.subrange(0, first.len() - 1));
    lemma_lines_behind(first.push('\n'), rest, 0);
}

/// What stands in front of a text does not change what is found in it.
proof fn lemma_find_behind(head: Seq<char>, s: Seq<char>, pat: Seq<char>, from: int)
    requires
        0 <= from,
    ensures
        find_from(head + s, pat, head.len() + from) == match find_from(s, pat, from) {
            Some(i) => Some(head.len() + i),
            None => None,
        },
    decreases s.len() - from + 1,
{
    if from + pat.len() <= s.len() {
        assert((head + s).subrange(head.len() + from, head.len() + from + pat.len())
            =~= s.subrange(from, from + pat.len()));
        if !matches_at(s, pat, from) {
            lemma_find_behind(head, s, pat, from + 1);
        }
    }
}

/// What stands in front of a text does not change its lines.
proof fn lemma_lines_behind(head: Seq<char>, s: Seq<char>, from: int)
    requires
        0 <= from,
    ensures
        lines_from(head + s, head.len() + from) == lines_from(s, from),
    decreases s.len() - from,
{
    if from < s.len() {
        let newline = seq!['\n'];
        lemma_find_behind(head, s, newline, from);
        law_find_from_is_first(s, newline, from);
        match find_from(s, newline, from) {
            Some(i) => {
                assert((head + s).subrange(head.len() + from, head.len() + i) =~= s.subrange(
                    from,
                    i,
                ));
                lemma_lines_behind(head, s, i + 1);
            },
            None => {
                assert((head + s).subrange(head.len() + from, (head + s).len() as int)
                    =~= s.subrange(from, s.len() as int));
            },
        }
    }
}

/// No parts make an empty text, one part stands alone, and each further part
/// comes behind one more separator.
pub proof fn law_joining_puts_one_separator_before_each_further_part(
    parts: Seq<Seq<char>>,
    part: Seq<char>,
    sep: Seq<char>,
)
    ensures
        joined(Seq::empty(), sep).len() == 0,
        joined(seq![part], sep) == part,
        parts.len() > 0 ==> joined(parts.push(part), sep) == joined(parts, sep) + sep + part,
{
    assert(parts.push(part).drop_last() =~= parts);
}

/// What is said about strings leaves nothing out: each text stands where it
/// stands.
pub proof fn law_views_of_strings_are_faithful(strings: Seq<String>)
    ensures
        texts(strings).len() == strings.len(),
        forall|i: int| 0 <= i < strings.len() ==> #[trigger] texts(strings)[i] == strings[i]@,
{
}

} // verus!
