//! Commands in replies, how they are run, and what they print.
use vstd::prelude::*;
use vstd::utf8::{decode_utf8, valid_utf8};

use crate::outside::{from_utf8_lossy, trimmed, trimmed_end, trimmed_start, utf8_lossy, white_space};
use crate::text::{
    chars_of, find, find_from, law_find_from_is_first, lemma_find_from_at, matches_at, text_of,
    texts,
};

verus! {

/// The command that a reply holds: what stands, without the white space round
/// it, between the first opening fence for PowerShell and the next fence.
pub open spec fn powershell_block(content: Seq<char>) -> Option<Seq<char>> {
    match find_from(content, "```powershell"@, 0) {
        Some(open) => {
            let start = open + "```powershell"@.len();
            match find_from(content, "```"@, start) {
                Some(close) => Some(trimmed(content.subrange(start, close))),
                None => None,
            }
        },
        None => None,
    }
}

/// The command that a reply holds, if it holds one.
pub fn extract_powershell_block(content: &str) -> (r: Option<String>)
    ensures
        match r {
            Some(command) => powershell_block(content@) == Some(command@),
            None => powershell_block(content@) is None,
        },
{
    let chars = chars_of(content);
    let start_tag = chars_of("```powershell");
    let end_tag = chars_of("```");
    if let Some(start_idx) = find(&chars, &start_tag, 0) {
        let code_start: usize = start_idx + start_tag.len();
        if let Some(end_idx) = find(&chars, &end_tag, code_start) {
            let block = text_of(&chars, code_start, end_idx);
            return Some(block.as_str().trim().to_string());
        }
    }
    None
}

/// A block is found as it was written: where an opening fence comes first and
/// the text behind it goes on to the next fence, the command is that text
/// without the white space round it, whatever stands before and behind.
pub proof fn law_block_is_found(before: Seq<char>, body: Seq<char>, after: Seq<char>)
    requires
        forall|k: int|
            0 <= k < before.len() ==> !#[trigger] matches_at(
                before + "```powershell"@ + body + "```"@ + after,
                "```powershell"@,
                k,
            ),
        forall|k: int|
            0 <= k < body.len() ==> !#[trigger] matches_at(body + "```"@ + after, "```"@, k),
    ensures
        powershell_block(before + "```powershell"@ + body + "```"@ + after) == Some(trimmed(body)),
{
    let open = "```powershell"@;
    let content = before + open + body + "```"@ + after;
    let start: int = before.len() as int + open.len();
    assert(content.subrange(before.len() as int, start) =~= open);
    lemma_find_from_at(content, open, 0, before.len() as int);
    assert(content =~= (before + open) + (body + "```"@ + after));
    lemma_closing_fence(before + open, body, after);
}

/// Behind a text, the next fence is the one that ends a body in which none
/// starts.
proof fn lemma_closing_fence(head: Seq<char>, body: Seq<char>, after: Seq<char>)
    requires
        forall|k: int|
            0 <= k < body.len() ==> !#[trigger] matches_at(body + "```"@ + after, "```"@, k),
    ensures
        find_from(head + (body + "```"@ + after), "```"@, head.len() as int) == Some(
            head.len() as int + body.len(),
        ),
        (head + (body + "```"@ + after)).subrange(
            head.len() as int,
            head.len() as int + body.len(),
        ) == body,
{
    let close = "```"@;
    let rest = body + close + after;
    let content = head + rest;
    let start = head.len() as int;
    let end: int = start + body.len();
    assert(content.subrange(end, end + close.len()) =~= close);
    assert forall|k: int| start <= k < end implies !#[trigger] matches_at(content, close, k) by {
        if matches_at(content, close, k) {
            assert(rest.subrange(k - start, k - start + close.len()) =~= content.subrange(
                k,
                k + close.len(),
            ));
            assert(matches_at(rest, close, k - start));
        }
    }
    lemma_find_from_at(content, close, start, end);
    assert(content.subrange(start, end) =~= body);
}

/// A reply in which no opening fence for PowerShell stands holds no command.
pub proof fn law_no_fence_no_command(content: Seq<char>)
    requires
        forall|k: int| !#[trigger] matches_at(content, "```powershell"@, k),
    ensures
        powershell_block(content) is None,
{
    law_find_from_is_first(content, "```powershell"@, 0);
}

/// A reply in which the first opening fence for PowerShell is never closed holds
/// no command.
pub proof fn law_an_open_fence_holds_no_command(before: Seq<char>, rest: Seq<char>)
    requires
        forall|k: int|
            0 <= k < before.len() ==> !#[trigger] matches_at(
                before + "```powershell"@ + rest,
                "```powershell"@,
                k,
            ),
        forall|k: int| !#[trigger] matches_at(rest, "```"@, k),
    ensures
        powershell_block(before + "```powershell"@ + rest) is None,
{
    let open = "```powershell"@;
    let close = "```"@;
    let content = before + open + rest;
    let start: int = before.len() as int + open.len();
    assert(content.subrange(before.len() as int, start) =~= open);
    lemma_find_from_at(content, open, 0, before.len() as int);
    law_find_from_is_first(content, close, start);
    if let Some(i) = find_from(content, close, start) {
        assert(rest.subrange(i - start, i - start + close.len()) =~= content.subrange(
            i,
            i + close.len(),
        ));
        assert(matches_at(rest, close, i - start));
    }
}

/// What a command wrote is kept whole: what it wrote to standard output comes
/// first and what it wrote to standard error last, with the heading directly in
/// front of that; only where both are there does a line feed part them, and
/// nothing else is added.
pub proof fn law_both_outputs_are_kept_whole(stdout: Seq<char>, stderr: Seq<char>)
    ensures
        stderr.len() == 0 ==> combined(stdout, stderr) == stdout,
        stderr.len() > 0 ==> ({
            let all = combined(stdout, stderr);
            let heading = "Errors/Stderr:\n"@;
            let gap = if stdout.len() > 0 {
                1int
            } else {
                0int
            };
            &&& all.len() == stdout.len() + gap + heading.len() + stderr.len()
            &&& all.subrange(0, stdout.len() as int) == stdout
            &&& gap == 1 ==> all[stdout.len() as int] == '\n'
            &&& all.subrange(stdout.len() + gap, stdout.len() + gap + heading.len()) == heading
            &&& all.subrange(stdout.len() + gap + heading.len(), all.len() as int) == stderr
        }),
{
    reveal_strlit("\n");
    if stderr.len() > 0 {
        let all = combined(stdout, stderr);
        let heading = "Errors/Stderr:\n"@;
        let gap = if stdout.len() > 0 {
            1int
        } else {
            0int
        };
        assert(all.subrange(0, stdout.len() as int) =~= stdout);
        assert(all.subrange(stdout.len() + gap, stdout.len() + gap + heading.len()) =~= heading);
        assert(all.subrange(stdout.len() + gap + heading.len(), all.len() as int) =~= stderr);
    }
}

/// Trimming cuts a piece out of a text.
proof fn lemma_trimmed_is_a_piece(s: Seq<char>) -> (bounds: (int, int))
    ensures
        0 <= bounds.0 <= bounds.1 <= s.len(),
        trimmed(s) == s.subrange(bounds.0, bounds.1),
{
    let from = lemma_trimmed_start(s);
    let to = lemma_trimmed_end(trimmed_start(s));
    assert(s.skip(from).take(to) =~= s.subrange(from, from + to));
    (from, from + to)
}

proof fn lemma_trimmed_start(s: Seq<char>) -> (from: int)
    ensures
        0 <= from <= s.len(),
        trimmed_start(s) == s.skip(from),
        trimmed_start(s).len() > 0 ==> !white_space(trimmed_start(s).first()),
    decreases s.len(),
{
    if s.len() > 0 && white_space(s.first()) {
        let from = lemma_trimmed_start(s.drop_first());
        assert(s.drop_first().skip(from) =~= s.skip(from + 1));
        from + 1
    } else {
        assert(s.skip(0) =~= s);
        0
    }
}

proof fn lemma_trimmed_end(s: Seq<char>) -> (to: int)
    ensures
        0 <= to <= s.len(),
        trimmed_end(s) == s.take(to),
        trimmed_end(s).len() > 0 ==> !white_space(trimmed_end(s).last()),
    decreases s.len(),
{
    if s.len() > 0 && white_space(s.last()) {
        let to = lemma_trimmed_end(s.drop_last());
        assert(s.drop_last().take(to) =~= s.take(to));
        to
    } else {
        assert(s.take(s.len() as int) =~= s);
        s.len() as int
    }
}

/// A command neither starts nor ends with white space, and no fence stands in
/// it.
pub proof fn law_commands_are_clean(content: Seq<char>)
    ensures
        match powershell_block(content) {
            Some(command) => {
                &&& command.len() > 0 ==> !white_space(command.first()) && !white_space(
                    command.last(),
                )
                &&& forall|k: int| !#[trigger] matches_at(command, "```"@, k)
            },
            None => true,
        },
{
    if let Some(command) = powershell_block(content) {
        let open = "```powershell"@;
        let close = "```"@;
        let start = find_from(content, open, 0)->0 + open.len();
        law_find_from_is_first(content, open, 0);
        law_find_from_is_first(content, close, start);
        let end = find_from(content, close, start)->0;
        let body = content.subrange(start, end);
        let a = lemma_trimmed_start(body);
        let b = lemma_trimmed_end(trimmed_start(body));
        let (from, to) = lemma_trimmed_is_a_piece(body);
        assert forall|k: int| !#[trigger] matches_at(command, close, k) by {
            if matches_at(command, close, k) {
                assert(content.subrange(start + from + k, start + from + k + close.len())
                    =~= command.subrange(k, k + close.len()));
                reveal_strlit("```");
                assert(matches_at(content, close, start + from + k));
            }
        }
    }
}

/// The program that runs a command, followed by its arguments.
pub fn powershell_invocation(command: &str) -> (r: Vec<String>)
    ensures
        texts(r@) == seq!["powershell"@, "-NoProfile"@, "-Command"@, command@],
{
    let mut r: Vec<String> = Vec::new();
    r.push("powershell".to_string());
    r.push("-NoProfile".to_string());
    r.push("-Command".to_string());
    r.push(command.to_string());
    assert(texts(r@) =~= seq!["powershell"@, "-NoProfile"@, "-Command"@, command@]);
    r
}

/// What a command printed, with what it wrote to standard error under a
/// heading behind what it wrote to standard output.
pub open spec fn combined(stdout: Seq<char>, stderr: Seq<char>) -> Seq<char> {
    if stderr.len() == 0 {
        stdout
    } else if stdout.len() == 0 {
        "Errors/Stderr:\n"@ + stderr
    } else {
        stdout + "\n"@ + "Errors/Stderr:\n"@ + stderr
    }
}

/// What a command printed, as one text.
pub fn combine_output(stdout: &str, stderr: &str) -> (r: String)
    ensures
        r@ == combined(stdout@, stderr@),
        r@.len() == 0 <==> stdout@.len() == 0 && stderr@.len() == 0,
{
    let mut r = String::new();
    if !stdout.is_empty() {
        r.append(stdout);
    }
    if !stderr.is_empty() {
        if !stdout.is_empty() {
            r.append("\n");
        }
        r.append("Errors/Stderr:\n");
        r.append(stderr);
    }
    assert(r@ =~= combined(stdout@, stderr@));
    r
}

/// What a command printed, as one text. Bytes that are no text are replaced as
/// `String::from_utf8_lossy` replaces them.
pub fn command_output(stdout: &[u8], stderr: &[u8]) -> (r: String)
    ensures
        r@ == combined(utf8_lossy(stdout@), utf8_lossy(stderr@)),
        valid_utf8(stdout@) && valid_utf8(stderr@) ==> r@ == combined(
            decode_utf8(stdout@),
            decode_utf8(stderr@),
        ),
        r@.len() == 0 <==> stdout@.len() == 0 && stderr@.len() == 0,
{
    let out = from_utf8_lossy(stdout);
    let err = from_utf8_lossy(stderr);
    combine_output(out.as_str(), err.as_str())
}

/// Trimming takes off the white space at both ends, all of it and nothing else.
pub proof fn law_trimming_keeps_what_stands_between(
    left: Seq<char>,
    core: Seq<char>,
    right: Seq<char>,
)
    requires
        forall|i: int| 0 <= i < left.len() ==> white_space(#[trigger] left[i]),
        forall|i: int| 0 <= i < right.len() ==> white_space(#[trigger] right[i]),
        core.len() > 0 ==> !white_space(core.first()) && !white_space(core.last()),
    ensures
        trimmed(left + core + right) == core,
    decreases left.len() + right.len(),
{
    let all = left + core + right;
    if left.len() > 0 {
        assert(all.first() == left[0]);
        assert(all.drop_first() =~= left.drop_first() + core + right);
        law_trimming_keeps_what_stands_between(left.drop_first(), core, right);
    } else if core.len() == 0 {
        if right.len() > 0 {
            assert(all.first() == right[0]);
            assert(all.drop_first() =~= left + core + right.drop_first());
            law_trimming_keeps_what_stands_between(left, core, right.drop_first());
        } else {
            assert(all =~= core);
        }
    } else {
        assert(all.first() == core.first());
        assert(trimmed_start(all) == all);
        if right.len() > 0 {
            let less = left + core + right.drop_last();
            assert(all.last() == right[right.len() - 1]);
            assert(all.drop_last() =~= less);
            assert(less.first() == core.first());
            law_trimming_keeps_what_stands_between(left, core, right.drop_last());
        } else {
            assert(all =~= core);
        }
    }
}

} // verus!
