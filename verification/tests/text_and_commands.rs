use shokodex::powershell::{
    combine_output, command_output, extract_powershell_block, powershell_invocation,
};
use shokodex::text::{chars_of, find, join, lines, text_of};

fn strings(parts: &[&str]) -> Vec<String> {
    parts.iter().map(|part| part.to_string()).collect()
}

#[test]
fn find_gives_the_first_match_from_a_position() {
    let chars = chars_of("a·b·b");
    let pat = chars_of("·b");
    assert_eq!(find(&chars, &pat, 0), Some(1));
    assert_eq!(find(&chars, &pat, 2), Some(3));
    assert_eq!(find(&chars, &pat, 4), None);
    assert_eq!(find(&chars, &pat, 99), None);
    assert_eq!(find(&pat, &chars, 0), None);
    assert_eq!(find(&chars, &Vec::new(), 5), Some(5));
    assert_eq!(find(&chars, &Vec::new(), 6), None);
}

#[test]
fn text_of_spells_a_range() {
    let chars = chars_of("añb");
    assert_eq!(text_of(&chars, 1, 3), "ñb");
    assert_eq!(text_of(&chars, 2, 2), "");
}

#[test]
fn lines_are_those_of_std() {
    for text in [
        "", "\n", "a", "a\n", "a\nb", "a\r\nb\r\n", "a\r", "\r\n", "a\n\nb", "a\rb\n", "\r\r\n", "é\nü",
    ] {
        let expected: Vec<String> = text.lines().map(|line| line.to_string()).collect();
        assert_eq!(lines(text), expected, "{:?}", text);
    }
    assert_eq!(lines("one\r\ntwo\r"), strings(&["one", "two\r"]));
}

#[test]
fn join_puts_separators_between() {
    assert_eq!(join(&strings(&[]), " "), "");
    assert_eq!(join(&strings(&["a"]), " "), "a");
    assert_eq!(join(&strings(&["a", "", "b c"]), " "), "a  b c");
}

#[test]
fn block_is_extracted_without_white_space_round_it() {
    let reply = "Here you go:\n```powershell\nGet-ChildItem\n```\nDone.";
    assert_eq!(extract_powershell_block(reply), Some("Get-ChildItem".to_string()));
}

#[test]
fn block_may_span_lines_and_hold_any_text() {
    let reply = "```powershell\n  Write-Output 'né'\r\n  dir `\n```";
    assert_eq!(
        extract_powershell_block(reply),
        Some("Write-Output 'né'\r\n  dir `".to_string())
    );
}

#[test]
fn first_block_counts() {
    let reply = "```powershell\na\n```\n```powershell\nb\n```";
    assert_eq!(extract_powershell_block(reply), Some("a".to_string()));
}

#[test]
fn other_fences_before_the_block_do_not_matter() {
    let reply = "```bash\nls\n```\n```powershell\nls\n```";
    assert_eq!(extract_powershell_block(reply), Some("ls".to_string()));
}

#[test]
fn no_block_without_both_fences() {
    assert_eq!(extract_powershell_block(""), None);
    assert_eq!(extract_powershell_block("no command"), None);
    assert_eq!(extract_powershell_block("```powershell\nls"), None);
    assert_eq!(extract_powershell_block("```PowerShell\nls\n```"), None);
}

#[test]
fn empty_block_is_an_empty_command() {
    assert_eq!(extract_powershell_block("```powershell```"), Some(String::new()));
    assert_eq!(extract_powershell_block("```powershell \n\t ```"), Some(String::new()));
}

#[test]
fn fence_directly_behind_the_tag_closes_it() {
    assert_eq!(
        extract_powershell_block("```powershell```powershell\nx\n```"),
        Some(String::new())
    );
}

#[test]
fn trimming_takes_exactly_the_white_space_characters() {
    let listed = |u: u32| {
        (0x9..=0xd).contains(&u)
            || (0x2000..=0x200a).contains(&u)
            || [0x20, 0x85, 0xa0, 0x1680, 0x2028, 0x2029, 0x202f, 0x205f, 0x3000].contains(&u)
    };
    for u in (0..0x3100).chain([0xfeff, 0x1f600]) {
        if let Some(c) = char::from_u32(u) {
            if c == '`' {
                continue;
            }
            let body = format!("{}x{}", c, c);
            let reply = format!("```powershell{}```", body);
            let expected = if listed(u) { "x".to_string() } else { body };
            assert_eq!(extract_powershell_block(&reply), Some(expected), "{:#x}", u);
        }
    }
}

#[test]
fn command_is_run_by_powershell() {
    assert_eq!(
        powershell_invocation("dir C:\\"),
        strings(&["powershell", "-NoProfile", "-Command", "dir C:\\"])
    );
}

#[test]
fn output_and_errors_are_combined() {
    assert_eq!(combine_output("", ""), "");
    assert_eq!(combine_output("out\n", ""), "out\n");
    assert_eq!(combine_output("", "bad"), "Errors/Stderr:\nbad");
    assert_eq!(combine_output("out", "bad"), "out\nErrors/Stderr:\nbad");
}

#[test]
fn command_output_decodes_bytes() {
    assert_eq!(command_output("né".as_bytes(), b""), "né");
    assert_eq!(command_output(b"", b""), "");
    assert_eq!(command_output(b"a\xffb", b"\xc3"), "a\u{fffd}b\nErrors/Stderr:\n\u{fffd}");
}
