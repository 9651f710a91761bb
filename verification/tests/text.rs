use nikos_discord_bot::format::{artists_line, escape_text, fastfetch_message, format_tags_with_ansi, join_strings};
use nikos_discord_bot::types::TagInfo;

fn strings(v: &[&str]) -> Vec<String> {
    v.iter().map(|s| s.to_string()).collect()
}

#[test]
fn join_of_nothing_is_empty() {
    assert_eq!(join_strings(&vec![], ", "), "");
}

#[test]
fn join_of_one_word_is_the_word() {
    assert_eq!(join_strings(&strings(&["solo"]), ", "), "solo");
}

#[test]
fn join_puts_separator_between_words() {
    assert_eq!(join_strings(&strings(&["a", "bb", "c"]), ", "), "a, bb, c");
    assert_eq!(join_strings(&strings(&["a", "", "c"]), " "), "a  c");
}

#[test]
fn tags_of_empty_post_are_empty_block() {
    assert_eq!(format_tags_with_ansi(&TagInfo::empty()), "```ansi\n```");
}

#[test]
fn tags_are_coloured_by_group() {
    let t = TagInfo {
        general: strings(&["smile", "hat"]),
        meta: strings(&["highres"]),
        artists: strings(&["someone"]),
        characters: strings(&["kasane_teto"]),
        copyrights: strings(&["utau"]),
    };
    let expected = "```ansi\n\x1b[34msmile hat\x1b[0m \x1b[33mhighres\x1b[0m \x1b[31msomeone\x1b[0m \x1b[32mkasane_teto\x1b[0m \x1b[35mutau\x1b[0m ```";
    assert_eq!(format_tags_with_ansi(&t), expected);
}

#[test]
fn empty_tag_groups_are_left_out() {
    let t = TagInfo {
        general: vec![],
        meta: vec![],
        artists: vec![],
        characters: strings(&["adachi_rei"]),
        copyrights: vec![],
    };
    assert_eq!(format_tags_with_ansi(&t), "```ansi\n\x1b[32madachi_rei\x1b[0m ```");
}

#[test]
fn artists_line_joins_with_commas() {
    assert_eq!(artists_line(&strings(&["a", "b"])), "a, b");
}

#[test]
fn artists_line_without_artists() {
    assert_eq!(artists_line(&vec![]), "[no artist tags]");
}

#[test]
fn escape_puts_backslash_before_backticks() {
    assert_eq!(escape_text("a`b``c"), "a\\`b\\`\\`c");
    assert_eq!(escape_text("plain"), "plain");
    assert_eq!(escape_text(""), "");
    assert_eq!(escape_text("ü`ß"), "ü\\`ß");
}

#[test]
fn escaped_backticks_are_all_preceded_by_backslash() {
    let e: Vec<char> = escape_text("``x`y`").chars().collect();
    for (i, c) in e.iter().enumerate() {
        if *c == '`' {
            assert!(i > 0 && e[i - 1] == '\\');
        }
    }
}

#[test]
fn fastfetch_output_in_code_block() {
    assert_eq!(fastfetch_message(b"OS: Linux `x`"), "```ansi\nOS: Linux \\`x\\`\n```");
    assert_eq!(fastfetch_message(b""), "```ansi\n\n```");
}

#[test]
fn fastfetch_output_with_invalid_utf8_is_replaced() {
    assert_eq!(fastfetch_message(&[b'a', 0xff, b'b']), "```ansi\na\u{fffd}b\n```");
}
