use codex_wt::slug::{sanitize_slug, slug_from_lowered};
use codex_wt::untracked::{safe_relative_path, untracked_relative_paths};
use codex_wt::worktrees::parse_worktree_porcelain;

#[test]
fn sanitizes_slugs_for_paths() {
    assert_eq!(sanitize_slug("EP-623 Public API!!"), "ep-623-public-api");
    assert_eq!(sanitize_slug("___"), "worktree");
    assert_eq!(sanitize_slug("Already_ok"), "already-ok");
}

#[test]
fn rejects_unsafe_relative_paths() {
    assert!(safe_relative_path("../secret").is_err());
    assert!(safe_relative_path("/tmp/secret").is_err());
    assert_eq!(
        safe_relative_path("docs/readme.md").unwrap(),
        "docs/readme.md"
    );
}

#[test]
fn parses_porcelain_worktree_output() {
    let entries = parse_worktree_porcelain(
        "worktree /repo\nHEAD abc\nbranch refs/heads/main\n\nworktree /wt\nHEAD def\ndetached\nprunable stale\n",
    );
    assert_eq!(entries.len(), 2);
    assert_eq!(entries[0].branch.as_deref(), Some("main"));
    assert!(entries[1].detached);
    assert!(entries[1].prunable);
}

#[test]
fn slug_is_clipped_to_48_characters_without_trailing_dash() {
    let long = "a".repeat(47) + " b";
    assert_eq!(sanitize_slug(&long), "a".repeat(47));
    let exact = "b".repeat(60);
    assert_eq!(sanitize_slug(&exact), "b".repeat(48));
}

#[test]
fn slug_drops_leading_separators_and_lowercases() {
    assert_eq!(sanitize_slug("  --Hello__World--  "), "hello-world");
    assert_eq!(sanitize_slug(""), "worktree");
    assert_eq!(sanitize_slug("é"), "worktree");
    assert_eq!(sanitize_slug("ÀB"), "b");
}

#[test]
fn slug_of_slug_is_unchanged() {
    for raw in ["EP-623 Public API!!", "a--b", "x_y_z", "Mixed CASE 42"] {
        let once = sanitize_slug(raw);
        assert_eq!(sanitize_slug(&once), once);
    }
}

#[test]
fn relative_paths_are_cleaned() {
    assert_eq!(safe_relative_path("a//b/./c/").unwrap(), "a/b/c");
    assert!(safe_relative_path("./a").is_err());
    assert!(safe_relative_path(".").is_err());
    assert!(safe_relative_path("a/../b").is_err());
    assert_eq!(safe_relative_path("a/.b").unwrap(), "a/.b");
    assert_eq!(
        safe_relative_path("/tmp/secret").unwrap_err().message(),
        "refusing absolute untracked path: /tmp/secret"
    );
    assert_eq!(
        safe_relative_path("../secret").unwrap_err().message(),
        "refusing unsafe untracked path: ../secret"
    );
}

#[test]
fn untracked_report_is_split_on_nul() {
    let out = b"notes/untracked.txt\0a b\0\0".to_vec();
    let paths = untracked_relative_paths(&out).unwrap();
    assert_eq!(paths, vec!["notes/untracked.txt".to_string(), "a b".to_string()]);
    let empty = untracked_relative_paths(&Vec::new()).unwrap();
    assert!(empty.is_empty());
}

#[test]
fn untracked_report_refuses_bad_entries() {
    let bad = vec![b'o', b'k', 0, 0xff, 0xfe, 0];
    let err = untracked_relative_paths(&bad).unwrap_err();
    assert!(err.message().starts_with("untracked path is not UTF-8: "));
    let escape = b"ok\0../up\0".to_vec();
    assert_eq!(
        untracked_relative_paths(&escape).unwrap_err().message(),
        "refusing unsafe untracked path: ../up"
    );
}

#[test]
fn porcelain_reads_every_attribute() {
    let entries = parse_worktree_porcelain(
        "worktree /bare\nbare\n\nworktree /x\r\nHEAD 123\r\nbranch refs/heads/refs/heads/topic\nprunable\n\nHEAD ignored\nworktree /y",
    );
    assert_eq!(entries.len(), 3);
    assert!(entries[0].bare);
    assert_eq!(entries[1].path, "/x");
    assert_eq!(entries[1].head.as_deref(), Some("123"));
    assert_eq!(entries[1].branch.as_deref(), Some("topic"));
    assert!(entries[1].prunable);
    assert_eq!(entries[1].prunable_reason, None);
    assert_eq!(entries[2].path, "/y");
    assert_eq!(entries[2].head, None);
}

#[test]
fn porcelain_of_nothing_is_empty() {
    assert!(parse_worktree_porcelain("").is_empty());
    assert!(parse_worktree_porcelain("HEAD abc\n\n").is_empty());
}

#[test]
fn porcelain_has_one_entry_per_worktree_line_in_order() {
    let entries = parse_worktree_porcelain(
        "worktree /a\nworktree /b\nHEAD 1\n\n\nHEAD stray\nworktree /c\ndetached\n",
    );
    let paths: Vec<&str> = entries.iter().map(|e| e.path.as_str()).collect();
    assert_eq!(paths, vec!["/a", "/b", "/c"]);
    assert_eq!(entries[0].head, None);
    assert_eq!(entries[1].head.as_deref(), Some("1"));
    assert!(entries[2].detached);
}

#[test]
fn slug_of_lowered_text_keeps_ascii_letters_and_digits() {
    let low: Vec<char> = "ä-bc  déf--9".chars().collect();
    assert_eq!(slug_from_lowered(&low), "bc-d-f-9");
    let none: Vec<char> = "ß-ü".chars().collect();
    assert_eq!(slug_from_lowered(&none), "worktree");
}

#[test]
fn slug_lowercases_beyond_ascii() {
    assert_eq!(sanitize_slug("ÄRGER Über"), "rger-ber");
    assert_eq!(sanitize_slug("\u{212A}elvin"), "kelvin");
}

#[test]
fn trim_drops_unicode_white_space_only() {
    assert_eq!(codex_wt::text::trim("\u{3000}\u{a0} x y\u{2009}\u{85}\r\n"), "x y");
    assert_eq!(codex_wt::text::trim("\u{200b}x\u{180e}"), "\u{200b}x\u{180e}");
    for c in ['\t', '\n', '\u{b}', '\u{c}', '\r', ' ', '\u{85}', '\u{a0}', '\u{1680}', '\u{2000}',
        '\u{200a}', '\u{2028}', '\u{2029}', '\u{202f}', '\u{205f}', '\u{3000}'] {
        assert!(codex_wt::text::is_whitespace(c));
        assert!(c.is_whitespace());
    }
    for u in 0u32..0x3100 {
        if let Some(c) = char::from_u32(u) {
            assert_eq!(codex_wt::text::is_whitespace(c), c.is_whitespace(), "U+{u:04X}");
        }
    }
}
