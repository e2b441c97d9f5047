use deezer_tui::web_login::{
    classify_pasted_line, desktop_entry, handler_script, parse_arl, removal_entry_added, PastedLine, MIME_TYPE,
};

const ARL: &str = "eec5474088bcafa3e16be4492de9abf53472bda2d15527838cd685384c7c82b7daa0f5d745b9cd6756dfe83d65aaa8d6fd91aba6798c714c16a7dfbbe1235730ca72e7f3db0f58c8d9d1f84c29c2236a8ceaae6e639b275ac438379891e998f4";

#[test]
fn test_parse_arl_full_url() {
    let input = "deezer://autolog/eec5474088bcafa3e16be4492de9abf53472bda2d15527838cd685384c7c82b7daa0f5d745b9cd6756dfe83d65aaa8d6fd91aba6798c714c16a7dfbbe1235730ca72e7f3db0f58c8d9d1f84c29c2236a8ceaae6e639b275ac438379891e998f4";
    let arl = parse_arl(input).unwrap();
    assert_eq!(arl.len(), 192);
    assert!(arl.starts_with("eec547"));
}

#[test]
fn test_parse_arl_raw() {
    let input = "eec5474088bcafa3e16be4492de9abf53472bda2d15527838cd685384c7c82b7daa0f5d745b9cd6756dfe83d65aaa8d6fd91aba6798c714c16a7dfbbe1235730ca72e7f3db0f58c8d9d1f84c29c2236a8ceaae6e639b275ac438379891e998f4";
    let arl = parse_arl(input).unwrap();
    assert_eq!(arl.len(), 192);
}

#[test]
fn test_parse_arl_with_newline() {
    let input = "eec5474088bcafa3e16be4492de9abf53472bda2d15527838cd685384c7c82b7daa0f5d745b9cd6756dfe83d65aaa8d6fd91aba6798c714c16a7dfbbe1235730ca72e7f3db0f58c8d9d1f84c29c2236a8ceaae6e639b275ac438379891e998f4\n";
    let arl = parse_arl(input).unwrap();
    assert_eq!(arl.len(), 192);
}

#[test]
fn test_parse_arl_autolog_prefix() {
    let input = "autolog/eec5474088bcafa3e16be4492de9abf53472bda2d15527838cd685384c7c82b7daa0f5d745b9cd6756dfe83d65aaa8d6fd91aba6798c714c16a7dfbbe1235730ca72e7f3db0f58c8d9d1f84c29c2236a8ceaae6e639b275ac438379891e998f4";
    let arl = parse_arl(input).unwrap();
    assert_eq!(arl.len(), 192);
}

#[test]
fn test_parse_arl_invalid() {
    assert!(parse_arl("").is_none());
    assert!(parse_arl("too-short").is_none());
    assert!(parse_arl("not_hex_at_all_zzzzzzzzzzzzzzzzzzzzzzzzzzzzzzzzzzzzzzzzzzzzzzzzzzzzzzzzzzzzzzzzzzzzzzzzzzzzzzzzzzzzzzzzzzzzzzzzzzzzzzzzzzzzzzzzzzzzzzzzzzzzzzzzzzzzzzzzzzzzzzzzzzzzzzzzzzzzzzzzzzzzzzzzzzzzzzzzzzzzzzzz").is_none());
}

#[test]
fn arl_edges_of_length_and_space() {
    assert_eq!(parse_arl(&"a".repeat(128)), Some("a".repeat(128)));
    assert_eq!(parse_arl(&"a".repeat(127)), None);
    let padded = format!("  deezer://autolog/  {}  \n", ARL);
    assert_eq!(parse_arl(&padded).as_deref(), Some(ARL));
    let mixed_case = "ABCDEF0123456789".repeat(8);
    assert_eq!(parse_arl(&mixed_case), Some(mixed_case.clone()));
}

#[test]
fn pasted_lines_cancel_take_or_reject() {
    assert_eq!(classify_pasted_line("   "), PastedLine::Cancel);
    assert_eq!(classify_pasted_line(""), PastedLine::Cancel);
    assert_eq!(classify_pasted_line("nope"), PastedLine::Invalid);
    match classify_pasted_line(&format!("autolog/{ARL}")) {
        PastedLine::Token(t) => assert_eq!(t, ARL),
        other => panic!("unexpected {other:?}"),
    }
}

#[test]
fn removal_goes_into_an_existing_section() {
    let content = "[Default Applications]\ntext/html=firefox.desktop\n[Removed Associations]\nimage/png=gimp.desktop\n";
    let out = removal_entry_added(content, "deezer.desktop").unwrap();
    assert_eq!(
        out,
        "[Default Applications]\ntext/html=firefox.desktop\n[Removed Associations]\nx-scheme-handler/deezer=deezer.desktop\nimage/png=gimp.desktop\n"
    );
}

#[test]
fn removal_already_present_changes_nothing() {
    let content = "[Removed Associations]\nx-scheme-handler/deezer=deezer.desktop\n";
    assert_eq!(removal_entry_added(content, "deezer.desktop"), None);
}

#[test]
fn removal_adds_a_section_when_missing() {
    let out = removal_entry_added("[Default Applications]\na=b", "old.desktop").unwrap();
    assert_eq!(out, "[Default Applications]\na=b\n\n[Removed Associations]\nx-scheme-handler/deezer=old.desktop\n");
    let out = removal_entry_added("", "old.desktop").unwrap();
    assert_eq!(out, "\n[Removed Associations]\nx-scheme-handler/deezer=old.desktop\n");
}

#[test]
fn removal_header_at_end_of_file() {
    let out = removal_entry_added("x=y\n[Removed Associations]", "h").unwrap();
    assert_eq!(out, "x=y\n[Removed Associations]x-scheme-handler/deezer=h\n");
}

#[test]
fn handler_files_name_their_paths() {
    assert_eq!(
        handler_script("/tmp/auth"),
        "#!/bin/sh\nARL=\"${1#deezer://autolog/}\"\necho \"$ARL\" > '/tmp/auth'\n"
    );
    let entry = desktop_entry("/home/u/.local/bin/h.sh");
    assert!(entry.starts_with("[Desktop Entry]\nType=Application\nName=Deezer TUI Auth\nExec=/home/u/.local/bin/h.sh %u\n"));
    assert!(entry.contains(&format!("MimeType={MIME_TYPE};\n")));
    assert!(entry.ends_with("NoDisplay=true\nTerminal=false\n"));
}
