use std::path::Path;
use zeroshot::guidance::{runtime_guidance, NodeResponseContract};
use zeroshot::text::{
    byte_length, concatenate, flatten, is_blank, is_control, is_white_space, join, same_text,
};

#[test]
fn character_classes_are_those_of_unicode() {
    for c in '\0'..=char::MAX {
        assert_eq!(is_control(c), c.is_control(), "{:?}", c);
        assert_eq!(is_white_space(c), c.is_whitespace(), "{:?}", c);
    }
}

#[test]
fn blank_texts_are_those_that_trim_to_nothing() {
    for text in ["", " ", "\t\r\n", "\u{3000}\u{2028}", "a", " a ", "\u{200b}", "\u{85}"] {
        assert_eq!(is_blank(text), text.trim().is_empty(), "{:?}", text);
    }
}

#[test]
fn flattening_keeps_tabs_and_drops_other_controls() {
    assert_eq!(flatten("a\tb\rc\u{7f}d\u{9f}e\u{0}"), "a\tb c d e ");
    assert_eq!(flatten("\u{1b}[31mred\u{1b}[0m"), " [31mred [0m");
    assert_eq!(flatten("gr\u{fc}n \u{1f600}"), "gr\u{fc}n \u{1f600}");
    assert_eq!(flatten(""), "");
}

#[test]
fn flattened_text_holds_no_line_break() {
    let flat = flatten("one\ntwo\r\nthree\u{85}four");
    assert_eq!(flat, "one two  three four");
    assert!(flat.chars().all(|c| !c.is_control()));
}

#[test]
fn texts_are_joined_measured_and_told_apart() {
    assert_eq!(concatenate("a", "\u{fc}", "c"), "a\u{fc}c");
    assert_eq!(byte_length("a\u{fc}\u{1f600}"), 7);
    assert!(same_text("force_stopped", "force_stopped"));
    assert!(!same_text("force_stopped", "force_stoppe"));
}

#[test]
fn paths_join_as_the_standard_library_joins_them() {
    for base in ["", "/", "/run", "/run/", "relative", "a//", "."] {
        for component in ["tools", "bin", "setup-home"] {
            let joined = join(base.as_bytes(), component);
            let expected = Path::new(base).join(component);
            assert_eq!(joined, expected.to_str().unwrap().as_bytes(), "{:?}", base);
        }
    }
}

#[test]
fn verifiers_are_told_to_leave_the_checkout_alone() {
    assert_eq!(
        runtime_guidance(&NodeResponseContract::Verifier),
        "Runtime-owned verifier guidance:\nVerify the prepared shared checkout. Do not modify \
         reviewed material or implement repairs. Run checks and create artifacts. Do not run setup \
         or dependency-install commands that rewrite the checkout; other nodes may run \
         concurrently. A missing declared dependency is an environment blocker: report the missing \
         dependency and command evidence; do not request unrelated code repairs.\n"
    );
}

#[test]
fn workers_are_told_to_set_the_workspace_up() {
    assert_eq!(
        runtime_guidance(&NodeResponseContract::Worker),
        "Runtime-owned workspace setup guidance:\nBefore returning, follow repository setup and \
         install manifest/lockfile dependencies in the checkout; do not use an ad hoc unpinned \
         list. Wait for setup to finish and check exit status. Leave ignored dependencies there. \
         Put standalone tools under an executable user path: use `$ZEROSHOT_TOOLS/bin` when \
         provided (shared by all nodes), otherwise `$HOME/.local/bin`. Do not install tools in \
         `/tmp` (possibly `noexec`).\n"
    );
}
