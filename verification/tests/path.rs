use nsh::completion::cmd_completion;
use nsh::completion::path_completion;
use nsh::completion::scan_directory;
use nsh::completion::Generated;
use nsh::context::InputContext;
use std::sync::Arc;

fn named(names: &[&str]) -> Vec<Arc<String>> {
    names.iter().map(|name| Arc::new(name.to_string())).collect()
}

fn on_word(word: &str) -> InputContext {
    InputContext::new(Some(Arc::new(word.to_string())), 0, word.len())
}

fn no_word() -> InputContext {
    InputContext::new(None, 0, 0)
}

fn listing(paths: &[&str]) -> Option<Vec<Option<String>>> {
    Some(paths.iter().map(|path| Some(path.to_string())).collect())
}

fn ready(generated: Generated) -> Vec<Arc<String>> {
    match generated {
        Generated::Ready(entries) => entries,
        Generated::Rank { .. } => panic!("the scan failed"),
    }
}

fn to_rank(generated: Generated) -> (Vec<Arc<String>>, String) {
    match generated {
        Generated::Rank { entries, query } => (entries, query),
        Generated::Ready(_) => panic!("the scan gave a listing"),
    }
}

#[test]
fn scan_directory_without_separator_is_the_current_directory() {
    assert_eq!(scan_directory(&no_word()), Some(".".to_string()));
    assert_eq!(scan_directory(&on_word("")), Some(".".to_string()));
    assert_eq!(scan_directory(&on_word("Docum")), Some(".".to_string()));
}

#[test]
fn scan_directory_of_a_directory_is_that_directory() {
    assert_eq!(scan_directory(&on_word("src/")), Some("src/".to_string()));
    assert_eq!(scan_directory(&on_word("/")), Some("/".to_string()));
    assert_eq!(scan_directory(&on_word("/usr/local/")), Some("/usr/local/".to_string()));
}

#[test]
fn scan_directory_of_a_started_name_is_its_parent() {
    assert_eq!(scan_directory(&on_word("/Users/chandler/Docum")), Some("/Users/chandler".to_string()));
    assert_eq!(scan_directory(&on_word("src/ma")), Some("src".to_string()));
    assert_eq!(scan_directory(&on_word("/etc")), Some("/".to_string()));
    assert_eq!(scan_directory(&on_word("./fo")), Some(".".to_string()));
    assert_eq!(scan_directory(&on_word("../fo")), Some("..".to_string()));
}

#[test]
fn scan_directory_without_a_parent_is_nothing() {
    assert_eq!(scan_directory(&on_word("/.")), None);
}

#[test]
fn path_completion_of_a_failed_scan_is_empty() {
    assert_eq!(ready(path_completion(&no_word(), None)), named(&[]));
    assert_eq!(ready(path_completion(&on_word("/root/secret/x"), None)), named(&[]));
    assert_eq!(ready(path_completion(&on_word(""), None)), named(&[]));
}

#[test]
fn path_completion_strips_the_current_directory() {
    let (entries, query) = to_rank(path_completion(&on_word("fo"), listing(&["./foo.txt"])));
    assert_eq!(entries, named(&["foo.txt"]));
    assert_eq!(query, "fo");
}

#[test]
fn path_completion_strips_only_a_leading_prefix() {
    let (entries, _) = to_rank(path_completion(
        &no_word(),
        listing(&["./a/./b", "src/./main.rs", "../up", ".hidden", "./", ".", "/abs", "././x", ""]),
    ));
    assert_eq!(entries, named(&["a/./b", "src/./main.rs", "../up", ".hidden", "", ".", "/abs", "./x", ""]));
}

#[test]
fn path_completion_keeps_the_listing_order() {
    let (entries, _) = to_rank(path_completion(&no_word(), listing(&["./b", "./a", "./c", "./a"])));
    assert_eq!(entries, named(&["b", "a", "c", "a"]));
}

#[test]
fn path_completion_leaves_out_unreadable_entries() {
    let listed = vec![None, Some("./a".to_string()), None, None, Some("./b".to_string())];
    let (entries, _) = to_rank(path_completion(&no_word(), Some(listed)));
    assert_eq!(entries, named(&["a", "b"]));
    let (entries, _) = to_rank(path_completion(&no_word(), Some(vec![None])));
    assert_eq!(entries, named(&[]));
}

#[test]
fn path_completion_ranks_by_the_current_word() {
    let (entries, query) = to_rank(path_completion(&on_word("src/ma"), listing(&["src/main.rs", "src/lib.rs"])));
    assert_eq!(entries, named(&["src/main.rs", "src/lib.rs"]));
    assert_eq!(query, "src/ma");

    let (entries, query) = to_rank(path_completion(&on_word(""), listing(&[])));
    assert_eq!(entries, named(&[]));
    assert_eq!(query, "");
}

#[test]
fn path_completion_without_a_word_ranks_by_the_empty_query() {
    let (entries, query) = to_rank(path_completion(&no_word(), listing(&["./Cargo.toml", "./src"])));
    assert_eq!(entries, named(&["Cargo.toml", "src"]));
    assert_eq!(query, "");
}

#[test]
fn cmd_completion_looks_up_the_current_word() {
    assert_eq!(*cmd_completion(&on_word("gi")).prefix, "gi");
    assert_eq!(*cmd_completion(&on_word("")).prefix, "");
    assert_eq!(*cmd_completion(&no_word()).prefix, "");
}

#[test]
fn cmd_completion_shares_the_current_word() {
    let word = Arc::new("gi".to_string());
    let ctx = InputContext::new(Some(word.clone()), 0, 2);
    assert!(Arc::ptr_eq(&cmd_completion(&ctx).prefix, &word));
}

#[test]
fn current_word_is_the_shared_text() {
    let word = Arc::new("gi".to_string());
    let ctx = InputContext::new(Some(word.clone()), 3, 2);
    assert!(Arc::ptr_eq(&ctx.current_word().unwrap(), &word));
    assert_eq!(ctx.current_word_offset, 3);
    assert_eq!(ctx.current_word_len, 2);
    assert_eq!(no_word().current_word(), None);
}

#[test]
fn cmd_completion_returns_what_the_lookup_gave() {
    let found = cmd_completion(&on_word("gi")).resolve(|prefix| {
        assert_eq!(*prefix, "gi");
        named(&["git", "gimp", "git"])
    });
    assert_eq!(found, named(&["git", "gimp", "git"]));

    let all = cmd_completion(&no_word()).resolve(|prefix| {
        assert_eq!(*prefix, "");
        named(&[])
    });
    assert_eq!(all, named(&[]));
}

#[test]
fn path_completion_returns_what_the_ranking_gave() {
    let out = path_completion(&on_word("./s"), listing(&["./src", "./tests", "./spec"])).resolve(|entries, query| {
        assert_eq!(entries, named(&["src", "tests", "spec"]));
        assert_eq!(query, "./s");
        named(&["spec", "src"])
    });
    assert_eq!(out, named(&["spec", "src"]));

    let failed = path_completion(&on_word("./s"), None).resolve(|_, _| panic!("nothing to rank"));
    assert_eq!(failed, named(&[]));
}
