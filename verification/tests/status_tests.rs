use gitterm::classify::{
    try_checkout, CheckoutError, GitError, GitErrorClass, GitErrorCode, Optional,
};
use gitterm::log::log_entry;
use gitterm::objects::{branch_names, is_signed, short_id, Branch, CommitInfo, Error};
use gitterm::render::{PagedRenderer, Render};
use gitterm::status::{
    find_state, remote_state_indicators, render, render_changes, Change, Entry, EntryStatus,
    Head, HeadRef, HeadSummary, RebaseKind, RebaseOp, RepoState, StatusView,
};

fn git_error(code: GitErrorCode, class: GitErrorClass) -> GitError {
    GitError { code, class, message: "oops".to_string() }
}

#[test]
fn entry_status_decodes_bits() {
    let wt_new = Entry { path: "a".to_string(), bits: 128 };
    assert_eq!(wt_new.status(), EntryStatus::WorkTree(Change::New));
    let idx_new = Entry { path: "a".to_string(), bits: 1 };
    assert_eq!(idx_new.status(), EntryStatus::Index(Change::New));
    let wt_mod = Entry { path: "a".to_string(), bits: 256 };
    assert_eq!(wt_mod.status(), EntryStatus::WorkTree(Change::Modified));
    let idx_del = Entry { path: "a".to_string(), bits: 4 };
    assert_eq!(idx_del.status(), EntryStatus::Index(Change::Deleted));
    let type_change = Entry { path: "a".to_string(), bits: 1024 };
    assert_eq!(type_change.status(), EntryStatus::WorkTree(Change::Type));
    let none = Entry { path: "a".to_string(), bits: 0 };
    assert_eq!(none.status(), EntryStatus::Unknown);
}

#[test]
fn working_tree_bit_wins_over_index_bit() {
    let both = Entry { path: "a".to_string(), bits: 128 | 1 };
    assert_eq!(both.status(), EntryStatus::WorkTree(Change::New));
}

#[test]
fn staged_means_index() {
    assert!(Entry { path: "a".to_string(), bits: 2 }.is_staged());
    assert!(!Entry { path: "a".to_string(), bits: 256 }.is_staged());
    assert!(!Entry { path: "a".to_string(), bits: 0 }.is_staged());
}

#[test]
fn branch_names_decodes_all() {
    let branches = vec![
        Branch { name_bytes: b"main".to_vec() },
        Branch { name_bytes: b"feature/x".to_vec() },
    ];
    let names = branch_names(&branches).unwrap();
    assert_eq!(names, vec!["main".to_string(), "feature/x".to_string()]);
}

#[test]
fn branch_names_rejects_invalid_utf8() {
    let branches = vec![
        Branch { name_bytes: b"main".to_vec() },
        Branch { name_bytes: vec![0xff, 0xfe] },
    ];
    match branch_names(&branches) {
        Err(Error::Utf8(_)) => {}
        _ => panic!("an invalid name must fail as text"),
    }
}

#[test]
fn signature_header_must_be_present_and_non_empty() {
    assert!(is_signed(&Some(b"sig".to_vec())));
    assert!(!is_signed(&Some(Vec::new())));
    assert!(!is_signed(&None));
}

#[test]
fn short_id_takes_six_characters() {
    assert_eq!(short_id(&"0123456789abcdef".to_string()), "012345");
    assert_eq!(short_id(&"ab".to_string()), "ab");
}

#[test]
fn optional_passes_found_values() {
    let r: Result<i32, GitError> = Ok(5);
    assert_eq!(r.optional().unwrap(), Some(5));
}

#[test]
fn optional_reads_reference_not_found_as_missing() {
    let r: Result<i32, GitError> =
        Err(git_error(GitErrorCode::NotFound, GitErrorClass::Reference));
    assert_eq!(r.optional().unwrap(), None);
    let r2: Result<i32, GitError> = Err(git_error(GitErrorCode::NotFound, GitErrorClass::Config));
    assert_eq!(r2.optional().unwrap(), None);
}

#[test]
fn optional_keeps_other_errors() {
    let r: Result<i32, GitError> = Err(git_error(GitErrorCode::NotFound, GitErrorClass::Other));
    assert!(r.optional().is_err());
    let r2: Result<i32, GitError> = Err(git_error(GitErrorCode::Other, GitErrorClass::Reference));
    assert!(r2.optional().is_err());
}

#[test]
fn try_checkout_classifies_outcomes() {
    assert_eq!(try_checkout(Ok(())).unwrap(), true);
    assert_eq!(
        try_checkout(Err(CheckoutError::Conflict("local changes".to_string()))).unwrap(),
        false
    );
    assert!(try_checkout(Err(CheckoutError::Git(git_error(
        GitErrorCode::Other,
        GitErrorClass::Other
    ))))
    .is_err());
}

#[test]
fn find_state_needs_a_born_branch_with_upstream() {
    let full = HeadRef {
        is_branch: true,
        target: Some("aaa".to_string()),
        upstream_target: Some("bbb".to_string()),
    };
    assert_eq!(
        find_state(Ok(full)).unwrap(),
        Some(("aaa".to_string(), "bbb".to_string()))
    );

    let detached = HeadRef { is_branch: false, target: Some("aaa".to_string()), upstream_target: None };
    assert_eq!(find_state(Ok(detached)).unwrap(), None);

    let no_upstream =
        HeadRef { is_branch: true, target: Some("aaa".to_string()), upstream_target: None };
    assert_eq!(find_state(Ok(no_upstream)).unwrap(), None);

    let unborn = Err(git_error(GitErrorCode::UnbornBranch, GitErrorClass::Reference));
    assert_eq!(find_state(unborn).unwrap(), None);

    let hard = Err(git_error(GitErrorCode::Other, GitErrorClass::Other));
    assert!(find_state(hard).is_err());
}

#[test]
fn indicators_show_only_nonzero_counts() {
    assert!(remote_state_indicators(0, 0).is_none());

    let mut ui = PagedRenderer::new(false);
    ui.render(&remote_state_indicators(2, 0).unwrap()).unwrap();
    assert_eq!(ui.into_buffer(), "\u{2191} 2");

    let mut ui = PagedRenderer::new(false);
    ui.render(&remote_state_indicators(0, 3).unwrap()).unwrap();
    assert_eq!(ui.into_buffer(), "\u{2193} 3");

    let mut ui = PagedRenderer::new(false);
    ui.render(&remote_state_indicators(12, 3).unwrap()).unwrap();
    assert_eq!(ui.into_buffer(), "\u{2191} 12 \u{2193}3");
}

#[test]
fn changes_render_groups_staged_and_unstaged() {
    let mut ui = PagedRenderer::new(false);
    let entries = vec![
        Entry { path: "staged.txt".to_string(), bits: 2 },
        Entry { path: "edited.txt".to_string(), bits: 256 },
    ];
    render_changes(&mut ui, &entries).unwrap();
    assert_eq!(
        ui.into_buffer(),
        "Staged Changes (1)\n  ~ staged.txt\nUnstaged Changes (1)\n  ~ edited.txt"
    );
}

#[test]
fn changes_render_writes_nothing_without_changes() {
    let mut ui = PagedRenderer::new(false);
    render_changes(&mut ui, &Vec::new()).unwrap();
    assert_eq!(ui.into_buffer(), "");
}

#[test]
fn full_status_view_renders_top_to_bottom() {
    let mut ui = PagedRenderer::new(false);
    let view = StatusView {
        head: Head::Branch(HeadSummary {
            name: "main".to_string(),
            message: "Initial commit\nbody".to_string(),
        }),
        state: None,
        repo_state: RepoState::Clean,
        rebase_ops: Vec::new(),
        entries: vec![Entry { path: "foo.txt".to_string(), bits: 128 }],
        ahead: Vec::new(),
        behind: Vec::new(),
    };
    render(&mut ui, &view).unwrap();
    assert_eq!(
        ui.into_buffer(),
        "main Initial commit\nUnstaged Changes (1)\n  + foo.txt"
    );
}

#[test]
fn rebase_state_renders_steps_and_hint() {
    let mut ui = PagedRenderer::new(false);
    let view = StatusView {
        head: Head::Unborn,
        state: None,
        repo_state: RepoState::Rebase,
        rebase_ops: vec![RebaseOp {
            id: "0123456789".to_string(),
            kind: RebaseKind::Pick,
            message: "Fix the bug".to_string(),
        }],
        entries: Vec::new(),
        ahead: Vec::new(),
        behind: Vec::new(),
    };
    render(&mut ui, &view).unwrap();
    assert_eq!(
        ui.into_buffer(),
        "[no branch]\nRebase (1)\n  pick 012345 Fix the bug\n  \u{21aa} Fix conflicts and run 'git rebase --continue'\n"
    );
}

#[test]
fn merge_state_renders_notice() {
    let mut ui = PagedRenderer::new(false);
    let view = StatusView {
        head: Head::Unborn,
        state: None,
        repo_state: RepoState::Merge,
        rebase_ops: Vec::new(),
        entries: Vec::new(),
        ahead: Vec::new(),
        behind: Vec::new(),
    };
    render(&mut ui, &view).unwrap();
    assert_eq!(ui.into_buffer(), "[no branch]\nMerge in progress\n");
}

#[test]
fn commits_render_signed_mark_and_summary() {
    let mut ui = PagedRenderer::new(false);
    let view = StatusView {
        head: Head::Branch(HeadSummary {
            name: "main".to_string(),
            message: "top".to_string(),
        }),
        state: Some((1, 0)),
        repo_state: RepoState::Clean,
        rebase_ops: Vec::new(),
        entries: Vec::new(),
        ahead: vec![CommitInfo {
            id: "fedcba9876".to_string(),
            message: "Add feature\nlong body".to_string(),
            signed: true,
        }],
        behind: Vec::new(),
    };
    render(&mut ui, &view).unwrap();
    assert_eq!(
        ui.into_buffer(),
        "main \u{2191} 1 top\nUnmerged into remote (1)\n\u{26bf} fedcba Add feature\n"
    );
}

#[test]
fn log_entry_short_form() {
    let mut ui = PagedRenderer::new(false);
    let c = CommitInfo {
        id: "0123456789".to_string(),
        message: "Fix it\nmore".to_string(),
        signed: false,
    };
    let n = log_entry(&c, &"2024-01-01".to_string(), &"ada".to_string(), false);
    ui.render(&n).unwrap();
    assert_eq!(ui.into_buffer(), " 012345 Fix it");
}

#[test]
fn log_entry_detailed_form() {
    let mut ui = PagedRenderer::new(false);
    let c = CommitInfo {
        id: "0123456789".to_string(),
        message: "Fix it".to_string(),
        signed: true,
    };
    let n = log_entry(&c, &"2024-01-01 10:00".to_string(), &"ada".to_string(), true);
    ui.render(&n).unwrap();
    assert_eq!(
        ui.into_buffer(),
        "\u{26bf}012345 Fix it\nDate: 2024-01-01 10:00\nAuthor: ada"
    );
}
