use cryptodoc::document::{
    highlight_extension, ActionKind, Command, DocError, Document, HighlightTheme, IoErrorKind,
    Message,
};

fn expect_write(c: Command) -> (String, String) {
    match c {
        Command::WriteFile { path, text } => (path, text),
        _ => panic!("expected a write"),
    }
}

fn expect_prompt(c: Command) -> String {
    match c {
        Command::PromptSavePath { text } => text,
        _ => panic!("expected a save dialog"),
    }
}

#[test]
fn starts_empty_and_dirty() {
    let d = Document::new();
    assert_eq!(d.path, None);
    assert_eq!(d.content, "");
    assert!(d.is_dirty);
    assert_eq!(d.theme, HighlightTheme::SolarizedDark);
    assert_eq!(d.error, None);
    assert_eq!(d.title(), "CryptoDoc Document Viewer");
}

#[test]
fn new_doc_clears_path_and_buffer() {
    let mut d = Document::new();
    d.update(Message::DocOpened(Ok(("/tmp/a.rs".to_string(), "fn main() {}".to_string()))));
    let c = d.update(Message::NewDoc);
    assert!(matches!(c, Command::Idle));
    assert_eq!(d.path, None);
    assert_eq!(d.content, "");
}

#[test]
fn open_replaces_state() {
    let mut d = Document::new();
    assert!(matches!(d.update(Message::OpenDoc), Command::PickAndLoad));
    d.update(Message::DocOpened(Ok(("/home/u/notes.md".to_string(), "# Notes\n".to_string()))));
    assert_eq!(d.path.as_deref(), Some("/home/u/notes.md"));
    assert_eq!(d.content, "# Notes\n");
    assert!(!d.is_dirty);
}

#[test]
fn failed_open_keeps_buffer() {
    let mut d = Document::new();
    d.update(Message::DocOpened(Ok(("/a.txt".to_string(), "kept".to_string()))));
    d.update(Message::DocOpened(Err(DocError::IoFailed(IoErrorKind::NotFound))));
    assert_eq!(d.error, Some(DocError::IoFailed(IoErrorKind::NotFound)));
    assert_eq!(d.content, "kept");
    assert_eq!(d.path.as_deref(), Some("/a.txt"));
    assert!(!d.is_dirty);
    d.update(Message::DocOpened(Err(DocError::DialogClosed)));
    assert_eq!(d.error, Some(DocError::DialogClosed));
}

#[test]
fn edit_marks_dirty_until_save() {
    let mut d = Document::new();
    d.update(Message::DocOpened(Ok(("/a.txt".to_string(), "ab".to_string()))));
    assert!(!d.is_dirty);
    assert!(!d.edit(&ActionKind::Move, "ab".to_string()));
    assert!(!d.is_dirty);
    assert!(d.edit(&ActionKind::Edit, "acb".to_string()));
    assert!(d.is_dirty);
    assert_eq!(d.content, "acb");
    d.update(Message::DocEdit { action: ActionKind::Select, text: "acb".to_string() });
    d.update(Message::ThemeSelected(HighlightTheme::Base16Ocean));
    d.update(Message::DocSaved(Err(DocError::IoFailed(IoErrorKind::PermissionDenied))));
    d.update(Message::NewDoc);
    assert!(d.is_dirty);
    d.update(Message::DocSaved(Ok("/b.txt".to_string())));
    assert!(!d.is_dirty);
    assert_eq!(d.path.as_deref(), Some("/b.txt"));
}

#[test]
fn save_with_path_writes_directly() {
    let mut d = Document::new();
    d.update(Message::DocOpened(Ok(("/a.txt".to_string(), "x".to_string()))));
    let (path, text) = expect_write(d.update(Message::SaveDoc));
    assert_eq!(path, "/a.txt");
    assert_eq!(text, "x");
}

#[test]
fn save_without_path_prompts_and_dismissal_writes_nothing() {
    let mut d = Document::new();
    d.apply_edit(true, "draft".to_string());
    let text = expect_prompt(d.update(Message::SaveDoc));
    assert_eq!(text, "draft");
    let c = d.update(Message::SaveDestination { choice: None, text });
    assert!(matches!(c, Command::Idle));
    assert_eq!(d.error, Some(DocError::DialogClosed));
    assert_eq!(d.path, None);
    assert_eq!(d.content, "draft");
    assert!(d.is_dirty);
}

#[test]
fn new_type_and_save_scenario() {
    let mut d = Document::new();
    d.update(Message::NewDoc);
    d.update(Message::DocEdit { action: ActionKind::Edit, text: "hello".to_string() });
    assert_eq!(d.content, "hello");
    assert!(d.is_dirty);
    let text = expect_prompt(d.update(Message::SaveDoc));
    let (path, written) =
        expect_write(d.update(Message::SaveDestination { choice: Some("/p.txt".to_string()), text }));
    assert_eq!(path, "/p.txt");
    assert_eq!(written, "hello");
    d.update(Message::DocSaved(Ok(path)));
    assert_eq!(d.path.as_deref(), Some("/p.txt"));
    assert!(!d.is_dirty);
    assert_eq!(d.content, "hello");
}

#[test]
fn theme_change_keeps_text() {
    let mut d = Document::new();
    d.apply_edit(true, "t".to_string());
    d.select_theme(HighlightTheme::InspiredGitHub);
    assert_eq!(d.theme, HighlightTheme::InspiredGitHub);
    assert_eq!(d.content, "t");
}

#[test]
fn highlight_mode_follows_extension() {
    assert_eq!(highlight_extension(&Some("/src/main.rs".to_string())), "rs");
    assert_eq!(highlight_extension(&Some("archive.tar.gz".to_string())), "gz");
    assert_eq!(highlight_extension(&Some("/etc/hosts".to_string())), "txt");
    assert_eq!(highlight_extension(&Some(".bashrc".to_string())), "txt");
    assert_eq!(highlight_extension(&None), "txt");
    let mut d = Document::new();
    d.finish_save(Ok("/a/b.py".to_string()));
    assert_eq!(d.highlight_mode(), "py");
}

#[test]
fn only_edit_actions_change_content() {
    assert!(ActionKind::Edit.is_edit());
    for kind in [
        ActionKind::Move,
        ActionKind::Select,
        ActionKind::SelectWord,
        ActionKind::SelectLine,
        ActionKind::Click,
        ActionKind::Drag,
        ActionKind::Scroll,
    ] {
        assert!(!kind.is_edit());
        let mut d = Document::new();
        d.finish_save(Ok("/a.txt".to_string()));
        assert!(!d.edit(&kind, String::new()));
        assert!(!d.is_dirty);
    }
}

#[test]
fn io_error_category_is_kept() {
    let mut d = Document::new();
    d.finish_save(Err(DocError::IoFailed(IoErrorKind::StorageFull)));
    assert_eq!(d.error, Some(DocError::IoFailed(IoErrorKind::StorageFull)));
}
