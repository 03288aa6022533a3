use bm::bookmark::{auto_name, Bookmark};
use bm::render::{render, Footer};
use bm::session::{InputMode, Session};
use bm::store::{load_from_content, save_to_content};

fn sample_list() -> Vec<Bookmark> {
    vec![
        Bookmark { name: "bookmark_1".to_string(), path: "/tmp/proj".to_string() },
        Bookmark { name: "bookmark_2".to_string(), path: "/home/user/with space".to_string() },
        Bookmark { name: "bookmark_3".to_string(), path: "/odd\"quote".to_string() },
    ]
}

#[test]
fn round_trip_keeps_names_and_paths_in_order() {
    let list = sample_list();
    let text = save_to_content(&list);
    let loaded = load_from_content(Some(&text));
    assert_eq!(loaded.len(), list.len());
    for (a, b) in loaded.iter().zip(list.iter()) {
        assert_eq!(a.name, b.name);
        assert_eq!(a.path, b.path);
    }
}

#[test]
fn round_trip_of_empty_list() {
    let text = save_to_content(&Vec::new());
    let loaded = load_from_content(Some(&text));
    assert_eq!(loaded.len(), 0);
}

#[test]
fn missing_file_loads_as_empty_list() {
    let loaded = load_from_content(None);
    assert_eq!(loaded.len(), 0);
}

#[test]
fn invalid_content_loads_as_empty_list() {
    assert_eq!(load_from_content(Some("this is not = [ valid toml")).len(), 0);
    assert_eq!(load_from_content(Some("bookmarks = 3")).len(), 0);
    assert_eq!(load_from_content(Some("[[bookmarks]]\nname = \"a\"")).len(), 0);
}

#[test]
fn handwritten_document_parses_to_its_records() {
    let text = "[[bookmarks]]\nname = \"bookmark_1\"\npath = \"/a\"\n\n[[bookmarks]]\nname = \"bookmark_2\"\npath = \"/b\"\n";
    let loaded = load_from_content(Some(text));
    assert_eq!(loaded.len(), 2);
    assert_eq!(loaded[0].name, "bookmark_1");
    assert_eq!(loaded[0].path, "/a");
    assert_eq!(loaded[1].name, "bookmark_2");
    assert_eq!(loaded[1].path, "/b");
}

#[test]
fn saved_document_names_the_fields() {
    let list = vec![Bookmark { name: auto_name(1), path: "/a".to_string() }];
    let text = save_to_content(&list);
    assert!(text.contains("bookmarks"));
    assert!(text.contains("name"));
    assert!(text.contains("path"));
    assert!(text.contains("/a"));
    assert!(text.contains("bookmark_1"));
}

#[test]
fn render_lists_paths_in_order_with_cursor() {
    let mut s = Session::new(sample_list());
    s.move_down();
    let f = render(&s);
    assert_eq!(f.title, "Bookmarks");
    let rows: Vec<&str> = f.rows.iter().map(|r| r.as_str()).collect();
    assert_eq!(rows, vec!["/tmp/proj", "/home/user/with space", "/odd\"quote"]);
    assert_eq!(f.selected, 1);
    assert_eq!(f.marker, "→ ");
    match f.footer {
        Footer::Help(h) => {
            assert_eq!(h, "j/k: move  u: add bookmark  !: delete  Enter: select  q: quit")
        },
        _ => panic!("normal mode renders the help bar"),
    }
}

#[test]
fn render_shows_confirmation_prompt_while_confirming() {
    let mut s = Session::new(sample_list());
    s.request_delete();
    assert_eq!(s.mode, InputMode::ConfirmingDelete);
    let f = render(&s);
    match f.footer {
        Footer::Confirm { title, prompt } => {
            assert_eq!(title, "Confirm");
            assert_eq!(prompt, "Delete this bookmark? (y/n)");
        },
        _ => panic!("confirmation mode renders the prompt"),
    }
}

#[test]
fn render_is_idempotent_over_unchanged_state() {
    let s = Session::new(sample_list());
    let f1 = render(&s);
    let f2 = render(&s);
    assert_eq!(f1.title, f2.title);
    let r1: Vec<&str> = f1.rows.iter().map(|r| r.as_str()).collect();
    let r2: Vec<&str> = f2.rows.iter().map(|r| r.as_str()).collect();
    assert_eq!(r1, r2);
    assert_eq!(f1.selected, f2.selected);
}
