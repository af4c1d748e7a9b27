use mdbook::book::{Book, BookItem, Chapter};
use mdbook::preprocess::{CmdPreprocessor, PreprocessorContext};
use nop_preprocessor::{Failure, NopPreprocessor, Preprocessor};

const CONTEXT: &str =
    r#"{"root":"/srv/book","config":{"book":{"title":"Guide"}},"renderer":"html","mdbook_version":"0.4.52"}"#;

fn context() -> PreprocessorContext {
    let input = format!(r#"[{},{{"sections":[],"__non_exhaustive":null}}]"#, CONTEXT);
    CmdPreprocessor::parse_input(input.as_bytes()).unwrap().0
}

fn small_book() -> Book {
    let mut book = Book::new();
    let mut intro = Chapter::new("Intro", "# Intro\n\nHello.".to_string(), "intro.md", vec![]);
    intro.sub_items.push(BookItem::Chapter(Chapter::new(
        "Détails",
        "Überraschung: ✓".to_string(),
        "intro/details.md",
        vec!["Intro".to_string()],
    )));
    book.push_item(BookItem::PartTitle("Part one".to_string()));
    book.push_item(BookItem::Chapter(intro));
    book.push_item(BookItem::Separator);
    book
}

#[test]
fn name_is_fixed_and_not_empty() {
    let pre = NopPreprocessor;
    assert_eq!(pre.name(), "nop-preprocessor");
    assert!(!pre.name().is_empty());
    assert_eq!(pre.name(), NopPreprocessor.name());
}

#[test]
fn supports_html() {
    assert!(NopPreprocessor.supports_renderer("html"));
}

#[test]
fn supports_epub() {
    assert!(NopPreprocessor.supports_renderer("epub"));
}

#[test]
fn supports_the_empty_name() {
    assert!(NopPreprocessor.supports_renderer(""));
}

#[test]
fn supports_names_outside_ascii() {
    assert!(NopPreprocessor.supports_renderer("レンダラー ✓ \u{1F4D6}"));
    assert!(NopPreprocessor.supports_renderer("\u{0}\n\t"));
}

#[test]
fn run_hands_back_an_empty_book() {
    let ctx = context();
    let processed = NopPreprocessor.run(&ctx, Book::new());
    assert_eq!(processed.ok(), Some(Book::new()));
}

#[test]
fn run_hands_back_the_book_it_got() {
    let ctx = context();
    let book = small_book();
    let processed: Result<Book, Failure> = NopPreprocessor.run(&ctx, book.clone());
    assert_eq!(processed.ok(), Some(book));
}

#[test]
fn run_keeps_what_is_written_for_the_book() {
    let ctx = context();
    let book = small_book();
    let before = serde_json::to_vec(&book).unwrap();
    let processed = NopPreprocessor.run(&ctx, book).unwrap();
    assert_eq!(serde_json::to_vec(&processed).unwrap(), before);
}

#[test]
fn run_twice_changes_nothing() {
    let ctx = context();
    let book = small_book();
    let once = NopPreprocessor.run(&ctx, book.clone()).unwrap();
    let twice = NopPreprocessor.run(&ctx, once).unwrap();
    assert_eq!(twice, book);
}
