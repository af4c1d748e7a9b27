//! The two things that the host asks of a preprocessor command.

use crate::failure::Failure;
use crate::preprocessor::Preprocessor;
use crate::protocol::book_json;
use crate::protocol::parsed_input;
use crate::protocol::read_input;
use crate::protocol::to_json;
use mdbook::book::Book;
use mdbook::preprocess::PreprocessorContext;
use vstd::prelude::*;

verus! {

/// The answer to the question whether `pre` works with `renderer`: success
/// where it does, `UnsupportedRenderer` where it does not.
pub open spec fn support_answer<P: Preprocessor>(pre: &P, renderer: Seq<char>) -> Result<(), Failure> {
    if pre.supports(renderer) {
        Ok(())
    } else {
        Err(Failure::UnsupportedRenderer)
    }
}

/// The book that `pre` makes of what was read from the input: `Format` where
/// nothing could be read, else whatever `pre` makes of the book.
pub open spec fn processed_book<P: Preprocessor>(
    pre: &P,
    parsed: Option<(PreprocessorContext, Book)>,
) -> Result<Book, Failure> {
    match parsed {
        Some((ctx, book)) => pre.processed(ctx, book),
        None => Err(Failure::Format),
    }
}

/// The bytes that answer `input` when `pre` is the preprocessor: the JSON of
/// the book that `pre` makes of the book in `input`. `Format` where the input
/// cannot be read or that book cannot be written as JSON; the failure of `pre`
/// where it fails.
pub open spec fn transform_output<P: Preprocessor>(pre: &P, input: Seq<u8>) -> Result<Seq<u8>, Failure> {
    match processed_book(pre, parsed_input(input)) {
        Ok(book) => match book_json(book) {
            Some(bytes) => Ok(bytes),
            None => Err(Failure::Format),
        },
        Err(failure) => Err(failure),
    }
}

/// Answers the host's question whether `pre` works with `renderer`.
pub fn handle_supports<P: Preprocessor>(pre: &P, renderer: &str) -> (answer: Result<(), Failure>)
    ensures
        answer == support_answer(pre, renderer@),
{
    let supported = pre.supports_renderer(renderer);
    if supported {
        Ok(())
    } else {
        Err(Failure::UnsupportedRenderer)
    }
}

/// Runs `pre` on what was read from the input. Where nothing was read, the
/// answer is `Format`.
pub fn process<P: Preprocessor>(pre: &P, parsed: Option<(PreprocessorContext, Book)>) -> (processed: Result<
    Book,
    Failure,
>)
    ensures
        processed == processed_book(pre, parsed),
{
    match parsed {
        Some((ctx, book)) => pre.run(&ctx, book),
        None => Err(Failure::Format),
    }
}

/// Hands on the bytes that were written. A writing that failed becomes
/// `Format`, whatever the writer said of it.
pub fn emit(written: Result<Vec<u8>, serde_json::Error>) -> (output: Result<Vec<u8>, Failure>)
    ensures
        match written {
            Ok(bytes) => output == Ok::<Vec<u8>, Failure>(bytes),
            Err(_) => output == Err::<Vec<u8>, Failure>(Failure::Format),
        },
{
    match written {
        Ok(bytes) => Ok(bytes),
        Err(_) => Err(Failure::Format),
    }
}

/// Reads a context and a book from `input`, runs `pre` on them and writes the
/// processed book as JSON.
pub fn handle_preprocessing<P: Preprocessor>(pre: &P, input: &[u8]) -> (output: Result<Vec<u8>, Failure>)
    ensures
        match output {
            Ok(bytes) => transform_output(pre, input@) == Ok::<Seq<u8>, Failure>(bytes@),
            Err(failure) => transform_output(pre, input@) == Err::<Seq<u8>, Failure>(failure),
        },
{
    match process(pre, read_input(input)) {
        Ok(book) => emit(to_json(&book)),
        Err(failure) => Err(failure),
    }
}

} // verus!
