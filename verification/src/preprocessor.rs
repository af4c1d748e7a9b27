//! What a preprocessor offers the host, and the one that does nothing.

use crate::failure::Failure;
use crate::protocol::book_json;
use mdbook::book::Book;
use mdbook::preprocess::PreprocessorContext;
use vstd::prelude::*;

verus! {

/// A stage of a book build: it gets the book before the renderer does and
/// hands back the book to render.
pub trait Preprocessor {
    /// Whether this preprocessor works with the renderer of that name. One
    /// that does not say otherwise works with every renderer.
    open spec fn supports(&self, renderer: Seq<char>) -> bool {
        true
    }

    /// What this preprocessor makes of `book` in the build that `ctx`
    /// describes. One that does not say otherwise leaves the book as it is.
    open spec fn processed(&self, ctx: PreprocessorContext, book: Book) -> Result<Book, Failure> {
        Ok(book)
    }

    /// The name by which the host knows this preprocessor.
    fn name(&self) -> (name: &str);

    /// Processes `book`.
    fn run(&self, ctx: &PreprocessorContext, book: Book) -> (processed: Result<Book, Failure>)
        ensures
            processed == self.processed(*ctx, book),
    ;

    /// Tells whether this preprocessor works with the renderer of that name.
    fn supports_renderer(&self, renderer: &str) -> (supported: bool)
        ensures
            supported == self.supports(renderer@),
    ;
}

/// The preprocessor that supports every renderer and changes no book.
pub struct NopPreprocessor;

/// The name of [`NopPreprocessor`].
pub open spec fn nop_name() -> Seq<char> {
    "nop-preprocessor"@
}

impl Preprocessor for NopPreprocessor {
    open spec fn supports(&self, renderer: Seq<char>) -> bool {
        true
    }

    open spec fn processed(&self, ctx: PreprocessorContext, book: Book) -> Result<Book, Failure> {
        Ok(book)
    }

    fn name(&self) -> (name: &str)
        ensures
            name@ == nop_name(),
    {
        "nop-preprocessor"
    }

    fn run(&self, ctx: &PreprocessorContext, book: Book) -> (processed: Result<Book, Failure>)
        ensures
            processed == Ok::<Book, Failure>(book),
    {
        Ok(book)
    }

    fn supports_renderer(&self, renderer: &str) -> (supported: bool)
        ensures
            supported,
    {
        true
    }
}

/// The name of [`NopPreprocessor`] is not empty.
pub proof fn nop_name_is_not_empty()
    ensures
        nop_name().len() == 16,
        nop_name().len() > 0,
{
    reveal_strlit("nop-preprocessor");
}

/// [`NopPreprocessor`] supports every renderer, the one with the empty name
/// too.
pub proof fn every_renderer_is_supported(renderer: Seq<char>)
    ensures
        NopPreprocessor.supports(renderer),
{
}

/// [`NopPreprocessor`] hands back the book it was given, whatever the
/// context, so what is written for the processed book is what would be
/// written for the book that came in.
pub proof fn run_keeps_the_book(ctx: PreprocessorContext, book: Book)
    ensures
        NopPreprocessor.processed(ctx, book) == Ok::<Book, Failure>(book),
        NopPreprocessor.processed(ctx, book) matches Ok(processed) && book_json(processed) == book_json(book),
{
}

} // verus!
