//! Source units handed to the toolchain: inline text or a file path.
use std::path::PathBuf;
use vstd::prelude::*;

verus! {

#[verifier::external_type_specification]
#[verifier::external_body]
pub struct ExPathBuf(PathBuf);

/// Relies on `PathBuf`'s `Clone`: the copy names the same path.
pub assume_specification[ <PathBuf as Clone>::clone ](p: &PathBuf) -> (r: PathBuf)
    ensures
        r == *p,
;

/// One fragment of input code submitted for compilation.
#[derive(Debug)]
pub enum SourceUnit {
    /// Inline source text.
    Text(String),
    /// A file holding the source.
    File(PathBuf),
}

/// What a source unit holds, as a mathematical value.
pub enum SourceView {
    Text(Seq<char>),
    File(PathBuf),
}

impl View for SourceUnit {
    type V = SourceView;

    open spec fn view(&self) -> SourceView {
        match self {
            SourceUnit::Text(s) => SourceView::Text(s@),
            SourceUnit::File(p) => SourceView::File(*p),
        }
    }
}

/// A value that can be turned into engine input.
pub trait IntoInput: Sized {
    /// The source unit that `into_input` yields for this value.
    spec fn input_view(&self) -> SourceView;

    fn into_input(self) -> (r: SourceUnit)
        ensures
            r@ == self.input_view(),
    ;
}

impl<'a> IntoInput for &'a str {
    open spec fn input_view(&self) -> SourceView {
        SourceView::Text((*self)@)
    }

    fn into_input(self) -> (r: SourceUnit) {
        self.to_owned().into_input()
    }
}

impl IntoInput for String {
    open spec fn input_view(&self) -> SourceView {
        SourceView::Text(self@)
    }

    fn into_input(self) -> (r: SourceUnit) {
        SourceUnit::Text(self)
    }
}

impl IntoInput for PathBuf {
    open spec fn input_view(&self) -> SourceView {
        SourceView::File(*self)
    }

    fn into_input(self) -> (r: SourceUnit) {
        SourceUnit::File(self)
    }
}

} // verus!
