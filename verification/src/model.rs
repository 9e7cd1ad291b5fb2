//! The internal movie record and the wire-level request/response types.
//! Wire types are deliberately distinct from the internal record, so the
//! storage representation never leaks into the transport schema.

use vstd::prelude::*;
use crate::id::MovieId;

verus! {

/// The mathematical content of a movie record: the fields the store
/// remembers and the handlers reshape.
pub ghost struct MovieView {
    pub name: Seq<char>,
    pub year: u16,
    pub was_good: bool,
}

/// Internal representation of a movie, owned by the store.
#[derive(Debug)]
pub struct Movie {
    pub name: String,
    pub year: u16,
    pub was_good: bool,
}

impl View for Movie {
    type V = MovieView;

    open spec fn view(&self) -> MovieView {
        MovieView { name: self.name@, year: self.year, was_good: self.was_good }
    }
}

impl Clone for Movie {
    fn clone(&self) -> (r: Self)
        ensures
            r == *self,
    {
        Movie { name: self.name.clone(), year: self.year, was_good: self.was_good }
    }
}

/// The body of a create-or-replace request: the movie to be stored.
#[derive(Debug)]
pub struct PostMovieRequest {
    pub name: String,
    pub year: u16,
    pub was_good: bool,
}

impl View for PostMovieRequest {
    type V = MovieView;

    open spec fn view(&self) -> MovieView {
        MovieView { name: self.name@, year: self.year, was_good: self.was_good }
    }
}

impl Clone for PostMovieRequest {
    fn clone(&self) -> (r: Self)
        ensures
            r == *self,
    {
        PostMovieRequest { name: self.name.clone(), year: self.year, was_good: self.was_good }
    }
}

impl From<PostMovieRequest> for Movie {
    fn from(value: PostMovieRequest) -> (r: Self) {
        Movie { name: value.name, year: value.year, was_good: value.was_good }
    }
}

impl vstd::std_specs::convert::FromSpecImpl<PostMovieRequest> for Movie {
    open spec fn obeys_from_spec() -> bool {
        true
    }

    open spec fn from_spec(v: PostMovieRequest) -> Self {
        Movie { name: v.name, year: v.year, was_good: v.was_good }
    }
}

/// The body of a successful create-or-replace response: the derived id.
#[derive(Debug)]
pub struct PostMovieResponse {
    pub id: MovieId,
}

impl View for PostMovieResponse {
    type V = Seq<char>;

    open spec fn view(&self) -> Seq<char> {
        self.id@
    }
}

impl From<MovieId> for PostMovieResponse {
    fn from(value: MovieId) -> (r: Self) {
        PostMovieResponse { id: value }
    }
}

impl vstd::std_specs::convert::FromSpecImpl<MovieId> for PostMovieResponse {
    open spec fn obeys_from_spec() -> bool {
        true
    }

    open spec fn from_spec(v: MovieId) -> Self {
        PostMovieResponse { id: v }
    }
}

/// A lookup request: the identifier taken from the URL path.
#[derive(Debug)]
pub struct GetMovieRequest {
    pub id: MovieId,
}

impl View for GetMovieRequest {
    type V = Seq<char>;

    open spec fn view(&self) -> Seq<char> {
        self.id@
    }
}

/// The body of a successful lookup response: the stored record reshaped.
#[derive(Debug)]
pub struct GetMovieResponse {
    pub name: String,
    pub year: u16,
    pub was_good: bool,
}

impl View for GetMovieResponse {
    type V = MovieView;

    open spec fn view(&self) -> MovieView {
        MovieView { name: self.name@, year: self.year, was_good: self.was_good }
    }
}

impl From<Movie> for GetMovieResponse {
    fn from(value: Movie) -> (r: Self) {
        GetMovieResponse { name: value.name, year: value.year, was_good: value.was_good }
    }
}

impl vstd::std_specs::convert::FromSpecImpl<Movie> for GetMovieResponse {
    open spec fn obeys_from_spec() -> bool {
        true
    }

    open spec fn from_spec(v: Movie) -> Self {
        GetMovieResponse { name: v.name, year: v.year, was_good: v.was_good }
    }
}

} // verus!
