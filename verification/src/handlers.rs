//! The two request handlers: create-or-replace by derived identity, and
//! lookup by identifier. Each states its whole effect on the store and the
//! exact response or error it produces.

use vstd::prelude::*;
use crate::error::Error;
use crate::id::{
    dec_digits, generate_new_movie_id, name_hash, parse_movie_id, spec_movie_id, spec_name_hash,
    lemma_dec_digits_injective,
};
use crate::model::{
    GetMovieRequest, GetMovieResponse, Movie, MovieView, PostMovieRequest, PostMovieResponse,
};
use crate::store::Store;

verus! {

/// The store after a record is saved: the new record sits under the
/// identifier derived from its name; every other entry is untouched.
pub open spec fn spec_store_after_post(m: Map<u64, MovieView>, mv: MovieView) -> Map<
    u64,
    MovieView,
> {
    m.insert(spec_name_hash(mv.name), mv)
}

/// What a lookup by identifier string finds: the record stored under the
/// value the string renders, if the string renders one and it is present.
pub open spec fn spec_lookup(m: Map<u64, MovieView>, id: Seq<char>) -> Option<MovieView> {
    if exists|n: u64| #![trigger dec_digits(n as nat)] id == dec_digits(n as nat)
        && m.contains_key(n) {
        Some(
            m[choose|n: u64|
                #![trigger dec_digits(n as nat)]
                id == dec_digits(n as nat) && m.contains_key(n)],
        )
    } else {
        None
    }
}

/// Saves a movie under the identifier derived from its name, replacing any
/// record already stored there, and returns the identifier.
pub fn create_movie(store: &mut Store, req: PostMovieRequest) -> (resp: PostMovieResponse)
    ensures
        final(store)@ == spec_store_after_post(old(store)@, req@),
        resp@ == spec_movie_id(req@.name),
{
    let key = generate_new_movie_id(req.name.as_str());
    let h = name_hash(req.name.as_str());
    let movie = Movie::from(req);
    store.insert(h, movie);
    PostMovieResponse::from(key)
}

/// Handles a create-or-replace request. A parsed body is saved and answered
/// with the derived identifier; a body that failed to parse leaves the
/// store untouched and is answered with the parser's message.
pub fn post_movie(store: &mut Store, payload: Result<PostMovieRequest, String>) -> (r: Result<
    PostMovieResponse,
    Error,
>)
    ensures
        match payload {
            Ok(req) => {
                &&& final(store)@ == spec_store_after_post(old(store)@, req@)
                &&& r matches Ok(resp) && resp@ == spec_movie_id(req@.name)
            },
            Err(msg) => {
                &&& final(store)@ == old(store)@
                &&& r matches Err(Error::FailedToParseRequest(m)) && m@ == msg@
            },
        },
{
    match payload {
        Ok(payload) => Ok(create_movie(store, payload)),
        Err(e) => Err(Error::FailedToParseRequest(e)),
    }
}

/// Handles a lookup request: returns the record stored under the requested
/// identifier, reshaped for the wire, or reports the id as not found.
pub fn get_movie(store: &Store, request: GetMovieRequest) -> (r: Result<GetMovieResponse, Error>)
    ensures
        match r {
            Ok(resp) => spec_lookup(store@, request@) == Some(resp@),
            Err(e) => {
                &&& spec_lookup(store@, request@) is None
                &&& e matches Error::MovieNotFound(id) && id@ == request@
            },
        },
{
    match parse_movie_id(request.id.as_str()) {
        Some(n) => {
            match store.get(n) {
                Some(movie) => {
                    let resp = GetMovieResponse::from(movie.clone());
                    proof {
                        let k = choose|k: u64|
                            #![trigger dec_digits(k as nat)]
                            request@ == dec_digits(k as nat) && store@.contains_key(k);
                        lemma_dec_digits_injective(k as nat, n as nat);
                    }
                    Ok(resp)
                },
                None => {
                    proof {
                        assert forall|k: u64|
                            #![trigger dec_digits(k as nat)]
                            !(request@ == dec_digits(k as nat)
                                && store@.contains_key(k)) by {
                            if request@ == dec_digits(k as nat) {
                                lemma_dec_digits_injective(k as nat, n as nat);
                            }
                        }
                    }
                    Err(Error::MovieNotFound(request.id))
                },
            }
        },
        None => Err(Error::MovieNotFound(request.id)),
    }
}

/// Law: a write fully replaces — posting two records with the same name
/// leaves the store exactly as if only the second had been posted, and the
/// derived identifier then holds only the second record's fields.
pub proof fn lemma_post_overwrites(m: Map<u64, MovieView>, mv1: MovieView, mv2: MovieView)
    requires
        mv1.name == mv2.name,
    ensures
        spec_store_after_post(spec_store_after_post(m, mv1), mv2) == spec_store_after_post(m, mv2),
        spec_store_after_post(spec_store_after_post(m, mv1), mv2)[spec_name_hash(mv2.name)] == mv2,
{
    assert(spec_store_after_post(spec_store_after_post(m, mv1), mv2) =~= spec_store_after_post(
        m,
        mv2,
    ));
}

/// Law: round trip — looking up the identifier returned by a post, in the
/// store that post produced, finds exactly the posted record.
pub proof fn lemma_post_then_get(m: Map<u64, MovieView>, mv: MovieView)
    ensures
        spec_lookup(spec_store_after_post(m, mv), spec_movie_id(mv.name)) == Some(mv),
{
    let h = spec_name_hash(mv.name);
    let m2 = spec_store_after_post(m, mv);
    assert(m2.contains_key(h));
    assert(spec_movie_id(mv.name) == dec_digits(h as nat));
    let k = choose|k: u64|
        #![trigger dec_digits(k as nat)]
        spec_movie_id(mv.name) == dec_digits(k as nat) && m2.contains_key(k);
    lemma_dec_digits_injective(k as nat, h as nat);
}

} // verus!
