use movie_service::error::{Error, ErrorResponse};
use movie_service::handlers::{create_movie, get_movie, post_movie};
use movie_service::id::{generate_new_movie_id, parse_movie_id, u64_to_decimal};
use movie_service::model::{GetMovieRequest, Movie, PostMovieRequest, PostMovieResponse};
use movie_service::store::Store;

fn request(name: &str, year: u16, was_good: bool) -> PostMovieRequest {
    PostMovieRequest { name: name.to_string(), year, was_good }
}

#[test]
fn id_is_deterministic() {
    let a = generate_new_movie_id("Inception");
    let b = generate_new_movie_id("Inception");
    assert_eq!(a, b);
}

#[test]
fn id_is_a_canonical_decimal() {
    let id = generate_new_movie_id("Inception");
    assert!(parse_movie_id(&id).is_some());
    assert_eq!(u64_to_decimal(parse_movie_id(&id).unwrap()), id);
}

#[test]
fn round_trip_post_then_get() {
    let mut store = Store::new();
    let resp = post_movie(&mut store, Ok(request("Inception", 2010, true)))
        .expect("a parsed post must succeed");
    let got = get_movie(&store, GetMovieRequest { id: resp.id })
        .expect("the id just returned must be found");
    assert_eq!(got.name, "Inception");
    assert_eq!(got.year, 2010);
    assert!(got.was_good);
}

#[test]
fn second_post_overwrites_first() {
    let mut store = Store::new();
    let first = post_movie(&mut store, Ok(request("The Matrix", 1999, true))).unwrap();
    let second = post_movie(&mut store, Ok(request("The Matrix", 2003, false))).unwrap();
    assert_eq!(first.id, second.id);
    let got = get_movie(&store, GetMovieRequest { id: second.id }).unwrap();
    assert_eq!(got.name, "The Matrix");
    assert_eq!(got.year, 2003);
    assert!(!got.was_good);
}

#[test]
fn get_on_unknown_id_is_not_found() {
    let store = Store::new();
    let err = get_movie(&store, GetMovieRequest { id: "123".to_string() })
        .expect_err("an empty store holds nothing");
    assert_eq!(err.status_code(), 404);
    assert_eq!(err.message(), "Movie 123 not found");
    match err {
        Error::MovieNotFound(id) => assert_eq!(id, "123"),
        _ => panic!("expected the not-found kind"),
    }
}

#[test]
fn get_on_non_numeric_id_is_not_found() {
    let mut store = Store::new();
    post_movie(&mut store, Ok(request("Alien", 1979, true))).unwrap();
    let err = get_movie(&store, GetMovieRequest { id: "alien".to_string() })
        .expect_err("a non-numeric id renders no identifier");
    assert_eq!(err.status_code(), 404);
    assert_eq!(err.message(), "Movie alien not found");
}

#[test]
fn malformed_body_reports_the_parser_message() {
    let mut store = Store::new();
    let err = post_movie(&mut store, Err("missing field `year` at line 1 column 38".to_string()))
        .expect_err("an unparsed body must be rejected");
    assert_eq!(err.status_code(), 400);
    let message = err.message();
    assert_eq!(
        message,
        "Failed to parse request: missing field `year` at line 1 column 38"
    );
    assert!(message.contains("missing field `year`"));
}

#[test]
fn error_response_carries_the_message() {
    let body = ErrorResponse::from(Error::MovieNotFound("42".to_string()));
    assert_eq!(body.error, "Movie 42 not found");
    let body = ErrorResponse::from(Error::FailedToParseRequest("boom".to_string()));
    assert_eq!(body.error, "Failed to parse request: boom");
    let body = ErrorResponse::from(Error::UnknownError);
    assert_eq!(body.error, "Unknown error");
}

#[test]
fn status_codes_cover_every_kind() {
    assert_eq!(Error::FailedToParseRequest(String::new()).status_code(), 400);
    assert_eq!(Error::MovieNotFound(String::new()).status_code(), 404);
    assert_eq!(Error::UnknownError.status_code(), 500);
}

#[test]
fn many_posts_then_gets_stay_consistent() {
    let mut store = Store::new();
    let names = ["Alien", "Brazil", "Casablanca", "Dune", "Eraserhead", "Fargo", "Gattaca"];
    let mut ids: Vec<String> = Vec::new();
    for (i, name) in names.iter().enumerate() {
        let resp =
            post_movie(&mut store, Ok(request(name, 1950 + i as u16, i % 2 == 0))).unwrap();
        ids.push(resp.id);
    }
    for (i, name) in names.iter().enumerate() {
        let got = get_movie(&store, GetMovieRequest { id: ids[i].clone() }).unwrap();
        assert_eq!(got.name, *name);
        assert_eq!(got.year, 1950 + i as u16);
        assert_eq!(got.was_good, i % 2 == 0);
    }
}

#[test]
fn decimal_rendering_exact_values() {
    assert_eq!(u64_to_decimal(0), "0");
    assert_eq!(u64_to_decimal(7), "7");
    assert_eq!(u64_to_decimal(12345), "12345");
    assert_eq!(u64_to_decimal(u64::MAX), "18446744073709551615");
}

#[test]
fn parsing_accepts_exactly_canonical_decimals() {
    assert_eq!(parse_movie_id("0"), Some(0));
    assert_eq!(parse_movie_id("42"), Some(42));
    assert_eq!(parse_movie_id("18446744073709551615"), Some(u64::MAX));
    assert_eq!(parse_movie_id(""), None);
    assert_eq!(parse_movie_id("007"), None);
    assert_eq!(parse_movie_id("-1"), None);
    assert_eq!(parse_movie_id("12a"), None);
    assert_eq!(parse_movie_id("18446744073709551616"), None);
    assert_eq!(parse_movie_id("99999999999999999999999"), None);
}

#[test]
fn wire_conversions_keep_fields() {
    let movie = Movie::from(request("Heat", 1995, true));
    assert_eq!(movie.name, "Heat");
    assert_eq!(movie.year, 1995);
    assert!(movie.was_good);

    let resp = PostMovieResponse::from("99".to_string());
    assert_eq!(resp.id, "99");

    let stored = movie.clone();
    let shaped = movie_service::model::GetMovieResponse::from(stored);
    assert_eq!(shaped.name, "Heat");
    assert_eq!(shaped.year, 1995);
    assert!(shaped.was_good);
}

#[test]
fn create_movie_returns_the_name_id() {
    let mut store = Store::new();
    let resp = create_movie(&mut store, request("Solaris", 1972, true));
    assert_eq!(resp.id, generate_new_movie_id("Solaris"));
    let direct = store.get(parse_movie_id(&resp.id).unwrap()).unwrap();
    assert_eq!(direct.name, "Solaris");
    assert_eq!(direct.year, 1972);
}
