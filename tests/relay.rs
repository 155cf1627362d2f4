use makatime::activity::{Activity, ActivityError};
use makatime::auth::{
    bearer_token, on_cache_read, on_verified, token_key, verified_identity, AuthCache, AuthError, AuthStep,
    CacheWrite, CACHE_TTL_SECS,
};
use makatime::badge::{activity_badge, badge_content, idle_badge, render_badge, svg_icon_uri};
use makatime::client::{authorization_value, png_icon_uri, report_for, Report};
use makatime::registry::{CellRequest, CellResponse, User, Users};
use makatime::router::{
    handle_write, needs_authorization, route, target_of, write_status, Method, Route, Target, Write, WriteError,
};
use makatime::text::{parse_badge_path, str_eq, trim_extension};

fn vscode() -> Activity {
    Activity::new(
        "Visual Studio Code".to_string(),
        Some("data:image/png;base64,AAAA".to_string()),
    )
}

fn id(s: &str) -> String {
    s.to_string()
}

#[test]
fn end_to_end_put_get_delete_get() {
    let mut users = Users::new();
    let mut cache = AuthCache::new();

    assert_eq!(route(Method::Put, "/"), Route::Update);
    let token = bearer_token(Some("Bearer alice-token")).unwrap();
    assert_eq!(cache.lookup(&token, 1_000), None);
    let alice = cache
        .finish(&token, verified_identity(200, Some(id("alice"))), 1_000)
        .unwrap();
    assert_eq!(alice, "alice");
    let r = handle_write(&mut users, &Ok(alice.clone()), Write::Upsert(vscode()));
    assert_eq!(write_status(&r), 204);

    let reader = match route(Method::Get, "/alice.svg") {
        Route::Badge(who) => who,
        other => panic!("unexpected route {:?}", other),
    };
    assert_eq!(reader, "alice");
    let svg = users.get_activity_badge(&reader);
    assert!(svg.contains("Using Visual Studio Code"));
    assert!(svg.contains("data:image/png;base64,AAAA"));

    assert_eq!(route(Method::Delete, "/"), Route::Clear);
    let again = cache.lookup(&token, 1_010).unwrap();
    let r = handle_write(&mut users, &Ok(again), Write::Clear);
    assert_eq!(write_status(&r), 204);
    let svg = users.get_activity_badge(&reader);
    assert!(svg.contains("Sleeping"));
    assert!(!svg.contains("Visual Studio Code"));
    assert!(svg.contains("data:image/svg+xml;base64,"));
}

#[test]
fn put_then_get_reflects_record() {
    let mut cell = User::new();
    assert_eq!(cell.update_activity(vscode()), Ok(()));
    let got = cell.get_activity().unwrap();
    assert_eq!(got.name, "Visual Studio Code");
    assert_eq!(got.icon.as_deref(), Some("data:image/png;base64,AAAA"));

    let plain = Activity::new("Terminal".to_string(), None);
    assert_eq!(cell.update_activity(plain), Ok(()));
    let got = cell.get_activity().unwrap();
    assert_eq!(got.name, "Terminal");
    assert_eq!(got.icon, None);
}

#[test]
fn empty_name_is_refused_and_state_kept() {
    let mut users = Users::new();
    let alice = id("alice");
    assert_eq!(users.update_activity(&alice, vscode()), Ok(()));
    let empty = Activity::new(String::new(), Some("data:image/png;base64,BBBB".to_string()));
    assert_eq!(users.update_activity(&alice, empty), Err(ActivityError::EmptyName));
    let got = users.get_activity(&alice).unwrap();
    assert_eq!(got.name, "Visual Studio Code");
    assert_eq!(got.icon.as_deref(), Some("data:image/png;base64,AAAA"));

    let r = handle_write(&mut users, &Ok(alice.clone()), Write::Upsert(Activity::new(String::new(), None)));
    assert_eq!(r, Err(WriteError::Invalid(ActivityError::EmptyName)));
    assert_eq!(write_status(&r), 400);
    assert_eq!(users.get_activity(&alice).unwrap().name, "Visual Studio Code");
}

#[test]
fn delete_gives_idle_and_is_idempotent() {
    let mut users = Users::new();
    let bob = id("bob");
    users.delete_activity(&bob);
    assert!(users.get_activity(&bob).is_none());
    assert_eq!(users.update_activity(&bob, vscode()), Ok(()));
    users.delete_activity(&bob);
    assert!(users.get_activity(&bob).is_none());
    users.delete_activity(&bob);
    assert!(users.get_activity(&bob).is_none());
    let idle = render_badge(&idle_badge());
    assert_eq!(users.get_activity_badge(&bob), idle);
}

#[test]
fn cached_within_ttl_and_reverified_after() {
    let mut cache = AuthCache::new();
    let token = id("tok");
    let mut calls = 0;
    let mut resolve = |cache: &mut AuthCache, now: u64| -> Result<String, AuthError> {
        match cache.lookup(&token, now) {
            Some(who) => Ok(who),
            None => {
                calls += 1;
                cache.finish(&token, Some(id("carol")), now)
            }
        }
    };
    assert_eq!(resolve(&mut cache, 500), Ok(id("carol")));
    assert_eq!(resolve(&mut cache, 500 + CACHE_TTL_SECS - 1), Ok(id("carol")));
    drop(resolve);
    assert_eq!(calls, 1);

    let mut calls = 0;
    let mut cache = AuthCache::new();
    for now in [500, 500 + CACHE_TTL_SECS] {
        if cache.lookup(&token, now).is_none() {
            calls += 1;
            cache.finish(&token, Some(id("carol")), now).unwrap();
        }
    }
    assert_eq!(calls, 2);
}

#[test]
fn failed_verification_is_not_cached() {
    let mut cache = AuthCache::new();
    let token = id("bad");
    assert_eq!(cache.lookup(&token, 10), None);
    assert_eq!(cache.finish(&token, verified_identity(401, None), 10), Err(AuthError::Unauthorized));
    assert_eq!(cache.lookup(&token, 10), None);
    assert_eq!(cache.lookup(&token, 11), None);
}

#[test]
fn put_and_delete_last_complete_write_wins() {
    let mut first = Users::new();
    let dave = id("dave");
    assert_eq!(first.update_activity(&dave, vscode()), Ok(()));
    first.delete_activity(&dave);
    assert!(first.get_activity(&dave).is_none());

    let mut second = Users::new();
    second.delete_activity(&dave);
    assert_eq!(second.update_activity(&dave, vscode()), Ok(()));
    let got = second.get_activity(&dave).unwrap();
    assert_eq!(got.name, "Visual Studio Code");
    assert_eq!(got.icon.as_deref(), Some("data:image/png;base64,AAAA"));
}

#[test]
fn writes_to_distinct_identities_are_independent() {
    let mut users = Users::new();
    let a = id("a");
    let b = id("b");
    assert_eq!(users.update_activity(&a, vscode()), Ok(()));
    assert_eq!(users.update_activity(&b, Activity::new("Safari".to_string(), None)), Ok(()));
    users.delete_activity(&a);
    assert!(users.get_activity(&a).is_none());
    assert_eq!(users.get_activity(&b).unwrap().name, "Safari");
    assert_eq!(users.update_activity(&a, Activity::new("Mail".to_string(), None)), Ok(()));
    assert_eq!(users.get_activity(&b).unwrap().name, "Safari");
    assert_eq!(users.get_activity(&a).unwrap().name, "Mail");
}

#[test]
fn writes_never_take_identity_from_path() {
    assert_eq!(route(Method::Put, "/bob"), Route::NotFound);
    assert_eq!(route(Method::Delete, "/bob.svg"), Route::NotFound);
    assert_eq!(route(Method::Put, "/"), Route::Update);
    let mut users = Users::new();
    let r = handle_write(&mut users, &Err(AuthError::Unauthorized), Write::Upsert(vscode()));
    assert_eq!(r, Err(WriteError::Unauthorized));
    assert_eq!(write_status(&r), 401);
    assert!(users.get_activity(&id("bob")).is_none());
    let r = handle_write(&mut users, &Ok(id("alice")), Write::Upsert(vscode()));
    assert_eq!(r, Ok(()));
    assert!(users.get_activity(&id("bob")).is_none());
    assert!(users.get_activity(&id("alice")).is_some());
}

#[test]
fn routes_of_reads_and_unknowns() {
    assert_eq!(route(Method::Get, "/alice.svg"), Route::Badge(id("alice")));
    assert_eq!(route(Method::Get, "/Alice"), Route::Badge(id("Alice")));
    assert_eq!(route(Method::Get, "/a.svg.svg"), Route::Badge(id("a.svg")));
    assert_eq!(route(Method::Get, "/b.svg.svg"), Route::Badge(id("b.svg")));
    assert_eq!(route(Method::Get, "/.svg"), Route::NotFound);
    assert_eq!(route(Method::Get, "/"), Route::NotFound);
    assert_eq!(route(Method::Get, "/a/b.svg"), Route::NotFound);
    assert_eq!(route(Method::Get, ""), Route::NotFound);
    assert_eq!(route(Method::Other, "/"), Route::NotFound);
    assert_eq!(route(Method::Other, "/alice.svg"), Route::NotFound);
}

#[test]
fn badge_path_and_extension_trimming() {
    assert_eq!(parse_badge_path("/kally.svg"), Some(id("kally")));
    assert_eq!(parse_badge_path("/kally.png"), Some(id("kally.png")));
    assert_eq!(parse_badge_path("kally.svg"), None);
    assert_eq!(parse_badge_path("/.svg"), None);
    assert_eq!(parse_badge_path("/.svg.svg"), Some(id(".svg")));
    assert_eq!(trim_extension("x.svg.svg"), "x.svg");
    assert_eq!(trim_extension("svg"), "svg");
    assert_eq!(trim_extension(".svg"), "");
    assert!(str_eq("abc", "abc"));
    assert!(!str_eq("abc", "abd"));
    assert!(!str_eq("abc", "ab"));
}

#[test]
fn bearer_header_parsing() {
    assert_eq!(bearer_token(Some("Bearer abc123")), Ok(id("abc123")));
    assert_eq!(bearer_token(Some("bearer abc123")), Ok(id("abc123")));
    assert_eq!(bearer_token(Some("Basic abc123")), Err(AuthError::Unauthorized));
    assert_eq!(bearer_token(Some("Bearer")), Err(AuthError::Unauthorized));
    assert_eq!(bearer_token(None), Err(AuthError::Unauthorized));
    assert_eq!(bearer_token(Some("BEARER   spaced")), Ok(id("spaced")));
    assert_eq!(bearer_token(Some("Bearer ")), Ok(id("")));
    assert_eq!(bearer_token(Some("Bearer\tabc")), Err(AuthError::Unauthorized));
    assert_eq!(bearer_token(Some("Bearer abc\u{e9}")), Err(AuthError::Unauthorized));
    assert_eq!(bearer_token(Some("Bearer ab\u{1}c")), Err(AuthError::Unauthorized));
    assert_eq!(token_key("abc"), "tokens/abc");
    assert_eq!(authorization_value("abc"), "Bearer abc");
}

#[test]
fn provider_answers() {
    assert_eq!(verified_identity(200, Some(id("alice"))), Some(id("alice")));
    assert_eq!(verified_identity(200, None), None);
    assert_eq!(verified_identity(401, Some(id("alice"))), None);
    assert_eq!(verified_identity(500, Some(id("alice"))), None);
}

#[test]
fn badge_contents() {
    let busy = activity_badge(&vscode());
    assert_eq!(busy.label, "Using Visual Studio Code");
    assert_eq!(busy.icon.as_deref(), Some("data:image/png;base64,AAAA"));
    assert_eq!(busy.status, "Now");
    let idle = badge_content(&None);
    assert_eq!(idle.label, "Sleeping");
    assert_eq!(idle.status, "Now");
    assert!(idle.icon.unwrap().starts_with("data:image/svg+xml;base64,PHN2Zy"));
}

#[test]
fn base64_icons() {
    assert_eq!(png_icon_uri(&[0, 0, 0]), "data:image/png;base64,AAAA");
    assert_eq!(png_icon_uri(b"Man"), "data:image/png;base64,TWFu");
    assert_eq!(png_icon_uri(b"Ma"), "data:image/png;base64,TWE=");
    assert_eq!(png_icon_uri(&[]), "data:image/png;base64,");
    assert_eq!(svg_icon_uri("<svg/>"), "data:image/svg+xml;base64,PHN2Zy8+");
}

#[test]
fn rendered_badge_shows_label() {
    let svg = render_badge(&activity_badge(&Activity::new("Zed".to_string(), None)));
    assert!(svg.starts_with("<svg") || svg.contains("<svg"));
    assert!(svg.contains("Using Zed"));
    assert!(svg.contains("Now"));
}

#[test]
fn client_reports() {
    assert_eq!(report_for("loginwindow", b"png"), Report::Clear);
    assert_eq!(
        report_for("Finder", b"Man"),
        Report::Update { name: id("Finder"), icon: id("data:image/png;base64,TWFu") }
    );
}

#[test]
fn cell_dispatch() {
    let mut cell = User::new();
    assert!(matches!(cell.fetch(CellRequest::Put(vscode())), CellResponse::NoContent));
    match cell.fetch(CellRequest::Get) {
        CellResponse::Badge(svg) => assert!(svg.contains("Using Visual Studio Code")),
        _ => panic!("expected a badge"),
    }
    assert!(matches!(
        cell.fetch(CellRequest::Put(Activity::new(String::new(), None))),
        CellResponse::Invalid(ActivityError::EmptyName)
    ));
    assert!(matches!(cell.fetch(CellRequest::Delete), CellResponse::NoContent));
    assert!(cell.get_activity().is_none());
    assert!(matches!(cell.fetch(CellRequest::Other), CellResponse::NotAllowed));
}

#[test]
fn cache_steps_for_a_shared_store() {
    assert_eq!(on_cache_read(Some(id("alice"))), AuthStep::Resolved(id("alice")));
    assert_eq!(on_cache_read(None), AuthStep::Verify);
    let (outcome, write) = on_verified("tok", 200, Some(id("alice")));
    assert_eq!(outcome, Ok(id("alice")));
    assert_eq!(
        write,
        Some(CacheWrite { key: id("tokens/tok"), identity: id("alice"), ttl_secs: 60 })
    );
    assert_eq!(on_verified("tok", 401, Some(id("alice"))), (Err(AuthError::Unauthorized), None));
    assert_eq!(on_verified("tok", 200, None), (Err(AuthError::Unauthorized), None));
}

#[test]
fn cache_expiry_boundary() {
    let mut cache = AuthCache::new();
    let token = id("t");
    cache.finish(&token, Some(id("erin")), u64::MAX).unwrap();
    assert_eq!(cache.lookup(&token, u64::MAX), Some(id("erin")));
    cache.finish(&token, Some(id("erin")), 100).unwrap();
    assert_eq!(cache.lookup(&token, 159), Some(id("erin")));
    assert_eq!(cache.lookup(&token, 160), None);
}

#[test]
fn targets_of_routes() {
    assert!(needs_authorization(&Route::Update));
    assert!(needs_authorization(&Route::Clear));
    assert!(!needs_authorization(&Route::Badge(id("a"))));
    assert!(!needs_authorization(&Route::NotFound));
    assert_eq!(target_of(Route::Badge(id("a")), None), Target::Cell(id("a")));
    assert_eq!(target_of(Route::Update, Some(Ok(id("b")))), Target::Cell(id("b")));
    assert_eq!(target_of(Route::Clear, Some(Err(AuthError::Unauthorized))), Target::Status(401));
    assert_eq!(target_of(Route::Update, None), Target::Status(401));
    assert_eq!(target_of(Route::NotFound, None), Target::Status(404));
}
