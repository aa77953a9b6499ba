//! The route registry, dispatch and the middleware-chain driver.

use web_server::App;
use web_server::ChainDriver;
use web_server::ChainOutcome;
use web_server::HttpError;
use web_server::Method;

#[test]
fn exact_route_resolves_to_its_handler() {
    let mut app = App::new();
    app.register(Method::Get, "/".to_string(), 0);
    app.register(Method::Get, "/about".to_string(), 1);
    app.register(Method::Post, "/".to_string(), 2);
    assert_eq!(app.resolve(Method::Get, "/"), Some(0));
    assert_eq!(app.resolve(Method::Get, "/about"), Some(1));
    assert_eq!(app.resolve(Method::Post, "/"), Some(2));
    assert_eq!(app.resolve(Method::Get, "/missing"), None);
    assert_eq!(app.resolve(Method::Post, "/about"), None);
}

#[test]
fn paths_match_byte_for_byte() {
    let mut app = App::new();
    app.register(Method::Get, "/home".to_string(), 7);
    assert_eq!(app.resolve(Method::Get, "/home/"), None);
    assert_eq!(app.resolve(Method::Get, "/Home"), None);
    assert_eq!(app.resolve(Method::Get, "home"), None);
}

#[test]
fn unmatched_requests_fall_back() {
    let mut app = App::new();
    app.register(Method::Get, "/".to_string(), 0);
    assert_eq!(app.dispatch_target(Method::Get, "/missing"), None);
    app.set_fallback(9);
    assert_eq!(app.fallback(), Some(9));
    assert_eq!(app.dispatch_target(Method::Get, "/missing"), Some(9));
    assert_eq!(app.dispatch_target(Method::Get, "/"), Some(0));
}

#[test]
fn reregistering_overwrites_the_handler() {
    let mut app = App::new();
    app.register(Method::Get, "/".to_string(), 1);
    app.register(Method::Get, "/".to_string(), 2);
    assert_eq!(app.resolve(Method::Get, "/"), Some(2));
    assert_eq!(app.dispatch_target(Method::Get, "/"), Some(2));
}

#[test]
fn the_nine_method_helpers_register_distinct_routes() {
    let mut app = App::new();
    app.connect("/x".to_string(), 0);
    app.get("/x".to_string(), 1);
    app.post("/x".to_string(), 2);
    app.delete("/x".to_string(), 3);
    app.head("/x".to_string(), 4);
    app.put("/x".to_string(), 5);
    app.patch("/x".to_string(), 6);
    app.trace("/x".to_string(), 7);
    app.options("/x".to_string(), 8);
    assert_eq!(app.resolve(Method::Connect, "/x"), Some(0));
    assert_eq!(app.resolve(Method::Get, "/x"), Some(1));
    assert_eq!(app.resolve(Method::Post, "/x"), Some(2));
    assert_eq!(app.resolve(Method::Delete, "/x"), Some(3));
    assert_eq!(app.resolve(Method::Head, "/x"), Some(4));
    assert_eq!(app.resolve(Method::Put, "/x"), Some(5));
    assert_eq!(app.resolve(Method::Patch, "/x"), Some(6));
    assert_eq!(app.resolve(Method::Trace, "/x"), Some(7));
    assert_eq!(app.resolve(Method::Options, "/x"), Some(8));
}

#[test]
fn middleware_slots_count_up_in_order() {
    let mut app = App::new();
    assert_eq!(app.middleware_len(), 0);
    assert_eq!(app.use_middleware(), 0);
    assert_eq!(app.use_middleware(), 1);
    assert_eq!(app.use_middleware(), 2);
    assert_eq!(app.middleware_len(), 3);
}

#[test]
fn chain_runs_every_middleware_in_order_then_dispatches() {
    let mut driver = ChainDriver::new(3);
    let mut ran: Vec<usize> = Vec::new();
    while let Some(i) = driver.current() {
        ran.push(i);
        driver.advance(&Ok(ChainOutcome::Continue));
    }
    assert_eq!(ran, vec![0, 1, 2]);
    assert!(driver.should_dispatch());
}

#[test]
fn stop_prevents_later_middleware_and_dispatch() {
    let mut driver = ChainDriver::new(3);
    let mut ran: Vec<usize> = Vec::new();
    while let Some(i) = driver.current() {
        ran.push(i);
        if i == 1 {
            driver.advance(&Ok(ChainOutcome::Stop));
        } else {
            driver.advance(&Ok(ChainOutcome::Continue));
        }
    }
    assert_eq!(ran, vec![0, 1]);
    assert!(!driver.should_dispatch());
}

#[test]
fn a_middleware_error_aborts_the_chain() {
    let mut driver = ChainDriver::new(2);
    let first = driver.current();
    assert_eq!(first, Some(0));
    driver.advance(&Err(HttpError::IoError));
    assert_eq!(driver.current(), None);
    assert!(!driver.should_dispatch());
}

#[test]
fn an_empty_chain_dispatches_at_once() {
    let driver = ChainDriver::new(0);
    assert_eq!(driver.current(), None);
    assert!(driver.should_dispatch());
}
