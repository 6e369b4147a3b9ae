use std::time::Duration;
use std::time::Instant;

use curlmaster::dispatch::classify_transport_error;
use curlmaster::dispatch::RaceOutcome;
use curlmaster::dispatch::RequestEngine;
use curlmaster::models::HttpError;
use curlmaster::models::HttpResponse;
use curlmaster::models::RequestBody;
use curlmaster::models::RequestConfig;
use curlmaster::models::ResponseBody;
use curlmaster::models::SendResult;

fn config() -> RequestConfig {
    RequestConfig {
        method: "GET".to_string(),
        url: "http://example.test/get".to_string(),
        headers: Vec::new(),
        params: Vec::new(),
        body: RequestBody::Empty,
        auth: None,
        timeout_ms: 50,
        ignore_tls: false,
        follow_redirects: true,
    }
}

fn response_stub() -> HttpResponse {
    HttpResponse {
        status: 200,
        status_text: "OK".to_string(),
        headers: Vec::new(),
        body: ResponseBody::Text { content: "ok".to_string() },
        size_bytes: 2,
        time_ms: 1,
        content_type: None,
        content_encoding: None,
    }
}

#[test]
fn cancel_is_idempotent_per_handle() {
    let mut engine = RequestEngine::new(10).expect("engine");
    let (handle, _registration, _snapshot) = engine.begin_dispatch(&config());
    assert_eq!(handle.len(), 36);
    assert!(engine.cancel_request(&handle));
    assert!(!engine.cancel_request(&handle));
}

#[test]
fn cancel_of_an_unknown_handle_reports_false() {
    let mut engine = RequestEngine::new(10).expect("engine");
    assert!(!engine.cancel_request("no-such-handle"));
}

#[test]
fn completion_clears_the_entry_so_cancel_finds_nothing() {
    let mut engine = RequestEngine::new(10).expect("engine");
    let (handle, _registration, _snapshot) = engine.begin_dispatch(&config());
    let result = engine.finish_dispatch(
        handle.clone(),
        RaceOutcome::Finished { result: Ok(response_stub()) },
    );
    assert!(matches!(result, SendResult::Success { .. }));
    assert!(!engine.cancel_request(&handle));
}

#[test]
fn settle_maps_every_outcome_to_its_terminal_result() {
    let mut engine = RequestEngine::new(10).expect("engine");

    let (h1, _r1, _s1) = engine.begin_dispatch(&config());
    match engine.finish_dispatch(h1.clone(), RaceOutcome::Finished { result: Ok(response_stub()) })
    {
        SendResult::Success { request_id, response } => {
            assert_eq!(request_id, h1);
            assert_eq!(response.status, 200);
        }
        other => panic!("unexpected result: {:?}", other),
    }

    let (h2, _r2, _s2) = engine.begin_dispatch(&config());
    let network = HttpError::Network { message: "refused".to_string() };
    match engine.finish_dispatch(h2.clone(), RaceOutcome::Finished { result: Err(network) }) {
        SendResult::Failed { request_id, error } => {
            assert_eq!(request_id, h2);
            assert_eq!(error, HttpError::Network { message: "refused".to_string() });
        }
        other => panic!("unexpected result: {:?}", other),
    }

    let (h3, _r3, _s3) = engine.begin_dispatch(&config());
    match engine.finish_dispatch(h3.clone(), RaceOutcome::TimedOut) {
        SendResult::Failed { request_id, error } => {
            assert_eq!(request_id, h3);
            assert_eq!(error, HttpError::Timeout);
        }
        other => panic!("unexpected result: {:?}", other),
    }

    let (h4, _r4, _s4) = engine.begin_dispatch(&config());
    match engine.finish_dispatch(h4.clone(), RaceOutcome::Aborted) {
        SendResult::Failed { request_id, error } => {
            assert_eq!(request_id, h4);
            assert_eq!(error, HttpError::Cancelled);
        }
        other => panic!("unexpected result: {:?}", other),
    }
}

#[test]
fn timeout_wins_the_race_within_a_bounded_margin() {
    let rt = tokio::runtime::Runtime::new().expect("runtime");
    let mut engine = RequestEngine::new(10).expect("engine");
    let cfg = config();
    let (handle, registration, _snapshot) = engine.begin_dispatch(&cfg);

    let started = Instant::now();
    let raced = rt.block_on(async {
        // A handler that never returns, raced against the configured timeout.
        let work = futures::future::Abortable::new(
            futures::future::pending::<Result<HttpResponse, HttpError>>(),
            registration,
        );
        tokio::time::timeout(Duration::from_millis(cfg.timeout_ms), work).await
    });
    let elapsed = started.elapsed();
    assert!(raced.is_err(), "the timer should fire first");
    assert!(elapsed <= Duration::from_millis(200), "took {:?}", elapsed);

    let result = engine.finish_dispatch(handle.clone(), RaceOutcome::TimedOut);
    assert!(
        matches!(&result, SendResult::Failed { error: HttpError::Timeout, .. }),
        "unexpected result: {:?}",
        result
    );
    // The entry was removed with the terminal outcome.
    assert!(!engine.cancel_request(&handle));
}

#[test]
fn external_cancel_aborts_the_work() {
    let rt = tokio::runtime::Runtime::new().expect("runtime");
    let mut engine = RequestEngine::new(10).expect("engine");
    let cfg = config();
    let (handle, registration, _snapshot) = engine.begin_dispatch(&cfg);

    assert!(engine.cancel_request(&handle));
    let raced = rt.block_on(async {
        let work = futures::future::Abortable::new(
            futures::future::pending::<Result<HttpResponse, HttpError>>(),
            registration,
        );
        tokio::time::timeout(Duration::from_millis(5000), work).await
    });
    match raced {
        Ok(Err(_aborted)) => {}
        other => panic!("expected the abort signal to win, got {:?}", other),
    }
    let result = engine.finish_dispatch(handle, RaceOutcome::Aborted);
    assert!(matches!(result, SendResult::Failed { error: HttpError::Cancelled, .. }));
}

#[test]
fn pool_snapshot_keeps_its_limit_across_a_rebuild() {
    let mut engine = RequestEngine::new(10).expect("engine");
    let (_handle, _registration, snapshot) = engine.begin_dispatch(&config());
    assert!(engine.rebuild_pool(5));
    assert_eq!(snapshot.max_redirects, 10);
    assert_eq!(engine.pool.max_redirects, 5);
    let (_h2, _r2, snapshot2) = engine.begin_dispatch(&config());
    assert_eq!(snapshot2.max_redirects, 5);
}

#[test]
fn transport_errors_classify_by_report_order() {
    assert_eq!(
        classify_transport_error(true, false, false, "t".to_string()),
        HttpError::Timeout
    );
    assert_eq!(
        classify_transport_error(false, true, false, "c".to_string()),
        HttpError::Network { message: "c".to_string() }
    );
    assert_eq!(
        classify_transport_error(false, false, true, "r".to_string()),
        HttpError::InvalidUrl { message: "r".to_string() }
    );
    assert_eq!(
        classify_transport_error(false, false, false, "o".to_string()),
        HttpError::Network { message: "o".to_string() }
    );
}
