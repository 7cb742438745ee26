use dedenne::bodies::DoubleUntil;
use dedenne::bodies::DoublingBody;
use dedenne::bodies::ScriptedBody;
use dedenne::laws::run_session;

#[test]
fn session_collects_whole_trace() {
    let body = DoubleUntil { acc: 0, threshold: 16 };
    let queries: Vec<()> = vec![(); 10];
    let (yields, outcome) = run_session(body, 1u32, queries);
    assert_eq!(yields, vec![2u32, 4, 8, 16]);
    assert_eq!(outcome, Some("All done!"));
}

#[test]
fn session_stops_when_queries_run_out() {
    let body = ScriptedBody { yields: vec![10u32, 20u32, 30u32], result: "never reached" };
    let queries: Vec<()> = vec![(); 1];
    let (yields, outcome) = run_session(body, (), queries);
    assert_eq!(yields, vec![10u32, 20u32]);
    assert_eq!(outcome, None);
}

#[test]
fn session_with_no_suspension_points() {
    let script: Vec<u32> = Vec::new();
    let body = ScriptedBody { yields: script, result: 9u8 };
    let (yields, outcome) = run_session(body, (), Vec::new());
    assert_eq!(yields, Vec::<u32>::new());
    assert_eq!(outcome, Some(9u8));
}

#[test]
fn session_repeats_identically() {
    let make = || DoublingBody {
        acc: 1,
        round: 0,
        rounds: 5,
        amplify: false,
        done_msg: "All done!",
    };
    let queries = || vec![0u32, 1, 2, 3, 4, 5];
    let first = run_session(make(), (), queries());
    let second = run_session(make(), (), queries());
    assert_eq!(first, second);
    assert_eq!(first.0, vec![2u32, 4, 8, 16, 32]);
    assert_eq!(first.1, Some("All done!"));
}
