use dedenne::bodies::DoublingBody;
use dedenne::bodies::ScriptedBody;
use dedenne::GeneratorIteratorState;
use dedenne::GeneratorResponse;
use dedenne::StartedGenerator;
use dedenne::VecSource;

#[test]
fn exhaust_inner() {
    let mut queries: Vec<u32> = Vec::new();
    for i in 0..10u32 {
        queries.push(i);
    }

    let body = DoublingBody {
        acc: 1,
        round: 0,
        rounds: 20,
        amplify: true,
        done_msg: "last i checked 20 > 10",
    };
    let mut geniterator = StartedGenerator::jumpstart_iter_over(VecSource::new(queries), body);

    while let Some(x) = geniterator.next() {
        assert!(x.is_power_of_two());
    }

    assert!(matches!(
        geniterator.inner(),
        GeneratorIteratorState::ExhaustedIterator(..)
    ));
}

#[test]
fn finish_generator() {
    // This source holds twice the queries the body will ever consume.
    let mut queries: Vec<u32> = Vec::new();
    for i in 0..20u32 {
        queries.push(i);
    }

    let body = DoublingBody {
        acc: 1,
        round: 0,
        rounds: 10,
        amplify: false,
        done_msg: "All done!",
    };
    let mut geniterator = StartedGenerator::jumpstart_iter_over(VecSource::new(queries), body);

    while let Some(x) = geniterator.next() {
        assert!(x.is_power_of_two());
    }

    assert!(
        matches!(
            geniterator.inner(),
            GeneratorIteratorState::GeneratorDone("All done!", _)
        ),
        "last i checked 20 > 10"
    );
}

#[test]
fn smoke_test() {
    let mut script: Vec<i32> = vec![-5, -7];
    // and from now on, only positives
    for x in 1..100i32 {
        script.push(x);
    }
    let (mut gen, resp) = StartedGenerator::run(ScriptedBody { yields: script, result: "All done!" });
    assert!(matches!(resp, GeneratorResponse::Yielding(-5)));
    assert!(matches!(gen.resume(), Ok(GeneratorResponse::Yielding(-7))));

    let mut iter = gen.iter();
    while let Some(yielded) = iter.next() {
        assert!(yielded > 0);
    }

    assert_eq!(iter.consume_response(), Some("All done!"));
}

#[test]
fn jumpstart_over_body_that_never_suspends() {
    let script: Vec<u32> = Vec::new();
    let queries: Vec<()> = vec![(), ()];
    let body = ScriptedBody { yields: script, result: "immediate" };
    let mut geniterator = StartedGenerator::jumpstart_iter_over(VecSource::new(queries), body);
    assert_eq!(geniterator.next(), None);
    assert!(matches!(
        geniterator.inner(),
        GeneratorIteratorState::GeneratorDone("immediate", _)
    ));
    assert_eq!(geniterator.consume_response(), Some("immediate"));
}

#[test]
fn consume_response_before_done_is_none() {
    let body = ScriptedBody { yields: vec![10u32, 20u32], result: "unseen" };
    let (gen, resp) = StartedGenerator::run(body);
    assert!(matches!(resp, GeneratorResponse::Yielding(10)));
    let iter = gen.iter();
    assert_eq!(iter.consume_response(), None);
}
