use dedenne::bodies::TallyBody;
use dedenne::bodies::TemplateBody;
use dedenne::GeneratorResponse;
use dedenne::GeneratorWrapper;

#[test]
fn wrapping() {
    let mut gen = GeneratorWrapper::new(TallyBody::CountOnes { left: 0, count: 0 });

    assert!(matches!(gen.start(5), GeneratorResponse::Yielding("One")));

    assert!(matches!(gen.query(3), Ok(GeneratorResponse::Yielding("One"))));
    assert!(matches!(gen.query(7), Ok(GeneratorResponse::Yielding("One"))));
    assert!(matches!(gen.query(1), Ok(GeneratorResponse::Yielding("One"))));
    assert!(matches!(gen.query(2), Ok(GeneratorResponse::Yielding("One"))));

    for _ in 0..(3 + 7 + 1 + 2) {
        assert!(matches!(gen.query(0), Ok(GeneratorResponse::Yielding("Two"))));
    }

    assert!(matches!(gen.query(0), Ok(GeneratorResponse::Done("All done!"))));
}

#[test]
fn has_started_tracks_lifecycle() {
    let body = TemplateBody {
        prompts: vec!["first?"],
        pieces: vec!["[", "]"],
        answers: Vec::new(),
    };
    let mut gen = GeneratorWrapper::new(body);
    assert!(!gen.has_started());
    assert!(matches!(gen.start(()), GeneratorResponse::Yielding("first?")));
    assert!(gen.has_started());
    assert!(matches!(
        gen.query(String::from("thing")),
        Ok(GeneratorResponse::Done(y)) if y == "[thing]"
    ));
    assert!(gen.has_started());
}

#[test]
fn tally_with_no_ones_finishes_at_start() {
    let mut gen = GeneratorWrapper::new(TallyBody::CountOnes { left: 0, count: 0 });
    assert!(matches!(gen.start(0), GeneratorResponse::Done("All done!")));
}
