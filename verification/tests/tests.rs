use dedenne::bodies::DoubleUntil;
use dedenne::bodies::ScriptedBody;
use dedenne::bodies::TemplateBody;
use dedenne::AlreadyFinished;
use dedenne::GeneratorResponse;
use dedenne::StartedGenerator;

#[test]
fn start() {
    let (mut generator, mut resp) =
        StartedGenerator::run_with(1u32, DoubleUntil { acc: 0, threshold: 65536 });

    loop {
        match resp {
            GeneratorResponse::Yielding(r) => {
                assert!(r.is_power_of_two());
            }
            GeneratorResponse::Done(done) => {
                assert_eq!(done, "All done!");
                break;
            }
        }
        resp = generator.resume().unwrap();
    }
}

#[test]
fn non_unit_q() {
    let body = TemplateBody {
        prompts: vec!["What is your name?", "How old are you?", "Where are you from?"],
        pieces: vec!["Hello, ", ", ", " years old, from ", "!"],
        answers: Vec::new(),
    };
    let (mut generator, resp) = StartedGenerator::run(body);

    assert!(matches!(
        resp,
        GeneratorResponse::Yielding(y) if y == "What is your name?"
    ));
    assert!(matches!(
        generator.query(String::from("Petra")),
        Ok(GeneratorResponse::Yielding(y)) if y == "How old are you?"
    ));
    assert!(matches!(
        generator.query(String::from("69")),
        Ok(GeneratorResponse::Yielding(y)) if y == "Where are you from?"
    ));
    assert!(matches!(
        generator.query(String::from("Earth")),
        Ok(GeneratorResponse::Done(y))
            if y == "Hello, Petra, 69 years old, from Earth!"
    ));
}

#[test]
fn two_prompts_joined() {
    let body = TemplateBody {
        prompts: vec!["name?", "age?"],
        pieces: vec!["", "-", ""],
        answers: Vec::new(),
    };
    let (mut generator, resp) = StartedGenerator::run(body);
    assert!(matches!(resp, GeneratorResponse::Yielding("name?")));
    assert!(matches!(
        generator.query(String::from("Ann")),
        Ok(GeneratorResponse::Yielding("age?"))
    ));
    assert!(matches!(
        generator.query(String::from("30")),
        Ok(GeneratorResponse::Done(y)) if y == "Ann-30"
    ));
}

#[test]
fn unit_script_scenario() {
    let body = ScriptedBody { yields: vec![1u32, 2u32], result: "done" };
    let (mut generator, resp) = StartedGenerator::run(body);
    assert!(matches!(resp, GeneratorResponse::Yielding(1)));
    assert_eq!(generator.query(()), Ok(GeneratorResponse::Yielding(2)));
    assert_eq!(generator.query(()), Ok(GeneratorResponse::Done("done")));
    assert_eq!(generator.query(()), Err(AlreadyFinished));
}

#[test]
fn zero_suspension_points() {
    let script: Vec<u32> = Vec::new();
    let (mut generator, resp) = StartedGenerator::run(ScriptedBody { yields: script, result: 42u64 });
    assert!(matches!(resp, GeneratorResponse::Done(42)));
    assert_eq!(generator.query(()), Err(AlreadyFinished));
}

#[test]
fn query_after_done_is_recoverable() {
    let body = ScriptedBody { yields: vec![7i32], result: "over" };
    let (mut generator, resp) = StartedGenerator::run(body);
    assert!(matches!(resp, GeneratorResponse::Yielding(7)));
    assert_eq!(generator.query(()), Ok(GeneratorResponse::Done("over")));
    // Every further query keeps reporting the same recoverable error: never a
    // stale yielded value, never an abort.
    assert_eq!(generator.query(()), Err(AlreadyFinished));
    assert_eq!(generator.query(()), Err(AlreadyFinished));
    assert_eq!(generator.resume(), Err(AlreadyFinished));
}
