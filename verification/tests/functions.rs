use bright::brightness::ast::functions::{
    ArgumentCount, BrightnessEvaluationError, Builtin, EvalEnv, EvalOutcome, PercentAnswer,
    RestoreRead, get_function,
};
use bright::brightness::ast::{Ast, ChangeDirection};
use bright::restoration::device_restore_path;
use bright::brightness::ast::functions::{Clamp, Current, Max, Min, Restore};

#[test]
fn test_argument_count_validity() {
    assert!(ArgumentCount::new(0, Some(0)).valid(0));
    assert!(ArgumentCount::new(2, None).valid(4));
}

#[test]
fn argument_count_rejects() {
    assert!(!ArgumentCount::new(0, Some(0)).valid(1));
    assert!(!ArgumentCount::new(2, None).valid(1));
    assert!(!ArgumentCount::new(3, Some(3)).valid(2));
}

#[test]
fn registry_lookup() {
    assert_eq!(get_function("current"), Some(Builtin::Current));
    assert_eq!(get_function("clamp"), Some(Builtin::Clamp));
    assert_eq!(get_function("max"), Some(Builtin::Max));
    assert_eq!(get_function("min"), Some(Builtin::Min));
    assert_eq!(get_function("restore"), Some(Builtin::Restore));
    assert_eq!(get_function("never_existing"), None);
}

/// A snapshot of a linear-easing device: percent literals resolve
/// through the identity curve, as the evaluator's caller would compute
/// them.
fn linear_env(current: u16, max: u16, ast: &Ast) -> EvalEnv {
    let mut percent = Vec::new();
    for (direction, value) in ast.percent_queries() {
        let cur_p = current as f64 / max as f64;
        let v = value as f64 / 100.0;
        let new_p = match direction {
            ChangeDirection::Inc => (cur_p + v).clamp(0.0, 1.0),
            ChangeDirection::Dec => (cur_p - v).clamp(0.0, 1.0),
            ChangeDirection::Abs => v,
        };
        let result = (new_p * max as f64) as u16;
        percent.push(PercentAnswer {
            direction,
            value,
            result,
        });
    }
    EvalEnv {
        current,
        max,
        percent,
        restore: RestoreRead::Missing,
        restore_path: device_restore_path("TestDevice"),
    }
}

fn eval(text: &str, current: u16, max: u16) -> Result<u16, BrightnessEvaluationError> {
    let ast = Ast::from_str(text).unwrap();
    let env = linear_env(current, max, &ast);
    ast.evaluate(&env)
}

#[test]
fn test_ast_evaluation() {
    assert_eq!(eval("current", 500, 1_000).unwrap(), 500);
    assert_eq!(eval("100+", 500, 1_000).unwrap(), 600);
    assert_eq!(eval("100+", 500, 1_000).unwrap(), 600);
    assert_eq!(eval("clamp(20, 200+, 90%)", 500, 1_000).unwrap(), 700);
    assert_eq!(eval("clamp(20, 200+, 90%)", 800, 1_000).unwrap(), 900);
}

#[test]
fn test_ast_fail() {
    assert!(eval("clamp", 800, 1_000).is_err());
    assert!(eval("never_existing", 800, 1_000).is_err());
    assert!(eval("current(20)", 800, 1_000).is_err());
}

#[test]
fn evaluation_error_variants() {
    match eval("never_existing", 500, 1_000).unwrap_err() {
        BrightnessEvaluationError::UnsupportedFunction(name) => {
            assert_eq!(name, "never_existing");
        }
        other => panic!("expected UnsupportedFunction, got {:?}", other),
    }
    match eval("current(20)", 500, 1_000).unwrap_err() {
        BrightnessEvaluationError::WrongArgumentCount {
            function,
            provided,
            min,
            max,
        } => {
            assert_eq!(function, "current");
            assert_eq!(provided, 1);
            assert_eq!(min, 0);
            assert_eq!(max, Some(0));
        }
        other => panic!("expected WrongArgumentCount, got {:?}", other),
    }
    match eval("restore", 500, 1_000).unwrap_err() {
        BrightnessEvaluationError::MissingFile(path) => {
            assert_eq!(path, "/tmp/bright/TestDevice");
        }
        other => panic!("expected MissingFile, got {:?}", other),
    }
}

#[test]
fn literal_arithmetic() {
    // Absolute literals are taken verbatim, not clamped to the maximum.
    assert_eq!(eval("2000", 500, 1_000).unwrap(), 2000);
    // Increase saturates and is capped at the maximum.
    assert_eq!(eval("600+", 500, 1_000).unwrap(), 1_000);
    // Decrease floors at zero.
    assert_eq!(eval("600-", 500, 1_000).unwrap(), 0);
    assert_eq!(eval("100-", 500, 1_000).unwrap(), 400);
}

#[test]
fn percent_literals_via_linear_easing() {
    assert_eq!(eval("90%", 500, 1_000).unwrap(), 900);
    assert_eq!(eval("10%+", 500, 1_000).unwrap(), 600);
    assert_eq!(eval("10%-", 500, 1_000).unwrap(), 400);
    // Increase clamps the perceptual value at 1.
    assert_eq!(eval("90%+", 500, 1_000).unwrap(), 1_000);
    // Decrease clamps the perceptual value at 0.
    assert_eq!(eval("90%-", 500, 1_000).unwrap(), 0);
}

#[test]
fn min_max_fold() {
    assert_eq!(eval("max(10, 30, 20)", 500, 1_000).unwrap(), 30);
    assert_eq!(eval("min(10, 30, 20)", 500, 1_000).unwrap(), 10);
    assert_eq!(eval("min(current(), 400)", 500, 1_000).unwrap(), 400);
    assert_eq!(eval("max(current(), 400)", 500, 1_000).unwrap(), 500);
}

#[test]
fn restore_reads_persisted_content() {
    let ast = Ast::from_str("restore").unwrap();
    assert!(ast.uses_restore());

    let mut env = linear_env(500, 1_000, &ast);
    env.restore = RestoreRead::Content(String::from("321"));
    assert_eq!(ast.evaluate(&env).unwrap(), 321);

    env.restore = RestoreRead::Content(String::from("32x"));
    match ast.evaluate(&env).unwrap_err() {
        BrightnessEvaluationError::Other(msg) => {
            assert_eq!(msg, "invalid digit found in string");
        }
        other => panic!("expected Other, got {:?}", other),
    }

    env.restore = RestoreRead::Unreadable(String::from("permission denied"));
    match ast.evaluate(&env).unwrap_err() {
        BrightnessEvaluationError::Other(msg) => {
            assert_eq!(msg, "permission denied");
        }
        other => panic!("expected Other, got {:?}", other),
    }

    let plain = Ast::from_str("current").unwrap();
    assert!(!plain.uses_restore());
}

#[test]
fn inverted_clamp_is_reported() {
    let ast = Ast::from_str("clamp(30, 15, 10)").unwrap();
    let env = linear_env(500, 1_000, &ast);
    match ast.evaluate_checked(&env) {
        EvalOutcome::InvalidClamp { lower, upper } => {
            assert_eq!(lower, 30);
            assert_eq!(upper, 10);
        }
        other => panic!("expected InvalidClamp, got {:?}", other),
    }
}

#[test]
fn unanswered_percent_is_reported() {
    let ast = Ast::from_str("50%").unwrap();
    let env = EvalEnv {
        current: 500,
        max: 1_000,
        percent: Vec::new(),
        restore: RestoreRead::Missing,
        restore_path: device_restore_path("TestDevice"),
    };
    match ast.evaluate_checked(&env) {
        EvalOutcome::MissingPercent { direction, value } => {
            assert_eq!(direction, ChangeDirection::Abs);
            assert_eq!(value, 50);
        }
        other => panic!("expected MissingPercent, got {:?}", other),
    }
}

#[test]
fn percent_queries_list_literals() {
    let ast = Ast::from_str("clamp(10%, 20%+, min(5, 3%-))").unwrap();
    let queries = ast.percent_queries();
    assert_eq!(
        queries,
        vec![
            (ChangeDirection::Abs, 10),
            (ChangeDirection::Inc, 20),
            (ChangeDirection::Dec, 3),
        ]
    );
}

#[test]
fn builtin_descriptors() {
    assert_eq!(Clamp.name(), "clamp");
    let ac = Clamp.argument_count();
    assert_eq!((ac.min, ac.max), (3, Some(3)));
    assert_eq!(Current.name(), "current");
    let ac = Current.argument_count();
    assert_eq!((ac.min, ac.max), (0, Some(0)));
    assert_eq!(Max.name(), "max");
    let ac = Max.argument_count();
    assert_eq!((ac.min, ac.max), (1, None));
    assert_eq!(Min.name(), "min");
    let ac = Min.argument_count();
    assert_eq!((ac.min, ac.max), (1, None));
    assert_eq!(Restore.name(), "restore");
    let ac = Restore.argument_count();
    assert_eq!((ac.min, ac.max), (0, Some(0)));
}
