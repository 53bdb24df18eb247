use persona::config::ConfigError;
use persona::interp::interpolate_env_vars;

fn env(pairs: &[(&str, &str)]) -> Vec<(String, String)> {
    pairs.iter().map(|(k, v)| (k.to_string(), v.to_string())).collect()
}

#[test]
fn test_interpolate_env_vars_simple() {
    let vars = env(&[("TEST_VAR_1", "value1")]);
    let input = "key: ${TEST_VAR_1}";
    let result = interpolate_env_vars(input, &vars).unwrap();
    assert_eq!(result, "key: value1");
}

#[test]
fn test_interpolate_env_vars_with_default() {
    let vars = env(&[]);
    let input = "key: ${NONEXISTENT_VAR:-default_value}";
    let result = interpolate_env_vars(input, &vars).unwrap();
    assert_eq!(result, "key: default_value");
}

#[test]
fn test_interpolate_env_vars_missing_no_default() {
    let vars = env(&[]);
    let input = "key: ${MISSING_VAR_FOR_TEST}";
    let result = interpolate_env_vars(input, &vars);
    assert!(result.is_err());
}

#[test]
fn test_interpolate_value_beats_default() {
    let vars = env(&[("NAME", "set")]);
    let result = interpolate_env_vars("v=${NAME:-fallback}", &vars).unwrap();
    assert_eq!(result, "v=set");
}

#[test]
fn test_interpolate_several_references() {
    let vars = env(&[("A", "1"), ("B", "2")]);
    let result = interpolate_env_vars("${A}-${B}-${A}", &vars).unwrap();
    assert_eq!(result, "1-2-1");
}

#[test]
fn test_interpolate_leaves_non_references_alone() {
    let vars = env(&[("X", "v")]);
    // A bare dollar, an unopened brace and an invalid name are not
    // references.
    let result = interpolate_env_vars("$X {X} ${1BAD} ${X}", &vars).unwrap();
    assert_eq!(result, "$X {X} ${1BAD} v");
}

#[test]
fn test_interpolate_empty_default() {
    let vars = env(&[]);
    let result = interpolate_env_vars("a${GONE:-}b", &vars).unwrap();
    assert_eq!(result, "ab");
}

#[test]
fn test_interpolate_reports_all_missing() {
    let vars = env(&[("PRESENT", "x")]);
    let result = interpolate_env_vars("${FIRST} ${PRESENT} ${SECOND} ${FIRST}", &vars);
    match result {
        Err(ConfigError::MissingEnvVars { names }) => {
            assert_eq!(names, vec!["FIRST".to_string(), "SECOND".to_string(), "FIRST".to_string()]);
        }
        other => panic!("expected missing-variable error, got {:?}", other.is_ok()),
    }
}

#[test]
fn test_interpolate_unclosed_reference() {
    let vars = env(&[("A", "1")]);
    // No closing brace: the text is not a reference and stays as-is.
    let result = interpolate_env_vars("x ${A:-no-end", &vars).unwrap();
    assert_eq!(result, "x ${A:-no-end");
}

#[test]
fn test_interpolate_first_binding_wins() {
    let vars = env(&[("D", "first"), ("D", "second")]);
    let result = interpolate_env_vars("${D}", &vars).unwrap();
    assert_eq!(result, "first");
}
