use lib_core::config::{CoreConfig, ReloadConfig};
use lib_core::b64::b64u_decode;
use lib_core::envs::{get_env, get_env_b64u_as_u8s, get_env_parse, if_missing, parse_unsigned, Error};

fn some(s: &str) -> Option<String> {
    Some(s.to_string())
}

#[test]
fn parse_unsigned_like_from_str() {
    assert_eq!(parse_unsigned("42", 100), Some(42));
    assert_eq!(parse_unsigned("+7", 100), Some(7));
    assert_eq!(parse_unsigned("007", 100), Some(7));
    assert_eq!(parse_unsigned("101", 100), None);
    assert_eq!(parse_unsigned("", 100), None);
    assert_eq!(parse_unsigned("+", 100), None);
    assert_eq!(parse_unsigned("-1", 100), None);
    assert_eq!(parse_unsigned("1a", 100), None);
    assert_eq!(parse_unsigned("18446744073709551615", u64::MAX), Some(u64::MAX));
    assert_eq!(parse_unsigned("18446744073709551616", u64::MAX), None);
}

#[test]
fn get_env_parse_reports_the_variable() {
    assert_eq!(get_env_parse::<u32>("N", some("12")).unwrap(), 12);
    assert!(matches!(get_env_parse::<u32>("N", None), Err(Error::MissingEnv("N"))));
    assert!(matches!(get_env_parse::<u32>("N", some("4294967296")), Err(Error::WrongFormat("N"))));
    assert!(matches!(get_env_parse::<u64>("T", some("4294967296")), Ok(4294967296)));
    assert!(matches!(get_env_parse::<bool>("B", some("true")), Ok(true)));
    assert!(matches!(get_env_parse::<bool>("B", some("false")), Ok(false)));
    assert!(matches!(get_env_parse::<bool>("B", some("True")), Err(Error::WrongFormat("B"))));
    assert_eq!(get_env("U", some("x")).unwrap(), "x");
    assert!(matches!(get_env("U", None), Err(Error::MissingEnv("U"))));
    assert!(matches!(if_missing(get_env_parse::<u32>("N", None), 5), Ok(5)));
    assert!(matches!(if_missing(get_env_parse::<u32>("N", some("x")), 5), Err(Error::WrongFormat("N"))));
}

#[test]
fn core_config_defaults() {
    let c = CoreConfig::load_from_env(some("postgres://db"), None, None).unwrap();
    assert_eq!(c.DB_URL, "postgres://db");
    assert_eq!(c.DB_MAX_CONNECTIONS, 5);
    assert_eq!(c.DB_CONNECTION_TIMEOUT_MS, 500);
    let c = CoreConfig::load_from_env(some("u"), some("9"), some("1500")).unwrap();
    assert_eq!(c.DB_MAX_CONNECTIONS, 9);
    assert_eq!(c.DB_CONNECTION_TIMEOUT_MS, 1500);
}

#[test]
fn core_config_errors() {
    assert!(matches!(
        CoreConfig::load_from_env(None, None, None),
        Err(Error::MissingEnv("SERVICE_DB_URL"))
    ));
    assert!(matches!(
        CoreConfig::load_from_env(None, some("x"), some("y")),
        Err(Error::WrongFormat("SERVICE_DB_MAX_CONNECTIONS"))
    ));
    assert!(matches!(
        CoreConfig::load_from_env(some("u"), None, some("y")),
        Err(Error::WrongFormat("SERVICE_DB_CONNECTION_TIMEOUT_MS"))
    ));
}

#[test]
fn reload_config_defaults_and_errors() {
    let c = ReloadConfig::load_from_env(None, None, None, None).unwrap();
    assert!(!c.HARD_RELOAD && !c.AUTO_IGNORE && !c.POLL);
    assert_eq!(c.HOT_RELOAD_DIR, "frontend/");
    let c = ReloadConfig::load_from_env(some("true"), some("false"), some("true"), some("web/")).unwrap();
    assert!(c.HARD_RELOAD && !c.AUTO_IGNORE && c.POLL);
    assert_eq!(c.HOT_RELOAD_DIR, "web/");
    assert!(matches!(
        ReloadConfig::load_from_env(None, some("yes"), some("no"), None),
        Err(Error::WrongFormat("SERVICE_HOT_RELOAD_AUTO_IGNORE"))
    ));
}

#[test]
fn base64url_decoding() {
    assert_eq!(b64u_decode("aGVsbG8").unwrap(), b"hello".to_vec());
    assert_eq!(b64u_decode("aGVsbG8h").unwrap(), b"hello!".to_vec());
    assert_eq!(b64u_decode("-_8").unwrap(), vec![251, 255]);
    assert_eq!(b64u_decode("AQ").unwrap(), vec![1]);
    assert_eq!(b64u_decode("").unwrap(), Vec::<u8>::new());
    assert!(b64u_decode("A").is_none());
    assert!(b64u_decode("AB").is_none());
    assert!(b64u_decode("aGVs=").is_none());
    assert!(b64u_decode("a+/b").is_none());
}

#[test]
fn env_base64_value() {
    assert_eq!(get_env_b64u_as_u8s("K", some("AAAA")).unwrap(), vec![0, 0, 0]);
    assert!(matches!(get_env_b64u_as_u8s("K", None), Err(Error::MissingEnv("K"))));
    assert!(matches!(get_env_b64u_as_u8s("K", some("A")), Err(Error::WrongFormat("K"))));
}
