use busylib::config::{dev_mode, env_value_or_default};
use busylib::prelude::{ok, ok_ctx, some, some_ctx, EnhancedExpect, EnhancedUnwrap};

#[test]
fn dev_mode_matches_sentinel_argument() {
    assert!(dev_mode(Some(&"dev".to_string())));
    assert!(!dev_mode(Some(&"prod".to_string())));
    assert!(!dev_mode(None));
}

#[test]
fn env_value_falls_back_to_default() {
    let from_env = env_value_or_default(Some("/xx/xx".to_string()), "/opt/logs/apps/");
    assert_eq!(from_env.as_str(), "/xx/xx");
    let from_default = env_value_or_default(None, "/opt/logs/apps/");
    assert_eq!(from_default.as_str(), "/opt/logs/apps/");
}

#[test]
fn unwrap_helpers_yield_the_value() {
    let result: Result<i32, String> = Ok(5);
    assert_eq!(ok(result), 5);
    assert_eq!(some(Some(7)), 7);

    let result: Result<i32, String> = Ok(11);
    assert_eq!(ok_ctx(result, "present"), 11);
    assert_eq!(some_ctx(Some(13), "present"), 13);
}

#[test]
fn enhanced_traits_yield_the_value() {
    let result: Result<i32, String> = Ok(3);
    assert_eq!(result.unwp(), 3);
    let result: Result<i32, String> = Ok(4);
    assert_eq!(result.ex("should be ok"), 4);
    assert_eq!(Some(8).unwp(), 8);
    assert_eq!(Some(9).ex("should be some"), 9);
}
