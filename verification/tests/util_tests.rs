use smithy_core::http_connector::{HttpConnectorError, HttpTimeoutConfig, MakeConnectorSettings, TcpTimeoutConfig};
use smithy_core::sdk_gen::{aws_sdk_assemble_args, u64_to_dec_string};
use smithy_core::strutil::{split_char, str_count_char, str_eq, str_starts_with};
use smithy_core::truthy::Truthy;

#[test]
fn split_char_matches_std_split() {
    assert_eq!(split_char("a:b:c", ':'), vec!["a", "b", "c"]);
    assert_eq!(split_char("", ':'), vec![""]);
    assert_eq!(split_char("::", ':'), vec!["", "", ""]);
    assert_eq!(split_char("abc", ':'), vec!["abc"]);
    let s = "x:y::z:";
    let expected: Vec<&str> = s.split(':').collect();
    assert_eq!(split_char(s, ':'), expected);
}

#[test]
fn string_primitives() {
    assert!(str_eq("abc", "abc"));
    assert!(!str_eq("abc", "abd"));
    assert!(!str_eq("abc", "ab"));
    assert!(str_starts_with("us-east-1", "us-"));
    assert!(!str_starts_with("eu-west-1", "us-"));
    assert!(str_starts_with("x", ""));
    assert_eq!(str_count_char("us-east-1", '-'), 2);
    assert_eq!(str_count_char("useast", '-'), 0);
}

#[test]
fn truthiness() {
    assert!(true.truthy());
    assert!(!false.truthy());
    assert!("x".truthy());
    assert!(!"".truthy());
}

#[test]
fn decimal_rendering() {
    assert_eq!(u64_to_dec_string(0), "0");
    assert_eq!(u64_to_dec_string(7), "7");
    assert_eq!(u64_to_dec_string(10), "10");
    assert_eq!(u64_to_dec_string(1234567890), "1234567890");
    assert_eq!(u64_to_dec_string(u64::MAX), "18446744073709551615");
}

#[test]
fn assemble_args_exact() {
    let args = aws_sdk_assemble_args(4, "/tmp/versions.toml", "abc123");
    assert_eq!(
        args,
        vec![
            "--no-daemon".to_string(),
            "--no-parallel".to_string(),
            "--max-workers=1".to_string(),
            "--info".to_string(),
            "-Dorg.gradle.jvmargs=-Xmx512m -XX:MaxMetaspaceSize=256m -Dkotlin.incremental=false -Dkotlin.caching.enabled=false -Dkotlin.compiler.execution.strategy=in-process".to_string(),
            "-Djava.util.concurrent.ForkJoinPool.common.parallelism=4".to_string(),
            "-Paws.fullsdk=true".to_string(),
            "-Paws.sdk.previous.release.versions.manifest=/tmp/versions.toml".to_string(),
            "-Paws.sdk.examples.revision=abc123".to_string(),
        ]
    );
}

#[test]
fn connector_error_messages() {
    assert_eq!(
        HttpConnectorError::NoAvailableDefault.message(),
        "When default features are disabled, an HttpConnector must be set manually."
    );
    assert_eq!(
        HttpConnectorError::NoConnectorDefined.message(),
        "No connector was defined"
    );
    assert_eq!(
        HttpConnectorError::NoHttpVersionsSpecified.message(),
        "Couldn't get or create a client because no HTTP versions were specified as valid."
    );
}

#[test]
fn settings_builders_replace_one_side() {
    let http = HttpTimeoutConfig { connect_timeout_ms: Some(100), read_timeout_ms: None };
    let tcp = TcpTimeoutConfig { connect_timeout_ms: None, read_timeout_ms: Some(200) };
    let settings = MakeConnectorSettings::default()
        .with_http_timeout_config(http)
        .with_tcp_timeout_config(tcp);
    assert_eq!(settings.http_timeout_config, http);
    assert_eq!(settings.tcp_timeout_config, tcp);
    let replaced = settings.with_http_timeout_config(HttpTimeoutConfig::default());
    assert_eq!(replaced.http_timeout_config, HttpTimeoutConfig::default());
    assert_eq!(replaced.tcp_timeout_config, tcp);
}
