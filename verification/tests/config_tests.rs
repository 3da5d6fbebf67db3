use video_stream_be::auth::{AuthService, LoginRefusal};
use video_stream_be::config::{parse_allowed_origins, parse_port, Config, ConfigError, EnvValues};
use video_stream_be::metrics::RunnerEnvironment;

fn full_env() -> EnvValues {
    EnvValues {
        database_url: Some("postgres://db".to_string()),
        port: Some("9000".to_string()),
        allowed_origins: Some(" https://a.example , ,https://b.example,".to_string()),
        jwt_secret: Some("s3cret".to_string()),
        bucket_name: Some("media".to_string()),
        project_id: Some("proj".to_string()),
        service_name: Some("api".to_string()),
        revision: Some("api-0001".to_string()),
    }
}

#[test]
fn port_is_read_like_an_unsigned_number() {
    let cases = [
        "8080", "0", "65535", "65536", "+443", "-1", "-0", "", "+", " 80", "80 ", "0x50", "00080",
        "99999999999", "4294967376", "8_0", "٣",
    ];
    for text in cases.iter() {
        assert_eq!(parse_port(text), text.parse::<u16>().ok(), "{:?}", text);
    }
    assert_eq!(parse_port("8080"), Some(8080));
    assert_eq!(parse_port("+443"), Some(443));
    assert_eq!(parse_port("65536"), None);
}

#[test]
fn origins_are_trimmed_and_empty_ones_dropped() {
    assert_eq!(parse_allowed_origins("http://localhost:3000"), vec!["http://localhost:3000"]);
    assert_eq!(
        parse_allowed_origins(" https://a.example , ,https://b.example,"),
        vec!["https://a.example", "https://b.example"]
    );
    assert!(parse_allowed_origins("").is_empty());
    assert!(parse_allowed_origins(" , ,, ").is_empty());
    assert_eq!(parse_allowed_origins(",x"), vec!["x"]);
    assert_eq!(parse_allowed_origins("a b,c"), vec!["a b", "c"]);
    for list in ["a,b,,c", " a ,\tb\n", ",,,", "one", "x , y ,z,"] {
        let expected: Vec<String> = list
            .split(',')
            .map(|origin| origin.trim().to_string())
            .filter(|origin| !origin.is_empty())
            .collect();
        assert_eq!(parse_allowed_origins(list), expected, "{:?}", list);
    }
}

#[test]
fn configuration_is_assembled_from_a_complete_environment() {
    let config = Config::assemble(full_env()).ok().unwrap();
    assert_eq!(config.database_url, "postgres://db");
    assert_eq!(config.port, 9000);
    assert_eq!(config.allowed_origins, vec!["https://a.example", "https://b.example"]);
    assert_eq!(config.jwt_secret, "s3cret");
    assert_eq!(config.bucket_name, "media");
    assert_eq!(config.project_id, "proj");
    assert_eq!(config.service_name, "api");
    assert_eq!(config.revision.as_deref(), Some("api-0001"));
}

#[test]
fn configuration_has_defaults_for_what_may_be_missing() {
    let mut env = full_env();
    env.port = None;
    env.allowed_origins = None;
    env.service_name = None;
    env.revision = None;
    let config = Config::assemble(env).ok().unwrap();
    assert_eq!(config.port, 8080);
    assert_eq!(config.allowed_origins, vec!["http://localhost:3000"]);
    assert_eq!(config.service_name, "video-stream-be");
    assert_eq!(config.revision, None);
}

#[test]
fn configuration_names_what_the_environment_lacks() {
    let mut env = full_env();
    env.database_url = None;
    env.port = Some("http".to_string());
    env.jwt_secret = None;
    assert_eq!(Config::assemble(env).err(), Some(ConfigError::DatabaseUrlMissing));
    let mut env = full_env();
    env.port = Some("http".to_string());
    env.jwt_secret = None;
    assert_eq!(Config::assemble(env).err(), Some(ConfigError::PortInvalid));
    let mut env = full_env();
    env.jwt_secret = None;
    env.bucket_name = None;
    assert_eq!(Config::assemble(env).err(), Some(ConfigError::JwtSecretMissing));
    let mut env = full_env();
    env.bucket_name = None;
    env.project_id = None;
    assert_eq!(Config::assemble(env).err(), Some(ConfigError::BucketMissing));
    let mut env = full_env();
    env.project_id = None;
    assert_eq!(Config::assemble(env).err(), Some(ConfigError::ProjectMissing));
    assert_eq!(ConfigError::DatabaseUrlMissing.message(), "DATABASE_URL must be set");
    assert_eq!(ConfigError::PortInvalid.message(), "PORT must be a valid number");
    assert_eq!(ConfigError::JwtSecretMissing.message(), "JWT_SECRET must be set");
    assert_eq!(ConfigError::BucketMissing.message(), "GOOGLE_CLOUD_STORAGE_BUCKET not set");
    assert_eq!(ConfigError::ProjectMissing.message(), "GOOGLE_CLOUD_PROJECT_ID not set");
}

#[test]
fn login_follows_the_verdict_on_the_password() {
    assert_eq!(AuthService::judge_login(None), Err(LoginRefusal::InvalidCredentials));
    assert_eq!(AuthService::judge_login(Some(None)), Err(LoginRefusal::HashUnreadable));
    assert_eq!(AuthService::judge_login(Some(Some(false))), Err(LoginRefusal::InvalidCredentials));
    assert_eq!(AuthService::judge_login(Some(Some(true))), Ok(()));
}

#[test]
fn login_checks_the_password_against_the_stored_hash() {
    let hash = bcrypt::hash("correct horse", 4).unwrap();
    assert_eq!(AuthService::login(&Some(hash.clone()), "correct horse"), Ok(()));
    assert_eq!(AuthService::login(&Some(hash.clone()), "wrong"), Err(LoginRefusal::InvalidCredentials));
    assert_eq!(AuthService::login(&Some(hash), ""), Err(LoginRefusal::InvalidCredentials));
    assert_eq!(AuthService::login(&None, "correct horse"), Err(LoginRefusal::InvalidCredentials));
    assert_eq!(
        AuthService::login(&Some("not a hash".to_string()), "correct horse"),
        Err(LoginRefusal::HashUnreadable)
    );
    assert_eq!(
        AuthService::login(&Some("correct horse".to_string()), "correct horse"),
        Err(LoginRefusal::HashUnreadable)
    );
}

#[test]
fn registration_is_refused_for_a_taken_name() {
    assert_eq!(AuthService::register(true), Some("User with this email or username already exists"));
    assert_eq!(AuthService::register(false), None);
}

#[test]
fn environment_takes_defaults_and_fallbacks() {
    let env = RunnerEnvironment::new(None, None, Some("europe-west1".to_string()), None, Some(String::new()), 4, 1000);
    assert_eq!(env.hostname, "unknown-host");
    assert_eq!(env.region.as_deref(), Some("europe-west1"));
    assert_eq!(env.service_name, None);
    assert_eq!(env.cpu_brand, None);
    assert_eq!(env.total_memory_bytes, Some(4096));
    assert_eq!(env.boot_time, Some(1000));
    let env = RunnerEnvironment::new(
        Some("host-1".to_string()),
        Some("us-central1".to_string()),
        Some("europe-west1".to_string()),
        Some("api".to_string()),
        Some("Fast CPU".to_string()),
        0,
        0,
    );
    assert_eq!(env.hostname, "host-1");
    assert_eq!(env.region.as_deref(), Some("us-central1"));
    assert_eq!(env.service_name.as_deref(), Some("api"));
    assert_eq!(env.cpu_brand.as_deref(), Some("Fast CPU"));
    assert_eq!(env.total_memory_bytes, Some(0));
    assert_eq!(env.cpu_model(None).as_deref(), Some("Fast CPU"));
    assert_eq!(env.cpu_model(Some("Stated".to_string())).as_deref(), Some("Stated"));
}
