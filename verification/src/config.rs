//! The configuration of the service, put together once from the values of
//! its environment.

use crate::text::{
    all_digits, chars_of, digits_value, first_segment, first_segment_end, parse_i32_range,
    push_string, slice_of, strip_bounds, text_of_range, texts, trimmed, Strip,
};
use vstd::prelude::*;

verus! {

/// The values of the environment that the service reads, each as it was
/// found.
pub struct EnvValues {
    pub database_url: Option<String>,
    pub port: Option<String>,
    pub allowed_origins: Option<String>,
    pub jwt_secret: Option<String>,
    pub bucket_name: Option<String>,
    pub project_id: Option<String>,
    pub service_name: Option<String>,
    pub revision: Option<String>,
}

/// The configuration of the service.
pub struct Config {
    pub database_url: String,
    pub port: u16,
    pub allowed_origins: Vec<String>,
    pub jwt_secret: String,
    pub bucket_name: String,
    pub project_id: String,
    pub service_name: String,
    pub revision: Option<String>,
}

/// What is wrong with the environment.
#[derive(Debug, Clone, Copy, PartialEq, Eq, Structural)]
pub enum ConfigError {
    DatabaseUrlMissing,
    PortInvalid,
    JwtSecretMissing,
    BucketMissing,
    ProjectMissing,
}

impl ConfigError {
    /// The complaint in words.
    pub open spec fn text(self) -> Seq<char> {
        match self {
            ConfigError::DatabaseUrlMissing => "DATABASE_URL must be set"@,
            ConfigError::PortInvalid => "PORT must be a valid number"@,
            ConfigError::JwtSecretMissing => "JWT_SECRET must be set"@,
            ConfigError::BucketMissing => "GOOGLE_CLOUD_STORAGE_BUCKET not set"@,
            ConfigError::ProjectMissing => "GOOGLE_CLOUD_PROJECT_ID not set"@,
        }
    }

    /// The complaint in words.
    pub fn message(&self) -> (message: &'static str)
        ensures
            message@ == self.text(),
    {
        match self {
            ConfigError::DatabaseUrlMissing => "DATABASE_URL must be set",
            ConfigError::PortInvalid => "PORT must be a valid number",
            ConfigError::JwtSecretMissing => "JWT_SECRET must be set",
            ConfigError::BucketMissing => "GOOGLE_CLOUD_STORAGE_BUCKET not set",
            ConfigError::ProjectMissing => "GOOGLE_CLOUD_PROJECT_ID not set",
        }
    }
}

/// The port that a text denotes: an optional `+`, then decimal digits that
/// give a number of at most 65535.
pub open spec fn port_of_text(s: Seq<char>) -> Option<u16> {
    let body = if s.len() > 0 && s[0] == '+' {
        s.drop_first()
    } else {
        s
    };
    if body.len() == 0 || !all_digits(body) || digits_value(body) > 65535 {
        None
    } else {
        Some(digits_value(body) as u16)
    }
}

/// The digits of a number are never negative in value.
pub proof fn lemma_digits_value_nonnegative(s: Seq<char>)
    requires
        all_digits(s),
    ensures
        digits_value(s) >= 0,
    decreases s.len(),
{
    if s.len() > 0 {
        assert forall|i: int| 0 <= i < s.drop_last().len() implies crate::text::is_digit(
            #[trigger] s.drop_last()[i],
        ) by {
            assert(s.drop_last()[i] == s[i]);
        }
        lemma_digits_value_nonnegative(s.drop_last());
        assert(crate::text::is_digit(s[s.len() - 1]));
    }
}

/// Reads a port.
pub fn parse_port(text: &str) -> (port: Option<u16>)
    ensures
        port == port_of_text(text@),
{
    let all = chars_of(text);
    assert(all@.subrange(0, all.len() as int) == all@);
    if all.len() == 0 || all[0] == '-' {
        return None;
    }
    proof {
        let body = if all@[0] == '+' {
            all@.drop_first()
        } else {
            all@
        };
        if body.len() > 0 && all_digits(body) {
            lemma_digits_value_nonnegative(body);
        }
    }
    match parse_i32_range(&all, 0, all.len()) {
        Some(value) => if value <= 65535 {
            Some(value as u16)
        } else {
            None
        },
        None => None,
    }
}

/// What follows the first comma of `value`, if it holds one.
pub open spec fn after_comma(value: Seq<char>) -> Option<Seq<char>> {
    let head = first_segment(value, ',');
    if head.len() < value.len() {
        Some(value.subrange(head.len() as int + 1, value.len() as int))
    } else {
        None
    }
}

/// The origins of a list separated by commas: each without the whitespace
/// around it, those of which nothing is left dropped.
pub open spec fn origins_of(value: Seq<char>) -> Seq<Seq<char>>
    decreases value.len(),
{
    let first = trimmed(first_segment(value, ','));
    let rest = match after_comma(value) {
        Some(tail) => origins_of(tail),
        None => Seq::empty(),
    };
    if first.len() > 0 {
        seq![first] + rest
    } else {
        rest
    }
}

/// The origins of a list separated by commas.
pub fn parse_allowed_origins(value: &str) -> (origins: Vec<String>)
    ensures
        texts(origins@) == origins_of(value@),
{
    let all = chars_of(value);
    let mut origins: Vec<String> = Vec::new();
    let mut pos: usize = 0;
    assert(texts(origins@) =~= Seq::<Seq<char>>::empty());
    assert(all@.subrange(0, all.len() as int) == all@);
    loop
        invariant_except_break
            origins_of(all@) == texts(origins@) + origins_of(
                all@.subrange(pos as int, all.len() as int),
            ),
        invariant
            pos <= all.len(),
            all@ == value@,
        ensures
            texts(origins@) == origins_of(all@),
        decreases all.len() - pos,
    {
        let rest = slice_of(&all, pos, all.len());
        let end = first_segment_end(&rest, ',');
        let head = slice_of(&rest, 0, end);
        let (from, to) = strip_bounds(&head, Strip::Whitespace);
        let ghost before = texts(origins@);
        if from < to {
            push_string(&mut origins, text_of_range(&head, from, to));
        }
        proof {
            let first = trimmed(first_segment(rest@, ','));
            assert(first == head@.subrange(from as int, to as int));
            assert(texts(origins@) == if first.len() > 0 {
                before.push(first)
            } else {
                before
            });
        }
        if end < rest.len() {
            proof {
                let tail = rest@.subrange(end as int + 1, rest@.len() as int);
                assert(tail == all@.subrange(pos + end + 1, all.len() as int));
                assert(after_comma(rest@) == Some(tail));
                let first = trimmed(first_segment(rest@, ','));
                if first.len() > 0 {
                    assert(before + (seq![first] + origins_of(tail)) =~= before.push(first)
                        + origins_of(tail));
                }
            }
            pos = pos + end + 1;
        } else {
            proof {
                assert(after_comma(rest@) is None);
                let first = trimmed(first_segment(rest@, ','));
                if first.len() > 0 {
                    assert(before + (seq![first] + Seq::<Seq<char>>::empty()) =~= before.push(
                        first,
                    ));
                } else {
                    assert(before + Seq::<Seq<char>>::empty() =~= before);
                }
            }
            break ;
        }
    }
    origins
}

/// What the environment lacks, if anything: the database is looked for
/// first, then the port, the secret, the bucket and the project.
pub open spec fn config_error(env: EnvValues) -> Option<ConfigError> {
    if env.database_url is None {
        Some(ConfigError::DatabaseUrlMissing)
    } else if configured_port(env.port) is None {
        Some(ConfigError::PortInvalid)
    } else if env.jwt_secret is None {
        Some(ConfigError::JwtSecretMissing)
    } else if env.bucket_name is None {
        Some(ConfigError::BucketMissing)
    } else if env.project_id is None {
        Some(ConfigError::ProjectMissing)
    } else {
        None
    }
}

/// The port to listen on: 8080 unless one is given.
pub open spec fn configured_port(port: Option<String>) -> Option<u16> {
    match port {
        Some(text) => port_of_text(text@),
        None => Some(8080u16),
    }
}

/// The origins that may call the API: a local front end unless a list is
/// given.
pub open spec fn configured_origins(allowed_origins: Option<String>) -> Seq<Seq<char>> {
    match allowed_origins {
        Some(list) => origins_of(list@),
        None => origins_of("http://localhost:3000"@),
    }
}

impl Config {
    /// Puts the configuration together, or says what the environment
    /// lacks.
    pub fn assemble(env: EnvValues) -> (r: Result<Config, ConfigError>)
        ensures
            match r {
                Ok(config) => {
                    &&& config_error(env) is None
                    &&& Some(config.database_url) == env.database_url
                    &&& Some(config.port) == configured_port(env.port)
                    &&& texts(config.allowed_origins@) == configured_origins(env.allowed_origins)
                    &&& Some(config.jwt_secret) == env.jwt_secret
                    &&& Some(config.bucket_name) == env.bucket_name
                    &&& Some(config.project_id) == env.project_id
                    &&& match env.service_name {
                        Some(name) => config.service_name == name,
                        None => config.service_name@ == "video-stream-be"@,
                    }
                    &&& config.revision == env.revision
                },
                Err(e) => config_error(env) == Some(e),
            },
    {
        let database_url = match env.database_url {
            Some(url) => url,
            None => { return Err(ConfigError::DatabaseUrlMissing); },
        };
        let port = match &env.port {
            Some(text) => match parse_port(text.as_str()) {
                Some(port) => port,
                None => { return Err(ConfigError::PortInvalid); },
            },
            None => 8080,
        };
        let jwt_secret = match env.jwt_secret {
            Some(secret) => secret,
            None => { return Err(ConfigError::JwtSecretMissing); },
        };
        let bucket_name = match env.bucket_name {
            Some(bucket) => bucket,
            None => { return Err(ConfigError::BucketMissing); },
        };
        let project_id = match env.project_id {
            Some(project) => project,
            None => { return Err(ConfigError::ProjectMissing); },
        };
        let allowed_origins = match &env.allowed_origins {
            Some(list) => parse_allowed_origins(list.as_str()),
            None => parse_allowed_origins("http://localhost:3000"),
        };
        let service_name = match env.service_name {
            Some(name) => name,
            None => "video-stream-be".to_owned(),
        };
        Ok(
            Config {
                database_url,
                port,
                allowed_origins,
                jwt_secret,
                bucket_name,
                project_id,
                service_name,
                revision: env.revision,
            },
        )
    }
}

} // verus!
