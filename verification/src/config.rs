//! Multi-bot configuration: per-bot settings layered over shared
//! defaults, with validation.
//!
//! Reading the process environment and configuration files is the
//! caller's job; every function here works on the plain values handed
//! to it.

use vstd::prelude::*;

verus! {

/// Configuration for single-bot deployments.
#[derive(Debug, Clone)]
pub struct Config {
    pub discord_token: String,
    pub openai_api_key: String,
    pub database_path: String,
    pub log_level: String,
    pub discord_guild_id: Option<String>,
    pub openai_model: String,
    pub conflict_mediation_enabled: bool,
    pub conflict_sensitivity: String,
    pub mediation_cooldown_minutes: u64,
}

/// Why a configuration was rejected.
#[derive(Debug, Clone)]
pub enum ConfigError {
    /// The required bot token variable was absent.
    MissingDiscordToken,
    /// The required API key variable was absent.
    MissingOpenAiKey,
    /// A multi-bot configuration named no bot at all.
    NoBots,
    /// The shared API key was empty.
    EmptyApiKey,
    /// The bot at this position has an empty name.
    EmptyBotName { index: usize },
    /// The bot at this position has an empty token.
    EmptyBotToken { index: usize },
    /// The bot at this position names an unknown sensitivity level.
    InvalidBotSensitivity { index: usize },
    /// The shared sensitivity level is unknown.
    InvalidGlobalSensitivity,
    /// The bot at this position shares a guild with an allowlisted bot
    /// but has no command allowlist of its own.
    MissingCommandAllowlist { index: usize },
    /// The two bots at these positions register a common command in a
    /// shared guild.
    CommandOverlap { first: usize, second: usize },
    /// A configuration text referenced variables that are not set.
    MissingEnvVars { names: Vec<String> },
}

impl ConfigError {
    /// A human-readable description of the rejection.
    pub fn message(&self) -> (r: String)
        ensures
            self is MissingDiscordToken ==> r@ == "DISCORD_SPACE_CADET environment variable not set"@,
            self is MissingOpenAiKey ==> r@ == "OPENAI_API_KEY environment variable not set"@,
            self is NoBots ==> r@ == "At least one bot configuration is required"@,
            self is EmptyApiKey ==> r@ == "openai_api_key is required"@,
            self is EmptyBotName ==> r@ == "A bot has an empty name"@,
            self is EmptyBotToken ==> r@ == "A bot has an empty discord_token"@,
            self is InvalidBotSensitivity ==> r@
                == "A bot has an invalid conflict_sensitivity. Use: low, medium, high"@,
            self is InvalidGlobalSensitivity ==> r@
                == "Invalid global conflict_sensitivity. Use: low, medium, high"@,
            self is MissingCommandAllowlist ==> r@
                == "A bot in a shared guild has no command allowlist while other bots are present"@,
            self is CommandOverlap ==> r@ == "Command overlap detected in a shared guild"@,
            self is MissingEnvVars ==> r@ == "Missing environment variables"@,
    {
        match self {
            ConfigError::MissingDiscordToken => {
                "DISCORD_SPACE_CADET environment variable not set".to_owned()
            },
            ConfigError::MissingOpenAiKey => "OPENAI_API_KEY environment variable not set".to_owned(),
            ConfigError::NoBots => "At least one bot configuration is required".to_owned(),
            ConfigError::EmptyApiKey => "openai_api_key is required".to_owned(),
            ConfigError::EmptyBotName { .. } => "A bot has an empty name".to_owned(),
            ConfigError::EmptyBotToken { .. } => "A bot has an empty discord_token".to_owned(),
            ConfigError::InvalidBotSensitivity { .. } => {
                "A bot has an invalid conflict_sensitivity. Use: low, medium, high".to_owned()
            },
            ConfigError::InvalidGlobalSensitivity => {
                "Invalid global conflict_sensitivity. Use: low, medium, high".to_owned()
            },
            ConfigError::MissingCommandAllowlist { .. } => {
                "A bot in a shared guild has no command allowlist while other bots are present".to_owned()
            },
            ConfigError::CommandOverlap { .. } => {
                "Command overlap detected in a shared guild".to_owned()
            },
            ConfigError::MissingEnvVars { .. } => "Missing environment variables".to_owned(),
        }
    }
}

/// A decimal digit.
pub open spec fn is_digit(c: char) -> bool {
    '0' <= c && c <= '9'
}

/// Value of a digit string, most significant digit first.
pub open spec fn digits_value(s: Seq<char>) -> int
    decreases s.len(),
{
    if s.len() == 0 {
        0
    } else {
        digits_value(s.drop_last()) * 10 + (s.last() as int - 48)
    }
}

/// A string made of decimal digits only.
pub open spec fn all_digits(s: Seq<char>) -> bool {
    forall|j: int| 0 <= j < s.len() ==> is_digit(s[j])
}

/// The digit part of a numeral: everything after an optional leading
/// plus sign.
pub open spec fn numeral_digits(s: Seq<char>) -> Seq<char> {
    if s.len() > 0 && s[0] == '+' {
        s.drop_first()
    } else {
        s
    }
}

/// What `u64` parsing accepts: an optional leading plus sign, then one
/// or more digits whose value fits in the type.
pub open spec fn spec_parse_u64(s: Seq<char>) -> Option<u64> {
    if numeral_digits(s).len() > 0 && all_digits(numeral_digits(s)) && digits_value(
        numeral_digits(s),
    ) <= u64::MAX {
        Some(digits_value(numeral_digits(s)) as u64)
    } else {
        None
    }
}

pub proof fn lemma_digits_value_nonneg(s: Seq<char>)
    requires
        forall|j: int| 0 <= j < s.len() ==> is_digit(s[j]),
    ensures
        digits_value(s) >= 0,
    decreases s.len(),
{
    if s.len() > 0 {
        lemma_digits_value_nonneg(s.drop_last());
    }
}

/// A digit string is worth at least any of its prefixes.
pub proof fn lemma_digits_value_prefix(s: Seq<char>, i: int)
    requires
        0 <= i <= s.len(),
        forall|j: int| 0 <= j < s.len() ==> is_digit(s[j]),
    ensures
        digits_value(s.subrange(0, i)) <= digits_value(s),
    decreases s.len() - i,
{
    if i < s.len() {
        lemma_digits_value_prefix(s, i + 1);
        let p = s.subrange(0, i);
        let q = s.subrange(0, i + 1);
        assert(q.drop_last() =~= p);
        assert(q.last() == s[i]);
        lemma_digits_value_nonneg(p);
        assert(digits_value(q) == digits_value(p) * 10 + (s[i] as int - 48));
        assert(digits_value(q) >= digits_value(p));
    } else {
        assert(s.subrange(0, i) =~= s);
    }
}

/// Parse an unsigned decimal number exactly as the standard library
/// does: an optional leading plus sign, then digits, rejecting
/// anything else and any value that overflows.
pub fn parse_u64(s: &str) -> (r: Option<u64>)
    ensures
        r == spec_parse_u64(s@),
{
    let n = s.unicode_len();
    let mut start: usize = 0;
    if n > 0 && s.get_char(0) == '+' {
        start = 1;
    }
    let ghost digits = numeral_digits(s@);
    proof {
        assert(digits =~= s@.subrange(start as int, n as int));
    }
    if start >= n {
        return None;
    }
    let mut acc: u64 = 0;
    let mut i: usize = start;
    while i < n
        invariant
            start <= i <= n,
            n == s@.len(),
            start == 1 ==> n > 0 && s@[0] == '+',
            start == 0 || start == 1,
            start == 0 ==> !(s@.len() > 0 && s@[0] == '+'),
            digits == s@.subrange(start as int, n as int),
            digits == numeral_digits(s@),
            forall|j: int| start <= j < i ==> is_digit(s@[j]),
            acc == digits_value(s@.subrange(start as int, i as int)),
        decreases n - i,
    {
        let c = s.get_char(i);
        if c < '0' || c > '9' {
            proof {
                assert(digits[i - start] == s@[i as int]);
                assert(!is_digit(digits[i - start]));
                assert(!all_digits(digits));
                assert(spec_parse_u64(s@) is None);
            }
            return None;
        }
        let d: u64 = (c as u32 - 48) as u64;
        let ghost p = s@.subrange(start as int, i as int);
        let ghost q = s@.subrange(start as int, i as int + 1);
        proof {
            assert(q.drop_last() =~= p);
            assert(q.last() == s@[i as int]);
            assert(digits_value(q) == digits_value(p) * 10 + (s@[i as int] as int - 48));
        }
        if acc > (u64::MAX - d) / 10 {
            proof {
                if all_digits(digits) {
                    assert(q =~= digits.subrange(0, i - start + 1));
                    lemma_digits_value_prefix(digits, i - start + 1);
                    assert(digits_value(q) > u64::MAX);
                    assert(digits_value(digits) > u64::MAX);
                    assert(spec_parse_u64(s@) is None);
                } else {
                    assert(spec_parse_u64(s@) is None);
                }
            }
            return None;
        }
        acc = acc * 10 + d;
        i = i + 1;
    }
    proof {
        assert(s@.subrange(start as int, n as int) =~= digits);
        assert(all_digits(digits));
        assert(acc == digits_value(digits));
    }
    Some(acc)
}

/// Case-insensitive match against the word "true", folding only ASCII
/// letters, which is all that standard lowercasing can map onto it.
pub open spec fn spec_is_true_ci(s: Seq<char>) -> bool {
    &&& s.len() == 4
    &&& (s[0] == 't' || s[0] == 'T')
    &&& (s[1] == 'r' || s[1] == 'R')
    &&& (s[2] == 'u' || s[2] == 'U')
    &&& (s[3] == 'e' || s[3] == 'E')
}

/// Whether the text reads "true" regardless of letter case.
pub fn is_true_ci(s: &str) -> (r: bool)
    ensures
        r == spec_is_true_ci(s@),
{
    if s.unicode_len() != 4 {
        return false;
    }
    let c0 = s.get_char(0);
    let c1 = s.get_char(1);
    let c2 = s.get_char(2);
    let c3 = s.get_char(3);
    (c0 == 't' || c0 == 'T') && (c1 == 'r' || c1 == 'R') && (c2 == 'u' || c2 == 'U') && (c3 == 'e'
        || c3 == 'E')
}

/// The text of an optional setting, or the default when absent.
pub open spec fn opt_or(o: Option<String>, d: Seq<char>) -> Seq<char> {
    match o {
        Some(s) => s@,
        None => d,
    }
}

impl Config {
    /// Build the single-bot configuration from the environment
    /// variables' values, applying the documented defaults.  The two
    /// required settings are rejected exactly when absent.
    pub fn from_env(
        discord_token: Option<String>,
        openai_api_key: Option<String>,
        database_path: Option<String>,
        log_level: Option<String>,
        discord_guild_id: Option<String>,
        openai_model: Option<String>,
        conflict_mediation_enabled: Option<String>,
        conflict_sensitivity: Option<String>,
        mediation_cooldown_minutes: Option<String>,
    ) -> (r: Result<Config, ConfigError>)
        ensures
            r is Ok <==> discord_token is Some && openai_api_key is Some,
            discord_token is None ==> (r matches Err(e) && e is MissingDiscordToken),
            discord_token is Some && openai_api_key is None ==> (r matches Err(e)
                && e is MissingOpenAiKey),
            r matches Ok(cfg) ==> {
                &&& Some(cfg.discord_token) == discord_token
                &&& Some(cfg.openai_api_key) == openai_api_key
                &&& cfg.database_path@ == opt_or(database_path, "persona.db"@)
                &&& cfg.log_level@ == opt_or(log_level, "info"@)
                &&& cfg.discord_guild_id == discord_guild_id
                &&& cfg.openai_model@ == opt_or(openai_model, "gpt-4o-mini"@)
                &&& cfg.conflict_mediation_enabled == (match conflict_mediation_enabled {
                    Some(s) => spec_is_true_ci(s@),
                    None => true,
                })
                &&& cfg.conflict_sensitivity@ == opt_or(conflict_sensitivity, "medium"@)
                &&& cfg.mediation_cooldown_minutes == (match mediation_cooldown_minutes {
                    Some(s) => match spec_parse_u64(s@) {
                        Some(v) => v,
                        None => 5u64,
                    },
                    None => 5u64,
                })
            },
    {
        let discord_token = match discord_token {
            Some(t) => t,
            None => {
                return Err(ConfigError::MissingDiscordToken);
            },
        };
        let openai_api_key = match openai_api_key {
            Some(k) => k,
            None => {
                return Err(ConfigError::MissingOpenAiKey);
            },
        };
        let database_path = match database_path {
            Some(p) => p,
            None => "persona.db".to_owned(),
        };
        let log_level = match log_level {
            Some(l) => l,
            None => "info".to_owned(),
        };
        let openai_model = match openai_model {
            Some(m) => m,
            None => "gpt-4o-mini".to_owned(),
        };
        let conflict_mediation_enabled = match &conflict_mediation_enabled {
            Some(s) => is_true_ci(s.as_str()),
            None => true,
        };
        let conflict_sensitivity = match conflict_sensitivity {
            Some(s) => s,
            None => "medium".to_owned(),
        };
        let mediation_cooldown_minutes = match &mediation_cooldown_minutes {
            Some(s) => match parse_u64(s.as_str()) {
                Some(v) => v,
                None => 5,
            },
            None => 5,
        };
        Ok(
            Config {
                discord_token,
                openai_api_key,
                database_path,
                log_level,
                discord_guild_id,
                openai_model,
                conflict_mediation_enabled,
                conflict_sensitivity,
                mediation_cooldown_minutes,
            },
        )
    }
}

/// Per-bot settings layered over the shared defaults.
#[derive(Debug, Clone)]
pub struct BotConfig {
    /// Application id fetched from the chat platform at startup; falls
    /// back to the name as database key until it is known.
    pub application_id: Option<String>,
    /// Friendly name for logging and identification.
    pub name: String,
    /// Bot token (required).
    pub discord_token: String,
    /// Default persona override for this bot.
    pub default_persona: Option<String>,
    /// Dev-mode guild for faster command registration.
    pub discord_guild_id: Option<String>,
    /// Per-bot model override.
    pub openai_model: Option<String>,
    /// Per-bot conflict mediation override.
    pub conflict_mediation_enabled: Option<bool>,
    /// Per-bot conflict sensitivity override.
    pub conflict_sensitivity: Option<String>,
    /// Per-bot mediation cooldown override, in minutes.
    pub mediation_cooldown_minutes: Option<u64>,
    /// Commands this bot may register; absent means all of them.
    pub commands: Option<Vec<String>>,
    /// Per-bot startup notification toggle.
    pub startup_notification_enabled: Option<bool>,
}

impl BotConfig {
    /// The bot's database key: the application id, or the name until
    /// the id is known.
    pub fn bot_id(&self) -> (r: &str)
        ensures
            r@ == (match self.application_id {
                Some(a) => a@,
                None => self.name@,
            }),
    {
        match &self.application_id {
            Some(a) => a.as_str(),
            None => self.name.as_str(),
        }
    }

    /// The model this bot uses: its override, or the shared default.
    pub fn effective_model(&self, global_default: &str) -> (r: String)
        ensures
            r@ == (match self.openai_model {
                Some(m) => m@,
                None => global_default@,
            }),
    {
        match &self.openai_model {
            Some(m) => m.clone(),
            None => global_default.to_owned(),
        }
    }

    /// Whether conflict mediation runs for this bot: its override, or
    /// the shared default.
    pub fn effective_conflict_enabled(&self, global_default: bool) -> (r: bool)
        ensures
            r == (match self.conflict_mediation_enabled {
                Some(b) => b,
                None => global_default,
            }),
    {
        match self.conflict_mediation_enabled {
            Some(b) => b,
            None => global_default,
        }
    }

    /// The conflict sensitivity for this bot: its override, or the
    /// shared default.
    pub fn effective_conflict_sensitivity(&self, global_default: &str) -> (r: String)
        ensures
            r@ == (match self.conflict_sensitivity {
                Some(s) => s@,
                None => global_default@,
            }),
    {
        match &self.conflict_sensitivity {
            Some(s) => s.clone(),
            None => global_default.to_owned(),
        }
    }

    /// The mediation cooldown for this bot: its override, or the
    /// shared default.
    pub fn effective_mediation_cooldown(&self, global_default: u64) -> (r: u64)
        ensures
            r == (match self.mediation_cooldown_minutes {
                Some(m) => m,
                None => global_default,
            }),
    {
        match self.mediation_cooldown_minutes {
            Some(m) => m,
            None => global_default,
        }
    }

    /// Whether this bot registers the named command: always, unless an
    /// allowlist is set and the command is not on it.
    pub fn allows_command(&self, command_name: &str) -> (r: bool)
        ensures
            r == (if self.commands is Some {
                exists|i: int|
                    #![auto]
                    0 <= i < (self.commands->0)@.len() && (self.commands->0)@[i]@
                        == command_name@
            } else {
                true
            }),
    {
        match &self.commands {
            None => true,
            Some(allowed) => {
                let target = command_name.to_owned();
                let mut i: usize = 0;
                while i < allowed.len()
                    invariant
                        self.commands is Some,
                        *allowed == self.commands->0,
                        i <= allowed@.len(),
                        target@ == command_name@,
                        forall|j: int| 0 <= j < i ==> allowed@[j]@ != command_name@,
                    decreases allowed@.len() - i,
                {
                    if allowed[i] == target {
                        proof {
                            assert((self.commands->0)@[i as int]@ == command_name@);
                        }
                        return true;
                    }
                    i = i + 1;
                }
                false
            },
        }
    }
}

/// A recognised conflict sensitivity level.
pub open spec fn sensitivity_ok(s: Seq<char>) -> bool {
    s == "low"@ || s == "medium"@ || s == "high"@
}

fn sensitivity_ok_exec(s: &String) -> (r: bool)
    ensures
        r == sensitivity_ok(s@),
{
    *s == "low".to_owned() || *s == "medium".to_owned() || *s == "high".to_owned()
}

/// Both bots are pinned to the same guild.
pub open spec fn same_guild(a: BotConfig, b: BotConfig) -> bool {
    &&& a.discord_guild_id matches Some(ga)
    &&& b.discord_guild_id matches Some(gb)
    &&& ga@ == gb@
}

fn same_guild_exec(a: &BotConfig, b: &BotConfig) -> (r: bool)
    ensures
        r == same_guild(*a, *b),
{
    match (&a.discord_guild_id, &b.discord_guild_id) {
        (Some(ga), Some(gb)) => *ga == *gb,
        _ => false,
    }
}

/// The two command lists name a common command.
pub open spec fn lists_share_command(a: Seq<String>, b: Seq<String>) -> bool {
    exists|x: int, y: int| 0 <= x < a.len() && 0 <= y < b.len() && a[x]@ == b[y]@
}

fn str_vec_contains(v: &Vec<String>, s: &String) -> (r: bool)
    ensures
        r == exists|i: int| 0 <= i < v@.len() && v@[i]@ == s@,
{
    let mut i: usize = 0;
    while i < v.len()
        invariant
            i <= v@.len(),
            forall|j: int| 0 <= j < i ==> v@[j]@ != s@,
        decreases v@.len() - i,
    {
        if v[i] == *s {
            return true;
        }
        i = i + 1;
    }
    false
}

fn share_command_exec(a: &Vec<String>, b: &Vec<String>) -> (r: bool)
    ensures
        r == lists_share_command(a@, b@),
{
    let mut x: usize = 0;
    while x < a.len()
        invariant
            x <= a@.len(),
            forall|p: int, q: int| 0 <= p < x && 0 <= q < b@.len() ==> a@[p]@ != b@[q]@,
        decreases a@.len() - x,
    {
        if str_vec_contains(b, &a[x]) {
            return true;
        }
        x = x + 1;
    }
    false
}

/// Multi-bot configuration: the bots and their shared settings.
#[derive(Debug, Clone)]
pub struct MultiConfig {
    pub bots: Vec<BotConfig>,
    pub openai_api_key: String,
    pub database_path: String,
    pub log_level: String,
    pub openai_model: String,
    pub conflict_mediation_enabled: bool,
    pub conflict_sensitivity: String,
    pub mediation_cooldown_minutes: u64,
}

impl MultiConfig {
    /// The bot at `i` shares a guild with an earlier allowlisted bot
    /// while having no allowlist of its own — so it would register
    /// every command over the other bot's.
    pub open spec fn bot_missing_allowlist(self, i: int) -> bool {
        &&& 0 <= i < self.bots@.len()
        &&& self.bots@[i].discord_guild_id is Some
        &&& self.bots@[i].commands is None
        &&& exists|j: int|
            #![auto]
            0 <= j < i && self.bots@[j].commands is Some && same_guild(
                self.bots@[j],
                self.bots@[i],
            )
    }

    /// The bots at `i` and `j` would register a common command in a
    /// shared guild.
    pub open spec fn bots_overlap(self, i: int, j: int) -> bool {
        &&& 0 <= i < j < self.bots@.len()
        &&& same_guild(self.bots@[i], self.bots@[j])
        &&& self.bots@[i].commands matches Some(ci)
        &&& self.bots@[j].commands matches Some(cj)
        &&& lists_share_command(ci@, cj@)
    }

    /// Everything validation checks: at least one bot, a non-empty
    /// key, per-bot names, tokens and sensitivity levels, the shared
    /// sensitivity level, and no command conflicts inside any guild.
    pub open spec fn spec_valid(self) -> bool {
        &&& self.bots@.len() > 0
        &&& self.openai_api_key@.len() > 0
        &&& forall|i: int| #![auto] 0 <= i < self.bots@.len() ==> self.bots@[i].name@.len() > 0
        &&& forall|i: int|
            #![auto]
            0 <= i < self.bots@.len() ==> self.bots@[i].discord_token@.len() > 0
        &&& forall|i: int|
            #![trigger self.bots@[i]]
            0 <= i < self.bots@.len() ==> (self.bots@[i].conflict_sensitivity matches Some(s)
                ==> sensitivity_ok(s@))
        &&& sensitivity_ok(self.conflict_sensitivity@)
        &&& forall|i: int| #![auto] !self.bot_missing_allowlist(i)
        &&& forall|i: int, j: int| #![auto] !self.bots_overlap(i, j)
    }

    /// The rejection named by the error really is present in this
    /// configuration.
    pub open spec fn validation_error_witnessed(self, e: ConfigError) -> bool {
        match e {
            ConfigError::NoBots => self.bots@.len() == 0,
            ConfigError::EmptyApiKey => self.openai_api_key@.len() == 0,
            ConfigError::EmptyBotName { index } => index < self.bots@.len()
                && self.bots@[index as int].name@.len() == 0,
            ConfigError::EmptyBotToken { index } => index < self.bots@.len()
                && self.bots@[index as int].discord_token@.len() == 0,
            ConfigError::InvalidBotSensitivity { index } => index < self.bots@.len() && (
            self.bots@[index as int].conflict_sensitivity matches Some(s) && !sensitivity_ok(s@)),
            ConfigError::InvalidGlobalSensitivity => !sensitivity_ok(self.conflict_sensitivity@),
            ConfigError::MissingCommandAllowlist { index } => self.bot_missing_allowlist(
                index as int,
            ),
            ConfigError::CommandOverlap { first, second } => self.bots_overlap(
                first as int,
                second as int,
            ),
            _ => false,
        }
    }

    /// Check the whole configuration; accepts exactly the valid ones,
    /// and any rejection names a violation that is really present.
    pub fn validate(&self) -> (r: Result<(), ConfigError>)
        ensures
            r is Ok <==> self.spec_valid(),
            r matches Err(e) ==> self.validation_error_witnessed(e),
    {
        if self.bots.len() == 0 {
            return Err(ConfigError::NoBots);
        }
        if self.openai_api_key.as_str().is_empty() {
            return Err(ConfigError::EmptyApiKey);
        }
        let n = self.bots.len();
        let mut i: usize = 0;
        while i < n
            invariant
                i <= n,
                n == self.bots@.len(),
                forall|j: int| #![auto] 0 <= j < i ==> self.bots@[j].name@.len() > 0,
                forall|j: int| #![auto] 0 <= j < i ==> self.bots@[j].discord_token@.len() > 0,
                forall|j: int|
                    #![trigger self.bots@[j]]
                    0 <= j < i ==> (self.bots@[j].conflict_sensitivity matches Some(s)
                        ==> sensitivity_ok(s@)),
            decreases n - i,
        {
            if self.bots[i].name.as_str().is_empty() {
                return Err(ConfigError::EmptyBotName { index: i });
            }
            if self.bots[i].discord_token.as_str().is_empty() {
                return Err(ConfigError::EmptyBotToken { index: i });
            }
            match &self.bots[i].conflict_sensitivity {
                Some(s) => {
                    if !sensitivity_ok_exec(s) {
                        return Err(ConfigError::InvalidBotSensitivity { index: i });
                    }
                },
                None => {},
            }
            i = i + 1;
        }
        if !sensitivity_ok_exec(&self.conflict_sensitivity) {
            return Err(ConfigError::InvalidGlobalSensitivity);
        }
        // A bot with no allowlist must not share a guild with an
        // allowlisted bot that came before it.
        let mut i: usize = 0;
        while i < n
            invariant
                i <= n,
                n == self.bots@.len(),
                forall|m: int| #![auto] 0 <= m < i ==> !self.bot_missing_allowlist(m),
            decreases n - i,
        {
            let guarded = match (&self.bots[i].discord_guild_id, &self.bots[i].commands) {
                (Some(_), None) => true,
                _ => false,
            };
            if guarded {
                let mut j: usize = 0;
                while j < i
                    invariant
                        j <= i < n,
                        n == self.bots@.len(),
                        self.bots@[i as int].discord_guild_id is Some,
                        self.bots@[i as int].commands is None,
                        forall|m: int|
                            #![auto]
                            0 <= m < j ==> !(self.bots@[m].commands is Some && same_guild(
                                self.bots@[m],
                                self.bots@[i as int],
                            )),
                    decreases i - j,
                {
                    let listed = match &self.bots[j].commands {
                        Some(_) => true,
                        None => false,
                    };
                    if listed && same_guild_exec(&self.bots[j], &self.bots[i]) {
                        proof {
                            assert(self.bot_missing_allowlist(i as int));
                        }
                        return Err(ConfigError::MissingCommandAllowlist { index: i });
                    }
                    j = j + 1;
                }
            }
            proof {
                assert(!self.bot_missing_allowlist(i as int));
            }
            i = i + 1;
        }
        // No two allowlisted bots in one guild may register a common
        // command.
        let mut i: usize = 0;
        while i < n
            invariant
                i <= n,
                n == self.bots@.len(),
                forall|a: int, b: int| #![auto] 0 <= a < i ==> !self.bots_overlap(a, b),
            decreases n - i,
        {
            let mut j: usize = i + 1;
            while j < n
                invariant
                    i < j <= n,
                    n == self.bots@.len(),
                    forall|b: int| #![auto] i < b < j ==> !self.bots_overlap(i as int, b),
                decreases n - j,
            {
                let both = match (&self.bots[i].commands, &self.bots[j].commands) {
                    (Some(_), Some(_)) => true,
                    _ => false,
                };
                if both && same_guild_exec(&self.bots[i], &self.bots[j]) {
                    let overlap = match (&self.bots[i].commands, &self.bots[j].commands) {
                        (Some(ci), Some(cj)) => share_command_exec(ci, cj),
                        _ => false,
                    };
                    if overlap {
                        proof {
                            assert(self.bots_overlap(i as int, j as int));
                        }
                        return Err(ConfigError::CommandOverlap { first: i, second: j });
                    }
                }
                proof {
                    assert(!self.bots_overlap(i as int, j as int));
                }
                j = j + 1;
            }
            proof {
                assert forall|b: int| #![auto] !self.bots_overlap(i as int, b) by {}
            }
            i = i + 1;
        }
        Ok(())
    }

    /// The bot with this name, if one is configured.
    pub fn get_bot(&self, name: &str) -> (r: Option<&BotConfig>)
        ensures
            r is Some <==> exists|i: int|
                #![auto]
                0 <= i < self.bots@.len() && self.bots@[i].name@ == name@,
            r matches Some(b) ==> exists|i: int|
                #![auto]
                0 <= i < self.bots@.len() && self.bots@[i].name@ == name@ && *b
                    == self.bots@[i],
    {
        let target = name.to_owned();
        let mut i: usize = 0;
        while i < self.bots.len()
            invariant
                i <= self.bots@.len(),
                target@ == name@,
                forall|j: int| #![auto] 0 <= j < i ==> self.bots@[j].name@ != name@,
            decreases self.bots@.len() - i,
        {
            if self.bots[i].name == target {
                return Some(&self.bots[i]);
            }
            i = i + 1;
        }
        None
    }

    /// First position of a bot with this name.
    pub open spec fn bot_index(bots: Seq<BotConfig>, name: Seq<char>) -> int
        decreases bots.len(),
    {
        if bots.len() == 0 {
            0
        } else if bots[0].name@ == name {
            0
        } else {
            1 + Self::bot_index(bots.drop_first(), name)
        }
    }

    /// Mutable access to the bot with this name, if one is configured.
    /// The borrow reaches exactly the first bot of that name; when no
    /// bot matches, nothing changes.
    pub fn get_bot_mut(&mut self, name: &str) -> (r: Option<&mut BotConfig>)
        ensures
            r is None ==> *final(self) == *old(self) && (forall|i: int|
                #![auto]
                0 <= i < old(self).bots@.len() ==> old(self).bots@[i].name@ != name@),
            r matches Some(b) ==> 0 <= Self::bot_index(old(self).bots@, name@) < old(
                self,
            ).bots@.len() && old(self).bots@[Self::bot_index(old(self).bots@, name@)].name@
                == name@ && *b == old(self).bots@[Self::bot_index(old(self).bots@, name@)],
    {
        let target = name.to_owned();
        let mut i: usize = 0;
        while i < self.bots.len()
            invariant
                *self == *old(self),
                i <= self.bots@.len(),
                target@ == name@,
                forall|j: int| #![auto] 0 <= j < i ==> self.bots@[j].name@ != name@,
            decreases self.bots@.len() - i,
        {
            if self.bots[i].name == target {
                proof {
                    Self::lemma_bot_index(self.bots@, name@, i as int);
                }
                return Some(&mut self.bots[i]);
            }
            i = i + 1;
        }
        None
    }

    /// The first match found by a left-to-right scan is `bot_index`.
    proof fn lemma_bot_index(bots: Seq<BotConfig>, name: Seq<char>, i: int)
        requires
            0 <= i < bots.len(),
            bots[i].name@ == name,
            forall|j: int| #![auto] 0 <= j < i ==> bots[j].name@ != name,
        ensures
            Self::bot_index(bots, name) == i,
        decreases i,
    {
        if i > 0 {
            Self::lemma_bot_index(bots.drop_first(), name, i - 1);
        }
    }

    /// Flatten the shared settings and one bot's overrides into a
    /// single-bot configuration.
    pub fn to_legacy_config(&self, bot: &BotConfig) -> (r: Config)
        ensures
            r.discord_token == bot.discord_token,
            r.openai_api_key == self.openai_api_key,
            r.database_path == self.database_path,
            r.log_level == self.log_level,
            r.discord_guild_id == bot.discord_guild_id,
            r.openai_model@ == (match bot.openai_model {
                Some(m) => m@,
                None => self.openai_model@,
            }),
            r.conflict_mediation_enabled == (match bot.conflict_mediation_enabled {
                Some(b) => b,
                None => self.conflict_mediation_enabled,
            }),
            r.conflict_sensitivity@ == (match bot.conflict_sensitivity {
                Some(s) => s@,
                None => self.conflict_sensitivity@,
            }),
            r.mediation_cooldown_minutes == (match bot.mediation_cooldown_minutes {
                Some(m) => m,
                None => self.mediation_cooldown_minutes,
            }),
    {
        Config {
            discord_token: bot.discord_token.clone(),
            openai_api_key: self.openai_api_key.clone(),
            database_path: self.database_path.clone(),
            log_level: self.log_level.clone(),
            discord_guild_id: bot.discord_guild_id.clone(),
            openai_model: bot.effective_model(self.openai_model.as_str()),
            conflict_mediation_enabled: bot.effective_conflict_enabled(
                self.conflict_mediation_enabled,
            ),
            conflict_sensitivity: bot.effective_conflict_sensitivity(
                self.conflict_sensitivity.as_str(),
            ),
            mediation_cooldown_minutes: bot.effective_mediation_cooldown(
                self.mediation_cooldown_minutes,
            ),
        }
    }

    /// Wrap a single-bot configuration, as read from the environment,
    /// into the multi-bot shape with one default bot.
    pub fn from_env_single_bot(legacy: Config) -> (r: MultiConfig)
        ensures
            r.bots@.len() == 1,
            r.bots@[0].application_id is None,
            r.bots@[0].name@ == "default"@,
            r.bots@[0].discord_token == legacy.discord_token,
            r.bots@[0].default_persona is None,
            r.bots@[0].discord_guild_id == legacy.discord_guild_id,
            r.bots@[0].openai_model is None,
            r.bots@[0].conflict_mediation_enabled is None,
            r.bots@[0].conflict_sensitivity is None,
            r.bots@[0].mediation_cooldown_minutes is None,
            r.bots@[0].commands is None,
            r.bots@[0].startup_notification_enabled == Some(true),
            r.openai_api_key == legacy.openai_api_key,
            r.database_path == legacy.database_path,
            r.log_level == legacy.log_level,
            r.openai_model == legacy.openai_model,
            r.conflict_mediation_enabled == legacy.conflict_mediation_enabled,
            r.conflict_sensitivity == legacy.conflict_sensitivity,
            r.mediation_cooldown_minutes == legacy.mediation_cooldown_minutes,
    {
        let bot = BotConfig {
            application_id: None,
            name: "default".to_owned(),
            discord_token: legacy.discord_token,
            default_persona: None,
            discord_guild_id: legacy.discord_guild_id,
            openai_model: None,
            conflict_mediation_enabled: None,
            conflict_sensitivity: None,
            mediation_cooldown_minutes: None,
            commands: None,
            startup_notification_enabled: Some(true),
        };
        let mut bots: Vec<BotConfig> = Vec::new();
        bots.push(bot);
        MultiConfig {
            bots,
            openai_api_key: legacy.openai_api_key,
            database_path: legacy.database_path,
            log_level: legacy.log_level,
            openai_model: legacy.openai_model,
            conflict_mediation_enabled: legacy.conflict_mediation_enabled,
            conflict_sensitivity: legacy.conflict_sensitivity,
            mediation_cooldown_minutes: legacy.mediation_cooldown_minutes,
        }
    }
}

} // verus!
